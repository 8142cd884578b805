//! The high-level client: the frame size that transfers are cut to, and the
//! transfers that take more than one request.
//!
//! A transfer is a state machine. It says which request comes next, takes
//! the response to it, and says when it is done. Whoever drives it sends the
//! requests.

use vstd::prelude::*;
use crate::commands::fs::CBOR_AND_OTHER_HDR;
use crate::commands::os::MCUmgrParametersResponse;
use crate::connection::{Connection, ExecuteError};

pub mod file_download;
pub mod file_upload;
pub mod firmware_update;
pub mod image_upload;

pub use file_download::{FileDownloadError, FileDownloadTransfer};
pub use file_upload::{FileUploadError, FileUploadTransfer};
pub use firmware_update::{
    FirmwareUpdate, FirmwareUpdateAction, FirmwareUpdateError, FirmwareUpdateEvent,
    FirmwareUpdateParams, FirmwareUpdateStage,
};
pub use image_upload::{
    image_upload_max_data_chunk_size, ImageUploadError, ImageUploadTransfer,
};

verus! {

/// The SMP frame size that a device is taken to have until it says otherwise.
pub const DEFAULT_SMP_FRAME_SIZE: usize = 256;

/// Receives the progress of a transfer.
pub trait TransferProgress {
    /// Called after every chunk with the bytes done and the bytes in all.
    /// Returns `false` to cancel the transfer.
    fn report(&mut self, current: u64, total: u64) -> bool;
}

/// A progress receiver that never cancels.
#[derive(Debug, Clone, Copy)]
pub struct NoProgress;

impl TransferProgress for NoProgress {
    fn report(&mut self, current: u64, total: u64) -> (go_on: bool)
        ensures
            go_on,
    {
        true
    }
}

/// A high level client for Zephyr's MCUmgr SMP functionality
pub struct MCUmgrClient {
    /// the connection to the device
    pub connection: Connection,
    /// the largest SMP frame that the device is sent
    pub smp_frame_size: usize,
}

impl MCUmgrClient {
    /// A client over `connection` with the default frame size.
    pub fn new(connection: Connection) -> (client: Self)
        ensures
            client.connection == connection,
            client.smp_frame_size == DEFAULT_SMP_FRAME_SIZE,
    {
        MCUmgrClient { connection, smp_frame_size: DEFAULT_SMP_FRAME_SIZE }
    }

    /// Configures the maximum SMP frame size that we can send to the device.
    ///
    /// Must not exceed [`MCUMGR_TRANSPORT_NETBUF_SIZE`](https://github.com/zephyrproject-rtos/zephyr/blob/v4.2.1/subsys/mgmt/mcumgr/transport/Kconfig#L40),
    /// otherwise we might crash the device.
    pub fn set_frame_size(&mut self, smp_frame_size: usize)
        ensures
            final(self).smp_frame_size == smp_frame_size,
            final(self).connection == old(self).connection,
    {
        self.smp_frame_size = smp_frame_size;
    }

    /// Starts the upload of `data` to the file `name` on the device, cut to
    /// the frame size of this client.
    ///
    /// Fails with `FrameSizeTooSmall` exactly when the frame size leaves no
    /// room for data.
    pub fn fs_file_upload<'a, 'b>(&self, name: &'b str, data: &'a [u8]) -> (r: Result<
        FileUploadTransfer<'a, 'b>,
        FileUploadError,
    >)
        ensures
            self.smp_frame_size <= CBOR_AND_OTHER_HDR <==> r is Err,
            r matches Err(e) ==> e == FileUploadError::FrameSizeTooSmall,
            r matches Ok(t) ==> t.name() == name && t.data() == data@ && t.offset() == 0
                && t.chunk_size_max() == self.smp_frame_size - CBOR_AND_OTHER_HDR && !t.answered(),
    {
        FileUploadTransfer::new(name, data, self.smp_frame_size)
    }

    /// Starts the download of the file `name` from the device.
    pub fn fs_file_download<'a>(&self, name: &'a str) -> (t: FileDownloadTransfer<'a>)
        ensures
            t.name() == name,
            t.received() == Seq::<u8>::empty(),
            t.total() is None,
    {
        FileDownloadTransfer::new(name)
    }

    /// Starts the upload of a firmware image, cut to the frame size of this
    /// client.
    ///
    /// # Arguments
    ///
    /// * `data` - The firmware image data
    /// * `image` - Selects target image on the device. Defaults to `0`.
    /// * `checksum` - The SHA256 checksum of the image. If missing, the device
    ///   cannot tell that it holds the image already.
    /// * `upgrade_only` - If true, the device refuses an image that is not
    ///   newer than the installed one.
    ///
    /// Fails with `FrameSizeTooSmall` exactly when the frame size leaves no
    /// room for data.
    pub fn image_upload<'a, 'b>(
        &self,
        data: &'a [u8],
        image: Option<u32>,
        checksum: Option<&'b [u8; 32]>,
        upgrade_only: bool,
    ) -> (r: Result<ImageUploadTransfer<'a, 'b>, ImageUploadError>)
        ensures
            self.smp_frame_size <= image_upload::IMAGE_UPLOAD_OVERHEAD <==> r is Err,
            r matches Err(e) ==> e == ImageUploadError::FrameSizeTooSmall,
            r matches Ok(t) ==> {
                &&& t.data() == data@
                &&& t.image() == image
                &&& t.checksum() == checksum
                &&& t.upgrade_only() == upgrade_only
                &&& t.offset() == 0
                &&& t.chunk_size_max() == self.smp_frame_size
                    - image_upload::IMAGE_UPLOAD_OVERHEAD
                &&& !t.answered()
                &&& !t.matched()
            },
    {
        ImageUploadTransfer::new(data, image, checksum, upgrade_only, self.smp_frame_size)
    }

    /// Starts a firmware update, with an upload cut to the frame size of
    /// this client.
    ///
    /// # Arguments
    ///
    /// * `firmware` - The firmware image data.
    /// * `checksum` - SHA256 of the firmware image. Optional.
    /// * `params` - Configurable parameters.
    pub fn firmware_update<'a>(
        &self,
        firmware: &'a [u8],
        checksum: Option<&'a [u8; 32]>,
        params: FirmwareUpdateParams,
    ) -> (update: FirmwareUpdate<'a>)
        ensures
            update.firmware() == firmware@,
            update.checksum() == checksum,
            update.params() == params,
            update.smp_frame_size() == self.smp_frame_size,
            update.stage() == if params.bootloader_type is Some {
                FirmwareUpdateStage::AnnounceQuery
            } else {
                FirmwareUpdateStage::AnnounceDetect
            },
    {
        FirmwareUpdate::new(firmware, checksum, params, self.smp_frame_size)
    }

    /// Configures the maximum SMP frame size from what the device answered
    /// to the MCUmgr parameters command.
    ///
    /// On an answer the frame size becomes the buffer size of the device.
    /// On an error it stays what it was, and the error is handed back.
    pub fn use_auto_frame_size(
        &mut self,
        mcumgr_params: Result<MCUmgrParametersResponse, ExecuteError>,
    ) -> (r: Result<(), ExecuteError>)
        ensures
            final(self).connection == old(self).connection,
            match mcumgr_params {
                Ok(params) => r == Ok::<(), ExecuteError>(()) && final(self).smp_frame_size
                    == params.buf_size,
                Err(e) => r == Err::<(), ExecuteError>(e) && final(self).smp_frame_size == old(self).smp_frame_size,
            },
    {
        match mcumgr_params {
            Ok(params) => {
                self.smp_frame_size = params.buf_size as usize;
                Ok(())
            },
            Err(e) => Err(e),
        }
    }
}

} // verus!
