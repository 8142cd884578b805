//! The firmware update: a fixed course of steps, each of which reports to
//! the progress callback and then asks the device for one thing.
//!
//! The update is a state machine. [`FirmwareUpdate::next_action`] says what
//! is to be done in the stage the update is in; the outcome goes back into
//! [`FirmwareUpdate::handle_event`], which moves the update to its next
//! stage or ends it.

use vstd::prelude::*;
use vstd::string::StringExecFns;
use crate::bootloader::{mcuboot_name, BootloaderInfo, BootloaderType};
use crate::client::image_upload::{ImageUploadError, ImageUploadTransfer, IMAGE_UPLOAD_OVERHEAD};
use crate::commands::image::{ImageStateEntry, ImageUpload, ImageUploadResponse};
use crate::connection::ExecuteError;
use crate::mcuboot::image::{get_image_info, image_info, ImageParseError, ImageVersion};
use crate::text::{hex, push_hex};

verus! {

/// How many bytes of a hash the progress messages show.
pub const SHOWN_HASH_DIGITS: usize = 4;

/// Possible error values of a firmware update.
#[derive(Debug, PartialEq, Eq)]
pub enum FirmwareUpdateError {
    /// The progress callback returned an error.
    ProgressCallbackError,
    /// An error occurred while trying to detect the bootloader.
    BootloaderDetectionFailed(ExecuteError),
    /// The device contains a bootloader that is not supported.
    BootloaderNotSupported(String),
    /// Failed to parse the firmware image as MCUboot firmware.
    InvalidMcuBootFirmwareImage(ImageParseError),
    /// Fetching the image state returned an error.
    GetStateFailed(ExecuteError),
    /// Uploading the firmware image returned an error.
    ImageUploadFailed(ImageUploadError),
    /// Writing the new image state to the device failed
    SetStateFailed(ExecuteError),
    /// Performing device reset failed
    RebootFailed(ExecuteError),
    /// The given firmware is already installed on the device
    AlreadyInstalled,
}

impl FirmwareUpdateError {
    /// The error in words.
    pub open spec fn text(self) -> Seq<char> {
        match self {
            FirmwareUpdateError::ProgressCallbackError => "Progress callback returned an error"@,
            FirmwareUpdateError::BootloaderDetectionFailed(_) => "Failed to detect bootloader"@,
            FirmwareUpdateError::BootloaderNotSupported(name) => "Bootloader '"@ + name@
                + "' not supported"@,
            FirmwareUpdateError::InvalidMcuBootFirmwareImage(_) => "Firmware is not a valid MCUboot image"@,
            FirmwareUpdateError::GetStateFailed(_) => "Failed to fetch image state from device"@,
            FirmwareUpdateError::ImageUploadFailed(_) => "Failed to upload firmware image to device"@,
            FirmwareUpdateError::SetStateFailed(_) => "Failed to activate new firmware image"@,
            FirmwareUpdateError::RebootFailed(_) => "Failed to trigger device reboot"@,
            FirmwareUpdateError::AlreadyInstalled => "The device is already running the given firmware"@,
        }
    }

    /// The identifier of the error.
    pub fn code(&self) -> (s: &'static str)
        ensures
            s@ == match *self {
                FirmwareUpdateError::ProgressCallbackError => "zephyr_mcumgr::firmware_update::progress_cb_error"@,
                FirmwareUpdateError::BootloaderDetectionFailed(_) => "zephyr_mcumgr::firmware_update::detect_bootloader"@,
                FirmwareUpdateError::BootloaderNotSupported(_) => "zephyr_mcumgr::firmware_update::unknown_bootloader"@,
                FirmwareUpdateError::InvalidMcuBootFirmwareImage(_) => "zephyr_mcumgr::firmware_update::mcuboot_image"@,
                FirmwareUpdateError::GetStateFailed(_) => "zephyr_mcumgr::firmware_update::get_image_state"@,
                FirmwareUpdateError::ImageUploadFailed(_) => "zephyr_mcumgr::firmware_update::image_upload"@,
                FirmwareUpdateError::SetStateFailed(_) => "zephyr_mcumgr::firmware_update::set_image_state"@,
                FirmwareUpdateError::RebootFailed(_) => "zephyr_mcumgr::firmware_update::reboot"@,
                FirmwareUpdateError::AlreadyInstalled => "zephyr_mcumgr::firmware_update::already_installed"@,
            },
    {
        match self {
            FirmwareUpdateError::ProgressCallbackError => "zephyr_mcumgr::firmware_update::progress_cb_error",
            FirmwareUpdateError::BootloaderDetectionFailed(_) => "zephyr_mcumgr::firmware_update::detect_bootloader",
            FirmwareUpdateError::BootloaderNotSupported(_) => "zephyr_mcumgr::firmware_update::unknown_bootloader",
            FirmwareUpdateError::InvalidMcuBootFirmwareImage(_) => "zephyr_mcumgr::firmware_update::mcuboot_image",
            FirmwareUpdateError::GetStateFailed(_) => "zephyr_mcumgr::firmware_update::get_image_state",
            FirmwareUpdateError::ImageUploadFailed(_) => "zephyr_mcumgr::firmware_update::image_upload",
            FirmwareUpdateError::SetStateFailed(_) => "zephyr_mcumgr::firmware_update::set_image_state",
            FirmwareUpdateError::RebootFailed(_) => "zephyr_mcumgr::firmware_update::reboot",
            FirmwareUpdateError::AlreadyInstalled => "zephyr_mcumgr::firmware_update::already_installed",
        }
    }

    /// The error in words.
    pub fn message(&self) -> (s: String)
        ensures
            s@ == self.text(),
    {
        match self {
            FirmwareUpdateError::ProgressCallbackError => String::from_str(
                "Progress callback returned an error",
            ),
            FirmwareUpdateError::BootloaderDetectionFailed(_) => String::from_str(
                "Failed to detect bootloader",
            ),
            FirmwareUpdateError::BootloaderNotSupported(name) => {
                let mut s = String::from_str("Bootloader '");
                s.append(name.as_str());
                s.append("' not supported");
                s
            },
            FirmwareUpdateError::InvalidMcuBootFirmwareImage(_) => String::from_str(
                "Firmware is not a valid MCUboot image",
            ),
            FirmwareUpdateError::GetStateFailed(_) => String::from_str(
                "Failed to fetch image state from device",
            ),
            FirmwareUpdateError::ImageUploadFailed(_) => String::from_str(
                "Failed to upload firmware image to device",
            ),
            FirmwareUpdateError::SetStateFailed(_) => String::from_str(
                "Failed to activate new firmware image",
            ),
            FirmwareUpdateError::RebootFailed(_) => String::from_str(
                "Failed to trigger device reboot",
            ),
            FirmwareUpdateError::AlreadyInstalled => String::from_str(
                "The device is already running the given firmware",
            ),
        }
    }
}

/// Configurable parameters for a firmware update.
#[derive(Debug, Clone, Copy, PartialEq, Eq, Structural)]
pub struct FirmwareUpdateParams {
    /// The bootloader type.
    ///
    /// Auto-detect bootloader if `None`.
    pub bootloader_type: Option<BootloaderType>,
    /// Do not reboot device after the update
    pub skip_reboot: bool,
    /// Skip test boot and confirm directly
    pub force_confirm: bool,
    /// Prevent firmware downgrades
    pub upgrade_only: bool,
}

impl Default for FirmwareUpdateParams {
    fn default() -> (params: Self)
        ensures
            params == (FirmwareUpdateParams {
                bootloader_type: None,
                skip_reboot: false,
                force_confirm: false,
                upgrade_only: false,
            }),
    {
        FirmwareUpdateParams {
            bootloader_type: None,
            skip_reboot: false,
            force_confirm: false,
            upgrade_only: false,
        }
    }
}

/// The stages of a firmware update, in the order they are passed.
///
/// A stage whose name starts with `Announce` waits for the progress callback
/// to take a message. Every other stage but the last waits for the device.
#[derive(Debug, Clone, Copy, PartialEq, Eq, Structural)]
pub enum FirmwareUpdateStage {
    /// Says that the bootloader is being detected.
    AnnounceDetect,
    /// Asks the device for its bootloader.
    DetectBootloader,
    /// Says which bootloader was found.
    AnnounceFound,
    /// Says that the state of the device is being queried.
    AnnounceQuery,
    /// Asks the device for the state of its image slots.
    QueryState,
    /// Says that the firmware image is being parsed. The image is parsed once
    /// the message is taken.
    AnnounceParse,
    /// Says which version is replaced by which. The active image is held
    /// against the new one once the message is taken.
    AnnounceUpdate,
    /// Says that the upload begins.
    AnnounceUpload,
    /// Sends the next chunk of the image.
    Upload,
    /// Says how far the upload has come.
    AnnounceChunk,
    /// Says that the new firmware is being activated.
    AnnounceActivate,
    /// Tells the device to boot the new image.
    Activate,
    /// Says that the state of the device is queried once more, after the
    /// device answered that it cannot set the image state.
    AnnounceRecovery,
    /// Asks the device for the state of its image slots once more.
    RecoveryQuery,
    /// Says that the device is being rebooted.
    AnnounceReboot,
    /// Tells the device to reset.
    Reboot,
    /// The update has ended, well or badly.
    Finished,
}

impl FirmwareUpdateStage {
    /// The stage waits for the progress callback to take a message.
    pub open spec fn announces(self) -> bool {
        ||| self is AnnounceDetect
        ||| self is AnnounceFound
        ||| self is AnnounceQuery
        ||| self is AnnounceParse
        ||| self is AnnounceUpdate
        ||| self is AnnounceUpload
        ||| self is AnnounceChunk
        ||| self is AnnounceActivate
        ||| self is AnnounceRecovery
        ||| self is AnnounceReboot
    }
}

/// What is to be done for the update to go on.
#[derive(Debug)]
pub enum FirmwareUpdateAction<'a> {
    /// Call the progress callback, and hand what it returns to the update
    /// as [`FirmwareUpdateEvent::Reported`]. An update without a callback
    /// hands in `true`.
    Report {
        /// Human readable description of the current step
        message: String,
        /// The (current, total) progress of the current step, if available.
        progress: Option<(u64, u64)>,
    },
    /// Query the bootloader of the device.
    QueryBootloader,
    /// Query the state of the image slots.
    GetImageState,
    /// Send one chunk of the image.
    UploadChunk(ImageUpload<'a, 'a>),
    /// Set the state of the image with this hash.
    SetImageState {
        /// the identity hash of the image
        hash: [u8; 32],
        /// confirm at once, without a test boot
        confirm: bool,
    },
    /// Reset the device.
    SystemReset {
        /// reset even if the device is busy
        force: bool,
        /// the boot mode to reset into
        boot_mode: Option<u32>,
    },
    /// Nothing: the update has ended.
    Finished,
}

/// What came of an action.
#[derive(Debug)]
pub enum FirmwareUpdateEvent {
    /// The progress callback returned; `false` cancels the update.
    Reported(bool),
    /// The device answered the bootloader query.
    BootloaderQueried(Result<BootloaderInfo, ExecuteError>),
    /// The device answered the query for its image slots.
    ImageStateQueried(Result<Vec<ImageStateEntry>, ExecuteError>),
    /// The device answered a chunk of the image.
    ChunkUploaded(Result<ImageUploadResponse, ExecuteError>),
    /// The device answered the request to set the image state.
    ImageStateSet(Result<(), ExecuteError>),
    /// The device answered the reset request.
    ResetDone(Result<(), ExecuteError>),
}

/// Index of the first entry of image 0, slot 0, at or behind `from`; the
/// number of entries if there is none.
pub open spec fn first_active(images: Seq<ImageStateEntry>, from: int) -> int
    decreases images.len() - from,
{
    if from < 0 || from >= images.len() {
        images.len() as int
    } else if images[from].image == 0 && images[from].slot == 0 {
        from
    } else {
        first_active(images, from + 1)
    }
}

/// The hash of the active image: that of the first entry of image 0, slot 0.
pub open spec fn active_hash_of(images: Seq<ImageStateEntry>) -> Option<Seq<u8>> {
    let i = first_active(images, 0);
    if i < images.len() {
        match images[i].hash {
            Some(h) => Some(h@),
            None => None,
        }
    } else {
        None
    }
}

/// How the progress message names the active image: its version and the
/// first bytes of its hash, its version alone where it has no hash, and
/// `Empty` where there is no active image.
pub open spec fn active_text_of(images: Seq<ImageStateEntry>) -> Seq<char> {
    let i = first_active(images, 0);
    if i < images.len() {
        match images[i].hash {
            Some(h) => images[i].version@ + "-"@ + hex(h@.take(SHOWN_HASH_DIGITS as int)),
            None => images[i].version@,
        }
    } else {
        "Empty"@
    }
}

/// How the progress message names the new image: its version and the first
/// bytes of its identity hash.
pub open spec fn new_image_text(version: ImageVersion, hash: Seq<u8>) -> Seq<char> {
    version.text() + "-"@ + hex(hash.take(SHOWN_HASH_DIGITS as int))
}

/// The entry is one of image 0, slot 0 and has the hash `hash`.
pub open spec fn is_active_with(entry: ImageStateEntry, hash: Seq<u8>) -> bool {
    entry.image == 0 && entry.slot == 0 && match entry.hash {
        Some(h) => h@ == hash,
        None => false,
    }
}

/// Some entry of image 0, slot 0 has the hash `hash`.
pub open spec fn holds_active(images: Seq<ImageStateEntry>, hash: Seq<u8>) -> bool {
    exists|i: int| 0 <= i < images.len() && is_active_with(#[trigger] images[i], hash)
}

/// Whether two hashes are the same.
pub fn hash_eq(a: &[u8; 32], b: &[u8; 32]) -> (r: bool)
    ensures
        r == (a@ == b@),
{
    let mut i: usize = 0;
    while i < 32
        invariant
            i <= 32,
            forall|j: int| 0 <= j < i ==> a@[j] == b@[j],
        decreases 32 - i,
    {
        if a[i] != b[i] {
            return false;
        }
        i += 1;
    }
    assert(a@ =~= b@);
    true
}

/// A firmware update under way.
pub struct FirmwareUpdate<'a> {
    firmware: &'a [u8],
    checksum: Option<&'a [u8; 32]>,
    params: FirmwareUpdateParams,
    smp_frame_size: usize,
    stage: FirmwareUpdateStage,
    active_text: String,
    active_hash: Option<[u8; 32]>,
    update_text: String,
    id_hash: [u8; 32],
    upload: Option<ImageUploadTransfer<'a, 'a>>,
    set_state_error: Option<ExecuteError>,
}

impl<'a> FirmwareUpdate<'a> {
    #[verifier::type_invariant]
    spec fn inv(self) -> bool {
        (self.stage == FirmwareUpdateStage::Upload || self.stage
            == FirmwareUpdateStage::AnnounceChunk) ==> {
            &&& self.smp_frame_size > IMAGE_UPLOAD_OVERHEAD
            &&& self.upload matches Some(t)
            &&& t.data() == self.firmware@
            &&& t.image() is None
            &&& t.checksum() == self.checksum
            &&& t.upgrade_only() == self.params.upgrade_only
            &&& t.chunk_size_max() == self.smp_frame_size - IMAGE_UPLOAD_OVERHEAD
            &&& self.stage == FirmwareUpdateStage::Upload ==> !t.done()
        }
    }

    /// The firmware image.
    pub closed spec fn firmware(self) -> Seq<u8> {
        self.firmware@
    }

    /// The SHA-256 of the whole image file, if known.
    pub closed spec fn checksum(self) -> Option<&'a [u8; 32]> {
        self.checksum
    }

    /// The parameters of the update.
    pub closed spec fn params(self) -> FirmwareUpdateParams {
        self.params
    }

    /// The SMP frame size that the upload is cut to.
    pub closed spec fn smp_frame_size(self) -> int {
        self.smp_frame_size as int
    }

    /// The stage the update is in.
    pub closed spec fn stage(self) -> FirmwareUpdateStage {
        self.stage
    }

    /// How the active image of the device is named in messages.
    pub closed spec fn active_text(self) -> Seq<char> {
        self.active_text@
    }

    /// The hash of the active image of the device.
    pub closed spec fn active_hash(self) -> Option<Seq<u8>> {
        match self.active_hash {
            Some(h) => Some(h@),
            None => None,
        }
    }

    /// The message of the `AnnounceUpdate` stage.
    pub closed spec fn update_text(self) -> Seq<char> {
        self.update_text@
    }

    /// The identity hash of the firmware image.
    pub closed spec fn id_hash(self) -> Seq<u8> {
        self.id_hash@
    }

    /// The offset that the upload has reached.
    pub closed spec fn upload_offset(self) -> u64 {
        match self.upload {
            Some(t) => t.offset(),
            None => 0,
        }
    }

    /// Whether the device has answered a chunk by saying that it holds the
    /// image already.
    pub closed spec fn upload_matched(self) -> bool {
        self.upload matches Some(t) && t.matched()
    }

    /// Whether the upload has nothing left to send.
    pub closed spec fn upload_done(self) -> bool {
        self.upload matches Some(t) && t.done()
    }

    /// The error with which the device refused to set the image state.
    pub closed spec fn set_state_error(self) -> Option<ExecuteError> {
        self.set_state_error
    }

    /// The stage behind the activation: the reboot, or the end where the
    /// reboot is skipped.
    pub open spec fn stage_after_activation(self) -> FirmwareUpdateStage {
        if self.params().skip_reboot {
            FirmwareUpdateStage::Finished
        } else {
            FirmwareUpdateStage::AnnounceReboot
        }
    }

    /// The stage that follows on an event, or the error that ends the update.
    ///
    /// An event that the stage does not wait for changes nothing.
    pub open spec fn step(self, event: FirmwareUpdateEvent) -> Result<
        FirmwareUpdateStage,
        FirmwareUpdateError,
    > {
        match (self.stage(), event) {
            (stage, FirmwareUpdateEvent::Reported(false)) => if stage.announces() {
                Err(FirmwareUpdateError::ProgressCallbackError)
            } else {
                Ok(stage)
            },
            (FirmwareUpdateStage::AnnounceDetect, FirmwareUpdateEvent::Reported(true)) => Ok(
                FirmwareUpdateStage::DetectBootloader,
            ),
            (
                FirmwareUpdateStage::DetectBootloader,
                FirmwareUpdateEvent::BootloaderQueried(Err(e)),
            ) => Err(FirmwareUpdateError::BootloaderDetectionFailed(e)),
            (
                FirmwareUpdateStage::DetectBootloader,
                FirmwareUpdateEvent::BootloaderQueried(Ok(BootloaderInfo::Other { name })),
            ) => Err(FirmwareUpdateError::BootloaderNotSupported(name)),
            (
                FirmwareUpdateStage::DetectBootloader,
                FirmwareUpdateEvent::BootloaderQueried(Ok(BootloaderInfo::MCUboot { .. })),
            ) => Ok(FirmwareUpdateStage::AnnounceFound),
            (FirmwareUpdateStage::AnnounceFound, FirmwareUpdateEvent::Reported(true)) => Ok(
                FirmwareUpdateStage::AnnounceQuery,
            ),
            (FirmwareUpdateStage::AnnounceQuery, FirmwareUpdateEvent::Reported(true)) => Ok(
                FirmwareUpdateStage::QueryState,
            ),
            (FirmwareUpdateStage::QueryState, FirmwareUpdateEvent::ImageStateQueried(Err(e))) => Err(
                FirmwareUpdateError::GetStateFailed(e),
            ),
            (FirmwareUpdateStage::QueryState, FirmwareUpdateEvent::ImageStateQueried(Ok(_))) => Ok(
                FirmwareUpdateStage::AnnounceParse,
            ),
            (FirmwareUpdateStage::AnnounceParse, FirmwareUpdateEvent::Reported(true)) => match image_info(
                self.firmware(),
            ) {
                Ok(_) => Ok(FirmwareUpdateStage::AnnounceUpdate),
                Err(e) => Err(FirmwareUpdateError::InvalidMcuBootFirmwareImage(e)),
            },
            (FirmwareUpdateStage::AnnounceUpdate, FirmwareUpdateEvent::Reported(true)) => if self.active_hash()
                == Some(self.id_hash()) {
                Err(FirmwareUpdateError::AlreadyInstalled)
            } else {
                Ok(FirmwareUpdateStage::AnnounceUpload)
            },
            (FirmwareUpdateStage::AnnounceUpload, FirmwareUpdateEvent::Reported(true)) => if self.smp_frame_size()
                <= IMAGE_UPLOAD_OVERHEAD {
                Err(FirmwareUpdateError::ImageUploadFailed(ImageUploadError::FrameSizeTooSmall))
            } else {
                Ok(FirmwareUpdateStage::Upload)
            },
            (FirmwareUpdateStage::Upload, FirmwareUpdateEvent::ChunkUploaded(Err(e))) => Err(
                FirmwareUpdateError::ImageUploadFailed(ImageUploadError::ExecuteError(e)),
            ),
            (FirmwareUpdateStage::Upload, FirmwareUpdateEvent::ChunkUploaded(Ok(_))) => Ok(
                FirmwareUpdateStage::AnnounceChunk,
            ),
            (FirmwareUpdateStage::AnnounceChunk, FirmwareUpdateEvent::Reported(true)) => if self.upload_done() {
                Ok(FirmwareUpdateStage::AnnounceActivate)
            } else {
                Ok(FirmwareUpdateStage::Upload)
            },
            (FirmwareUpdateStage::AnnounceActivate, FirmwareUpdateEvent::Reported(true)) => Ok(
                FirmwareUpdateStage::Activate,
            ),
            (FirmwareUpdateStage::Activate, FirmwareUpdateEvent::ImageStateSet(Ok(_))) => Ok(
                self.stage_after_activation(),
            ),
            (FirmwareUpdateStage::Activate, FirmwareUpdateEvent::ImageStateSet(Err(e))) => if e.is_command_not_supported() {
                Ok(FirmwareUpdateStage::AnnounceRecovery)
            } else {
                Err(FirmwareUpdateError::SetStateFailed(e))
            },
            (FirmwareUpdateStage::AnnounceRecovery, FirmwareUpdateEvent::Reported(true)) => Ok(
                FirmwareUpdateStage::RecoveryQuery,
            ),
            (
                FirmwareUpdateStage::RecoveryQuery,
                FirmwareUpdateEvent::ImageStateQueried(Err(e)),
            ) => Err(FirmwareUpdateError::GetStateFailed(e)),
            (
                FirmwareUpdateStage::RecoveryQuery,
                FirmwareUpdateEvent::ImageStateQueried(Ok(images)),
            ) => if holds_active(images@, self.id_hash()) {
                Ok(self.stage_after_activation())
            } else {
                match self.set_state_error() {
                    Some(e) => Err(FirmwareUpdateError::SetStateFailed(e)),
                    None => Ok(self.stage()),
                }
            },
            (FirmwareUpdateStage::AnnounceReboot, FirmwareUpdateEvent::Reported(true)) => Ok(
                FirmwareUpdateStage::Reboot,
            ),
            (FirmwareUpdateStage::Reboot, FirmwareUpdateEvent::ResetDone(Ok(_))) => Ok(
                FirmwareUpdateStage::Finished,
            ),
            (FirmwareUpdateStage::Reboot, FirmwareUpdateEvent::ResetDone(Err(e))) => Err(
                FirmwareUpdateError::RebootFailed(e),
            ),
            (stage, _) => Ok(stage),
        }
    }

    /// An update of the device to `firmware`.
    ///
    /// `checksum` is the SHA-256 of the whole image file, if known. The
    /// update starts with the detection of the bootloader, or with the query
    /// of the device state where `params` names the bootloader.
    pub fn new(
        firmware: &'a [u8],
        checksum: Option<&'a [u8; 32]>,
        params: FirmwareUpdateParams,
        smp_frame_size: usize,
    ) -> (update: Self)
        ensures
            update.firmware() == firmware@,
            update.checksum() == checksum,
            update.params() == params,
            update.smp_frame_size() == smp_frame_size,
            update.stage() == if params.bootloader_type is Some {
                FirmwareUpdateStage::AnnounceQuery
            } else {
                FirmwareUpdateStage::AnnounceDetect
            },
    {
        FirmwareUpdate {
            firmware,
            checksum,
            params,
            smp_frame_size,
            stage: if params.bootloader_type.is_some() {
                FirmwareUpdateStage::AnnounceQuery
            } else {
                FirmwareUpdateStage::AnnounceDetect
            },
            active_text: String::new(),
            active_hash: None,
            update_text: String::new(),
            id_hash: [0u8; 32],
            upload: None,
            set_state_error: None,
        }
    }

    /// The stage the update is in.
    pub fn current_stage(&self) -> (stage: FirmwareUpdateStage)
        ensures
            stage == self.stage(),
    {
        self.stage
    }

    /// Whether the update has ended.
    pub fn is_finished(&self) -> (finished: bool)
        ensures
            finished == (self.stage() == FirmwareUpdateStage::Finished),
    {
        match self.stage {
            FirmwareUpdateStage::Finished => true,
            _ => false,
        }
    }

    /// What is to be done in the stage the update is in.
    pub fn next_action(&self) -> (action: FirmwareUpdateAction<'_>)
        ensures
            match self.stage() {
                FirmwareUpdateStage::AnnounceDetect => action matches FirmwareUpdateAction::Report {
                    message,
                    progress,
                } && message@ == "Detecting bootloader ..."@ && progress is None,
                FirmwareUpdateStage::DetectBootloader => action is QueryBootloader,
                FirmwareUpdateStage::AnnounceFound => action matches FirmwareUpdateAction::Report {
                    message,
                    progress,
                } && message@ == "Found bootloader: "@ + mcuboot_name() && progress is None,
                FirmwareUpdateStage::AnnounceQuery | FirmwareUpdateStage::AnnounceRecovery => action matches FirmwareUpdateAction::Report {
                    message,
                    progress,
                } && message@ == "Querying device state ..."@ && progress is None,
                FirmwareUpdateStage::QueryState | FirmwareUpdateStage::RecoveryQuery => action is GetImageState,
                FirmwareUpdateStage::AnnounceParse => action matches FirmwareUpdateAction::Report {
                    message,
                    progress,
                } && message@ == "Parsing firmware image ..."@ && progress is None,
                FirmwareUpdateStage::AnnounceUpdate => action matches FirmwareUpdateAction::Report {
                    message,
                    progress,
                } && message@ == self.update_text() && progress is None,
                FirmwareUpdateStage::AnnounceUpload => action matches FirmwareUpdateAction::Report {
                    message,
                    progress,
                } && message@ == "Uploading new firmware ..."@ && progress is None,
                FirmwareUpdateStage::Upload => action matches FirmwareUpdateAction::UploadChunk(
                    request,
                ) && {
                    &&& request.image is None
                    &&& request.off == self.upload_offset()
                    &&& request.off < self.firmware().len() ==> request.data@.len() > 0
                        && request.data@ == self.firmware().subrange(
                        request.off as int,
                        request.off + request.data@.len(),
                    )
                    &&& request.off >= self.firmware().len() ==> request.data@.len() == 0
                    &&& request.data@.len() <= self.smp_frame_size() - IMAGE_UPLOAD_OVERHEAD
                    &&& request.off + request.data@.len() < self.firmware().len()
                        ==> request.data@.len() == self.smp_frame_size() - IMAGE_UPLOAD_OVERHEAD
                    &&& request.len == if request.off == 0 {
                        Some(self.firmware().len() as u64)
                    } else {
                        None
                    }
                    &&& request.sha == if request.off == 0 {
                        self.checksum()
                    } else {
                        None
                    }
                    &&& request.upgrade == if request.off == 0 && self.params().upgrade_only {
                        Some(true)
                    } else {
                        None
                    }
                },
                FirmwareUpdateStage::AnnounceChunk => action matches FirmwareUpdateAction::Report {
                    message,
                    progress,
                } && message@ == "Uploading new firmware ..."@ && progress == Some(
                    (self.upload_offset(), self.firmware().len() as u64),
                ),
                FirmwareUpdateStage::AnnounceActivate => action matches FirmwareUpdateAction::Report {
                    message,
                    progress,
                } && message@ == "Activating new firmware ..."@ && progress is None,
                FirmwareUpdateStage::Activate => action matches FirmwareUpdateAction::SetImageState {
                    hash,
                    confirm,
                } && hash@ == self.id_hash() && confirm == self.params().force_confirm,
                FirmwareUpdateStage::AnnounceReboot => action matches FirmwareUpdateAction::Report {
                    message,
                    progress,
                } && message@ == "Triggering device reboot ..."@ && progress is None,
                FirmwareUpdateStage::Reboot => action matches FirmwareUpdateAction::SystemReset {
                    force,
                    boot_mode,
                } && !force && boot_mode is None,
                FirmwareUpdateStage::Finished => action is Finished,
            },
    {
        proof {
            use_type_invariant(self);
        }
        match self.stage {
            FirmwareUpdateStage::AnnounceDetect => FirmwareUpdateAction::Report {
                message: String::from_str("Detecting bootloader ..."),
                progress: None,
            },
            FirmwareUpdateStage::DetectBootloader => FirmwareUpdateAction::QueryBootloader,
            FirmwareUpdateStage::AnnounceFound => {
                let mut message = String::from_str("Found bootloader: ");
                message.append(BootloaderType::McuBoot.as_str());
                FirmwareUpdateAction::Report { message, progress: None }
            },
            FirmwareUpdateStage::AnnounceQuery | FirmwareUpdateStage::AnnounceRecovery => FirmwareUpdateAction::Report {
                message: String::from_str("Querying device state ..."),
                progress: None,
            },
            FirmwareUpdateStage::QueryState | FirmwareUpdateStage::RecoveryQuery => FirmwareUpdateAction::GetImageState,
            FirmwareUpdateStage::AnnounceParse => FirmwareUpdateAction::Report {
                message: String::from_str("Parsing firmware image ..."),
                progress: None,
            },
            FirmwareUpdateStage::AnnounceUpdate => FirmwareUpdateAction::Report {
                message: self.update_text.clone(),
                progress: None,
            },
            FirmwareUpdateStage::AnnounceUpload => FirmwareUpdateAction::Report {
                message: String::from_str("Uploading new firmware ..."),
                progress: None,
            },
            FirmwareUpdateStage::Upload => {
                match &self.upload {
                    Some(transfer) => match transfer.next_request() {
                        Some(request) => FirmwareUpdateAction::UploadChunk(request),
                        None => FirmwareUpdateAction::Finished,
                    },
                    None => FirmwareUpdateAction::Finished,
                }
            },
            FirmwareUpdateStage::AnnounceChunk => {
                let current: u64 = match &self.upload {
                    Some(transfer) => transfer.current_offset(),
                    None => 0,
                };
                FirmwareUpdateAction::Report {
                    message: String::from_str("Uploading new firmware ..."),
                    progress: Some((current, self.firmware.len() as u64)),
                }
            },
            FirmwareUpdateStage::AnnounceActivate => FirmwareUpdateAction::Report {
                message: String::from_str("Activating new firmware ..."),
                progress: None,
            },
            FirmwareUpdateStage::Activate => FirmwareUpdateAction::SetImageState {
                hash: self.id_hash,
                confirm: self.params.force_confirm,
            },
            FirmwareUpdateStage::AnnounceReboot => FirmwareUpdateAction::Report {
                message: String::from_str("Triggering device reboot ..."),
                progress: None,
            },
            FirmwareUpdateStage::Reboot => FirmwareUpdateAction::SystemReset {
                force: false,
                boot_mode: None,
            },
            FirmwareUpdateStage::Finished => FirmwareUpdateAction::Finished,
        }
    }

    /// Takes the state of the image slots: remembers the hash of the active
    /// image and how messages name it.
    fn note_active_image(&mut self, images: &Vec<ImageStateEntry>)
        requires
            old(self).stage() != FirmwareUpdateStage::Upload,
            old(self).stage() != FirmwareUpdateStage::AnnounceChunk,
        ensures
            final(self).active_hash() == active_hash_of(images@),
            final(self).active_text() == active_text_of(images@),
            final(self).firmware() == old(self).firmware(),
            final(self).checksum() == old(self).checksum(),
            final(self).params() == old(self).params(),
            final(self).smp_frame_size() == old(self).smp_frame_size(),
            final(self).stage() == old(self).stage(),
            final(self).id_hash() == old(self).id_hash(),
            final(self).update_text() == old(self).update_text(),
            final(self).set_state_error() == old(self).set_state_error(),
            final(self).upload_offset() == old(self).upload_offset(),
            final(self).upload_done() == old(self).upload_done(),
            final(self).upload_matched() == old(self).upload_matched(),
    {
        let mut i: usize = 0;
        while i < images.len() && !(images[i].image == 0 && images[i].slot == 0)
            invariant
                i <= images@.len(),
                first_active(images@, 0) == first_active(images@, i as int),
            decreases images.len() - i,
        {
            i += 1;
        }
        if i < images.len() {
            let entry = &images[i];
            let mut text = entry.version.clone();
            match &entry.hash {
                Some(h) => {
                    text.append("-");
                    let shown: &[u8] = &h.as_slice()[0..SHOWN_HASH_DIGITS];
                    assert(shown@ =~= h@.take(SHOWN_HASH_DIGITS as int));
                    push_hex(&mut text, shown);
                    self.active_hash = Some(*h);
                },
                None => {
                    self.active_hash = None;
                },
            }
            self.active_text = text;
        } else {
            self.active_hash = None;
            self.active_text = String::from_str("Empty");
        }
    }

    /// Whether some entry of image 0, slot 0 has the identity hash of the
    /// firmware.
    fn image_is_active(&self, images: &Vec<ImageStateEntry>) -> (r: bool)
        ensures
            r == holds_active(images@, self.id_hash()),
    {
        let mut i: usize = 0;
        while i < images.len()
            invariant
                i <= images@.len(),
                forall|j: int| 0 <= j < i ==> !is_active_with(#[trigger] images@[j], self.id_hash()),
            decreases images.len() - i,
        {
            let entry = &images[i];
            if entry.image == 0 && entry.slot == 0 {
                if let Some(h) = &entry.hash {
                    if hash_eq(h, &self.id_hash) {
                        return true;
                    }
                }
            }
            i += 1;
        }
        false
    }

    /// Takes what came of the last action.
    ///
    /// `Ok(true)`: the update has ended well. `Ok(false)`: the update goes
    /// on with [`FirmwareUpdate::next_action`]. An error: the update has
    /// ended with it. The stage that follows, and the error, are those of
    /// [`FirmwareUpdate::step`]; an update that has ended stays ended.
    ///
    /// The answer to a chunk moves the upload to the offset that the device
    /// answered with. The upload has nothing left to send once an answer has
    /// said that the device holds the image, or the offset has reached the
    /// end of the firmware.
    #[verifier::rlimit(60)]
    pub fn handle_event(&mut self, event: FirmwareUpdateEvent) -> (r: Result<
        bool,
        FirmwareUpdateError,
    >)
        ensures
            final(self).firmware() == old(self).firmware(),
            final(self).checksum() == old(self).checksum(),
            final(self).params() == old(self).params(),
            final(self).smp_frame_size() == old(self).smp_frame_size(),
            match r {
                Ok(finished) => old(self).step(event) == Ok::<
                    FirmwareUpdateStage,
                    FirmwareUpdateError,
                >(final(self).stage()) && finished == (final(self).stage()
                    == FirmwareUpdateStage::Finished),
                Err(e) => old(self).step(event) == Err::<
                    FirmwareUpdateStage,
                    FirmwareUpdateError,
                >(e) && final(self).stage() == FirmwareUpdateStage::Finished,
            },
            old(self).stage() == FirmwareUpdateStage::QueryState ==> (
            event matches FirmwareUpdateEvent::ImageStateQueried(Ok(images)) ==> {
                &&& final(self).active_hash() == active_hash_of(images@)
                &&& final(self).active_text() == active_text_of(images@)
            }),
            old(self).stage() != FirmwareUpdateStage::QueryState ==> {
                &&& final(self).active_hash() == old(self).active_hash()
                &&& final(self).active_text() == old(self).active_text()
            },
            old(self).stage() == FirmwareUpdateStage::AnnounceParse ==> (
            event matches FirmwareUpdateEvent::Reported(true) ==> (image_info(
                old(self).firmware(),
            ) matches Ok((version, hash)) ==> {
                &&& final(self).id_hash() == hash
                &&& final(self).update_text() == "Update: "@ + old(self).active_text() + " -> "@
                    + new_image_text(version, hash)
            })),
            old(self).stage() != FirmwareUpdateStage::AnnounceParse ==> {
                &&& final(self).id_hash() == old(self).id_hash()
                &&& final(self).update_text() == old(self).update_text()
            },
            old(self).stage() == FirmwareUpdateStage::AnnounceUpload ==> (
            event matches FirmwareUpdateEvent::Reported(true) ==> (r is Ok ==> {
                &&& final(self).upload_offset() == 0
                &&& !final(self).upload_matched()
                &&& !final(self).upload_done()
            })),
            old(self).stage() == FirmwareUpdateStage::Upload ==> (
            event matches FirmwareUpdateEvent::ChunkUploaded(Ok(response)) ==> {
                &&& final(self).upload_offset() == response.off
                &&& final(self).upload_matched() == (old(self).upload_matched() || response.matched
                    == Some(true))
                &&& final(self).upload_done() == (final(self).upload_matched() || response.off
                    >= old(self).firmware().len())
            }),
            old(self).stage() != FirmwareUpdateStage::AnnounceUpload && old(self).stage()
                != FirmwareUpdateStage::Upload ==> {
                &&& final(self).upload_offset() == old(self).upload_offset()
                &&& final(self).upload_matched() == old(self).upload_matched()
                &&& final(self).upload_done() == old(self).upload_done()
            },
            old(self).stage() == FirmwareUpdateStage::Activate ==> (
            event matches FirmwareUpdateEvent::ImageStateSet(Err(e)) ==> final(self).set_state_error() == Some(e)),
            old(self).stage() != FirmwareUpdateStage::Activate ==> final(self).set_state_error()
                == old(self).set_state_error(),
    {
        proof {
            use_type_invariant(&*self);
        }
        let stage = self.stage;
        match (stage, event) {
            (FirmwareUpdateStage::AnnounceDetect, FirmwareUpdateEvent::Reported(ok)) => {
                self.announced(ok, FirmwareUpdateStage::DetectBootloader)
            },
            (FirmwareUpdateStage::DetectBootloader, FirmwareUpdateEvent::BootloaderQueried(result)) => {
                match result {
                    Err(e) => self.fail(FirmwareUpdateError::BootloaderDetectionFailed(e)),
                    Ok(info) => match info.get_bootloader_type() {
                        Ok(_) => self.proceed(FirmwareUpdateStage::AnnounceFound),
                        Err(name) => self.fail(FirmwareUpdateError::BootloaderNotSupported(name)),
                    },
                }
            },
            (FirmwareUpdateStage::AnnounceFound, FirmwareUpdateEvent::Reported(ok)) => {
                self.announced(ok, FirmwareUpdateStage::AnnounceQuery)
            },
            (FirmwareUpdateStage::AnnounceQuery, FirmwareUpdateEvent::Reported(ok)) => {
                self.announced(ok, FirmwareUpdateStage::QueryState)
            },
            (FirmwareUpdateStage::QueryState, FirmwareUpdateEvent::ImageStateQueried(result)) => {
                match result {
                    Err(e) => self.fail(FirmwareUpdateError::GetStateFailed(e)),
                    Ok(images) => {
                        self.note_active_image(&images);
                        self.proceed(FirmwareUpdateStage::AnnounceParse)
                    },
                }
            },
            (FirmwareUpdateStage::AnnounceParse, FirmwareUpdateEvent::Reported(ok)) => {
                if !ok {
                    return self.fail(FirmwareUpdateError::ProgressCallbackError);
                }
                match get_image_info(self.firmware) {
                    Err(e) => self.fail(FirmwareUpdateError::InvalidMcuBootFirmwareImage(e)),
                    Ok(info) => {
                        let mut text = String::from_str("Update: ");
                        text.append(self.active_text.as_str());
                        text.append(" -> ");
                        let version = info.version.to_string();
                        text.append(version.as_str());
                        text.append("-");
                        let shown: &[u8] = &info.hash.as_slice()[0..SHOWN_HASH_DIGITS];
                        assert(shown@ =~= info.hash@.take(SHOWN_HASH_DIGITS as int));
                        push_hex(&mut text, shown);
                        assert(text@ =~= "Update: "@ + self.active_text@ + " -> "@
                            + new_image_text(info.version, info.hash@));
                        self.update_text = text;
                        self.id_hash = info.hash;
                        self.proceed(FirmwareUpdateStage::AnnounceUpdate)
                    },
                }
            },
            (FirmwareUpdateStage::AnnounceUpdate, FirmwareUpdateEvent::Reported(ok)) => {
                if !ok {
                    return self.fail(FirmwareUpdateError::ProgressCallbackError);
                }
                let installed: bool = match &self.active_hash {
                    Some(active) => hash_eq(active, &self.id_hash),
                    None => false,
                };
                if installed {
                    self.fail(FirmwareUpdateError::AlreadyInstalled)
                } else {
                    self.proceed(FirmwareUpdateStage::AnnounceUpload)
                }
            },
            (FirmwareUpdateStage::AnnounceUpload, FirmwareUpdateEvent::Reported(ok)) => {
                if !ok {
                    return self.fail(FirmwareUpdateError::ProgressCallbackError);
                }
                match ImageUploadTransfer::new(
                    self.firmware,
                    None,
                    self.checksum,
                    self.params.upgrade_only,
                    self.smp_frame_size,
                ) {
                    Err(e) => self.fail(FirmwareUpdateError::ImageUploadFailed(e)),
                    Ok(transfer) => {
                        self.upload = Some(transfer);
                        self.stage = FirmwareUpdateStage::Upload;
                        Ok(false)
                    },
                }
            },
            (FirmwareUpdateStage::Upload, FirmwareUpdateEvent::ChunkUploaded(result)) => {
                match result {
                    Err(e) => self.fail(
                        FirmwareUpdateError::ImageUploadFailed(ImageUploadError::ExecuteError(e)),
                    ),
                    Ok(response) => {
                        let mut transfer = match self.upload {
                            Some(transfer) => transfer,
                            None => {
                                return Ok(false);
                            },
                        };
                        let _ = transfer.advance(&response, true);
                        self.stage = FirmwareUpdateStage::AnnounceChunk;
                        self.upload = Some(transfer);
                        Ok(false)
                    },
                }
            },
            (FirmwareUpdateStage::AnnounceChunk, FirmwareUpdateEvent::Reported(ok)) => {
                if !ok {
                    return self.fail(FirmwareUpdateError::ProgressCallbackError);
                }
                let done: bool = match &self.upload {
                    Some(transfer) => transfer.is_done(),
                    None => true,
                };
                if done {
                    self.proceed(FirmwareUpdateStage::AnnounceActivate)
                } else {
                    self.stage = FirmwareUpdateStage::Upload;
                    Ok(false)
                }
            },
            (FirmwareUpdateStage::AnnounceActivate, FirmwareUpdateEvent::Reported(ok)) => {
                self.announced(ok, FirmwareUpdateStage::Activate)
            },
            (FirmwareUpdateStage::Activate, FirmwareUpdateEvent::ImageStateSet(result)) => {
                match result {
                    Ok(_) => self.activated(),
                    Err(e) => {
                        // A device that does not know the command is most
                        // likely in the recovery shell of MCUmgr, which writes
                        // straight to the active slot and cannot swap. The
                        // image has to be found in the first slot then.
                        self.set_state_error = Some(e);
                        if e.command_not_supported() {
                            self.proceed(FirmwareUpdateStage::AnnounceRecovery)
                        } else {
                            self.fail(FirmwareUpdateError::SetStateFailed(e))
                        }
                    },
                }
            },
            (FirmwareUpdateStage::AnnounceRecovery, FirmwareUpdateEvent::Reported(ok)) => {
                self.announced(ok, FirmwareUpdateStage::RecoveryQuery)
            },
            (FirmwareUpdateStage::RecoveryQuery, FirmwareUpdateEvent::ImageStateQueried(result)) => {
                match result {
                    Err(e) => self.fail(FirmwareUpdateError::GetStateFailed(e)),
                    Ok(images) => {
                        if self.image_is_active(&images) {
                            self.activated()
                        } else {
                            match self.set_state_error {
                                Some(e) => self.fail(FirmwareUpdateError::SetStateFailed(e)),
                                None => Ok(false),
                            }
                        }
                    },
                }
            },
            (FirmwareUpdateStage::AnnounceReboot, FirmwareUpdateEvent::Reported(ok)) => {
                self.announced(ok, FirmwareUpdateStage::Reboot)
            },
            (FirmwareUpdateStage::Reboot, FirmwareUpdateEvent::ResetDone(result)) => {
                match result {
                    Ok(_) => self.proceed(FirmwareUpdateStage::Finished),
                    Err(e) => self.fail(FirmwareUpdateError::RebootFailed(e)),
                }
            },
            _ => Ok(self.is_finished()),
        }
    }

    /// Ends the update with an error.
    fn fail(&mut self, error: FirmwareUpdateError) -> (r: Result<bool, FirmwareUpdateError>)
        ensures
            r == Err::<bool, FirmwareUpdateError>(error),
            final(self).stage() == FirmwareUpdateStage::Finished,
            final(self).firmware() == old(self).firmware(),
            final(self).checksum() == old(self).checksum(),
            final(self).params() == old(self).params(),
            final(self).smp_frame_size() == old(self).smp_frame_size(),
            final(self).id_hash() == old(self).id_hash(),
            final(self).active_hash() == old(self).active_hash(),
            final(self).active_text() == old(self).active_text(),
            final(self).update_text() == old(self).update_text(),
            final(self).set_state_error() == old(self).set_state_error(),
            final(self).upload_offset() == old(self).upload_offset(),
            final(self).upload_done() == old(self).upload_done(),
            final(self).upload_matched() == old(self).upload_matched(),
    {
        self.stage = FirmwareUpdateStage::Finished;
        Err(error)
    }

    /// Moves the update to a stage that is not part of the upload.
    fn proceed(&mut self, stage: FirmwareUpdateStage) -> (r: Result<bool, FirmwareUpdateError>)
        requires
            stage != FirmwareUpdateStage::Upload,
            stage != FirmwareUpdateStage::AnnounceChunk,
        ensures
            r == Ok::<bool, FirmwareUpdateError>(stage == FirmwareUpdateStage::Finished),
            final(self).stage() == stage,
            final(self).firmware() == old(self).firmware(),
            final(self).checksum() == old(self).checksum(),
            final(self).params() == old(self).params(),
            final(self).smp_frame_size() == old(self).smp_frame_size(),
            final(self).id_hash() == old(self).id_hash(),
            final(self).active_hash() == old(self).active_hash(),
            final(self).active_text() == old(self).active_text(),
            final(self).update_text() == old(self).update_text(),
            final(self).set_state_error() == old(self).set_state_error(),
            final(self).upload_offset() == old(self).upload_offset(),
            final(self).upload_done() == old(self).upload_done(),
            final(self).upload_matched() == old(self).upload_matched(),
    {
        self.stage = stage;
        Ok(
            match stage {
                FirmwareUpdateStage::Finished => true,
                _ => false,
            },
        )
    }

    /// Moves on after a message, unless the progress callback cancelled.
    fn announced(&mut self, ok: bool, stage: FirmwareUpdateStage) -> (r: Result<
        bool,
        FirmwareUpdateError,
    >)
        requires
            stage != FirmwareUpdateStage::Upload,
            stage != FirmwareUpdateStage::AnnounceChunk,
            stage != FirmwareUpdateStage::Finished,
        ensures
            ok ==> r == Ok::<bool, FirmwareUpdateError>(false) && final(self).stage() == stage,
            !ok ==> r == Err::<bool, FirmwareUpdateError>(
                FirmwareUpdateError::ProgressCallbackError,
            ) && final(self).stage() == FirmwareUpdateStage::Finished,
            final(self).firmware() == old(self).firmware(),
            final(self).checksum() == old(self).checksum(),
            final(self).params() == old(self).params(),
            final(self).smp_frame_size() == old(self).smp_frame_size(),
            final(self).id_hash() == old(self).id_hash(),
            final(self).active_hash() == old(self).active_hash(),
            final(self).active_text() == old(self).active_text(),
            final(self).update_text() == old(self).update_text(),
            final(self).set_state_error() == old(self).set_state_error(),
            final(self).upload_offset() == old(self).upload_offset(),
            final(self).upload_done() == old(self).upload_done(),
            final(self).upload_matched() == old(self).upload_matched(),
    {
        if ok {
            self.proceed(stage)
        } else {
            self.fail(FirmwareUpdateError::ProgressCallbackError)
        }
    }

    /// Moves on after the activation: to the reboot, or to the end where the
    /// reboot is skipped.
    fn activated(&mut self) -> (r: Result<bool, FirmwareUpdateError>)
        ensures
            final(self).stage() == old(self).stage_after_activation(),
            r == Ok::<bool, FirmwareUpdateError>(old(self).params().skip_reboot),
            final(self).firmware() == old(self).firmware(),
            final(self).checksum() == old(self).checksum(),
            final(self).params() == old(self).params(),
            final(self).smp_frame_size() == old(self).smp_frame_size(),
            final(self).id_hash() == old(self).id_hash(),
            final(self).active_hash() == old(self).active_hash(),
            final(self).active_text() == old(self).active_text(),
            final(self).update_text() == old(self).update_text(),
            final(self).set_state_error() == old(self).set_state_error(),
            final(self).upload_offset() == old(self).upload_offset(),
            final(self).upload_done() == old(self).upload_done(),
            final(self).upload_matched() == old(self).upload_matched(),
    {
        if self.params.skip_reboot {
            self.proceed(FirmwareUpdateStage::Finished)
        } else {
            self.proceed(FirmwareUpdateStage::AnnounceReboot)
        }
    }
}

} // verus!
