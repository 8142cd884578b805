//! Writing a firmware image to the device, chunk by chunk.

use vstd::prelude::*;
use crate::client::file_upload::chunk_at;
use crate::client::TransferProgress;
use crate::commands::fs::CBOR_AND_OTHER_HDR;
use crate::commands::image::{ImageUpload, ImageUploadResponse};
use crate::connection::ExecuteError;

verus! {

/// Bytes that the SHA-256 field takes in the first request: its key, the
/// head of the byte string and the 32 bytes of the hash.
pub const IMAGE_UPLOAD_SHA_FIELD: usize = (1 + 3) + (2 + 32);

/// Bytes that the upgrade field takes in the first request: its key and the
/// flag.
pub const IMAGE_UPLOAD_UPGRADE_FIELD: usize = (1 + 7) + 1;

/// What an image upload request takes beside its data: what a file upload
/// request takes, and the two fields that only the first request carries.
pub const IMAGE_UPLOAD_OVERHEAD: usize = CBOR_AND_OTHER_HDR + IMAGE_UPLOAD_SHA_FIELD
    + IMAGE_UPLOAD_UPGRADE_FIELD;

/// Computes how large the data of one image upload request is allowed to be.
///
/// # Arguments
///
/// * `smp_frame_size` - The max allowed size of an SMP frame.
pub fn image_upload_max_data_chunk_size(smp_frame_size: usize) -> (n: usize)
    requires
        smp_frame_size >= IMAGE_UPLOAD_OVERHEAD,
    ensures
        n == smp_frame_size - 106,
{
    smp_frame_size - IMAGE_UPLOAD_OVERHEAD
}

/// Possible error values of an image upload.
#[derive(Debug, Clone, Copy, PartialEq, Eq, Structural)]
pub enum ImageUploadError {
    /// The command failed in the SMP protocol layer.
    ExecuteError(ExecuteError),
    /// The progress callback returned an error.
    ProgressCallbackError,
    /// The SMP frame size leaves no room for data beside the fields of a
    /// request.
    FrameSizeTooSmall,
}

impl ImageUploadError {
    /// The identifier of the error.
    pub fn code(&self) -> (s: &'static str)
        ensures
            s@ == match *self {
                ImageUploadError::ExecuteError(_) => "zephyr_mcumgr::client::image_upload::execute"@,
                ImageUploadError::ProgressCallbackError => "zephyr_mcumgr::client::image_upload::progress_cb_error"@,
                ImageUploadError::FrameSizeTooSmall => "zephyr_mcumgr::client::image_upload::framesize_too_small"@,
            },
    {
        match self {
            ImageUploadError::ExecuteError(_) => "zephyr_mcumgr::client::image_upload::execute",
            ImageUploadError::ProgressCallbackError => "zephyr_mcumgr::client::image_upload::progress_cb_error",
            ImageUploadError::FrameSizeTooSmall => "zephyr_mcumgr::client::image_upload::framesize_too_small",
        }
    }

    /// The error in words.
    pub fn message(&self) -> (s: &'static str)
        ensures
            s@ == match *self {
                ImageUploadError::ExecuteError(_) => "Command execution failed"@,
                ImageUploadError::ProgressCallbackError => "Progress callback returned an error"@,
                ImageUploadError::FrameSizeTooSmall => "SMP frame size too small for this command"@,
            },
    {
        match self {
            ImageUploadError::ExecuteError(_) => "Command execution failed",
            ImageUploadError::ProgressCallbackError => "Progress callback returned an error",
            ImageUploadError::FrameSizeTooSmall => "SMP frame size too small for this command",
        }
    }
}

/// The upload of one firmware image.
///
/// It goes as the upload of a file does. The first request also carries the
/// SHA-256 of the image, if known, and the upgrade flag, if set. The
/// transfer ends early once the device answers that it already holds an
/// image with that hash.
#[derive(Debug, Clone, Copy)]
pub struct ImageUploadTransfer<'a, 'b> {
    data: &'a [u8],
    image: Option<u32>,
    checksum: Option<&'b [u8; 32]>,
    upgrade_only: bool,
    off: u64,
    chunk_size_max: usize,
    answered: bool,
    matched: bool,
}

impl<'a, 'b> ImageUploadTransfer<'a, 'b> {
    #[verifier::type_invariant]
    spec fn inv(self) -> bool {
        self.chunk_size_max > 0
    }

    /// The image.
    pub closed spec fn data(self) -> Seq<u8> {
        self.data@
    }

    /// The image slot group to write to, if one is named.
    pub closed spec fn image(self) -> Option<u32> {
        self.image
    }

    /// The SHA-256 of the whole image, if known.
    pub closed spec fn checksum(self) -> Option<&'b [u8; 32]> {
        self.checksum
    }

    /// Whether the device is to refuse an image that is no upgrade.
    pub closed spec fn upgrade_only(self) -> bool {
        self.upgrade_only
    }

    /// The offset that the next request starts at.
    pub closed spec fn offset(self) -> u64 {
        self.off
    }

    /// The most data that one request carries.
    pub closed spec fn chunk_size_max(self) -> int {
        self.chunk_size_max as int
    }

    /// Whether the device has answered a request of this transfer.
    pub closed spec fn answered(self) -> bool {
        self.answered
    }

    /// Whether the device has answered that it holds the image already.
    pub closed spec fn matched(self) -> bool {
        self.matched
    }

    /// The transfer has nothing left to send.
    pub open spec fn done(self) -> bool {
        self.answered() && (self.matched() || self.offset() >= self.data().len())
    }

    /// The upload of the image `data`, with requests that fit frames of
    /// `smp_frame_size` bytes.
    ///
    /// Fails with `FrameSizeTooSmall` exactly when the frame size leaves no
    /// room for data.
    pub fn new(
        data: &'a [u8],
        image: Option<u32>,
        checksum: Option<&'b [u8; 32]>,
        upgrade_only: bool,
        smp_frame_size: usize,
    ) -> (r: Result<Self, ImageUploadError>)
        ensures
            smp_frame_size <= IMAGE_UPLOAD_OVERHEAD <==> r is Err,
            r matches Err(e) ==> e == ImageUploadError::FrameSizeTooSmall,
            r matches Ok(t) ==> {
                &&& t.data() == data@
                &&& t.image() == image
                &&& t.checksum() == checksum
                &&& t.upgrade_only() == upgrade_only
                &&& t.offset() == 0
                &&& t.chunk_size_max() == smp_frame_size - IMAGE_UPLOAD_OVERHEAD
                &&& !t.answered()
                &&& !t.matched()
            },
    {
        if smp_frame_size <= IMAGE_UPLOAD_OVERHEAD {
            return Err(ImageUploadError::FrameSizeTooSmall);
        }
        Ok(
            ImageUploadTransfer {
                data,
                image,
                checksum,
                upgrade_only,
                off: 0,
                chunk_size_max: smp_frame_size - IMAGE_UPLOAD_OVERHEAD,
                answered: false,
                matched: false,
            },
        )
    }

    /// The length of the image.
    pub fn total_len(&self) -> (n: u64)
        ensures
            n == self.data().len(),
    {
        self.data.len() as u64
    }

    /// The offset that the next request starts at.
    pub fn current_offset(&self) -> (off: u64)
        ensures
            off == self.offset(),
    {
        self.off
    }

    /// Whether the transfer has nothing left to send.
    pub fn is_done(&self) -> (d: bool)
        ensures
            d == self.done(),
    {
        self.answered && (self.matched || self.off >= self.data.len() as u64)
    }

    /// The request to send next; `None` when the transfer is done.
    ///
    /// The request starts at the current offset and carries the data from
    /// there on, at most a chunk. A request at offset 0 states the length of
    /// the image, its SHA-256 if known, and the upgrade flag if set; no
    /// other request does.
    pub fn next_request(&self) -> (r: Option<ImageUpload<'a, 'b>>)
        ensures
            self.done() <==> r is None,
            r matches Some(request) ==> {
                &&& request.image == self.image()
                &&& request.off == self.offset()
                &&& request.data@ == chunk_at(
                    self.data(),
                    self.chunk_size_max(),
                    self.offset() as int,
                )
                &&& request.len == if self.offset() == 0 {
                    Some(self.data().len() as u64)
                } else {
                    None
                }
                &&& request.sha == if self.offset() == 0 {
                    self.checksum()
                } else {
                    None
                }
                &&& request.upgrade == if self.offset() == 0 && self.upgrade_only() {
                    Some(true)
                } else {
                    None
                }
            },
    {
        proof {
            use_type_invariant(self);
        }
        if self.is_done() {
            return None;
        }
        let total: u64 = self.data.len() as u64;
        let start: usize = if self.off >= total {
            self.data.len()
        } else {
            self.off as usize
        };
        let rest: usize = self.data.len() - start;
        let chunk: usize = if rest < self.chunk_size_max {
            rest
        } else {
            self.chunk_size_max
        };
        let first: bool = self.off == 0;
        let piece: &'a [u8] = &self.data[start..start + chunk];
        assert(piece@ =~= chunk_at(self.data(), self.chunk_size_max(), self.offset() as int));
        Some(
            ImageUpload {
                image: self.image,
                off: self.off,
                data: piece,
                len: if first {
                    Some(total)
                } else {
                    None
                },
                sha: if first {
                    self.checksum
                } else {
                    None
                },
                upgrade: if first && self.upgrade_only {
                    Some(true)
                } else {
                    None
                },
            },
        )
    }

    /// Takes the answer to the last request, and whether the transfer is to
    /// go on.
    ///
    /// The offset becomes the one that the device answered with, and the
    /// transfer counts as matched once an answer says so. With `keep_going`
    /// false the result is `ProgressCallbackError`; otherwise it tells
    /// whether the transfer is done.
    pub fn advance(&mut self, response: &ImageUploadResponse, keep_going: bool) -> (r: Result<
        bool,
        ImageUploadError,
    >)
        ensures
            final(self).data() == old(self).data(),
            final(self).image() == old(self).image(),
            final(self).checksum() == old(self).checksum(),
            final(self).upgrade_only() == old(self).upgrade_only(),
            final(self).chunk_size_max() == old(self).chunk_size_max(),
            final(self).offset() == response.off,
            final(self).answered(),
            final(self).matched() == (old(self).matched() || response.matched == Some(true)),
            r == if keep_going {
                Ok::<bool, ImageUploadError>(final(self).done())
            } else {
                Err::<bool, ImageUploadError>(ImageUploadError::ProgressCallbackError)
            },
    {
        proof {
            use_type_invariant(&*self);
        }
        self.off = response.off;
        self.answered = true;
        if let Some(true) = response.matched {
            self.matched = true;
        }
        if !keep_going {
            return Err(ImageUploadError::ProgressCallbackError);
        }
        Ok(self.is_done())
    }

    /// What the progress receiver is handed for an answer: the offset that
    /// the device answered with, and the length of the image.
    pub fn progress_after(&self, response: &ImageUploadResponse) -> (report: (u64, u64))
        ensures
            report == (response.off, self.data().len() as u64),
    {
        (response.off, self.data.len() as u64)
    }

    /// Takes the answer to the last request and reports the progress.
    ///
    /// The progress receiver gets the pair of
    /// [`ImageUploadTransfer::progress_after`]; what it returns decides as in
    /// [`ImageUploadTransfer::advance`].
    pub fn handle_response<P: TransferProgress>(
        &mut self,
        response: &ImageUploadResponse,
        progress: &mut P,
    ) -> (r: Result<bool, ImageUploadError>)
        ensures
            final(self).data() == old(self).data(),
            final(self).image() == old(self).image(),
            final(self).checksum() == old(self).checksum(),
            final(self).upgrade_only() == old(self).upgrade_only(),
            final(self).chunk_size_max() == old(self).chunk_size_max(),
            final(self).offset() == response.off,
            final(self).answered(),
            final(self).matched() == (old(self).matched() || response.matched == Some(true)),
            r == Ok::<bool, ImageUploadError>(final(self).done()) || r == Err::<
                bool,
                ImageUploadError,
            >(ImageUploadError::ProgressCallbackError),
    {
        let (current, total) = self.progress_after(response);
        let keep_going: bool = progress.report(current, total);
        self.advance(response, keep_going)
    }
}

} // verus!
