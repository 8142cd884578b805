//! Writing a file to the device, chunk by chunk.

use vstd::prelude::*;
use crate::client::TransferProgress;
use crate::commands::fs::{FileUpload, FileUploadResponse, CBOR_AND_OTHER_HDR};
use crate::connection::ExecuteError;

verus! {

/// Possible error values of a file upload.
#[derive(Debug, Clone, Copy, PartialEq, Eq, Structural)]
pub enum FileUploadError {
    /// The command failed in the SMP protocol layer.
    ExecuteError(ExecuteError),
    /// The progress callback returned an error.
    ProgressCallbackError,
    /// The SMP frame size leaves no room for data beside the fields of a
    /// request.
    FrameSizeTooSmall,
}

impl FileUploadError {
    /// The identifier of the error.
    pub fn code(&self) -> (s: &'static str)
        ensures
            s@ == match *self {
                FileUploadError::ExecuteError(_) => "zephyr_mcumgr::client::file_upload::execute"@,
                FileUploadError::ProgressCallbackError => "zephyr_mcumgr::client::file_upload::progress_cb_error"@,
                FileUploadError::FrameSizeTooSmall => "zephyr_mcumgr::client::file_upload::framesize_too_small"@,
            },
    {
        match self {
            FileUploadError::ExecuteError(_) => "zephyr_mcumgr::client::file_upload::execute",
            FileUploadError::ProgressCallbackError => "zephyr_mcumgr::client::file_upload::progress_cb_error",
            FileUploadError::FrameSizeTooSmall => "zephyr_mcumgr::client::file_upload::framesize_too_small",
        }
    }

    /// The error in words.
    pub fn message(&self) -> (s: &'static str)
        ensures
            s@ == match *self {
                FileUploadError::ExecuteError(_) => "Command execution failed"@,
                FileUploadError::ProgressCallbackError => "Progress callback returned an error"@,
                FileUploadError::FrameSizeTooSmall => "SMP frame size too small for this command"@,
            },
    {
        match self {
            FileUploadError::ExecuteError(_) => "Command execution failed",
            FileUploadError::ProgressCallbackError => "Progress callback returned an error",
            FileUploadError::FrameSizeTooSmall => "SMP frame size too small for this command",
        }
    }
}

/// The smaller of two lengths.
pub open spec fn min_len(a: int, b: int) -> int {
    if a <= b {
        a
    } else {
        b
    }
}

/// The data that a request at the offset `off` carries: what stands in the
/// file from there on, at most `chunk_size_max` bytes; nothing at or behind
/// the end.
pub open spec fn chunk_at(data: Seq<u8>, chunk_size_max: int, off: int) -> Seq<u8> {
    if off < 0 || off >= data.len() {
        Seq::empty()
    } else {
        data.subrange(off, off + min_len(chunk_size_max, data.len() - off))
    }
}

/// What an upload sends from the offset `off` on, if the device takes every
/// chunk whole and answers with the offset behind it: the chunks, one after
/// the other.
pub open spec fn accepted_chunks(data: Seq<u8>, chunk_size_max: int, off: int) -> Seq<u8>
    decreases data.len() - off,
{
    if chunk_size_max <= 0 || off < 0 || off >= data.len() {
        Seq::empty()
    } else {
        chunk_at(data, chunk_size_max, off) + accepted_chunks(
            data,
            chunk_size_max,
            off + chunk_at(data, chunk_size_max, off).len(),
        )
    }
}

/// An upload whose chunks the device takes one by one sends every byte of
/// the file once and in order.
pub proof fn lemma_accepted_chunks_make_the_file(data: Seq<u8>, chunk_size_max: int, off: int)
    requires
        chunk_size_max > 0,
        0 <= off <= data.len(),
    ensures
        accepted_chunks(data, chunk_size_max, off) == data.skip(off),
    decreases data.len() - off,
{
    if off < data.len() {
        let n = min_len(chunk_size_max, data.len() - off);
        assert(chunk_at(data, chunk_size_max, off).len() == n);
        lemma_accepted_chunks_make_the_file(data, chunk_size_max, off + n);
        assert(data.subrange(off, off + n) + data.skip(off + n) =~= data.skip(off));
    } else {
        assert(data.skip(off) =~= Seq::<u8>::empty());
    }
}

/// The upload of one file.
///
/// Every request carries the data from the current offset on, as much as a
/// frame holds. The offset then becomes the one that the device answers
/// with. The transfer is done when a request has been answered and the
/// offset has reached the length of the data.
#[derive(Debug, Clone, Copy)]
pub struct FileUploadTransfer<'a, 'b> {
    name: &'b str,
    data: &'a [u8],
    off: u64,
    chunk_size_max: usize,
    answered: bool,
}

impl<'a, 'b> FileUploadTransfer<'a, 'b> {
    #[verifier::type_invariant]
    spec fn inv(self) -> bool {
        self.chunk_size_max > 0
    }

    /// The path of the file on the device.
    pub closed spec fn name(self) -> &'b str {
        self.name
    }

    /// The content of the file.
    pub closed spec fn data(self) -> Seq<u8> {
        self.data@
    }

    /// The offset that the next request starts at.
    pub closed spec fn offset(self) -> u64 {
        self.off
    }

    /// The most data that one request carries.
    pub closed spec fn chunk_size_max(self) -> int {
        self.chunk_size_max as int
    }

    /// Whether the device has answered a request of this transfer.
    pub closed spec fn answered(self) -> bool {
        self.answered
    }

    /// The transfer has nothing left to send.
    pub open spec fn done(self) -> bool {
        self.answered() && self.offset() >= self.data().len()
    }

    /// The upload of `data` to the file `name`, with requests that fit
    /// frames of `smp_frame_size` bytes.
    ///
    /// Fails with `FrameSizeTooSmall` exactly when the frame size leaves no
    /// room for data.
    pub fn new(name: &'b str, data: &'a [u8], smp_frame_size: usize) -> (r: Result<
        Self,
        FileUploadError,
    >)
        ensures
            smp_frame_size <= CBOR_AND_OTHER_HDR <==> r is Err,
            r matches Err(e) ==> e == FileUploadError::FrameSizeTooSmall,
            r matches Ok(t) ==> t.name() == name && t.data() == data@ && t.offset() == 0
                && t.chunk_size_max() == smp_frame_size - CBOR_AND_OTHER_HDR && !t.answered(),
    {
        if smp_frame_size <= CBOR_AND_OTHER_HDR {
            return Err(FileUploadError::FrameSizeTooSmall);
        }
        Ok(
            FileUploadTransfer {
                name,
                data,
                off: 0,
                chunk_size_max: smp_frame_size - CBOR_AND_OTHER_HDR,
                answered: false,
            },
        )
    }

    /// The length of the file.
    pub fn total_len(&self) -> (n: u64)
        ensures
            n == self.data().len(),
    {
        self.data.len() as u64
    }

    /// The offset that the next request starts at.
    pub fn current_offset(&self) -> (off: u64)
        ensures
            off == self.offset(),
    {
        self.off
    }

    /// Whether the transfer has nothing left to send.
    pub fn is_done(&self) -> (d: bool)
        ensures
            d == self.done(),
    {
        self.answered && self.off >= self.data.len() as u64
    }

    /// The request to send next; `None` when the transfer is done.
    ///
    /// The request starts at the current offset and carries the data from
    /// there on, at most a chunk. It states the length of the file exactly
    /// when it starts at offset 0.
    pub fn next_request(&self) -> (r: Option<FileUpload<'a, 'b>>)
        ensures
            self.done() <==> r is None,
            r matches Some(request) ==> {
                &&& request.off == self.offset()
                &&& request.name == self.name()
                &&& request.data@ == chunk_at(
                    self.data(),
                    self.chunk_size_max(),
                    self.offset() as int,
                )
                &&& request.len == if self.offset() == 0 {
                    Some(self.data().len() as u64)
                } else {
                    None
                }
            },
    {
        proof {
            use_type_invariant(self);
        }
        if self.is_done() {
            return None;
        }
        let total: u64 = self.data.len() as u64;
        let start: usize = if self.off >= total {
            self.data.len()
        } else {
            self.off as usize
        };
        let rest: usize = self.data.len() - start;
        let chunk: usize = if rest < self.chunk_size_max {
            rest
        } else {
            self.chunk_size_max
        };
        let len: Option<u64> = if self.off == 0 {
            Some(total)
        } else {
            None
        };
        let piece: &'a [u8] = &self.data[start..start + chunk];
        assert(piece@ =~= chunk_at(self.data(), self.chunk_size_max(), self.offset() as int));
        Some(FileUpload { off: self.off, data: piece, name: self.name, len })
    }

    /// Takes the answer to the last request, and whether the transfer is to
    /// go on.
    ///
    /// The offset becomes the one that the device answered with. With
    /// `keep_going` false the result is `ProgressCallbackError`; otherwise it
    /// tells whether the transfer is done.
    pub fn advance(&mut self, response: &FileUploadResponse, keep_going: bool) -> (r: Result<
        bool,
        FileUploadError,
    >)
        ensures
            final(self).name() == old(self).name(),
            final(self).data() == old(self).data(),
            final(self).chunk_size_max() == old(self).chunk_size_max(),
            final(self).offset() == response.off,
            final(self).answered(),
            r == if keep_going {
                Ok::<bool, FileUploadError>(final(self).done())
            } else {
                Err::<bool, FileUploadError>(FileUploadError::ProgressCallbackError)
            },
    {
        proof {
            use_type_invariant(&*self);
        }
        self.off = response.off;
        self.answered = true;
        if !keep_going {
            return Err(FileUploadError::ProgressCallbackError);
        }
        Ok(self.is_done())
    }

    /// What the progress receiver is handed for an answer: the offset that
    /// the device answered with, and the length of the file.
    pub fn progress_after(&self, response: &FileUploadResponse) -> (report: (u64, u64))
        ensures
            report == (response.off, self.data().len() as u64),
    {
        (response.off, self.data.len() as u64)
    }

    /// Takes the answer to the last request and reports the progress.
    ///
    /// The progress receiver gets the pair of
    /// [`FileUploadTransfer::progress_after`]; what it returns decides as in
    /// [`FileUploadTransfer::advance`].
    pub fn handle_response<P: TransferProgress>(
        &mut self,
        response: &FileUploadResponse,
        progress: &mut P,
    ) -> (r: Result<bool, FileUploadError>)
        ensures
            final(self).name() == old(self).name(),
            final(self).data() == old(self).data(),
            final(self).chunk_size_max() == old(self).chunk_size_max(),
            final(self).offset() == response.off,
            final(self).answered(),
            r == Ok::<bool, FileUploadError>(final(self).done()) || r == Err::<
                bool,
                FileUploadError,
            >(FileUploadError::ProgressCallbackError),
    {
        let (current, total) = self.progress_after(response);
        let keep_going: bool = progress.report(current, total);
        self.advance(response, keep_going)
    }
}

} // verus!
