//! Reading a file from the device, chunk by chunk.

use vstd::prelude::*;
use crate::client::file_upload::{accepted_chunks, lemma_accepted_chunks_make_the_file, min_len};
use crate::client::TransferProgress;
use crate::commands::fs::{FileDownload, FileDownloadResponse};
use crate::connection::ExecuteError;
use crate::transport::serial::append_bytes;

verus! {

/// Possible error values of a file download.
#[derive(Debug, Clone, Copy, PartialEq, Eq, Structural)]
pub enum FileDownloadError {
    /// The command failed in the SMP protocol layer.
    ExecuteError(ExecuteError),
    /// The progress callback returned an error.
    ProgressCallbackError,
}

impl FileDownloadError {
    /// The identifier of the error.
    pub fn code(&self) -> (s: &'static str)
        ensures
            s@ == match *self {
                FileDownloadError::ExecuteError(_) => "zephyr_mcumgr::client::file_download::execute"@,
                FileDownloadError::ProgressCallbackError => "zephyr_mcumgr::client::file_download::progress_cb_error"@,
            },
    {
        match self {
            FileDownloadError::ExecuteError(_) => "zephyr_mcumgr::client::file_download::execute",
            FileDownloadError::ProgressCallbackError => "zephyr_mcumgr::client::file_download::progress_cb_error",
        }
    }

    /// The error in words.
    pub fn message(&self) -> (s: &'static str)
        ensures
            s@ == match *self {
                FileDownloadError::ExecuteError(_) => "Command execution failed"@,
                FileDownloadError::ProgressCallbackError => "Progress callback returned an error"@,
            },
    {
        match self {
            FileDownloadError::ExecuteError(_) => "Command execution failed",
            FileDownloadError::ProgressCallbackError => "Progress callback returned an error",
        }
    }
}

/// What a device that holds `file` answers a request at the offset `off`
/// with, if it sends at most `piece` bytes at a time.
pub open spec fn served(file: Seq<u8>, piece: int, off: int) -> Seq<u8> {
    if off < 0 || off >= file.len() {
        Seq::empty()
    } else {
        file.subrange(off, off + min_len(piece, file.len() - off))
    }
}

/// What a download has in the end, having `received` so far, from a device
/// that holds `file` and states its length: every answer is put behind what
/// was received, and the next request asks from there on.
pub open spec fn downloaded(file: Seq<u8>, piece: int, received: Seq<u8>) -> Seq<u8>
    decreases file.len() - received.len(),
{
    if piece <= 0 || received.len() >= file.len() {
        received
    } else {
        downloaded(file, piece, received + served(file, piece, received.len() as int))
    }
}

/// A download from a device that holds a file ends with the file, whatever
/// the size of the pieces.
pub proof fn lemma_download_gives_the_file(file: Seq<u8>, piece: int, received: Seq<u8>)
    requires
        piece > 0,
        received.len() <= file.len(),
        received == file.take(received.len() as int),
    ensures
        downloaded(file, piece, received) == file,
    decreases file.len() - received.len(),
{
    if received.len() >= file.len() {
        assert(file.take(file.len() as int) =~= file);
    } else {
        let off = received.len() as int;
        let next = received + served(file, piece, off);
        assert(next =~= file.take(off + min_len(piece, file.len() - off)));
        lemma_download_gives_the_file(file, piece, next);
    }
}

/// A file that is uploaded to a device that stores every chunk it is sent,
/// and then downloaded from that device, comes back as it was: whatever the
/// size of the chunks up and of the pieces down.
pub proof fn lemma_upload_then_download_gives_the_file_back(
    data: Seq<u8>,
    chunk_size_max: int,
    piece: int,
)
    requires
        chunk_size_max > 0,
        piece > 0,
    ensures
        downloaded(accepted_chunks(data, chunk_size_max, 0), piece, Seq::empty()) == data,
{
    lemma_accepted_chunks_make_the_file(data, chunk_size_max, 0);
    assert(data.skip(0) =~= data);
    assert(data.take(0) =~= Seq::<u8>::empty());
    lemma_download_gives_the_file(data, piece, Seq::empty());
}

/// The download of one file.
///
/// Every request asks for the data from the current offset on. The data of
/// each answer is kept, and the offset moves on by its length. The first
/// answer has to state the length of the file. The transfer is done when
/// the offset has reached that length.
pub struct FileDownloadTransfer<'a> {
    name: &'a str,
    received: Vec<u8>,
    total: Option<u64>,
}

impl<'a> FileDownloadTransfer<'a> {
    /// The path of the file on the device.
    pub closed spec fn name(self) -> &'a str {
        self.name
    }

    /// The data received so far.
    pub closed spec fn received(self) -> Seq<u8> {
        self.received@
    }

    /// The length of the file, once the device has stated it.
    pub closed spec fn total(self) -> Option<u64> {
        self.total
    }

    /// The offset that the next request asks for: the number of bytes
    /// received.
    pub open spec fn offset(self) -> int {
        self.received().len() as int
    }

    /// The transfer has all of the file.
    pub open spec fn done(self) -> bool {
        self.total() matches Some(total) && self.offset() >= total
    }

    /// The download of the file `name`.
    pub fn new(name: &'a str) -> (t: Self)
        ensures
            t.name() == name,
            t.received() == Seq::<u8>::empty(),
            t.total() is None,
    {
        FileDownloadTransfer { name, received: Vec::new(), total: None }
    }

    /// Whether the transfer has all of the file.
    pub fn is_done(&self) -> (d: bool)
        ensures
            d == self.done(),
    {
        match self.total {
            Some(total) => self.received.len() as u64 >= total,
            None => false,
        }
    }

    /// The request to send next; `None` when the transfer is done.
    pub fn next_request(&self) -> (r: Option<FileDownload<'a>>)
        ensures
            self.done() <==> r is None,
            r matches Some(request) ==> request.off == self.offset() && request.name == self.name(),
    {
        if self.is_done() {
            return None;
        }
        Some(FileDownload { off: self.received.len() as u64, name: self.name })
    }

    /// Takes the answer to the last request, and whether the transfer is to
    /// go on.
    ///
    /// A first answer without the length of the file fails with
    /// `DecodeFailed` and changes nothing. Otherwise the data of the answer
    /// is kept; the length of the file is that of the first answer, whatever
    /// later answers state. With `keep_going` false the result is then
    /// `ProgressCallbackError`; otherwise it tells whether the transfer is
    /// done.
    pub fn advance(&mut self, response: &FileDownloadResponse, keep_going: bool) -> (r: Result<
        bool,
        FileDownloadError,
    >)
        ensures
            final(self).name() == old(self).name(),
            old(self).total() is None && response.len is None ==> r == Err::<
                bool,
                FileDownloadError,
            >(FileDownloadError::ExecuteError(ExecuteError::DecodeFailed)) && final(self).received()
                == old(self).received() && final(self).total() is None,
            old(self).total() is Some || response.len is Some ==> {
                &&& final(self).received() == old(self).received() + response.data@
                &&& final(self).total() == if old(self).total() is Some {
                    old(self).total()
                } else {
                    response.len
                }
                &&& r == if keep_going {
                    Ok::<bool, FileDownloadError>(final(self).done())
                } else {
                    Err::<bool, FileDownloadError>(FileDownloadError::ProgressCallbackError)
                }
            },
    {
        if self.total.is_none() {
            match response.len {
                Some(len) => {
                    self.total = Some(len);
                },
                None => {
                    return Err(FileDownloadError::ExecuteError(ExecuteError::DecodeFailed));
                },
            }
        }
        append_bytes(&mut self.received, response.data.as_slice());
        if !keep_going {
            return Err(FileDownloadError::ProgressCallbackError);
        }
        Ok(self.is_done())
    }

    /// The length of the file as it stands once `response` is taken: the one
    /// stated first.
    pub open spec fn total_with(self, response: FileDownloadResponse) -> Option<u64> {
        if self.total() is Some {
            self.total()
        } else {
            response.len
        }
    }

    /// What the progress receiver is handed for an answer: the bytes
    /// received, this answer included, and the length of the file. Nothing
    /// where the length is not known even with this answer.
    pub fn progress_after(&self, response: &FileDownloadResponse) -> (report: Option<(u64, u64)>)
        ensures
            report is Some <==> self.total_with(*response) is Some,
            report matches Some((current, total)) ==> {
                &&& Some(total) == self.total_with(*response)
                &&& current == if self.offset() + response.data@.len() <= u64::MAX {
                    self.offset() + response.data@.len()
                } else {
                    u64::MAX as int
                }
            },
    {
        let total: u64 = match self.total {
            Some(total) => total,
            None => match response.len {
                Some(len) => len,
                None => {
                    return None;
                },
            },
        };
        let current: u64 = (self.received.len() as u64).saturating_add(response.data.len() as u64);
        Some((current, total))
    }

    /// Takes the answer to the last request and reports the progress.
    ///
    /// The progress receiver gets the pair of
    /// [`FileDownloadTransfer::progress_after`]; what it returns decides as
    /// in [`FileDownloadTransfer::advance`]. It is not asked where the first
    /// answer lacks the length.
    pub fn handle_response<P: TransferProgress>(
        &mut self,
        response: &FileDownloadResponse,
        progress: &mut P,
    ) -> (r: Result<bool, FileDownloadError>)
        ensures
            final(self).name() == old(self).name(),
            old(self).total() is None && response.len is None ==> r == Err::<
                bool,
                FileDownloadError,
            >(FileDownloadError::ExecuteError(ExecuteError::DecodeFailed)) && final(self).received()
                == old(self).received() && final(self).total() is None,
            old(self).total() is Some || response.len is Some ==> {
                &&& final(self).received() == old(self).received() + response.data@
                &&& final(self).total() == if old(self).total() is Some {
                    old(self).total()
                } else {
                    response.len
                }
                &&& (r == Ok::<bool, FileDownloadError>(final(self).done()) || r == Err::<
                    bool,
                    FileDownloadError,
                >(FileDownloadError::ProgressCallbackError))
            },
    {
        let (current, total) = match self.progress_after(response) {
            Some(report) => report,
            None => {
                return Err(FileDownloadError::ExecuteError(ExecuteError::DecodeFailed));
            },
        };
        let keep_going: bool = progress.report(current, total);
        self.advance(response, keep_going)
    }

    /// Hands out the data received.
    pub fn into_data(self) -> (data: Vec<u8>)
        ensures
            data@ == self.received(),
    {
        self.received
    }
}

} // verus!
