use zephyr_mcumgr::client::{
    image_upload_max_data_chunk_size, FileDownloadError, FileDownloadTransfer, FileUploadError,
    FileUploadTransfer, ImageUploadError, ImageUploadTransfer, NoProgress, TransferProgress,
    DEFAULT_SMP_FRAME_SIZE,
};
use zephyr_mcumgr::commands::fs::{
    file_upload_max_data_chunk_size, FileDownloadResponse, FileUploadResponse,
};
use zephyr_mcumgr::commands::image::ImageUploadResponse;
use zephyr_mcumgr::commands::os::MCUmgrParametersResponse;
use zephyr_mcumgr::connection::{Connection, ExecuteError};
use zephyr_mcumgr::transport::serial::SerialTransport;
use zephyr_mcumgr::MCUmgrClient;

struct Recorder {
    calls: Vec<(u64, u64)>,
    cancel_at: Option<usize>,
}

impl TransferProgress for Recorder {
    fn report(&mut self, current: u64, total: u64) -> bool {
        self.calls.push((current, total));
        self.cancel_at != Some(self.calls.len())
    }
}

fn pattern(len: usize) -> Vec<u8> {
    (0..len).map(|i| (i * 7 + i / 256) as u8).collect()
}

fn client() -> MCUmgrClient {
    MCUmgrClient::new(Connection::with_sequence_number(SerialTransport::new(127), 0))
}

#[test]
fn chunk_size_formula() {
    assert_eq!(file_upload_max_data_chunk_size(256), 197);
    assert_eq!(file_upload_max_data_chunk_size(59), 0);
    assert_eq!(file_upload_max_data_chunk_size(4096), 4037);
    assert_eq!(image_upload_max_data_chunk_size(256), 150);
    assert_eq!(image_upload_max_data_chunk_size(106), 0);
}

#[test]
fn frame_size_setting() {
    let mut c = client();
    assert_eq!(c.smp_frame_size, DEFAULT_SMP_FRAME_SIZE);
    assert_eq!(c.smp_frame_size, 256);
    c.set_frame_size(1024);
    assert_eq!(c.smp_frame_size, 1024);

    let mut c = client();
    assert_eq!(
        c.use_auto_frame_size(Err(ExecuteError::DecodeFailed)),
        Err(ExecuteError::DecodeFailed)
    );
    assert_eq!(c.smp_frame_size, 256);
    assert_eq!(
        c.use_auto_frame_size(Ok(MCUmgrParametersResponse { buf_size: 2475, buf_count: 4 })),
        Ok(())
    );
    assert_eq!(c.smp_frame_size, 2475);
}

#[test]
fn file_upload_sends_the_file_in_chunks() {
    let data = pattern(1000);
    let mut transfer = client().fs_file_upload("/lfs/a.bin", &data).unwrap();
    let mut device_file = Vec::new();
    let mut requests = 0;
    let mut progress = Recorder { calls: vec![], cancel_at: None };
    while let Some(request) = transfer.next_request() {
        requests += 1;
        assert_eq!(request.name, "/lfs/a.bin");
        assert_eq!(request.off as usize, device_file.len());
        assert_eq!(request.len, if request.off == 0 { Some(1000) } else { None });
        assert!(request.data.len() <= 197);
        device_file.extend_from_slice(request.data);
        let done = transfer
            .handle_response(&FileUploadResponse { off: device_file.len() as u64 }, &mut progress)
            .unwrap();
        assert_eq!(done, device_file.len() == 1000);
        assert_eq!(done, transfer.is_done());
    }
    assert_eq!(requests, 6);
    assert_eq!(device_file, data);
    assert_eq!(
        progress.calls,
        vec![(197, 1000), (394, 1000), (591, 1000), (788, 1000), (985, 1000), (1000, 1000)]
    );
}

#[test]
fn file_upload_follows_the_offset_of_the_device() {
    let data = pattern(500);
    let mut transfer = FileUploadTransfer::new("f", &data, 159).unwrap();
    assert_eq!(transfer.total_len(), 500);
    let first = transfer.next_request().unwrap();
    assert_eq!((first.off, first.data.len(), first.len), (0, 100, Some(500)));
    // the device took only 30 bytes
    assert_eq!(transfer.advance(&FileUploadResponse { off: 30 }, true), Ok(false));
    assert_eq!(transfer.current_offset(), 30);
    let second = transfer.next_request().unwrap();
    assert_eq!((second.off, second.len), (30, None));
    assert_eq!(second.data, &data[30..130]);
    // the device starts over
    assert_eq!(transfer.advance(&FileUploadResponse { off: 0 }, true), Ok(false));
    let third = transfer.next_request().unwrap();
    assert_eq!((third.off, third.len), (0, Some(500)));
    // near the end the chunk is what is left
    assert_eq!(transfer.advance(&FileUploadResponse { off: 450 }, true), Ok(false));
    let last = transfer.next_request().unwrap();
    assert_eq!(last.data, &data[450..]);
    assert_eq!(transfer.advance(&FileUploadResponse { off: 500 }, true), Ok(true));
    assert!(transfer.next_request().is_none());
    // an offset behind the end ends the transfer as well
    let mut transfer = FileUploadTransfer::new("f", &data, 159).unwrap();
    assert_eq!(transfer.advance(&FileUploadResponse { off: 501 }, true), Ok(true));
    assert!(transfer.next_request().is_none());
}

#[test]
fn empty_file_is_uploaded_with_one_request() {
    let mut transfer = FileUploadTransfer::new("empty", &[], 256).unwrap();
    assert!(!transfer.is_done());
    let request = transfer.next_request().unwrap();
    assert_eq!((request.off, request.data.len(), request.len), (0, 0, Some(0)));
    assert_eq!(transfer.handle_response(&FileUploadResponse { off: 0 }, &mut NoProgress), Ok(true));
    assert!(transfer.next_request().is_none());
}

#[test]
fn file_upload_cancelled_by_the_progress_callback() {
    let data = pattern(1000);
    let mut transfer = FileUploadTransfer::new("f", &data, 256).unwrap();
    let mut progress = Recorder { calls: vec![], cancel_at: Some(2) };
    transfer.next_request().unwrap();
    assert_eq!(transfer.handle_response(&FileUploadResponse { off: 197 }, &mut progress), Ok(false));
    transfer.next_request().unwrap();
    assert_eq!(
        transfer.handle_response(&FileUploadResponse { off: 394 }, &mut progress),
        Err(FileUploadError::ProgressCallbackError)
    );
    assert_eq!(progress.calls, vec![(197, 1000), (394, 1000)]);
    // what the device has is not rolled back: the offset stays
    assert_eq!(transfer.current_offset(), 394);
    assert_eq!(
        transfer.advance(&FileUploadResponse { off: 1000 }, false),
        Err(FileUploadError::ProgressCallbackError)
    );
}

#[test]
fn frame_size_too_small_for_an_upload() {
    assert_eq!(
        FileUploadTransfer::new("f", &[1, 2, 3], 59).err(),
        Some(FileUploadError::FrameSizeTooSmall)
    );
    assert_eq!(
        FileUploadTransfer::new("f", &[1, 2, 3], 0).err(),
        Some(FileUploadError::FrameSizeTooSmall)
    );
    let transfer = FileUploadTransfer::new("f", &[1, 2, 3], 60).unwrap();
    assert_eq!(transfer.next_request().unwrap().data, &[1]);
    assert_eq!(
        ImageUploadTransfer::new(&[1, 2, 3], None, None, false, 106).err(),
        Some(ImageUploadError::FrameSizeTooSmall)
    );
    let transfer = ImageUploadTransfer::new(&[1, 2, 3], None, None, false, 108).unwrap();
    assert_eq!(transfer.next_request().unwrap().data, &[1, 2]);
    let mut c = client();
    c.set_frame_size(10);
    assert_eq!(c.fs_file_upload("f", &[]).err(), Some(FileUploadError::FrameSizeTooSmall));
    assert_eq!(
        c.image_upload(&[], None, None, false).err(),
        Some(ImageUploadError::FrameSizeTooSmall)
    );
}

#[test]
fn file_download_collects_the_chunks() {
    let file = pattern(700);
    let mut transfer = client().fs_file_download("/lfs/b.bin");
    let mut progress = Recorder { calls: vec![], cancel_at: None };
    let mut requests = 0;
    while let Some(request) = transfer.next_request() {
        assert_eq!(request.name, "/lfs/b.bin");
        let off = request.off as usize;
        assert_eq!(off, requests * 256);
        requests += 1;
        let end = (off + 256).min(file.len());
        let response = FileDownloadResponse {
            off: request.off,
            data: file[off..end].to_vec(),
            len: if off == 0 { Some(700) } else { None },
        };
        let done = transfer.handle_response(&response, &mut progress).unwrap();
        assert_eq!(done, end == 700);
    }
    assert_eq!(requests, 3);
    assert_eq!(progress.calls, vec![(256, 700), (512, 700), (700, 700)]);
    assert_eq!(transfer.into_data(), file);
}

#[test]
fn first_download_response_must_state_the_length() {
    let mut transfer = FileDownloadTransfer::new("x");
    let response = FileDownloadResponse { off: 0, data: vec![1, 2, 3], len: None };
    assert_eq!(
        transfer.advance(&response, true),
        Err(FileDownloadError::ExecuteError(ExecuteError::DecodeFailed))
    );
    let mut progress = Recorder { calls: vec![], cancel_at: None };
    assert_eq!(
        transfer.handle_response(&response, &mut progress),
        Err(FileDownloadError::ExecuteError(ExecuteError::DecodeFailed))
    );
    assert!(progress.calls.is_empty());
    // nothing was kept
    assert_eq!(transfer.next_request().unwrap().off, 0);
    assert!(transfer.into_data().is_empty());
}

#[test]
fn download_of_an_empty_file() {
    let mut transfer = FileDownloadTransfer::new("x");
    assert!(!transfer.is_done());
    assert_eq!(transfer.next_request().unwrap().off, 0);
    let response = FileDownloadResponse { off: 0, data: vec![], len: Some(0) };
    assert_eq!(transfer.handle_response(&response, &mut NoProgress), Ok(true));
    assert!(transfer.next_request().is_none());
    assert!(transfer.into_data().is_empty());
}

#[test]
fn later_download_responses_need_no_length() {
    let mut transfer = FileDownloadTransfer::new("x");
    assert_eq!(
        transfer.advance(&FileDownloadResponse { off: 0, data: vec![1, 2], len: Some(5) }, true),
        Ok(false)
    );
    assert_eq!(
        transfer.advance(&FileDownloadResponse { off: 2, data: vec![3], len: None }, true),
        Ok(false)
    );
    // a later length does not change the first
    assert_eq!(
        transfer.advance(&FileDownloadResponse { off: 3, data: vec![4], len: Some(4) }, true),
        Ok(false)
    );
    assert_eq!(transfer.next_request().unwrap().off, 4);
    assert_eq!(
        transfer.advance(&FileDownloadResponse { off: 4, data: vec![5], len: None }, false),
        Err(FileDownloadError::ProgressCallbackError)
    );
    assert!(transfer.is_done());
    assert_eq!(transfer.into_data(), vec![1, 2, 3, 4, 5]);
}

#[test]
fn upload_then_download_gives_the_file_back() {
    let original = pattern(5000);
    let mut storage: Vec<u8> = Vec::new();

    let mut c = client();
    c.set_frame_size(300);
    let mut up = c.fs_file_upload("/lfs/file", &original).unwrap();
    while let Some(request) = up.next_request() {
        if request.off == 0 {
            storage.clear();
        }
        assert_eq!(request.off as usize, storage.len());
        storage.extend_from_slice(request.data);
        up.handle_response(&FileUploadResponse { off: storage.len() as u64 }, &mut NoProgress)
            .unwrap();
    }

    let mut down = c.fs_file_download("/lfs/file");
    while let Some(request) = down.next_request() {
        let off = request.off as usize;
        let end = (off + 123).min(storage.len());
        let response = FileDownloadResponse {
            off: request.off,
            data: storage[off..end].to_vec(),
            len: if off == 0 { Some(storage.len() as u64) } else { None },
        };
        down.handle_response(&response, &mut NoProgress).unwrap();
    }
    assert_eq!(down.into_data(), original);
}

#[test]
fn image_upload_first_chunk_carries_the_extras() {
    let image = pattern(400);
    let sha = [0x5Au8; 32];
    let mut transfer = ImageUploadTransfer::new(&image, Some(2), Some(&sha), true, 256).unwrap();
    assert_eq!(transfer.total_len(), 400);
    let first = transfer.next_request().unwrap();
    assert_eq!(first.image, Some(2));
    assert_eq!(first.off, 0);
    assert_eq!(first.data, &image[..150]);
    assert_eq!(first.len, Some(400));
    assert_eq!(first.sha, Some(&sha));
    assert_eq!(first.upgrade, Some(true));
    assert_eq!(
        transfer.advance(&ImageUploadResponse { off: 150, matched: None }, true),
        Ok(false)
    );
    let second = transfer.next_request().unwrap();
    assert_eq!(second.image, Some(2));
    assert_eq!(second.off, 150);
    assert_eq!(second.data, &image[150..300]);
    assert_eq!(second.len, None);
    assert_eq!(second.sha, None);
    assert_eq!(second.upgrade, None);
    assert_eq!(
        transfer.advance(&ImageUploadResponse { off: 300, matched: Some(false) }, true),
        Ok(false)
    );
    assert_eq!(transfer.next_request().unwrap().data, &image[300..]);
    assert_eq!(
        transfer.advance(&ImageUploadResponse { off: 400, matched: None }, true),
        Ok(true)
    );
    assert!(transfer.next_request().is_none());

    // without checksum and upgrade flag the first chunk carries neither
    let transfer = ImageUploadTransfer::new(&image, None, None, false, 256).unwrap();
    let first = transfer.next_request().unwrap();
    assert_eq!((first.image, first.len, first.sha, first.upgrade), (None, Some(400), None, None));
}

#[test]
fn image_upload_ends_early_on_a_match() {
    let image = pattern(4000);
    let sha = [1u8; 32];
    let mut transfer = ImageUploadTransfer::new(&image, None, Some(&sha), false, 256).unwrap();
    let mut progress = Recorder { calls: vec![], cancel_at: None };
    transfer.next_request().unwrap();
    assert_eq!(
        transfer.handle_response(&ImageUploadResponse { off: 150, matched: Some(true) }, &mut progress),
        Ok(true)
    );
    assert!(transfer.is_done());
    assert!(transfer.next_request().is_none());
    assert_eq!(transfer.current_offset(), 150);
    assert_eq!(progress.calls, vec![(150, 4000)]);
}

#[test]
fn image_upload_cancelled_by_the_progress_callback() {
    let image = pattern(4000);
    let mut transfer = ImageUploadTransfer::new(&image, None, None, false, 256).unwrap();
    let mut progress = Recorder { calls: vec![], cancel_at: Some(1) };
    assert_eq!(
        transfer.handle_response(&ImageUploadResponse { off: 150, matched: None }, &mut progress),
        Err(ImageUploadError::ProgressCallbackError)
    );
}

#[test]
fn transfer_error_codes() {
    let e = FileUploadError::ExecuteError(ExecuteError::EncodeFailed);
    assert_eq!(e.code(), "zephyr_mcumgr::client::file_upload::execute");
    assert_eq!(FileUploadError::ProgressCallbackError.message(), "Progress callback returned an error");
    assert_eq!(
        FileUploadError::FrameSizeTooSmall.code(),
        "zephyr_mcumgr::client::file_upload::framesize_too_small"
    );
    assert_eq!(
        FileDownloadError::ProgressCallbackError.code(),
        "zephyr_mcumgr::client::file_download::progress_cb_error"
    );
    assert_eq!(
        FileDownloadError::ExecuteError(ExecuteError::DecodeFailed).message(),
        "Command execution failed"
    );
    assert_eq!(
        ImageUploadError::ProgressCallbackError.code(),
        "zephyr_mcumgr::client::image_upload::progress_cb_error"
    );
    assert_eq!(
        ImageUploadError::FrameSizeTooSmall.message(),
        "SMP frame size too small for this command"
    );
}

#[test]
fn what_the_progress_receiver_is_handed() {
    let data = pattern(1000);
    let up = FileUploadTransfer::new("f", &data, 256).unwrap();
    assert_eq!(up.progress_after(&FileUploadResponse { off: 197 }), (197, 1000));
    assert_eq!(up.progress_after(&FileUploadResponse { off: 0 }), (0, 1000));

    let image = ImageUploadTransfer::new(&data, None, None, false, 256).unwrap();
    assert_eq!(
        image.progress_after(&ImageUploadResponse { off: 150, matched: Some(true) }),
        (150, 1000)
    );

    let mut down = FileDownloadTransfer::new("f");
    let nameless = FileDownloadResponse { off: 0, data: vec![1, 2, 3], len: None };
    assert_eq!(down.progress_after(&nameless), None);
    let first = FileDownloadResponse { off: 0, data: vec![1, 2, 3], len: Some(10) };
    assert_eq!(down.progress_after(&first), Some((3, 10)));
    down.advance(&first, true).unwrap();
    // the length stays the one stated first
    let second = FileDownloadResponse { off: 3, data: vec![4, 5], len: Some(99) };
    assert_eq!(down.progress_after(&second), Some((5, 10)));
    assert_eq!(down.progress_after(&nameless), Some((6, 10)));
}
