//! Uploads and downloads, with a simulated device at the other end.

use mcumgr_toolkit::client::file_download::{FileDownloadStep, ReceivedFileChunk};
use mcumgr_toolkit::client::file_upload::FileUploadStep;
use mcumgr_toolkit::client::image_upload::{ImageUploadStep, PendingImageChunk};
use mcumgr_toolkit::client::MCUmgrClient;
use mcumgr_toolkit::commands::fs::{FileDownloadResponse, FileUploadResponse};
use mcumgr_toolkit::commands::image::ImageUploadResponse;
use mcumgr_toolkit::commands::request;
use mcumgr_toolkit::error::{
    DataTooLargeError, DeviceError, ExecuteError, IoError, IoErrorKind, MCUmgrClientError,
    ReceiveError,
};

fn client(smp_frame_size: usize) -> MCUmgrClient<()> {
    let mut client = MCUmgrClient::new_from_serial(());
    client.set_frame_size(smp_frame_size);
    client
}

fn content(len: usize) -> Vec<u8> {
    (0..len).map(|i| (i * 31 % 251) as u8).collect()
}

fn io_error() -> IoError {
    IoError {
        kind: IoErrorKind::Other,
        message: "disk full".to_string(),
    }
}

fn device_error() -> ExecuteError {
    ExecuteError::ErrorResponse(DeviceError::V1 { rc: 3 })
}

const ABC_SHA256: [u8; 32] = [
    0xba, 0x78, 0x16, 0xbf, 0x8f, 0x01, 0xcf, 0xea, 0x41, 0x41, 0x40, 0xde, 0x5d, 0xae, 0x22, 0x23,
    0xb0, 0x03, 0x61, 0xa3, 0x96, 0x17, 0x7a, 0x9c, 0xb4, 0x10, 0xff, 0x61, 0xf2, 0x00, 0x15, 0xad,
];

fn first_chunk<'a>(step: ImageUploadStep<'a>) -> PendingImageChunk<'a> {
    match step {
        ImageUploadStep::Send(chunk) => chunk,
        _ => panic!("there is nothing to send"),
    }
}

fn upload_result(step: ImageUploadStep<'_>) -> Result<(), MCUmgrClientError> {
    match step {
        ImageUploadStep::Finished(result) => result,
        _ => panic!("the upload is not over"),
    }
}

fn uploaded(off: u64, matched: Option<bool>) -> Result<ImageUploadResponse, ExecuteError> {
    Ok(ImageUploadResponse { off, matched })
}

#[test]
fn an_image_arrives_in_full() {
    let data = content(1000);
    let mut received: Vec<u8> = vec![];
    let mut reports = vec![];
    let mut step = client(200).image_upload(&data, Some(3), None, true);
    loop {
        step = match step {
            ImageUploadStep::Send(chunk) => {
                let command = chunk.command();
                assert!(8 + request(&command, true).payload.len() <= 200);
                assert_eq!(chunk.request(), request(&command, true));
                assert_eq!(command.off, received.len() as u64);
                if received.is_empty() {
                    assert_eq!(command.image, Some(3));
                    assert_eq!(command.len, Some(1000));
                    assert_eq!(command.upgrade, Some(true));
                    assert!(command.sha.is_some());
                } else {
                    assert_eq!(command.image, None);
                    assert_eq!(command.len, None);
                    assert_eq!(command.upgrade, None);
                    assert!(command.sha.is_none());
                }
                received.extend_from_slice(command.data);
                let matched = if received.len() == data.len() {
                    Some(true)
                } else {
                    None
                };
                chunk.on_reply(uploaded(received.len() as u64, matched))
            }
            ImageUploadStep::Report(chunk) => {
                reports.push(chunk.transferred());
                chunk.on_report(true)
            }
            ImageUploadStep::Finished(result) => {
                assert_eq!(result, Ok(()));
                break;
            }
        };
    }
    assert_eq!(received, data);
    // 200 - 8 - 91 bytes are left for the data and its length
    assert_eq!(reports[0], (100, 1000));
    assert_eq!(reports.len(), 10);
    assert_eq!(reports[9], (1000, 1000));
}

#[test]
fn the_checksum_of_an_image_is_sent() {
    let client = client(384);
    let chunk = first_chunk(client.image_upload(b"abc", None, None, false));
    assert_eq!(chunk.command().sha, Some(&ABC_SHA256));
    assert_eq!(chunk.command().data, b"abc");
    assert_eq!(chunk.command().upgrade, Some(false));
    let chunk = first_chunk(client.image_upload(b"abc", None, Some(ABC_SHA256), false));
    assert_eq!(chunk.command().sha, Some(&ABC_SHA256));
    assert_eq!(
        upload_result(client.image_upload(b"abd", None, Some(ABC_SHA256), false)),
        Err(MCUmgrClientError::ChecksumMismatch)
    );
}

#[test]
fn an_empty_image_needs_no_transfer() {
    assert_eq!(
        upload_result(client(384).image_upload(&[], None, None, false)),
        Ok(())
    );
}

#[test]
fn an_image_does_not_fit_into_a_small_frame() {
    assert_eq!(
        upload_result(client(100).image_upload(b"abc", None, Some([0; 32]), false)),
        Err(MCUmgrClientError::FrameSizeTooSmall(DataTooLargeError))
    );
}

#[test]
fn the_device_decides_where_an_image_upload_continues() {
    let data = content(500);
    let client = client(200);
    let chunk = first_chunk(client.image_upload(&data, None, None, false));
    let step = chunk.on_reply(uploaded(450, None));
    let chunk = match step {
        ImageUploadStep::Report(chunk) => first_chunk(chunk.on_report(true)),
        _ => panic!("there is nothing to report"),
    };
    assert_eq!(chunk.command().off, 450);
    assert_eq!(chunk.command().data, &data[450..]);
    // Back to the beginning
    let chunk = match chunk.on_reply(uploaded(0, None)) {
        ImageUploadStep::Report(chunk) => first_chunk(chunk.on_report(true)),
        _ => panic!("there is nothing to report"),
    };
    assert_eq!(chunk.command().off, 0);
    assert_eq!(chunk.command().len, Some(500));
    assert_eq!(
        upload_result(chunk.on_reply(uploaded(501, None))),
        Err(MCUmgrClientError::UnexpectedOffset)
    );
}

fn finish_upload(matched: &[Option<bool>]) -> Result<(), MCUmgrClientError> {
    let data = content(matched.len());
    let client = client(384);
    let mut step = client.image_upload(&data, None, None, false);
    for (i, matched) in matched.iter().enumerate() {
        step = match first_chunk(step).on_reply(uploaded(i as u64 + 1, *matched)) {
            ImageUploadStep::Report(chunk) => chunk.on_report(true),
            _ => panic!("there is nothing to report"),
        };
    }
    upload_result(step)
}

#[test]
fn the_last_verdict_on_the_checksum_counts() {
    assert_eq!(finish_upload(&[None, None]), Ok(()));
    assert_eq!(finish_upload(&[Some(false), Some(true)]), Ok(()));
    assert_eq!(
        finish_upload(&[Some(true), Some(false)]),
        Err(MCUmgrClientError::ChecksumMismatchOnDevice)
    );
    assert_eq!(
        finish_upload(&[Some(false), None]),
        Err(MCUmgrClientError::ChecksumMismatchOnDevice)
    );
}

#[test]
fn an_image_upload_ends_with_the_first_failure() {
    let client = client(384);
    let chunk = first_chunk(client.image_upload(b"abc", None, None, false));
    assert_eq!(
        upload_result(chunk.on_reply(Err(device_error()))),
        Err(MCUmgrClientError::ExecuteError(device_error()))
    );
    let chunk = first_chunk(client.image_upload(b"abc", None, None, false));
    match chunk.on_reply(uploaded(3, Some(true))) {
        ImageUploadStep::Report(chunk) => assert_eq!(
            upload_result(chunk.on_report(false)),
            Err(MCUmgrClientError::ProgressCallbackError)
        ),
        _ => panic!("there is nothing to report"),
    }
}

fn upload_file(
    smp_frame_size: usize,
    name: &str,
    data: &[u8],
) -> (Result<(), MCUmgrClientError>, Vec<u8>, Vec<(u64, u64)>) {
    let mut stored: Vec<u8> = vec![];
    let mut reports = vec![];
    let mut read = 0;
    let client = client(smp_frame_size);
    let mut step = client.fs_file_upload(name, data.len() as u64);
    loop {
        step = match step {
            FileUploadStep::Read(chunk) => {
                let start = read;
                read += chunk.wanted();
                chunk.on_read(Ok(data[start..read].to_vec()))
            }
            FileUploadStep::Send(chunk) => {
                let command = chunk.command();
                assert!(8 + request(&command, true).payload.len() <= smp_frame_size);
                assert_eq!(chunk.request(), request(&command, true));
                assert_eq!(command.name, name);
                assert_eq!(command.off, stored.len() as u64);
                let len = if stored.is_empty() {
                    Some(data.len() as u64)
                } else {
                    None
                };
                assert_eq!(command.len, len);
                stored.extend_from_slice(command.data);
                // The offset that the device reports is not looked at
                chunk.on_reply(Ok(FileUploadResponse { off: 0 }))
            }
            FileUploadStep::Report(chunk) => {
                reports.push(chunk.transferred());
                chunk.on_report(true)
            }
            FileUploadStep::Finished(result) => return (result, stored, reports),
        };
    }
}

fn download_file(
    name: &str,
    data: &[u8],
    chunk_size: usize,
) -> (Result<(), MCUmgrClientError>, Vec<u8>, Vec<(u64, u64)>) {
    let mut written: Vec<u8> = vec![];
    let mut reports = vec![];
    let client = client(384);
    let mut step = client.fs_file_download(name);
    loop {
        step = match step {
            FileDownloadStep::Request(pending) => {
                let command = pending.command();
                assert_eq!(pending.request(), request(&command, true));
                assert_eq!(command.name, name);
                let off = command.off;
                let start = off as usize;
                let end = data.len().min(start + chunk_size);
                pending.on_reply(Ok(FileDownloadResponse {
                    off,
                    data: data[start..end].to_vec(),
                    len: if off == 0 {
                        Some(data.len() as u64)
                    } else {
                        None
                    },
                }))
            }
            FileDownloadStep::Report(report) => {
                reports.push(report.transferred());
                report.on_report(true)
            }
            FileDownloadStep::Write(chunk) => {
                written.extend_from_slice(&chunk.data);
                assert_eq!(chunk.end(), Some(written.len() as u64));
                chunk.on_written(Ok(()))
            }
            FileDownloadStep::Finished(result) => return (result, written, reports),
        };
    }
}

#[test]
fn a_file_arrives_in_full() {
    let data = content(100);
    let (result, stored, reports) = upload_file(86, "test.txt", &data);
    assert_eq!(result, Ok(()));
    assert_eq!(stored, data);
    assert_eq!(reports, vec![(30, 100), (60, 100), (90, 100), (100, 100)]);
    assert_eq!(upload_file(86, "test.txt", &[]), (Ok(()), vec![], vec![]));
}

#[test]
fn a_file_does_not_fit_into_a_small_frame() {
    let (result, stored, _) = upload_file(56, "test.txt", b"abc");
    assert_eq!(
        result,
        Err(MCUmgrClientError::FrameSizeTooSmall(DataTooLargeError))
    );
    assert_eq!(stored, vec![]);
}

#[test]
fn a_downloaded_file_is_the_uploaded_one() {
    let data = content(1000);
    let (result, stored, _) = upload_file(384, "a.bin", &data);
    assert_eq!(result, Ok(()));
    let (result, written, _) = download_file("a.bin", &stored, 128);
    assert_eq!(result, Ok(()));
    assert_eq!(written, data);
}

#[test]
fn a_download_reports_its_progress() {
    let (result, written, reports) = download_file("x", b"abcdefg", 3);
    assert_eq!(result, Ok(()));
    assert_eq!(written, b"abcdefg");
    assert_eq!(reports, vec![(0, 7), (3, 7), (6, 7), (7, 7)]);
    let (result, written, reports) = download_file("x", b"", 3);
    assert_eq!(result, Ok(()));
    assert_eq!(written, b"");
    assert_eq!(reports, vec![(0, 0), (0, 0)]);
}

fn download_of(replies: Vec<FileDownloadResponse>) -> Result<(), MCUmgrClientError> {
    let client = client(384);
    let mut replies = replies.into_iter();
    let mut step = client.fs_file_download("x");
    loop {
        step = match step {
            FileDownloadStep::Request(request) => request.on_reply(Ok(replies.next().unwrap())),
            FileDownloadStep::Report(report) => report.on_report(true),
            FileDownloadStep::Write(chunk) => chunk.on_written(Ok(())),
            FileDownloadStep::Finished(result) => return result,
        };
    }
}

fn part(off: u64, data: &[u8], len: Option<u64>) -> FileDownloadResponse {
    FileDownloadResponse {
        off,
        data: data.to_vec(),
        len,
    }
}

#[test]
fn responses_to_a_download_are_checked() {
    assert_eq!(
        download_of(vec![part(0, b"ab", Some(3)), part(2, b"c", None)]),
        Ok(())
    );
    assert_eq!(
        download_of(vec![part(0, b"ab", None)]),
        Err(MCUmgrClientError::MissingSize)
    );
    // The missing size is noticed before the wrong offset
    assert_eq!(
        download_of(vec![part(5, b"ab", None)]),
        Err(MCUmgrClientError::MissingSize)
    );
    assert_eq!(
        download_of(vec![part(1, b"ab", Some(3))]),
        Err(MCUmgrClientError::UnexpectedOffset)
    );
    assert_eq!(
        download_of(vec![part(0, b"ab", Some(3)), part(1, b"c", None)]),
        Err(MCUmgrClientError::UnexpectedOffset)
    );
    assert_eq!(
        download_of(vec![part(0, b"ab", Some(3)), part(2, b"cd", None)]),
        Err(MCUmgrClientError::SizeMismatch)
    );
    assert_eq!(
        download_of(vec![part(0, b"ab", Some(1))]),
        Err(MCUmgrClientError::SizeMismatch)
    );
}

fn download_result(step: FileDownloadStep<'_>) -> Result<(), MCUmgrClientError> {
    match step {
        FileDownloadStep::Finished(result) => result,
        _ => panic!("the download is not over"),
    }
}

#[test]
fn a_download_ends_with_the_first_failure() {
    let client = client(384);
    let request = match client.fs_file_download("x") {
        FileDownloadStep::Request(request) => request,
        _ => panic!("there is nothing to request"),
    };
    assert_eq!(
        download_result(request.on_reply(Err(device_error()))),
        Err(MCUmgrClientError::ExecuteError(device_error()))
    );
    let report = || match client.fs_file_download("x") {
        FileDownloadStep::Request(request) => {
            match request.on_reply(Ok(part(0, b"abc", Some(3)))) {
                FileDownloadStep::Report(report) => report,
                _ => panic!("there is nothing to report"),
            }
        }
        _ => panic!("there is nothing to request"),
    };
    assert_eq!(
        download_result(report().on_report(false)),
        Err(MCUmgrClientError::ProgressCallbackError)
    );
    match report().on_report(true) {
        FileDownloadStep::Write(chunk) => assert_eq!(
            download_result(chunk.on_written(Err(io_error()))),
            Err(MCUmgrClientError::WriterError(io_error()))
        ),
        _ => panic!("there is nothing to write"),
    }
}

fn file_result(step: FileUploadStep<'_>) -> Result<(), MCUmgrClientError> {
    match step {
        FileUploadStep::Finished(result) => result,
        _ => panic!("the upload is not over"),
    }
}

#[test]
fn a_file_upload_ends_with_the_first_failure() {
    let client = client(384);
    let read = || match client.fs_file_upload("x", 3) {
        FileUploadStep::Read(chunk) => chunk,
        _ => panic!("there is nothing to read"),
    };
    let send = || match read().on_read(Ok(b"abc".to_vec())) {
        FileUploadStep::Send(chunk) => chunk,
        _ => panic!("there is nothing to send"),
    };
    assert_eq!(
        file_result(read().on_read(Err(io_error()))),
        Err(MCUmgrClientError::ReaderError(io_error()))
    );
    assert_eq!(
        file_result(send().on_reply(Err(device_error()))),
        Err(MCUmgrClientError::ExecuteError(device_error()))
    );
    match send().on_reply(Ok(FileUploadResponse { off: 3 })) {
        FileUploadStep::Report(chunk) => {
            assert_eq!(chunk.transferred(), (3, 3));
            assert_eq!(
                file_result(chunk.on_report(false)),
                Err(MCUmgrClientError::ProgressCallbackError)
            )
        }
        _ => panic!("there is nothing to report"),
    }
}

#[test]
fn a_timeout_of_the_first_chunk_is_noticed() {
    let data = content(500);
    let client = client(200);
    let failed = |kind| -> Result<ImageUploadResponse, ExecuteError> {
        Err(ExecuteError::ReceiveFailed(ReceiveError::TransportError(
            IoError {
                kind,
                message: String::new(),
            },
        )))
    };
    let chunk = first_chunk(client.image_upload(&data, None, None, false));
    assert!(chunk.first_chunk_timed_out(&failed(IoErrorKind::TimedOut)));
    assert!(!chunk.first_chunk_timed_out(&failed(IoErrorKind::BrokenPipe)));
    assert!(!chunk.first_chunk_timed_out(&Err(device_error())));
    assert!(!chunk.first_chunk_timed_out(&uploaded(100, None)));
    let chunk = match chunk.on_reply(uploaded(100, None)) {
        ImageUploadStep::Report(chunk) => first_chunk(chunk.on_report(true)),
        _ => panic!("there is nothing to report"),
    };
    assert!(!chunk.first_chunk_timed_out(&failed(IoErrorKind::TimedOut)));
}

#[test]
fn the_verdict_on_the_checksum_is_told() {
    let data = content(3);
    let client = client(384);
    let mut step = client.image_upload(&data, None, None, false);
    for (off, matched, expected) in [
        (1, None, None),
        (2, Some(false), Some(false)),
        (2, None, Some(false)),
        (3, Some(true), Some(true)),
    ] {
        step = match first_chunk(step).on_reply(uploaded(off, matched)) {
            ImageUploadStep::Report(chunk) => {
                assert_eq!(chunk.verdict(), expected);
                chunk.on_report(true)
            }
            _ => panic!("there is nothing to report"),
        };
    }
    assert_eq!(upload_result(step), Ok(()));
}

#[test]
fn a_failed_write_is_reported_at_any_offset() {
    let chunk = ReceivedFileChunk {
        name: "x",
        offset: u64::MAX,
        file_len: u64::MAX,
        data: b"abc".to_vec(),
    };
    assert_eq!(chunk.end(), None);
    assert_eq!(
        download_result(chunk.on_written(Err(io_error()))),
        Err(MCUmgrClientError::WriterError(io_error()))
    );
}
