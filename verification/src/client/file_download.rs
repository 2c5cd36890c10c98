//! Loading a file from the device, one chunk after the other.
//!
//! The download does not talk to the device itself: every step says what has to be done next,
//! and takes the outcome to get to the following step.

use crate::cbor::{map_bytes, Item};
use crate::commands::fs::{FileDownload, FileDownloadResponse};
use crate::commands::{request, McuMgrCommand, Request};
use crate::error::{ExecuteError, IoError, MCUmgrClientError};
use vstd::prelude::*;

verus! {

/// The next chunk has to be requested from the device.
pub struct PendingFileRequest<'a> {
    /// The full path of the file on the device
    pub name: &'a str,
    /// Where the next chunk starts
    pub offset: u64,
    /// The size of the file, once the device has told it
    pub file_len: Option<u64>,
}

/// The progress has to be reported to the user.
pub struct FileDownloadReport<'a> {
    /// The full path of the file on the device
    pub name: &'a str,
    /// The number of bytes that were received
    pub offset: u64,
    /// The size of the file
    pub file_len: u64,
    /// What is to be written after the report
    pub unwritten: Option<Vec<u8>>,
}

/// A chunk has to be written.
pub struct ReceivedFileChunk<'a> {
    /// The full path of the file on the device
    pub name: &'a str,
    /// The number of bytes that were received before
    pub offset: u64,
    /// The size of the file
    pub file_len: u64,
    /// The chunk
    pub data: Vec<u8>,
}

/// What has to be done next to download a file.
pub enum FileDownloadStep<'a> {
    /// Request the next chunk from the device
    Request(PendingFileRequest<'a>),
    /// Report the progress to the user
    Report(FileDownloadReport<'a>),
    /// Write a chunk
    Write(ReceivedFileChunk<'a>),
    /// Nothing, the download is over
    Finished(Result<(), MCUmgrClientError>),
}

/// The mathematical value of a download step.
pub enum DownloadStep {
    Request { name: Seq<char>, offset: u64, file_len: Option<u64> },
    Report { name: Seq<char>, offset: u64, file_len: u64, unwritten: Option<Seq<u8>> },
    Write { name: Seq<char>, offset: u64, file_len: u64, data: Seq<u8> },
    Finished(Result<(), MCUmgrClientError>),
}

impl<'a> View for FileDownloadStep<'a> {
    type V = DownloadStep;

    open spec fn view(&self) -> DownloadStep {
        match *self {
            FileDownloadStep::Request(request) => DownloadStep::Request {
                name: request.name@,
                offset: request.offset,
                file_len: request.file_len,
            },
            FileDownloadStep::Report(report) => DownloadStep::Report {
                name: report.name@,
                offset: report.offset,
                file_len: report.file_len,
                unwritten: match report.unwritten {
                    Some(data) => Some(data@),
                    None => None,
                },
            },
            FileDownloadStep::Write(chunk) => DownloadStep::Write {
                name: chunk.name@,
                offset: chunk.offset,
                file_len: chunk.file_len,
                data: chunk.data@,
            },
            FileDownloadStep::Finished(result) => DownloadStep::Finished(result),
        }
    }
}

/// The arguments of the command that requests the part of a file from an offset on, in order.
pub open spec fn requested_fields(name: Seq<char>, offset: u64) -> Seq<(Seq<char>, Item)> {
    seq![("off"@, Item::Unsigned(offset)), ("name"@, Item::Text(name))]
}

/// How a download starts: with a request for the beginning of the file.
pub open spec fn download_start(name: Seq<char>) -> DownloadStep {
    DownloadStep::Request { name, offset: 0, file_len: None }
}

/// The download goes on until the offset reaches the size of the file. It must not go beyond.
pub open spec fn download_continued(name: Seq<char>, offset: u64, file_len: u64) -> DownloadStep {
    if offset < file_len {
        DownloadStep::Request { name, offset, file_len: Some(file_len) }
    } else if offset == file_len {
        DownloadStep::Finished(Ok(()))
    } else {
        DownloadStep::Finished(Err(MCUmgrClientError::SizeMismatch))
    }
}

/// What follows the device's response to a request. The first response has to tell the size of
/// the file, and every response has to be for the requested offset.
pub open spec fn download_after_reply(
    name: Seq<char>,
    offset: u64,
    file_len: Option<u64>,
    reply: Result<FileDownloadResponse, ExecuteError>,
) -> DownloadStep {
    match (reply, file_len) {
        (Err(err), _) => DownloadStep::Finished(Err(MCUmgrClientError::ExecuteError(err))),
        (Ok(response), None) => if response.len is None {
            DownloadStep::Finished(Err(MCUmgrClientError::MissingSize))
        } else if response.off != offset {
            DownloadStep::Finished(Err(MCUmgrClientError::UnexpectedOffset))
        } else {
            DownloadStep::Report {
                name,
                offset,
                file_len: response.len->0,
                unwritten: Some(response.data@),
            }
        },
        (Ok(response), Some(file_len)) => if response.off != offset {
            DownloadStep::Finished(Err(MCUmgrClientError::UnexpectedOffset))
        } else {
            DownloadStep::Write { name, offset, file_len, data: response.data@ }
        },
    }
}

/// What follows a progress report.
pub open spec fn download_after_report(
    name: Seq<char>,
    offset: u64,
    file_len: u64,
    unwritten: Option<Seq<u8>>,
    accepted: bool,
) -> DownloadStep {
    if !accepted {
        DownloadStep::Finished(Err(MCUmgrClientError::ProgressCallbackError))
    } else {
        match unwritten {
            Some(data) => DownloadStep::Write { name, offset, file_len, data },
            None => download_continued(name, offset, file_len),
        }
    }
}

/// What follows the writing of a chunk.
pub open spec fn download_after_write(
    name: Seq<char>,
    offset: u64,
    file_len: u64,
    data: Seq<u8>,
    written: Result<(), IoError>,
) -> DownloadStep {
    match written {
        Err(err) => DownloadStep::Finished(Err(MCUmgrClientError::WriterError(err))),
        Ok(()) => DownloadStep::Report {
            name,
            offset: (offset + data.len()) as u64,
            file_len,
            unwritten: None,
        },
    }
}

impl<'a> FileDownloadStep<'a> {
    /// Starts a download.
    ///
    /// # Arguments
    ///
    /// * `name` - The full path of the file on the device.
    pub fn begin(name: &'a str) -> (step: FileDownloadStep<'a>)
        ensures
            step@ == download_start(name@),
    {
        FileDownloadStep::Request(PendingFileRequest { name, offset: 0, file_len: None })
    }
}

impl<'a> PendingFileRequest<'a> {
    /// The command that requests the chunk.
    pub fn command(&self) -> (command: FileDownload<'a>)
        ensures
            command.off == self.offset,
            command.name == self.name,
    {
        FileDownload { off: self.offset, name: self.name }
    }

    /// The request for the chunk. It is sent again if the transport fails.
    pub fn request(&self) -> (r: Request)
        ensures
            r.carries((FileDownload { off: self.offset, name: self.name })),
            r.payload@ == map_bytes(requested_fields(self.name@, self.offset)),
            r.use_retries,
    {
        assert((FileDownload { off: self.offset, name: self.name }).fields_spec()
            =~= requested_fields(self.name@, self.offset));
        request(&self.command(), true)
    }

    /// Continues with the device's response to the command.
    pub fn on_reply(self, reply: Result<FileDownloadResponse, ExecuteError>) -> (step:
        FileDownloadStep<'a>)
        ensures
            step@ == download_after_reply(self.name@, self.offset, self.file_len, reply),
    {
        let response = match reply {
            Ok(response) => response,
            Err(err) => {
                return FileDownloadStep::Finished(Err(MCUmgrClientError::from(err)));
            },
        };
        match self.file_len {
            None => {
                let file_len: u64 = match response.len {
                    Some(len) => len,
                    None => {
                        return FileDownloadStep::Finished(Err(MCUmgrClientError::MissingSize));
                    },
                };
                if response.off != self.offset {
                    return FileDownloadStep::Finished(Err(MCUmgrClientError::UnexpectedOffset));
                }
                FileDownloadStep::Report(
                    FileDownloadReport {
                        name: self.name,
                        offset: self.offset,
                        file_len,
                        unwritten: Some(response.data),
                    },
                )
            },
            Some(file_len) => {
                if response.off != self.offset {
                    return FileDownloadStep::Finished(Err(MCUmgrClientError::UnexpectedOffset));
                }
                FileDownloadStep::Write(
                    ReceivedFileChunk {
                        name: self.name,
                        offset: self.offset,
                        file_len,
                        data: response.data,
                    },
                )
            },
        }
    }
}

impl<'a> FileDownloadReport<'a> {
    /// The number of bytes that were transferred, and the number of bytes in total.
    pub fn transferred(&self) -> (r: (u64, u64))
        ensures
            r == (self.offset, self.file_len),
    {
        (self.offset, self.file_len)
    }

    /// Continues with the user's decision on whether to go on.
    pub fn on_report(self, accepted: bool) -> (step: FileDownloadStep<'a>)
        ensures
            step@ == download_after_report(
                self.name@,
                self.offset,
                self.file_len,
                match self.unwritten {
                    Some(data) => Some(data@),
                    None => None,
                },
                accepted,
            ),
    {
        if !accepted {
            return FileDownloadStep::Finished(Err(MCUmgrClientError::ProgressCallbackError));
        }
        if let Some(data) = self.unwritten {
            return FileDownloadStep::Write(
                ReceivedFileChunk {
                    name: self.name,
                    offset: self.offset,
                    file_len: self.file_len,
                    data,
                },
            );
        }
        if self.offset < self.file_len {
            FileDownloadStep::Request(
                PendingFileRequest {
                    name: self.name,
                    offset: self.offset,
                    file_len: Some(self.file_len),
                },
            )
        } else if self.offset != self.file_len {
            FileDownloadStep::Finished(Err(MCUmgrClientError::SizeMismatch))
        } else {
            FileDownloadStep::Finished(Ok(()))
        }
    }
}

impl<'a> ReceivedFileChunk<'a> {
    /// Where the chunk ends in the file, if that is a valid offset.
    pub fn end(&self) -> (r: Option<u64>)
        ensures
            r == if self.offset + self.data@.len() <= u64::MAX {
                Some((self.offset + self.data@.len()) as u64)
            } else {
                None
            },
    {
        self.offset.checked_add(self.data.len() as u64)
    }

    /// Continues with the outcome of writing the chunk.
    pub fn on_written(self, written: Result<(), IoError>) -> (step: FileDownloadStep<'a>)
        requires
            written is Ok ==> self.offset + self.data@.len() <= u64::MAX,
        ensures
            step@ == download_after_write(
                self.name@,
                self.offset,
                self.file_len,
                self.data@,
                written,
            ),
    {
        match written {
            Err(err) => FileDownloadStep::Finished(Err(MCUmgrClientError::WriterError(err))),
            Ok(()) => FileDownloadStep::Report(
                FileDownloadReport {
                    name: self.name,
                    offset: self.offset + self.data.len() as u64,
                    file_len: self.file_len,
                    unwritten: None,
                },
            ),
        }
    }
}

/// How a download ends that gets the given replies, whose progress reports are all accepted and
/// whose chunks are all written, together with everything that was written. There is no end if
/// the replies run out, or if more is written than an offset can count.
pub open spec fn download_outcome(
    step: DownloadStep,
    replies: Seq<Result<FileDownloadResponse, ExecuteError>>,
    written: Seq<u8>,
) -> Option<(Result<(), MCUmgrClientError>, Seq<u8>)>
    decreases
            replies.len(),
            match step {
                DownloadStep::Request { .. } => 1int,
                DownloadStep::Report { unwritten: None, .. } => 2,
                DownloadStep::Write { .. } => 3,
                DownloadStep::Report { .. } => 4,
                DownloadStep::Finished(_) => 0,
            },
{
    match step {
        DownloadStep::Finished(result) => Some((result, written)),
        DownloadStep::Request { name, offset, file_len } => if replies.len() == 0 {
            None
        } else {
            download_outcome(
                download_after_reply(name, offset, file_len, replies[0]),
                replies.drop_first(),
                written,
            )
        },
        DownloadStep::Report { name, offset, file_len, unwritten } => download_outcome(
            download_after_report(name, offset, file_len, unwritten, true),
            replies,
            written,
        ),
        DownloadStep::Write { name, offset, file_len, data } => if offset + data.len()
            > u64::MAX {
            None
        } else {
            download_outcome(
                download_after_write(name, offset, file_len, data, Ok(())),
                replies,
                written + data,
            )
        },
    }
}

/// The step of a download during which `written` was written so far.
spec fn download_counts(step: DownloadStep, written: Seq<u8>, file_len: u64) -> bool {
    match step {
        DownloadStep::Request { offset, file_len: Some(len), .. } => offset == written.len() && len
            == file_len,
        DownloadStep::Request { .. } => false,
        DownloadStep::Report { offset, file_len: len, .. } => offset == written.len() && len
            == file_len,
        DownloadStep::Write { offset, file_len: len, .. } => offset == written.len() && len
            == file_len,
        DownloadStep::Finished(Ok(())) => written.len() == file_len,
        DownloadStep::Finished(Err(_)) => true,
    }
}

proof fn lemma_download_counts(
    step: DownloadStep,
    replies: Seq<Result<FileDownloadResponse, ExecuteError>>,
    written: Seq<u8>,
    file_len: u64,
)
    requires
        download_counts(step, written, file_len),
    ensures
        download_outcome(step, replies, written) matches Some((Ok(()), all)) ==> all.len()
            == file_len,
    decreases
            replies.len(),
            match step {
                DownloadStep::Request { .. } => 1int,
                DownloadStep::Report { unwritten: None, .. } => 2,
                DownloadStep::Write { .. } => 3,
                DownloadStep::Report { .. } => 4,
                DownloadStep::Finished(_) => 0,
            },
{
    match step {
        DownloadStep::Finished(result) => {},
        DownloadStep::Request { name, offset, file_len: len } => {
            if replies.len() > 0 {
                lemma_download_counts(
                    download_after_reply(name, offset, len, replies[0]),
                    replies.drop_first(),
                    written,
                    file_len,
                );
            }
        },
        DownloadStep::Report { name, offset, file_len: len, unwritten } => {
            lemma_download_counts(
                download_after_report(name, offset, len, unwritten, true),
                replies,
                written,
                file_len,
            );
        },
        DownloadStep::Write { name, offset, file_len: len, data } => {
            if offset + data.len() <= u64::MAX {
                lemma_download_counts(
                    download_after_write(name, offset, len, data, Ok(())),
                    replies,
                    written + data,
                    file_len,
                );
            }
        },
    }
}

/// Whatever a device replies, a download that succeeds has written exactly as many bytes as the
/// first reply announced.
pub proof fn law_download_matches_reported_size(
    name: Seq<char>,
    replies: Seq<Result<FileDownloadResponse, ExecuteError>>,
)
    ensures
        download_outcome(download_start(name), replies, Seq::empty()) matches Some((Ok(()), all))
            ==> {
            &&& replies.len() > 0
            &&& replies[0] matches Ok(first)
            &&& first.len == Some(all.len() as u64)
            &&& all.len() <= u64::MAX
        },
{
    if replies.len() > 0 {
        let next = download_after_reply(name, 0, None, replies[0]);
        if next is Report {
            lemma_download_counts(
                next,
                replies.drop_first(),
                Seq::empty(),
                next->Report_file_len,
            );
        }
    }
}

/// The replies serve a file from the given offset on: every reply holds the piece of the file
/// that follows the previous one, and together they reach the end of the file.
pub open spec fn replies_serve(
    replies: Seq<Result<FileDownloadResponse, ExecuteError>>,
    file: Seq<u8>,
    from: int,
) -> bool
    decreases replies.len(),
{
    if replies.len() == 0 {
        from == file.len()
    } else {
        &&& replies[0] matches Ok(response)
        &&& response.off == from
        &&& from + response.data@.len() <= file.len()
        &&& response.data@ == file.subrange(from, from + response.data@.len())
        &&& replies_serve(replies.drop_first(), file, from + response.data@.len())
    }
}

proof fn lemma_download_of_served_file(
    name: Seq<char>,
    file: Seq<u8>,
    from: u64,
    replies: Seq<Result<FileDownloadResponse, ExecuteError>>,
    written: Seq<u8>,
)
    requires
        file.len() <= u64::MAX,
        from <= file.len(),
        written == file.subrange(0, from as int),
        replies_serve(replies, file, from as int),
    ensures
        download_outcome(
            download_continued(name, from, file.len() as u64),
            replies,
            written,
        ) == Some((Ok::<(), MCUmgrClientError>(()), file)),
    decreases replies.len(),
{
    let len = file.len() as u64;
    if from == len {
        assert(written =~= file);
    } else {
        let response = replies[0]->Ok_0;
        let data = response.data@;
        let rest = replies.drop_first();
        let end = (from + data.len()) as u64;
        assert(written + data =~= file.subrange(0, end as int));
        lemma_download_of_served_file(name, file, end, rest, written + data);
        let write = DownloadStep::Write { name, offset: from, file_len: len, data };
        let report = DownloadStep::Report { name, offset: end, file_len: len, unwritten: None };
        assert(download_outcome(write, rest, written) == download_outcome(
            report,
            rest,
            written + data,
        ));
    }
}

/// A download from a device that serves a file, in pieces of whatever sizes, succeeds and writes
/// exactly the file.
pub proof fn law_download_yields_file(
    name: Seq<char>,
    file: Seq<u8>,
    replies: Seq<Result<FileDownloadResponse, ExecuteError>>,
)
    requires
        replies.len() > 0,
        replies_serve(replies, file, 0),
        replies[0]->Ok_0.len == Some(file.len() as u64),
        file.len() <= u64::MAX,
    ensures
        download_outcome(download_start(name), replies, Seq::empty()) == Some(
            (Ok::<(), MCUmgrClientError>(()), file),
        ),
{
    let response = replies[0]->Ok_0;
    let data = response.data@;
    let rest = replies.drop_first();
    let len = file.len() as u64;
    let end = data.len() as u64;
    let announced = DownloadStep::Report { name, offset: 0, file_len: len, unwritten: Some(data) };
    let write = DownloadStep::Write { name, offset: 0, file_len: len, data };
    let report = DownloadStep::Report { name, offset: end, file_len: len, unwritten: None };
    assert(Seq::empty() + data =~= file.subrange(0, end as int));
    lemma_download_of_served_file(name, file, end, rest, Seq::empty() + data);
    assert(download_outcome(download_start(name), replies, Seq::empty()) == download_outcome(
        announced,
        rest,
        Seq::empty(),
    ));
    assert(download_outcome(announced, rest, Seq::empty()) == download_outcome(
        write,
        rest,
        Seq::empty(),
    ));
    assert(download_outcome(write, rest, Seq::empty()) == download_outcome(
        report,
        rest,
        Seq::empty() + data,
    ));
}

} // verus!
