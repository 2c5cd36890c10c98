//! Writing a file to the device, one chunk after the other.
//!
//! The upload does not talk to the device itself: every step says what has to be done next,
//! and takes the outcome to get to the following step.

use super::file_download::{download_outcome, download_start, law_download_yields_file, replies_serve};
use crate::cbor::{map_bytes, Item};
use crate::commands::fs::{
    file_upload_max_data_chunk_size, file_upload_size_with_one_byte, law_file_upload_fits,
    FileDownloadResponse, FileUpload, FileUploadResponse, FS_GROUP,
};
use crate::commands::{
    data_capacity, request, CommandHeader, McuMgrCommand, Request, MGMT_HDR_SIZE,
};
use crate::error::{DataTooLargeError, ExecuteError, IoError, MCUmgrClientError};
use vstd::prelude::*;

verus! {

/// What an upload remembers between two steps.
struct UploadState<'a> {
    name: &'a str,
    size: u64,
    chunk_size_max: usize,
    offset: u64,
}

/// How far an upload has come.
pub struct FileUploadProgress {
    /// The full path of the file on the device
    pub name: Seq<char>,
    /// The size of the file
    pub size: int,
    /// How much data fits into a single command
    pub chunk_size_max: int,
    /// Where the next chunk starts
    pub offset: int,
}

impl<'a> UploadState<'a> {
    closed spec fn progress(self) -> FileUploadProgress {
        FileUploadProgress {
            name: self.name@,
            size: self.size as int,
            chunk_size_max: self.chunk_size_max as int,
            offset: self.offset as int,
        }
    }
}

/// A chunk of the file has to be read.
pub struct UnreadFileChunk<'a> {
    state: UploadState<'a>,
}

/// A chunk of the file has to be sent to the device.
pub struct PendingFileChunk<'a> {
    state: UploadState<'a>,
    data: Vec<u8>,
}

/// The device took a chunk of the file, which has to be reported to the user.
pub struct TransferredFileChunk<'a> {
    state: UploadState<'a>,
}

/// What has to be done next to upload a file.
pub enum FileUploadStep<'a> {
    /// Read the next chunk
    Read(UnreadFileChunk<'a>),
    /// Send a chunk to the device
    Send(PendingFileChunk<'a>),
    /// Report the progress to the user
    Report(TransferredFileChunk<'a>),
    /// Nothing, the upload is over
    Finished(Result<(), MCUmgrClientError>),
}

/// The mathematical value of an upload step.
pub enum FileStep {
    Read(FileUploadProgress),
    Send(FileUploadProgress, Seq<u8>),
    Report(FileUploadProgress),
    Finished(Result<(), MCUmgrClientError>),
}

impl<'a> View for UnreadFileChunk<'a> {
    type V = FileUploadProgress;

    closed spec fn view(&self) -> FileUploadProgress {
        self.state.progress()
    }
}

impl<'a> View for PendingFileChunk<'a> {
    type V = (FileUploadProgress, Seq<u8>);

    closed spec fn view(&self) -> (FileUploadProgress, Seq<u8>) {
        (self.state.progress(), self.data@)
    }
}

impl<'a> View for TransferredFileChunk<'a> {
    type V = FileUploadProgress;

    closed spec fn view(&self) -> FileUploadProgress {
        self.state.progress()
    }
}

impl<'a> View for FileUploadStep<'a> {
    type V = FileStep;

    open spec fn view(&self) -> FileStep {
        match *self {
            FileUploadStep::Read(chunk) => FileStep::Read(chunk@),
            FileUploadStep::Send(chunk) => FileStep::Send(chunk@.0, chunk@.1),
            FileUploadStep::Report(chunk) => FileStep::Report(chunk@),
            FileUploadStep::Finished(result) => FileStep::Finished(result),
        }
    }
}

impl FileUploadProgress {
    /// The size of the next chunk.
    pub open spec fn chunk_size(self) -> int {
        if self.size - self.offset < self.chunk_size_max {
            self.size - self.offset
        } else {
            self.chunk_size_max
        }
    }

    /// The command sends the given chunk. The size of the file is only sent with the first chunk.
    pub open spec fn is_sent_by(self, data: Seq<u8>, command: FileUpload<'_, '_>) -> bool {
        &&& command.off == self.offset
        &&& command.data@ == data
        &&& command.name@ == self.name
        &&& command.len == if self.offset == 0 {
            Some(self.size as u64)
        } else {
            None
        }
    }

    /// The arguments of the command that sends the given chunk, in order.
    pub open spec fn sent_fields(self, data: Seq<u8>) -> Seq<(Seq<char>, Item)> {
        let fields = seq![
            ("off"@, Item::Unsigned(self.offset as u64)),
            ("data"@, Item::Bytes(data)),
            ("name"@, Item::Text(self.name)),
        ];
        if self.offset == 0 {
            fields.push(("len"@, Item::Unsigned(self.size as u64)))
        } else {
            fields
        }
    }

    /// The upload goes on until the offset reaches the size of the file.
    pub open spec fn go_on(self) -> FileStep {
        if self.offset < self.size {
            FileStep::Read(self)
        } else {
            FileStep::Finished(Ok(()))
        }
    }

    /// What follows the reading of a chunk.
    pub open spec fn after_read(self, read: Result<Seq<u8>, IoError>) -> FileStep {
        match read {
            Ok(data) => FileStep::Send(self, data),
            Err(err) => FileStep::Finished(Err(MCUmgrClientError::ReaderError(err))),
        }
    }

    /// What follows the device's response to a chunk.
    pub open spec fn after_reply(
        self,
        data: Seq<u8>,
        reply: Result<FileUploadResponse, ExecuteError>,
    ) -> FileStep {
        match reply {
            Ok(_) => FileStep::Report(
                FileUploadProgress { offset: self.offset + data.len(), ..self },
            ),
            Err(err) => FileStep::Finished(Err(MCUmgrClientError::ExecuteError(err))),
        }
    }

    /// What follows the progress report.
    pub open spec fn after_report(self, accepted: bool) -> FileStep {
        if accepted {
            self.go_on()
        } else {
            FileStep::Finished(Err(MCUmgrClientError::ProgressCallbackError))
        }
    }
}

/// How an upload starts.
pub open spec fn file_upload_start(smp_frame_size: int, name: Seq<char>, size: u64) -> FileStep {
    match data_capacity(smp_frame_size, file_upload_size_with_one_byte(name)) {
        None => FileStep::Finished(Err(MCUmgrClientError::FrameSizeTooSmall(DataTooLargeError))),
        Some(chunk_size_max) => FileUploadProgress {
            name,
            size: size as int,
            chunk_size_max,
            offset: 0,
        }.go_on(),
    }
}

impl<'a> FileUploadStep<'a> {
    /// Starts an upload.
    ///
    /// # Arguments
    ///
    /// * `smp_frame_size` - The max allowed size of an SMP frame.
    /// * `name` - The full path of the file on the device.
    /// * `size` - The file size.
    pub fn begin(smp_frame_size: usize, name: &'a str, size: u64) -> (step: FileUploadStep<'a>)
        ensures
            step@ == file_upload_start(smp_frame_size as int, name@, size),
    {
        match file_upload_max_data_chunk_size(smp_frame_size, name) {
            Ok(chunk_size_max) => continue_upload(
                UploadState { name, size, chunk_size_max, offset: 0 },
            ),
            Err(err) => FileUploadStep::Finished(Err(MCUmgrClientError::FrameSizeTooSmall(err))),
        }
    }
}

fn continue_upload<'a>(state: UploadState<'a>) -> (step: FileUploadStep<'a>)
    requires
        state.chunk_size_max > 0,
    ensures
        step@ == state.progress().go_on(),
{
    if state.offset < state.size {
        FileUploadStep::Read(UnreadFileChunk { state })
    } else {
        FileUploadStep::Finished(Ok(()))
    }
}

impl<'a> UnreadFileChunk<'a> {
    #[verifier::type_invariant]
    closed spec fn inv(self) -> bool {
        &&& self.state.offset < self.state.size
        &&& self.state.chunk_size_max > 0
    }

    /// How many bytes have to be read.
    pub fn wanted(&self) -> (n: usize)
        ensures
            n == self@.chunk_size(),
            0 < n <= self@.chunk_size_max,
    {
        proof {
            use_type_invariant(self);
        }
        let remaining: u64 = self.state.size - self.state.offset;
        if remaining < self.state.chunk_size_max as u64 {
            remaining as usize
        } else {
            self.state.chunk_size_max
        }
    }

    /// Continues with the bytes that were read.
    pub fn on_read(self, read: Result<Vec<u8>, IoError>) -> (step: FileUploadStep<'a>)
        requires
            read matches Ok(data) ==> data@.len() == self@.chunk_size(),
        ensures
            step@ == self@.after_read(
                match read {
                    Ok(data) => Ok(data@),
                    Err(err) => Err(err),
                },
            ),
    {
        proof {
            use_type_invariant(&self);
        }
        match read {
            Ok(data) => FileUploadStep::Send(PendingFileChunk { state: self.state, data }),
            Err(err) => FileUploadStep::Finished(Err(MCUmgrClientError::ReaderError(err))),
        }
    }
}

impl<'a> PendingFileChunk<'a> {
    #[verifier::type_invariant]
    closed spec fn inv(self) -> bool {
        &&& self.state.offset + self.data@.len() <= self.state.size
        &&& 0 < self.data@.len() <= self.state.chunk_size_max
    }

    /// The command that sends the chunk.
    pub fn command(&self) -> (command: FileUpload<'_, '_>)
        ensures
            self@.0.is_sent_by(self@.1, command),
            0 < command.data@.len() <= self@.0.chunk_size_max,
    {
        proof {
            use_type_invariant(self);
        }
        FileUpload {
            off: self.state.offset,
            data: self.data.as_slice(),
            name: self.state.name,
            len: if self.state.offset == 0 {
                Some(self.state.size)
            } else {
                None
            },
        }
    }

    /// The request that sends the chunk. It is sent again if the transport fails.
    pub fn request(&self) -> (r: Request)
        ensures
            r.header == (CommandHeader { write: true, group: FS_GROUP, command: 0 }),
            r.payload@ == map_bytes(self@.0.sent_fields(self@.1)),
            r.use_retries,
    {
        let command = self.command();
        proof {
            law_file_upload_command_fields(self@.0, self@.1, command);
        }
        request(&command, true)
    }

    /// Continues with the device's response to the command.
    pub fn on_reply(self, reply: Result<FileUploadResponse, ExecuteError>) -> (step:
        FileUploadStep<'a>)
        ensures
            step@ == self@.0.after_reply(self@.1, reply),
    {
        proof {
            use_type_invariant(&self);
        }
        match reply {
            Ok(_) => {
                let mut state = self.state;
                state.offset = state.offset + self.data.len() as u64;
                FileUploadStep::Report(TransferredFileChunk { state })
            },
            Err(err) => FileUploadStep::Finished(Err(MCUmgrClientError::from(err))),
        }
    }
}

impl<'a> TransferredFileChunk<'a> {
    #[verifier::type_invariant]
    closed spec fn inv(self) -> bool {
        &&& self.state.offset <= self.state.size
        &&& self.state.chunk_size_max > 0
    }

    /// The number of bytes that were transferred, and the number of bytes in total.
    pub fn transferred(&self) -> (r: (u64, u64))
        ensures
            r.0 == self@.offset,
            r.1 == self@.size,
    {
        (self.state.offset, self.state.size)
    }

    /// Continues with the user's decision on whether to go on.
    pub fn on_report(self, accepted: bool) -> (step: FileUploadStep<'a>)
        ensures
            step@ == self@.after_report(accepted),
    {
        proof {
            use_type_invariant(&self);
        }
        if accepted {
            continue_upload(self.state)
        } else {
            FileUploadStep::Finished(Err(MCUmgrClientError::ProgressCallbackError))
        }
    }
}

/// A command that sends a chunk carries exactly the arguments that the chunk stands for.
pub proof fn law_file_upload_command_fields(
    progress: FileUploadProgress,
    data: Seq<u8>,
    command: FileUpload<'_, '_>,
)
    requires
        progress.is_sent_by(data, command),
    ensures
        command.fields_spec() == progress.sent_fields(data),
{
    assert(command.fields_spec() =~= progress.sent_fields(data));
}

/// Every command that an upload sends fits into a frame, and so does every request.
pub proof fn law_file_upload_commands_fit(
    smp_frame_size: usize,
    progress: FileUploadProgress,
    data: Seq<u8>,
    command: FileUpload<'_, '_>,
)
    requires
        data_capacity(smp_frame_size as int, file_upload_size_with_one_byte(progress.name))
            == Some(progress.chunk_size_max),
        data.len() == progress.chunk_size(),
        progress.is_sent_by(data, command),
    ensures
        MGMT_HDR_SIZE + map_bytes(command.fields_spec()).len() <= smp_frame_size,
        MGMT_HDR_SIZE + map_bytes(progress.sent_fields(data)).len() <= smp_frame_size,
{
    law_file_upload_fits(smp_frame_size, command);
    law_file_upload_command_fields(progress, data, command);
}

/// An upload that reads from the given content, to a device that appends every chunk to what it
/// stores. The result of the upload is paired with what the device stores in the end.
pub open spec fn file_upload_to_device(
    step: FileStep,
    content: Seq<u8>,
    stored: Seq<u8>,
) -> (Result<(), MCUmgrClientError>, Seq<u8>)
    decreases
            match step {
                FileStep::Read(p) => p.size - p.offset,
                FileStep::Send(p, data) => p.size - p.offset,
                FileStep::Report(p) => p.size - p.offset,
                FileStep::Finished(_) => 0,
            },
            match step {
                FileStep::Read(p) => 2int,
                FileStep::Send(p, data) => 1,
                FileStep::Report(p) => 3,
                FileStep::Finished(_) => 0,
            },
        when match step {
        FileStep::Read(p) => p.offset < p.size,
        FileStep::Send(p, data) => data.len() > 0 && p.offset + data.len() <= p.size,
        FileStep::Report(p) => p.offset <= p.size,
        FileStep::Finished(_) => true,
    }
{
    match step {
        FileStep::Finished(result) => (result, stored),
        FileStep::Read(p) => file_upload_to_device(
            p.after_read(Ok(content.subrange(p.offset, p.offset + p.chunk_size()))),
            content,
            stored,
        ),
        FileStep::Send(p, data) => file_upload_to_device(
            p.after_reply(data, Ok(FileUploadResponse { off: (p.offset + data.len()) as u64 })),
            content,
            stored + data,
        ),
        FileStep::Report(p) => file_upload_to_device(p.after_report(true), content, stored),
    }
}

proof fn lemma_file_upload_to_device(p: FileUploadProgress, content: Seq<u8>, stored: Seq<u8>)
    requires
        p.chunk_size_max > 0,
        0 <= p.offset <= p.size,
        p.size <= content.len(),
        stored == content.subrange(0, p.offset),
    ensures
        file_upload_to_device(p.go_on(), content, stored) == (
            Ok::<(), MCUmgrClientError>(()),
            content.subrange(0, p.size),
        ),
    decreases p.size - p.offset,
{
    if p.offset < p.size {
        let data = content.subrange(p.offset, p.offset + p.chunk_size());
        let next = FileUploadProgress { offset: p.offset + data.len(), ..p };
        assert(stored + data =~= content.subrange(0, next.offset));
        lemma_file_upload_to_device(next, content, stored + data);
        assert(file_upload_to_device(FileStep::Read(p), content, stored) == file_upload_to_device(
            FileStep::Send(p, data),
            content,
            stored,
        ));
        assert(file_upload_to_device(FileStep::Send(p, data), content, stored)
            == file_upload_to_device(FileStep::Report(next), content, stored + data));
    }
}

/// An upload delivers exactly the first `size` bytes of what it reads to a device that stores
/// what it is sent.
pub proof fn law_file_upload_delivers_content(
    smp_frame_size: usize,
    name: Seq<char>,
    size: u64,
    content: Seq<u8>,
)
    requires
        data_capacity(smp_frame_size as int, file_upload_size_with_one_byte(name)) is Some,
        size <= content.len(),
    ensures
        file_upload_to_device(
            file_upload_start(smp_frame_size as int, name, size),
            content,
            Seq::empty(),
        ) == (Ok::<(), MCUmgrClientError>(()), content.subrange(0, size as int)),
{
    let chunk_size_max = data_capacity(
        smp_frame_size as int,
        file_upload_size_with_one_byte(name),
    )->0;
    let p = FileUploadProgress { name, size: size as int, chunk_size_max, offset: 0 };
    assert(content.subrange(0, 0) =~= Seq::empty());
    lemma_file_upload_to_device(p, content, Seq::empty());
}

/// What was uploaded to a file is what a later download of that file writes.
pub proof fn law_download_returns_upload(
    smp_frame_size: usize,
    name: Seq<char>,
    content: Seq<u8>,
    replies: Seq<Result<FileDownloadResponse, ExecuteError>>,
)
    requires
        data_capacity(smp_frame_size as int, file_upload_size_with_one_byte(name)) is Some,
        content.len() <= u64::MAX,
        ({
            let stored = file_upload_to_device(
                file_upload_start(smp_frame_size as int, name, content.len() as u64),
                content,
                Seq::empty(),
            ).1;
            &&& replies.len() > 0
            &&& replies_serve(replies, stored, 0)
            &&& replies[0]->Ok_0.len == Some(stored.len() as u64)
        }),
    ensures
        download_outcome(download_start(name), replies, Seq::empty()) == Some(
            (Ok::<(), MCUmgrClientError>(()), content),
        ),
{
    law_file_upload_delivers_content(smp_frame_size, name, content.len() as u64, content);
    assert(content.subrange(0, content.len() as int) =~= content);
    law_download_yields_file(name, content, replies);
}

} // verus!
