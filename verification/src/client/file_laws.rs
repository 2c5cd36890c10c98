//! What file transfers do, as the device sees it.

use super::file_download::{
    download_after_reply, download_after_report, download_after_write, download_continued,
    download_outcome, download_start, requested_fields, DownloadStep, FileDownloadReport,
    FileDownloadStep, PendingFileRequest, ReceivedFileChunk,
};
use super::file_upload::{
    file_upload_start, law_file_upload_command_fields, FileStep, FileUploadProgress,
    FileUploadStep, PendingFileChunk, TransferredFileChunk, UnreadFileChunk,
};
use super::MCUmgrClient;
use crate::cbor::{map_bytes, Item};
use crate::commands::fs::{
    file_upload_max_data_chunk_size, FileDownload, FileDownloadResponse, FileUpload,
    FileUploadResponse,
};
use crate::commands::{CommandHeader, McuMgrCommand, Request};
use crate::device::{
    are_short, arguments, is_countable, is_short, is_short_text, law_arguments_are_read_back,
    lemma_short_key, lemma_value, value,
};
use crate::error::{DataTooLargeError, ExecuteError, IoError, MCUmgrClientError};
use vstd::prelude::*;
use vstd::utf8::*;

verus! {

/// How many bytes of a frame are left for the data of a file and its length, next to the header
/// of the frame and the other arguments.
pub open spec fn room(smp_frame_size: int, name: Seq<char>) -> int {
    let name_len = encode_utf8(name).len();
    let name_head: int = if name_len < 24 {
        1
    } else if name_len < 0x100 {
        2
    } else if name_len < 0x1_0000 {
        3
    } else if name_len < 0x1_0000_0000 {
        5
    } else {
        9
    };
    smp_frame_size - 46 - name_head - name_len
}

/// How much of a file fits into a single command, as a function of the size of a frame and of the
/// length of the file name: what is left next to the header and the other arguments, minus what
/// the length of the data takes.
pub proof fn law_file_chunk_size(
    smp_frame_size: usize,
    filename: &str,
    r: Result<usize, DataTooLargeError>,
)
    requires
        call_ensures(file_upload_max_data_chunk_size, (smp_frame_size, filename), r),
    ensures
        ({
            let left = room(smp_frame_size as int, filename@);
            &&& r is Ok <==> left >= 2
            &&& r matches Ok(n) ==> n == left - (if left <= 0xff {
                1int
            } else if left <= 0xffff {
                2
            } else if left <= 0xffff_ffff {
                4
            } else {
                8
            })
        }),
{
}

proof fn lemma_keys()
    ensures
        "off"@.len() == 3,
        "data"@.len() == 4,
        "name"@.len() == 4,
        "len"@.len() == 3,
        "data"@ != "name"@,
        "off"@ != "len"@,
{
    reveal_strlit("off");
    reveal_strlit("data");
    reveal_strlit("name");
    reveal_strlit("len");
    assert("data"@[0] != "name"@[0]);
    assert("off"@[0] != "len"@[0]);
}

/// The arguments of a command that sends a part of a file. The length of the whole file is only
/// told with the beginning.
pub open spec fn part_arguments(off: u64, data: Seq<u8>, name: Seq<char>, total: u64) -> Seq<
    (Seq<char>, Item),
> {
    seq![
        ("off"@, Item::Unsigned(off)),
        ("data"@, Item::Bytes(data)),
        ("name"@, Item::Text(name)),
    ] + (if off == 0 {
        seq![("len"@, Item::Unsigned(total))]
    } else {
        Seq::empty()
    })
}

proof fn lemma_part_is_read(p: FileUploadProgress, data: Seq<u8>)
    requires
        is_short_text(p.name),
        0 <= p.offset <= p.size <= u64::MAX,
        is_countable(data.len()),
    ensures
        arguments(map_bytes(p.sent_fields(data))) == Some(
            part_arguments(p.offset as u64, data, p.name, p.size as u64),
        ),
{
    lemma_keys();
    lemma_short_key("off"@);
    lemma_short_key("data"@);
    lemma_short_key("name"@);
    lemma_short_key("len"@);
    let expected = part_arguments(p.offset as u64, data, p.name, p.size as u64);
    assert(p.sent_fields(data) =~= expected);
    assert(are_short(expected)) by {
        assert forall|i: int| 0 <= i < expected.len() implies is_short_text(
            (#[trigger] expected[i]).0,
        ) && is_short(expected[i].1) by {
            assert(i == 0 || i == 1 || i == 2 || i == 3);
        }
    }
    law_arguments_are_read_back(expected);
}

/// How an upload begins. A frame that is too small for the file name is rejected. An empty file
/// needs no transfer. In every other case the beginning of the file has to be read, as much as
/// there is and as fits into a command.
pub proof fn law_file_upload_begins<'a, T>(
    client: MCUmgrClient<T>,
    name: &'a str,
    size: u64,
    step: FileUploadStep<'a>,
    max: Result<usize, DataTooLargeError>,
    wanted: usize,
)
    requires
        call_ensures(MCUmgrClient::<T>::fs_file_upload, (&client, name, size), step),
        call_ensures(file_upload_max_data_chunk_size, (client.smp_frame_size, name), max),
        step matches FileUploadStep::Read(chunk) ==> call_ensures(
            UnreadFileChunk::wanted,
            (&chunk,),
            wanted,
        ),
    ensures
        match max {
            Err(_) => step == FileUploadStep::Finished(
                Err(MCUmgrClientError::FrameSizeTooSmall(DataTooLargeError)),
            ),
            Ok(n) => if size == 0 {
                step == FileUploadStep::Finished(Ok(()))
            } else {
                &&& step matches FileUploadStep::Read(chunk) && chunk@ == (FileUploadProgress {
                    name: name@,
                    size: size as int,
                    chunk_size_max: n as int,
                    offset: 0,
                })
                &&& wanted == (if size < n {
                    size as int
                } else {
                    n as int
                })
            },
        },
{
}

/// How an upload goes on with a part that was read. The part is sent for the offset that the
/// upload has reached. Once the device has taken it, the offset grows by the length of the part,
/// which is reported to the user, and the upload goes on until the offset reaches the size of the
/// file.
pub proof fn law_file_upload_continues<'a>(
    chunk: UnreadFileChunk<'a>,
    data: Vec<u8>,
    sending: FileUploadStep<'a>,
    r: Request,
    response: FileUploadResponse,
    reported: FileUploadStep<'a>,
    transferred: (u64, u64),
    accepted: bool,
    next: FileUploadStep<'a>,
    wanted: usize,
)
    requires
        call_ensures(UnreadFileChunk::on_read, (chunk, Ok::<Vec<u8>, IoError>(data)), sending),
        data@.len() == chunk@.chunk_size(),
        is_countable(data@.len()),
        0 <= chunk@.offset < chunk@.size <= u64::MAX,
        chunk@.chunk_size_max > 0,
        is_short_text(chunk@.name),
        sending matches FileUploadStep::Send(pending) ==> {
            &&& call_ensures(PendingFileChunk::request, (&pending,), r)
            &&& call_ensures(
                PendingFileChunk::on_reply,
                (pending, Ok::<FileUploadResponse, ExecuteError>(response)),
                reported,
            )
        },
        reported matches FileUploadStep::Report(report) ==> {
            &&& call_ensures(TransferredFileChunk::transferred, (&report,), transferred)
            &&& call_ensures(TransferredFileChunk::on_report, (report, accepted), next)
        },
        next matches FileUploadStep::Read(following) ==> call_ensures(
            UnreadFileChunk::wanted,
            (&following,),
            wanted,
        ),
    ensures
        sending is Send,
        r.header == (CommandHeader { write: true, group: 8, command: 0 }),
        r.use_retries,
        arguments(r.payload@) == Some(
            part_arguments(
                chunk@.offset as u64,
                data@,
                chunk@.name,
                chunk@.size as u64,
            ),
        ),
        reported is Report,
        transferred.0 == chunk@.offset + data@.len(),
        transferred.1 == chunk@.size,
        !accepted ==> next == FileUploadStep::Finished(
            Err(MCUmgrClientError::ProgressCallbackError),
        ),
        accepted && transferred.0 == chunk@.size ==> next == FileUploadStep::Finished(Ok(())),
        accepted && transferred.0 < chunk@.size ==> {
            &&& next matches FileUploadStep::Read(following) && following@ == (FileUploadProgress {
                offset: transferred.0 as int,
                ..chunk@
            })
            &&& wanted == (if chunk@.size - transferred.0 < chunk@.chunk_size_max {
                chunk@.size - transferred.0
            } else {
                chunk@.chunk_size_max
            })
        },
{
    lemma_part_is_read(chunk@, data@);
}

/// An upload ends with the error of a read or of a command that fails.
pub proof fn law_file_upload_fails<'a>(
    chunk: UnreadFileChunk<'a>,
    io: IoError,
    unread: FileUploadStep<'a>,
    pending: PendingFileChunk<'a>,
    err: ExecuteError,
    unsent: FileUploadStep<'a>,
)
    requires
        call_ensures(UnreadFileChunk::on_read, (chunk, Err::<Vec<u8>, IoError>(io)), unread),
        call_ensures(
            PendingFileChunk::on_reply,
            (pending, Err::<FileUploadResponse, ExecuteError>(err)),
            unsent,
        ),
    ensures
        unread == FileUploadStep::Finished(Err(MCUmgrClientError::ReaderError(io))),
        unsent == FileUploadStep::Finished(Err(MCUmgrClientError::ExecuteError(err))),
{
}

/// The request for a part carries the command for the part, which names the offset, the file and
/// the data.
pub proof fn law_file_request_carries_command<'a>(
    chunk: PendingFileChunk<'a>,
    command: FileUpload<'_, '_>,
    r: Request,
)
    requires
        call_ensures(PendingFileChunk::command, (&chunk,), command),
        call_ensures(PendingFileChunk::request, (&chunk,), r),
    ensures
        r.carries(command),
        command.off == chunk@.0.offset,
        command.name@ == chunk@.0.name,
        command.data@ == chunk@.1,
        command.len is Some <==> command.off == 0,
        command.len is Some ==> command.len->0 == chunk@.0.size as u64,
{
    law_file_upload_command_fields(chunk@.0, chunk@.1, command);
}

/// The files of a device.
pub type Files = Map<Seq<char>, Seq<u8>>;

/// What a file holds after some data was written to it at an offset. The offset must not lie
/// behind the end of the file.
pub open spec fn written_at(file: Seq<u8>, off: int, data: Seq<u8>) -> Seq<u8> {
    if off > file.len() {
        file
    } else if off + data.len() < file.len() {
        file.take(off) + data + file.skip(off + data.len())
    } else {
        file.take(off) + data
    }
}

/// The files of a device that writes what it reads from a request at the offset that it reads
/// from the same request. Data for the offset zero replaces the file.
pub open spec fn files_after(files: Files, read: Seq<(Seq<char>, Item)>) -> Files {
    match (value(read, "off"@), value(read, "data"@), value(read, "name"@)) {
        (Some(Item::Unsigned(off)), Some(Item::Bytes(data)), Some(Item::Text(name))) => {
            files.insert(
                name,
                written_at(
                    if off == 0 {
                        Seq::empty()
                    } else {
                        files[name]
                    },
                    off as int,
                    data,
                ),
            )
        },
        _ => files,
    }
}

/// An upload that reads from the given content, to a device that reads the payload of every
/// request, after the given number of steps. All progress reports are accepted.
pub open spec fn file_uploaded_to(
    step: FileStep,
    content: Seq<u8>,
    files: Files,
    steps: nat,
) -> (FileStep, Files)
    decreases steps,
{
    if steps == 0 {
        (step, files)
    } else {
        match step {
            FileStep::Finished(_) => (step, files),
            FileStep::Read(p) => file_uploaded_to(
                p.after_read(Ok(content.subrange(p.offset, p.offset + p.chunk_size()))),
                content,
                files,
                (steps - 1) as nat,
            ),
            FileStep::Send(p, data) => match arguments(map_bytes(p.sent_fields(data))) {
                Some(read) => file_uploaded_to(
                    p.after_reply(data, Ok(FileUploadResponse { off: 0 })),
                    content,
                    files_after(files, read),
                    (steps - 1) as nat,
                ),
                None => (step, files),
            },
            FileStep::Report(p) => file_uploaded_to(
                p.after_report(true),
                content,
                files,
                (steps - 1) as nat,
            ),
        }
    }
}

proof fn lemma_part_values(off: u64, data: Seq<u8>, name: Seq<char>, total: u64)
    ensures
        ({
            let read = part_arguments(off, data, name, total);
            &&& value(read, "off"@) == Some(Item::Unsigned(off))
            &&& value(read, "data"@) == Some(Item::Bytes(data))
            &&& value(read, "name"@) == Some(Item::Text(name))
        }),
{
    lemma_keys();
    let read = part_arguments(off, data, name, total);
    assert(read[0].0 == "off"@ && read[1].0 == "data"@ && read[2].0 == "name"@);
    lemma_value(read, "off"@, 0);
    lemma_value(read, "data"@, 1);
    lemma_value(read, "name"@, 2);
}

proof fn lemma_file_uploaded_to(
    p: FileUploadProgress,
    content: Seq<u8>,
    before: Files,
    files: Files,
    steps: nat,
)
    requires
        is_short_text(p.name),
        p.chunk_size_max > 0,
        p.size == content.len() <= u64::MAX,
        0 <= p.offset < p.size,
        p.offset == 0 ==> files == before,
        p.offset > 0 ==> files == before.insert(p.name, content.take(p.offset)),
        steps >= 3 * (p.size - p.offset),
    ensures
        file_uploaded_to(FileStep::Read(p), content, files, steps) == (
            FileStep::Finished(Ok(())),
            before.insert(p.name, content),
        ),
    decreases p.size - p.offset,
{
    let end = p.offset + p.chunk_size();
    let data = content.subrange(p.offset, end);
    lemma_part_is_read(p, data);
    lemma_part_values(p.offset as u64, data, p.name, p.size as u64);
    let read = part_arguments(p.offset as u64, data, p.name, p.size as u64);
    let after = files_after(files, read);
    let file = if p.offset == 0 {
        Seq::empty()
    } else {
        content.take(p.offset)
    };
    assert(written_at(file, p.offset, data) =~= content.take(end));
    assert(after =~= before.insert(p.name, content.take(end)));
    let next = FileUploadProgress { offset: end, ..p };
    assert(file_uploaded_to(FileStep::Read(p), content, files, steps) == file_uploaded_to(
        FileStep::Send(p, data),
        content,
        files,
        (steps - 1) as nat,
    ));
    assert(file_uploaded_to(FileStep::Send(p, data), content, files, (steps - 1) as nat)
        == file_uploaded_to(FileStep::Report(next), content, after, (steps - 2) as nat));
    assert(file_uploaded_to(FileStep::Report(next), content, after, (steps - 2) as nat)
        == file_uploaded_to(next.go_on(), content, after, (steps - 3) as nat));
    if end < p.size {
        lemma_file_uploaded_to(next, content, before, after, (steps - 3) as nat);
    } else {
        assert(content.take(end) =~= content);
    }
}

/// A device that writes the data of every request at the offset that the request names ends up
/// with exactly the content in the named file, whatever its size, and with all other files
/// unchanged.
pub proof fn law_device_holds_uploaded_file(
    smp_frame_size: usize,
    name: Seq<char>,
    content: Seq<u8>,
    files: Files,
)
    requires
        room(smp_frame_size as int, name) >= 2,
        is_short_text(name),
        0 < content.len() <= u64::MAX,
    ensures
        file_uploaded_to(
            file_upload_start(smp_frame_size as int, name, content.len() as u64),
            content,
            files,
            3 * content.len(),
        ) == (FileStep::Finished(Ok(())), files.insert(name, content)),
{
    if let FileStep::Read(p) = file_upload_start(
        smp_frame_size as int,
        name,
        content.len() as u64,
    ) {
        lemma_file_uploaded_to(p, content, files, files, 3 * content.len());
    }
}

/// The response serves the part of a file that a device is asked for. The device reads the file
/// and the offset from the request, and serves as much as it likes. The size of the file is told
/// with the beginning.
pub open spec fn serves(
    files: Files,
    read: Seq<(Seq<char>, Item)>,
    response: FileDownloadResponse,
) -> bool {
    match (value(read, "off"@), value(read, "name"@)) {
        (Some(Item::Unsigned(off)), Some(Item::Text(name))) => {
            let file = files[name];
            let end = off + response.data@.len();
            &&& files.contains_key(name)
            &&& end <= file.len()
            &&& response.off == off
            &&& response.data@ == file.subrange(off as int, end)
            &&& off == 0 ==> response.len == Some(file.len() as u64)
        },
        _ => false,
    }
}

/// The replies to a download come from a device that reads the payload of every request. All
/// progress reports are accepted and all writes succeed.
pub open spec fn answered(
    step: DownloadStep,
    files: Files,
    replies: Seq<Result<FileDownloadResponse, ExecuteError>>,
) -> bool
    decreases
            replies.len(),
            match step {
                DownloadStep::Request { .. } => 1int,
                DownloadStep::Report { unwritten: None, .. } => 2,
                DownloadStep::Write { .. } => 3,
                DownloadStep::Report { .. } => 4,
                DownloadStep::Finished(_) => 0,
            },
{
    match step {
        DownloadStep::Finished(_) => replies.len() == 0,
        DownloadStep::Request { name, offset, file_len } => {
            &&& replies.len() > 0
            &&& arguments(map_bytes(requested_fields(name, offset))) matches Some(read)
            &&& replies[0] matches Ok(response)
            &&& serves(files, read, response)
            &&& answered(
                download_after_reply(name, offset, file_len, replies[0]),
                files,
                replies.drop_first(),
            )
        },
        DownloadStep::Report { name, offset, file_len, unwritten } => answered(
            download_after_report(name, offset, file_len, unwritten, true),
            files,
            replies,
        ),
        DownloadStep::Write { name, offset, file_len, data } => answered(
            download_after_write(name, offset, file_len, data, Ok(())),
            files,
            replies,
        ),
    }
}

proof fn lemma_requested_is_read(name: Seq<char>, offset: u64)
    requires
        is_short_text(name),
    ensures
        arguments(map_bytes(requested_fields(name, offset))) == Some(
            seq![("off"@, Item::Unsigned(offset)), ("name"@, Item::Text(name))],
        ),
        ({
            let read = seq![("off"@, Item::Unsigned(offset)), ("name"@, Item::Text(name))];
            &&& value(read, "off"@) == Some(Item::Unsigned(offset))
            &&& value(read, "name"@) == Some(Item::Text(name))
        }),
{
    lemma_keys();
    lemma_short_key("off"@);
    lemma_short_key("name"@);
    let expected = seq![("off"@, Item::Unsigned(offset)), ("name"@, Item::Text(name))];
    assert(requested_fields(name, offset) =~= expected);
    assert(are_short(expected)) by {
        assert forall|i: int| 0 <= i < expected.len() implies is_short_text(
            (#[trigger] expected[i]).0,
        ) && is_short(expected[i].1) by {
            assert(i == 0 || i == 1);
        }
    }
    law_arguments_are_read_back(expected);
    lemma_value(expected, "off"@, 0);
    lemma_value(expected, "name"@, 1);
}

proof fn lemma_downloaded(
    name: Seq<char>,
    files: Files,
    from: u64,
    replies: Seq<Result<FileDownloadResponse, ExecuteError>>,
)
    requires
        is_short_text(name),
        files[name].len() <= u64::MAX,
        from <= files[name].len(),
        answered(download_continued(name, from, files[name].len() as u64), files, replies),
    ensures
        download_outcome(
            download_continued(name, from, files[name].len() as u64),
            replies,
            files[name].take(from as int),
        ) == Some((Ok::<(), MCUmgrClientError>(()), files[name])),
    decreases replies.len(),
{
    let file = files[name];
    let len = file.len() as u64;
    let written = file.take(from as int);
    if from == len {
        assert(written =~= file);
    } else {
        lemma_requested_is_read(name, from);
        let response = replies[0]->Ok_0;
        let data = response.data@;
        let rest = replies.drop_first();
        let end = (from + data.len()) as u64;
        let write = DownloadStep::Write { name, offset: from, file_len: len, data };
        let report = DownloadStep::Report { name, offset: end, file_len: len, unwritten: None };
        assert(written + data =~= file.take(end as int));
        assert(answered(write, files, rest) == answered(report, files, rest));
        assert(answered(report, files, rest) == answered(
            download_continued(name, end, len),
            files,
            rest,
        ));
        lemma_downloaded(name, files, end, rest);
        assert(download_outcome(write, rest, written) == download_outcome(
            report,
            rest,
            written + data,
        ));
    }
}

/// A download from a device that serves what every request asks for writes exactly the file.
pub proof fn law_download_reads_device_file(
    name: Seq<char>,
    files: Files,
    replies: Seq<Result<FileDownloadResponse, ExecuteError>>,
)
    requires
        is_short_text(name),
        files[name].len() <= u64::MAX,
        answered(download_start(name), files, replies),
    ensures
        download_outcome(download_start(name), replies, Seq::empty()) == Some(
            (Ok::<(), MCUmgrClientError>(()), files[name]),
        ),
{
    lemma_requested_is_read(name, 0);
    let file = files[name];
    let len = file.len() as u64;
    let response = replies[0]->Ok_0;
    let data = response.data@;
    let rest = replies.drop_first();
    let end = data.len() as u64;
    let announced = DownloadStep::Report { name, offset: 0, file_len: len, unwritten: Some(data) };
    let write = DownloadStep::Write { name, offset: 0, file_len: len, data };
    let report = DownloadStep::Report { name, offset: end, file_len: len, unwritten: None };
    assert(Seq::<u8>::empty() + data =~= file.take(end as int));
    assert(answered(announced, files, rest) == answered(write, files, rest));
    assert(answered(write, files, rest) == answered(report, files, rest));
    assert(answered(report, files, rest) == answered(
        download_continued(name, end, len),
        files,
        rest,
    ));
    lemma_downloaded(name, files, end, rest);
    let empty = Seq::<u8>::empty();
    assert(download_outcome(download_start(name), replies, empty) == download_outcome(
        announced,
        rest,
        empty,
    ));
    assert(download_outcome(announced, rest, empty) == download_outcome(write, rest, empty));
    assert(download_outcome(write, rest, empty) == download_outcome(report, rest, empty + data));
}

/// What was uploaded to a device is what a later download from it writes. Both sides only know
/// what the requests say.
pub proof fn law_upload_then_download(
    smp_frame_size: usize,
    name: Seq<char>,
    content: Seq<u8>,
    files: Files,
    replies: Seq<Result<FileDownloadResponse, ExecuteError>>,
)
    requires
        room(smp_frame_size as int, name) >= 2,
        is_short_text(name),
        0 < content.len() <= u64::MAX,
        answered(
            download_start(name),
            file_uploaded_to(
                file_upload_start(smp_frame_size as int, name, content.len() as u64),
                content,
                files,
                3 * content.len(),
            ).1,
            replies,
        ),
    ensures
        download_outcome(download_start(name), replies, Seq::empty()) == Some(
            (Ok::<(), MCUmgrClientError>(()), content),
        ),
{
    law_device_holds_uploaded_file(smp_frame_size, name, content, files);
    law_download_reads_device_file(name, files.insert(name, content), replies);
}

/// What a download asks for: the named file, from the offset that it has reached.
pub proof fn law_download_request_is_read<'a>(pending: PendingFileRequest<'a>, r: Request)
    requires
        call_ensures(PendingFileRequest::request, (&pending,), r),
        is_short_text(pending.name@),
    ensures
        r.header == (CommandHeader { write: false, group: 8, command: 0 }),
        r.use_retries,
        arguments(r.payload@) == Some(
            seq![
                ("off"@, Item::Unsigned(pending.offset)),
                ("name"@, Item::Text(pending.name@)),
            ],
        ),
{
    lemma_requested_is_read(pending.name@, pending.offset);
}

/// How a download begins: with a request for the beginning of the named file.
pub proof fn law_download_begins<'a, T>(
    client: MCUmgrClient<T>,
    name: &'a str,
    step: FileDownloadStep<'a>,
)
    requires
        call_ensures(MCUmgrClient::<T>::fs_file_download, (&client, name), step),
    ensures
        step matches FileDownloadStep::Request(pending) && pending.name@ == name@
            && pending.offset == 0 && pending.file_len is None,
{
}

/// How a download goes on after a response. The first one has to tell the size of the file; that
/// is noticed before a wrong offset. Every response has to be for the requested offset.
pub proof fn law_download_checks_response<'a>(
    pending: PendingFileRequest<'a>,
    response: FileDownloadResponse,
    step: FileDownloadStep<'a>,
)
    requires
        call_ensures(
            PendingFileRequest::on_reply,
            (pending, Ok::<FileDownloadResponse, ExecuteError>(response)),
            step,
        ),
    ensures
        if pending.file_len is None && response.len is None {
            step == FileDownloadStep::Finished(Err(MCUmgrClientError::MissingSize))
        } else if response.off != pending.offset {
            step == FileDownloadStep::Finished(Err(MCUmgrClientError::UnexpectedOffset))
        } else if pending.file_len is None {
            step matches FileDownloadStep::Report(report) && report.name@ == pending.name@
                && report.offset == pending.offset && report.file_len == response.len->0
                && report.unwritten is Some && report.unwritten->0@ == response.data@
        } else {
            step matches FileDownloadStep::Write(chunk) && chunk.name@ == pending.name@
                && chunk.offset == pending.offset && chunk.file_len == pending.file_len->0
                && chunk.data@ == response.data@
        },
{
}

/// How a download goes on after a part was written and reported. The offset grows by the length of
/// the part. The download is over when it reaches the size of the file, and fails if it goes
/// beyond.
pub proof fn law_download_counts_written<'a>(
    chunk: ReceivedFileChunk<'a>,
    reported: FileDownloadStep<'a>,
    transferred: (u64, u64),
    accepted: bool,
    next: FileDownloadStep<'a>,
)
    requires
        call_ensures(ReceivedFileChunk::on_written, (chunk, Ok::<(), IoError>(())), reported),
        chunk.offset + chunk.data@.len() <= u64::MAX,
        reported matches FileDownloadStep::Report(report) ==> {
            &&& call_ensures(FileDownloadReport::transferred, (&report,), transferred)
            &&& call_ensures(FileDownloadReport::on_report, (report, accepted), next)
        },
    ensures
        reported is Report,
        transferred.0 == chunk.offset + chunk.data@.len(),
        transferred.1 == chunk.file_len,
        !accepted ==> next == FileDownloadStep::Finished(
            Err(MCUmgrClientError::ProgressCallbackError),
        ),
        accepted && transferred.0 == transferred.1 ==> next == FileDownloadStep::Finished(Ok(())),
        accepted && transferred.0 > transferred.1 ==> next == FileDownloadStep::Finished(
            Err(MCUmgrClientError::SizeMismatch),
        ),
        accepted && transferred.0 < transferred.1 ==> (next matches FileDownloadStep::Request(
            pending,
        ) && pending.name@ == chunk.name@ && pending.offset == transferred.0 && pending.file_len
            == Some(chunk.file_len)),
{
}

/// A download ends with the error of a command or of a write that fails.
pub proof fn law_download_fails<'a>(
    pending: PendingFileRequest<'a>,
    err: ExecuteError,
    unanswered: FileDownloadStep<'a>,
    chunk: ReceivedFileChunk<'a>,
    io: IoError,
    unwritten: FileDownloadStep<'a>,
)
    requires
        call_ensures(
            PendingFileRequest::on_reply,
            (pending, Err::<FileDownloadResponse, ExecuteError>(err)),
            unanswered,
        ),
        call_ensures(ReceivedFileChunk::on_written, (chunk, Err::<(), IoError>(io)), unwritten),
    ensures
        unanswered == FileDownloadStep::Finished(Err(MCUmgrClientError::ExecuteError(err))),
        unwritten == FileDownloadStep::Finished(Err(MCUmgrClientError::WriterError(io))),
{
}

/// The first part of a file is only written after its size was reported, with nothing transferred
/// yet. A user who refuses to go on ends the download.
pub proof fn law_download_reports_size_first<'a>(
    report: FileDownloadReport<'a>,
    transferred: (u64, u64),
    accepted: bool,
    next: FileDownloadStep<'a>,
)
    requires
        report.unwritten is Some,
        call_ensures(FileDownloadReport::transferred, (&report,), transferred),
        call_ensures(FileDownloadReport::on_report, (report, accepted), next),
    ensures
        transferred == (report.offset, report.file_len),
        !accepted ==> next == FileDownloadStep::Finished(
            Err(MCUmgrClientError::ProgressCallbackError),
        ),
        accepted ==> (next matches FileDownloadStep::Write(chunk) && chunk.name@ == report.name@
            && chunk.offset == report.offset && chunk.file_len == report.file_len && chunk.data@
            == report.unwritten->0@),
{
}

/// The command behind a request asks for the same part, and the end of a part lies as many bytes
/// behind its offset as it is long, if that is a valid offset.
pub proof fn law_download_command_asks_for_part<'a>(
    pending: PendingFileRequest<'a>,
    command: FileDownload<'a>,
    chunk: ReceivedFileChunk<'a>,
    end: Option<u64>,
)
    requires
        call_ensures(PendingFileRequest::command, (&pending,), command),
        call_ensures(ReceivedFileChunk::end, (&chunk,), end),
    ensures
        command.off == pending.offset,
        command.name@ == pending.name@,
        end is Some <==> chunk.offset + chunk.data@.len() <= u64::MAX,
        end is Some ==> end->0 - chunk.offset == chunk.data@.len(),
{
}

} // verus!
