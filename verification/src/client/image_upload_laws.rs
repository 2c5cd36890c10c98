//! What an image upload does, as the device sees it.

use super::image_upload::{
    law_upload_command_fields, upload_start, ImageUploadStep, PendingImageChunk,
    TransferredImageChunk, UploadProgress, UploadStep,
};
use super::MCUmgrClient;
use crate::cbor::{map_bytes, Item};
use crate::checksum::sha256_digest;
use crate::commands::image::{
    image_upload_max_data_chunk_size, ImageUpload, ImageUploadResponse,
};
use crate::commands::{CommandHeader, McuMgrCommand, Request};
use crate::device::{
    are_short, arguments, is_countable, is_short, is_short_text, law_arguments_are_read_back,
    lemma_no_value, lemma_short_key, lemma_value, value,
};
use crate::error::{
    DataTooLargeError, ExecuteError, IoErrorKind, MCUmgrClientError, ReceiveError,
};
use vstd::prelude::*;

verus! {

/// How much of an image fits into a single command, as a function of nothing but the size of a
/// frame: what is left next to the header and the other arguments, minus what the length of the
/// data takes.
pub proof fn law_image_chunk_size(smp_frame_size: usize, r: Result<usize, DataTooLargeError>)
    requires
        call_ensures(image_upload_max_data_chunk_size, (smp_frame_size,), r),
    ensures
        r is Ok <==> smp_frame_size >= 101,
        r matches Ok(n) ==> {
            let left = smp_frame_size - 99;
            n == left - (if left <= 0xff {
                1int
            } else if left <= 0xffff {
                2
            } else if left <= 0xffff_ffff {
                4
            } else {
                8
            })
        },
{
}

/// The arguments of the first command of an upload.
pub open spec fn first_arguments(
    image: Option<u32>,
    total: nat,
    sha: Seq<u8>,
    chunk: Seq<u8>,
    upgrade_only: bool,
) -> Seq<(Seq<char>, Item)> {
    (if image is Some {
        seq![("image"@, Item::Unsigned(image->0 as u64))]
    } else {
        Seq::empty()
    }) + seq![
        ("len"@, Item::Unsigned(total as u64)),
        ("off"@, Item::Unsigned(0)),
        ("sha"@, Item::Bytes(sha)),
        ("data"@, Item::Bytes(chunk)),
        ("upgrade"@, Item::Flag(upgrade_only)),
    ]
}

proof fn lemma_keys()
    ensures
        "image"@.len() == 5,
        "len"@.len() == 3,
        "off"@.len() == 3,
        "sha"@.len() == 3,
        "data"@.len() == 4,
        "upgrade"@.len() == 7,
        "len"@ != "off"@,
        "len"@ != "sha"@,
        "off"@ != "sha"@,
{
    reveal_strlit("image");
    reveal_strlit("len");
    reveal_strlit("off");
    reveal_strlit("sha");
    reveal_strlit("data");
    reveal_strlit("upgrade");
    assert("len"@[0] != "off"@[0]);
    assert("len"@[0] != "sha"@[0]);
    assert("off"@[0] != "sha"@[0]);
}

proof fn lemma_sent_is_read(p: UploadProgress)
    requires
        p.data.len() <= u64::MAX,
        p.checksum.len() == 32,
        0 <= p.offset < p.data.len(),
        p.chunk_size_max > 0,
    ensures
        ({
            let end = if p.data.len() - p.offset < p.chunk_size_max {
                p.data.len() as int
            } else {
                p.offset + p.chunk_size_max
            };
            let chunk = p.data.subrange(p.offset, end);
            arguments(map_bytes(p.sent_fields())) == Some(
                if p.offset == 0 {
                    first_arguments(p.image, p.data.len(), p.checksum, chunk, p.upgrade_only)
                } else {
                    seq![
                        ("off"@, Item::Unsigned(p.offset as u64)),
                        ("data"@, Item::Bytes(chunk)),
                    ]
                },
            )
        }),
{
    lemma_keys();
    lemma_short_key("image"@);
    lemma_short_key("len"@);
    lemma_short_key("off"@);
    lemma_short_key("sha"@);
    lemma_short_key("data"@);
    lemma_short_key("upgrade"@);
    let end = if p.data.len() - p.offset < p.chunk_size_max {
        p.data.len() as int
    } else {
        p.offset + p.chunk_size_max
    };
    let chunk = p.data.subrange(p.offset, end);
    let expected = if p.offset == 0 {
        first_arguments(p.image, p.data.len(), p.checksum, chunk, p.upgrade_only)
    } else {
        seq![("off"@, Item::Unsigned(p.offset as u64)), ("data"@, Item::Bytes(chunk))]
    };
    assert(p.sent_fields() =~= expected);
    assert(is_countable(chunk.len()));
    assert(is_countable(p.checksum.len()));
    assert(are_short(expected)) by {
        assert forall|i: int| 0 <= i < expected.len() implies is_short_text(
            (#[trigger] expected[i]).0,
        ) && is_short(expected[i].1) by {
            let k = if p.offset == 0 && p.image is None {
                i + 1
            } else {
                i
            };
            assert(k == 0 || k == 1 || k == 2 || k == 3 || k == 4 || k == 5);
        }
    }
    law_arguments_are_read_back(expected);
}

/// How an upload begins.
///
/// A frame that is too small is rejected first, then a checksum that does not belong to the data.
/// An empty image needs no transfer. In every other case the first request carries the beginning
/// of the image, with its length, its checksum and the flags, and names the target image exactly
/// if one was asked for.
pub proof fn law_image_upload_begins<'a, T>(
    client: MCUmgrClient<T>,
    data: &'a [u8],
    image: Option<u32>,
    checksum: Option<[u8; 32]>,
    upgrade_only: bool,
    step: ImageUploadStep<'a>,
    r: Request,
    max: usize,
)
    requires
        call_ensures(
            MCUmgrClient::<T>::image_upload,
            (&client, data, image, checksum, upgrade_only),
            step,
        ),
        data@.len() <= u64::MAX,
        step matches ImageUploadStep::Send(chunk) ==> call_ensures(
            PendingImageChunk::request,
            (&chunk,),
            r,
        ),
        client.smp_frame_size >= 101 ==> call_ensures(
            image_upload_max_data_chunk_size,
            (client.smp_frame_size,),
            Ok::<usize, DataTooLargeError>(max),
        ),
    ensures
        client.smp_frame_size < 101 ==> step == ImageUploadStep::Finished(
            Err(MCUmgrClientError::FrameSizeTooSmall(DataTooLargeError)),
        ),
        client.smp_frame_size >= 101 ==> {
            if checksum is Some && checksum->0@ != sha256_digest(data@) {
                step == ImageUploadStep::Finished(Err(MCUmgrClientError::ChecksumMismatch))
            } else if data@.len() == 0 {
                step == ImageUploadStep::Finished(Ok(()))
            } else {
                let chunk = if data@.len() < max {
                    data@
                } else {
                    data@.take(max as int)
                };
                &&& step is Send
                &&& r.header == (CommandHeader { write: true, group: 1, command: 1 })
                &&& r.use_retries
                &&& arguments(r.payload@) == Some(
                    first_arguments(
                        image,
                        data@.len(),
                        sha256_digest(data@),
                        chunk,
                        upgrade_only,
                    ),
                )
            }
        },
{
    if client.smp_frame_size >= 101 {
        law_image_chunk_size(client.smp_frame_size, Ok(max));
        if let UploadStep::Send(p) = step@ {
            lemma_sent_is_read(p);
            assert(data@.subrange(0, data@.len() as int) =~= data@);
            assert(data@.subrange(0, max as int) =~= data@.take(max as int));
        }
    }
}

/// How an upload goes on after a response of the device.
///
/// The device says where to continue, which must not lie behind the end of the image. That is
/// reported to the user. If the user accepts it, the next request carries the image from there on;
/// at the end of the image the upload succeeds, unless the last verdict on the checksum is that it
/// does not match.
pub proof fn law_image_upload_continues<'a>(
    chunk: PendingImageChunk<'a>,
    response: ImageUploadResponse,
    reported: ImageUploadStep<'a>,
    transferred: (u64, u64),
    verdict: Option<bool>,
    accepted: bool,
    next: ImageUploadStep<'a>,
    r: Request,
)
    requires
        call_ensures(
            PendingImageChunk::on_reply,
            (chunk, Ok::<ImageUploadResponse, ExecuteError>(response)),
            reported,
        ),
        chunk@.data.len() <= u64::MAX,
        chunk@.checksum.len() == 32,
        chunk@.chunk_size_max > 0,
        reported matches ImageUploadStep::Report(report) ==> {
            &&& call_ensures(TransferredImageChunk::transferred, (&report,), transferred)
            &&& call_ensures(TransferredImageChunk::verdict, (&report,), verdict)
            &&& call_ensures(TransferredImageChunk::on_report, (report, accepted), next)
        },
        next matches ImageUploadStep::Send(following) ==> call_ensures(
            PendingImageChunk::request,
            (&following,),
            r,
        ),
    ensures
        response.off > chunk@.data.len() ==> reported == ImageUploadStep::Finished(
            Err(MCUmgrClientError::UnexpectedOffset),
        ),
        response.off <= chunk@.data.len() ==> {
            let data = chunk@.data;
            let off = response.off as int;
            &&& reported is Report
            &&& transferred == (response.off, data.len() as u64)
            &&& verdict == (if response.matched is Some {
                response.matched
            } else {
                chunk@.checksum_matched
            })
            &&& !accepted ==> next == ImageUploadStep::Finished(
                Err(MCUmgrClientError::ProgressCallbackError),
            )
            &&& accepted && off == data.len() ==> next == ImageUploadStep::Finished(
                if verdict == Some(false) {
                    Err(MCUmgrClientError::ChecksumMismatchOnDevice)
                } else {
                    Ok(())
                },
            )
            &&& accepted && off < data.len() ==> {
                let piece = if data.len() - off < chunk@.chunk_size_max {
                    data.skip(off)
                } else {
                    data.subrange(off, off + chunk@.chunk_size_max)
                };
                &&& next matches ImageUploadStep::Send(following) && following@.data == data
                    && following@.chunk_size_max == chunk@.chunk_size_max
                    && following@.checksum_matched == verdict
                &&& r.header == (CommandHeader { write: true, group: 1, command: 1 })
                &&& r.use_retries
                &&& arguments(r.payload@) == Some(
                    if off == 0 {
                        first_arguments(
                            chunk@.image,
                            data.len(),
                            chunk@.checksum,
                            piece,
                            chunk@.upgrade_only,
                        )
                    } else {
                        seq![
                            ("off"@, Item::Unsigned(response.off)),
                            ("data"@, Item::Bytes(piece)),
                        ]
                    },
                )
            }
        },
{
    if response.off <= chunk@.data.len() {
        if let UploadStep::Send(p) = next@ {
            lemma_sent_is_read(p);
            let off = response.off as int;
            assert(p.data.subrange(off, p.data.len() as int) =~= p.data.skip(off));
        }
    }
}

/// A device that takes firmware images. It knows nothing but what it reads from the requests.
pub struct ImageDevice {
    /// The image that is written
    pub target: u64,
    /// The announced length
    pub total: Option<Item>,
    /// The announced checksum
    pub sha: Option<Item>,
    /// Whether downgrades are to be rejected
    pub upgrade: Option<Item>,
    /// What is stored
    pub stored: Seq<u8>,
}

impl ImageDevice {
    /// The device after a request. Data for the offset zero begins a new upload, to the image
    /// that is named, or to image zero if none is. Any other data has to continue what is stored.
    pub open spec fn after(self, read: Seq<(Seq<char>, Item)>) -> ImageDevice {
        match (value(read, "off"@), value(read, "data"@)) {
            (Some(Item::Unsigned(off)), Some(Item::Bytes(data))) => if off == 0 {
                ImageDevice {
                    target: match value(read, "image"@) {
                        Some(Item::Unsigned(image)) => image,
                        _ => 0,
                    },
                    total: value(read, "len"@),
                    sha: value(read, "sha"@),
                    upgrade: value(read, "upgrade"@),
                    stored: data,
                }
            } else if off == self.stored.len() {
                ImageDevice { stored: self.stored + data, ..self }
            } else {
                self
            },
            _ => self,
        }
    }

    /// What the device answers: how much it has stored, and a verdict on the checksum once the
    /// image is complete.
    pub open spec fn response(self, verdict: Option<bool>) -> ImageUploadResponse {
        ImageUploadResponse {
            off: self.stored.len() as u64,
            matched: if self.total == Some(Item::Unsigned(self.stored.len() as u64)) {
                verdict
            } else {
                None
            },
        }
    }
}

/// An upload to a device that reads the payload of every request, after the given number of
/// steps. All progress reports are accepted.
pub open spec fn uploaded_to(
    step: UploadStep,
    device: ImageDevice,
    verdict: Option<bool>,
    steps: nat,
) -> (UploadStep, ImageDevice)
    decreases steps,
{
    if steps == 0 {
        (step, device)
    } else {
        match step {
            UploadStep::Finished(_) => (step, device),
            UploadStep::Report(p) => uploaded_to(
                p.after_report(true),
                device,
                verdict,
                (steps - 1) as nat,
            ),
            UploadStep::Send(p) => match arguments(map_bytes(p.sent_fields())) {
                Some(read) => {
                    let device = device.after(read);
                    uploaded_to(
                        p.after_reply(Ok(device.response(verdict))),
                        device,
                        verdict,
                        (steps - 1) as nat,
                    )
                },
                None => (step, device),
            },
        }
    }
}

proof fn lemma_first_values(
    image: Option<u32>,
    total: nat,
    sha: Seq<u8>,
    chunk: Seq<u8>,
    upgrade_only: bool,
)
    ensures
        ({
            let read = first_arguments(image, total, sha, chunk, upgrade_only);
            &&& value(read, "image"@) == (if image is Some {
                Some(Item::Unsigned(image->0 as u64))
            } else {
                None
            })
            &&& value(read, "len"@) == Some(Item::Unsigned(total as u64))
            &&& value(read, "off"@) == Some(Item::Unsigned(0))
            &&& value(read, "sha"@) == Some(Item::Bytes(sha))
            &&& value(read, "data"@) == Some(Item::Bytes(chunk))
            &&& value(read, "upgrade"@) == Some(Item::Flag(upgrade_only))
        }),
{
    lemma_keys();
    let read = first_arguments(image, total, sha, chunk, upgrade_only);
    let k: int = if image is Some {
        1
    } else {
        0
    };
    assert(read[k].0 == "len"@ && read[k + 1].0 == "off"@ && read[k + 2].0 == "sha"@ && read[k
        + 3].0 == "data"@ && read[k + 4].0 == "upgrade"@);
    lemma_value(read, "len"@, k);
    lemma_value(read, "off"@, k + 1);
    lemma_value(read, "sha"@, k + 2);
    lemma_value(read, "data"@, k + 3);
    lemma_value(read, "upgrade"@, k + 4);
    if image is Some {
        lemma_value(read, "image"@, 0);
    } else {
        lemma_no_value(read, "image"@);
    }
}

proof fn lemma_next_values(off: u64, chunk: Seq<u8>)
    ensures
        ({
            let read = seq![("off"@, Item::Unsigned(off)), ("data"@, Item::Bytes(chunk))];
            &&& value(read, "off"@) == Some(Item::Unsigned(off))
            &&& value(read, "data"@) == Some(Item::Bytes(chunk))
        }),
{
    lemma_keys();
    let read = seq![("off"@, Item::Unsigned(off)), ("data"@, Item::Bytes(chunk))];
    lemma_value(read, "off"@, 0);
    lemma_value(read, "data"@, 1);
}

proof fn lemma_uploaded_to(
    p: UploadProgress,
    device: ImageDevice,
    verdict: Option<bool>,
    steps: nat,
)
    requires
        p.data.len() <= u64::MAX,
        p.checksum.len() == 32,
        p.chunk_size_max > 0,
        0 <= p.offset < p.data.len(),
        p.checksum_matched is None,
        p.offset > 0 ==> device == (ImageDevice {
            target: if p.image is Some {
                p.image->0 as u64
            } else {
                0
            },
            total: Some(Item::Unsigned(p.data.len() as u64)),
            sha: Some(Item::Bytes(p.checksum)),
            upgrade: Some(Item::Flag(p.upgrade_only)),
            stored: p.data.take(p.offset),
        }),
        steps >= 2 * (p.data.len() - p.offset),
    ensures
        uploaded_to(UploadStep::Send(p), device, verdict, steps) == (
            UploadStep::Finished(
                if verdict == Some(false) {
                    Err(MCUmgrClientError::ChecksumMismatchOnDevice)
                } else {
                    Ok(())
                },
            ),
            ImageDevice {
                target: if p.image is Some {
                    p.image->0 as u64
                } else {
                    0
                },
                total: Some(Item::Unsigned(p.data.len() as u64)),
                sha: Some(Item::Bytes(p.checksum)),
                upgrade: Some(Item::Flag(p.upgrade_only)),
                stored: p.data,
            },
        ),
    decreases p.data.len() - p.offset,
{
    lemma_sent_is_read(p);
    let end = if p.data.len() - p.offset < p.chunk_size_max {
        p.data.len() as int
    } else {
        p.offset + p.chunk_size_max
    };
    let chunk = p.data.subrange(p.offset, end);
    if p.offset == 0 {
        lemma_first_values(p.image, p.data.len(), p.checksum, chunk, p.upgrade_only);
    } else {
        lemma_next_values(p.offset as u64, chunk);
    }
    let read = arguments(map_bytes(p.sent_fields()))->0;
    let after = device.after(read);
    assert(after.stored =~= p.data.take(end));
    let response = after.response(verdict);
    let next = UploadProgress {
        offset: end,
        checksum_matched: response.matched,
        ..p
    };
    assert(p.after_reply(Ok(response)) == UploadStep::Report(next));
    assert(uploaded_to(UploadStep::Send(p), device, verdict, steps) == uploaded_to(
        UploadStep::Report(next),
        after,
        verdict,
        (steps - 1) as nat,
    ));
    assert(uploaded_to(UploadStep::Report(next), after, verdict, (steps - 1) as nat)
        == uploaded_to(next.go_on(), after, verdict, (steps - 2) as nat));
    if end < p.data.len() {
        assert(response.matched is None);
        lemma_uploaded_to(next, after, verdict, (steps - 2) as nat);
    } else {
        assert(p.data.take(end) =~= p.data);
    }
}

/// A device that reads every request ends up with exactly the data of the image, in the image
/// that was asked for, or in image zero if none was. It was told the length and the checksum of
/// the data, and whether to reject downgrades. The upload succeeds unless the device finds that
/// the checksum does not match.
pub proof fn law_device_holds_uploaded_image(
    smp_frame_size: usize,
    data: Seq<u8>,
    image: Option<u32>,
    checksum: Option<[u8; 32]>,
    upgrade_only: bool,
    actual_checksum: Seq<u8>,
    device: ImageDevice,
    verdict: Option<bool>,
)
    requires
        smp_frame_size >= 101,
        0 < data.len() <= u64::MAX,
        actual_checksum.len() == 32,
        checksum is Some ==> checksum->0@ == actual_checksum,
    ensures
        uploaded_to(
            upload_start(
                smp_frame_size as int,
                data,
                image,
                checksum,
                upgrade_only,
                actual_checksum,
            ),
            device,
            verdict,
            2 * data.len(),
        ) == (
            UploadStep::Finished(
                if verdict == Some(false) {
                    Err(MCUmgrClientError::ChecksumMismatchOnDevice)
                } else {
                    Ok(())
                },
            ),
            ImageDevice {
                target: if image is Some {
                    image->0 as u64
                } else {
                    0
                },
                total: Some(Item::Unsigned(data.len() as u64)),
                sha: Some(Item::Bytes(actual_checksum)),
                upgrade: Some(Item::Flag(upgrade_only)),
                stored: data,
            },
        ),
{
    if let UploadStep::Send(p) = upload_start(
        smp_frame_size as int,
        data,
        image,
        checksum,
        upgrade_only,
        actual_checksum,
    ) {
        lemma_uploaded_to(p, device, verdict, 2 * data.len());
    }
}

/// An upload ends with the error of a command that fails. A timeout is noticed exactly if it is
/// the transport that did not respond in time, and only at the beginning of the image.
pub proof fn law_image_upload_fails<'a>(
    chunk: PendingImageChunk<'a>,
    err: ExecuteError,
    step: ImageUploadStep<'a>,
    timed_out: bool,
)
    requires
        call_ensures(
            PendingImageChunk::on_reply,
            (chunk, Err::<ImageUploadResponse, ExecuteError>(err)),
            step,
        ),
        call_ensures(
            PendingImageChunk::first_chunk_timed_out,
            (&chunk, &Err::<ImageUploadResponse, ExecuteError>(err)),
            timed_out,
        ),
    ensures
        step == ImageUploadStep::Finished(Err(MCUmgrClientError::ExecuteError(err))),
        timed_out <==> chunk@.offset == 0 && {
            err matches ExecuteError::ReceiveFailed(ReceiveError::TransportError(io)) && io.kind
                == IoErrorKind::TimedOut
        },
{
}

/// The request for a chunk carries the command for the chunk.
pub proof fn law_image_request_carries_command<'a>(
    chunk: PendingImageChunk<'a>,
    command: ImageUpload<'_, '_>,
    r: Request,
)
    requires
        call_ensures(PendingImageChunk::command, (&chunk,), command),
        call_ensures(PendingImageChunk::request, (&chunk,), r),
        0 <= chunk@.offset < chunk@.data.len(),
        chunk@.chunk_size_max > 0,
    ensures
        r.carries(command),
        command.off == chunk@.offset,
        chunk@.offset == 0 ==> command.image == chunk@.image && command.len == Some(
            chunk@.data.len() as u64,
        ) && command.upgrade == Some(chunk@.upgrade_only) && command.sha is Some
            && command.sha->0@ == chunk@.checksum,
        chunk@.offset != 0 ==> command.image is None && command.len is None && command.upgrade
            is None && command.sha is None,
        0 < command.data@.len() <= chunk@.chunk_size_max,
        command.data@ == chunk@.data.subrange(
            chunk@.offset,
            chunk@.offset + command.data@.len(),
        ),
        command.data@.len() < chunk@.chunk_size_max ==> chunk@.offset + command.data@.len()
            == chunk@.data.len(),
{
    law_upload_command_fields(chunk@, command);
}

} // verus!
