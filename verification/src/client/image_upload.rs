//! Uploading a firmware image, one chunk after the other.
//!
//! The upload does not talk to the device itself: every step says what has to be done next,
//! and takes the outcome to get to the following step.

use crate::bytes::bytes_equal;
use crate::commands::image::{
    image_upload_max_data_chunk_size, law_image_upload_fits, ImageUpload, ImageUploadResponse,
    IMAGE_GROUP, IMAGE_UPLOAD_SIZE_WITH_ONE_BYTE,
};
use crate::cbor::{map_bytes, optional, Item};
use crate::commands::{
    data_capacity, request, CommandHeader, McuMgrCommand, Request, MGMT_HDR_SIZE,
};
use crate::error::{
    DataTooLargeError, ExecuteError, IoErrorKind, MCUmgrClientError, ReceiveError,
};
use vstd::prelude::*;
use vstd::slice::slice_subrange;

verus! {

/// What an upload remembers between two steps.
struct UploadState<'a> {
    data: &'a [u8],
    image: Option<u32>,
    checksum: [u8; 32],
    upgrade_only: bool,
    chunk_size_max: usize,
    offset: usize,
    checksum_matched: Option<bool>,
}

/// How far an upload has come.
pub struct UploadProgress {
    /// The firmware image data
    pub data: Seq<u8>,
    /// The target image on the device
    pub image: Option<u32>,
    /// The checksum of the image data
    pub checksum: Seq<u8>,
    /// Whether the device should reject downgrades
    pub upgrade_only: bool,
    /// How much data fits into a single command
    pub chunk_size_max: int,
    /// Where the next chunk starts
    pub offset: int,
    /// The last verdict of the device on the checksum
    pub checksum_matched: Option<bool>,
}

impl<'a> UploadState<'a> {
    closed spec fn progress(self) -> UploadProgress {
        UploadProgress {
            data: self.data@,
            image: self.image,
            checksum: self.checksum@,
            upgrade_only: self.upgrade_only,
            chunk_size_max: self.chunk_size_max as int,
            offset: self.offset as int,
            checksum_matched: self.checksum_matched,
        }
    }
}

/// A chunk of the image that has to be sent to the device.
pub struct PendingImageChunk<'a> {
    state: UploadState<'a>,
}

/// A chunk of the image that the device took, and that has to be reported to the user.
pub struct TransferredImageChunk<'a> {
    state: UploadState<'a>,
}

/// What has to be done next to upload an image.
pub enum ImageUploadStep<'a> {
    /// Send a chunk to the device
    Send(PendingImageChunk<'a>),
    /// Report the progress to the user
    Report(TransferredImageChunk<'a>),
    /// Nothing, the upload is over
    Finished(Result<(), MCUmgrClientError>),
}

/// The mathematical value of an upload step.
pub enum UploadStep {
    Send(UploadProgress),
    Report(UploadProgress),
    Finished(Result<(), MCUmgrClientError>),
}

impl<'a> View for PendingImageChunk<'a> {
    type V = UploadProgress;

    closed spec fn view(&self) -> UploadProgress {
        self.state.progress()
    }
}

impl<'a> View for TransferredImageChunk<'a> {
    type V = UploadProgress;

    closed spec fn view(&self) -> UploadProgress {
        self.state.progress()
    }
}

impl<'a> View for ImageUploadStep<'a> {
    type V = UploadStep;

    open spec fn view(&self) -> UploadStep {
        match *self {
            ImageUploadStep::Send(chunk) => UploadStep::Send(chunk@),
            ImageUploadStep::Report(chunk) => UploadStep::Report(chunk@),
            ImageUploadStep::Finished(result) => UploadStep::Finished(result),
        }
    }
}

impl UploadProgress {
    /// The size of the next chunk.
    pub open spec fn chunk_size(self) -> int {
        if self.data.len() - self.offset < self.chunk_size_max {
            self.data.len() - self.offset
        } else {
            self.chunk_size_max
        }
    }

    /// The next chunk.
    pub open spec fn chunk(self) -> Seq<u8> {
        self.data.subrange(self.offset, self.offset + self.chunk_size())
    }

    /// The command sends the next chunk. What describes the whole image is only sent with the
    /// first chunk.
    pub open spec fn is_sent_by(self, command: ImageUpload<'_, '_>) -> bool {
        &&& command.off == self.offset
        &&& command.data@ == self.chunk()
        &&& if self.offset == 0 {
            &&& command.image == self.image
            &&& command.len == Some(self.data.len() as u64)
            &&& command.sha matches Some(sha) && sha@ == self.checksum
            &&& command.upgrade == Some(self.upgrade_only)
        } else {
            &&& command.image is None
            &&& command.len is None
            &&& command.sha is None
            &&& command.upgrade is None
        }
    }

    /// The arguments of the command that sends the next chunk, in order.
    pub open spec fn sent_fields(self) -> Seq<(Seq<char>, Item)> {
        let off = ("off"@, Item::Unsigned(self.offset as u64));
        let data = ("data"@, Item::Bytes(self.chunk()));
        if self.offset == 0 {
            optional(
                "image"@,
                match self.image {
                    Some(image) => Some(Item::Unsigned(image as u64)),
                    None => None,
                },
            ) + seq![
                ("len"@, Item::Unsigned(self.data.len() as u64)),
                off,
                ("sha"@, Item::Bytes(self.checksum)),
                data,
                ("upgrade"@, Item::Flag(self.upgrade_only)),
            ]
        } else {
            seq![off, data]
        }
    }

    /// The upload goes on until the offset reaches the end of the image. Then it succeeds,
    /// unless the device found that the checksum does not match.
    pub open spec fn go_on(self) -> UploadStep {
        if self.offset < self.data.len() {
            UploadStep::Send(self)
        } else if self.checksum_matched == Some(false) {
            UploadStep::Finished(Err(MCUmgrClientError::ChecksumMismatchOnDevice))
        } else {
            UploadStep::Finished(Ok(()))
        }
    }

    /// What follows the device's response to a chunk: the upload continues at the offset that
    /// the device names, which must not lie behind the end of the image.
    pub open spec fn after_reply(
        self,
        reply: Result<ImageUploadResponse, ExecuteError>,
    ) -> UploadStep {
        match reply {
            Err(err) => UploadStep::Finished(Err(MCUmgrClientError::ExecuteError(err))),
            Ok(response) => if response.off > self.data.len() {
                UploadStep::Finished(Err(MCUmgrClientError::UnexpectedOffset))
            } else {
                UploadStep::Report(
                    UploadProgress {
                        offset: response.off as int,
                        checksum_matched: if response.matched is Some {
                            response.matched
                        } else {
                            self.checksum_matched
                        },
                        ..self
                    },
                )
            },
        }
    }

    /// What follows the progress report.
    pub open spec fn after_report(self, accepted: bool) -> UploadStep {
        if accepted {
            self.go_on()
        } else {
            UploadStep::Finished(Err(MCUmgrClientError::ProgressCallbackError))
        }
    }
}

/// The transport failed because no response came in time.
pub open spec fn timed_out(reply: Result<ImageUploadResponse, ExecuteError>) -> bool {
    reply matches Err(ExecuteError::ReceiveFailed(ReceiveError::TransportError(err))) && err.kind
        == IoErrorKind::TimedOut
}

/// How an upload starts, if the checksum of the data is `actual_checksum`.
pub open spec fn upload_start(
    smp_frame_size: int,
    data: Seq<u8>,
    image: Option<u32>,
    checksum: Option<[u8; 32]>,
    upgrade_only: bool,
    actual_checksum: Seq<u8>,
) -> UploadStep {
    match data_capacity(smp_frame_size, IMAGE_UPLOAD_SIZE_WITH_ONE_BYTE as int) {
        None => UploadStep::Finished(Err(MCUmgrClientError::FrameSizeTooSmall(DataTooLargeError))),
        Some(chunk_size_max) => if checksum is Some && checksum->0@ != actual_checksum {
            UploadStep::Finished(Err(MCUmgrClientError::ChecksumMismatch))
        } else {
            UploadProgress {
                data,
                image,
                checksum: actual_checksum,
                upgrade_only,
                chunk_size_max,
                offset: 0,
                checksum_matched: None,
            }.go_on()
        },
    }
}

impl<'a> PendingImageChunk<'a> {
    #[verifier::type_invariant]
    closed spec fn inv(self) -> bool {
        &&& self.state.offset < self.state.data@.len()
        &&& self.state.chunk_size_max > 0
    }

    /// The command that sends the chunk.
    pub fn command(&self) -> (command: ImageUpload<'_, '_>)
        ensures
            self@.is_sent_by(command),
            0 < command.data@.len() <= self@.chunk_size_max,
    {
        proof {
            use_type_invariant(self);
        }
        let size: usize = self.state.data.len();
        let offset: usize = self.state.offset;
        let remaining: usize = size - offset;
        let current_chunk_size: usize = if remaining < self.state.chunk_size_max {
            remaining
        } else {
            self.state.chunk_size_max
        };
        let chunk_data = slice_subrange(self.state.data, offset, offset + current_chunk_size);
        if offset == 0 {
            ImageUpload {
                image: self.state.image,
                len: Some(size as u64),
                off: offset as u64,
                sha: Some(&self.state.checksum),
                data: chunk_data,
                upgrade: Some(self.state.upgrade_only),
            }
        } else {
            ImageUpload {
                image: None,
                len: None,
                off: offset as u64,
                sha: None,
                data: chunk_data,
                upgrade: None,
            }
        }
    }

    /// The request that sends the chunk. It is sent again if the transport fails.
    pub fn request(&self) -> (r: Request)
        ensures
            r.header == (CommandHeader { write: true, group: IMAGE_GROUP, command: 1 }),
            r.payload@ == map_bytes(self@.sent_fields()),
            r.use_retries,
    {
        let command = self.command();
        proof {
            law_upload_command_fields(self@, command);
        }
        request(&command, true)
    }

    /// Whether the device did not respond to the first chunk in time. It may have been busy
    /// with erasing the whole slot at once.
    pub fn first_chunk_timed_out(&self, reply: &Result<ImageUploadResponse, ExecuteError>) -> (b:
        bool)
        ensures
            b == (self@.offset == 0 && timed_out(*reply)),
    {
        match reply {
            Err(ExecuteError::ReceiveFailed(ReceiveError::TransportError(err))) => {
                self.state.offset == 0 && err.kind == IoErrorKind::TimedOut
            },
            _ => false,
        }
    }

    /// Continues with the device's response to the command.
    pub fn on_reply(self, reply: Result<ImageUploadResponse, ExecuteError>) -> (step:
        ImageUploadStep<'a>)
        ensures
            step@ == self@.after_reply(reply),
    {
        proof {
            use_type_invariant(&self);
        }
        let mut state = self.state;
        match reply {
            Err(err) => ImageUploadStep::Finished(Err(MCUmgrClientError::from(err))),
            Ok(response) => {
                if response.off > state.data.len() as u64 {
                    return ImageUploadStep::Finished(Err(MCUmgrClientError::UnexpectedOffset));
                }
                state.offset = response.off as usize;
                if response.matched.is_some() {
                    state.checksum_matched = response.matched;
                }
                ImageUploadStep::Report(TransferredImageChunk { state })
            },
        }
    }
}

impl<'a> TransferredImageChunk<'a> {
    #[verifier::type_invariant]
    closed spec fn inv(self) -> bool {
        &&& self.state.offset <= self.state.data@.len()
        &&& self.state.chunk_size_max > 0
    }

    /// The number of bytes that were transferred, and the number of bytes in total.
    pub fn transferred(&self) -> (r: (u64, u64))
        ensures
            r.0 == self@.offset,
            r.1 == self@.data.len(),
    {
        (self.state.offset as u64, self.state.data.len() as u64)
    }

    /// The last verdict of the device on the checksum of the image, if it gave any. Without one
    /// the device did not verify the image.
    pub fn verdict(&self) -> (r: Option<bool>)
        ensures
            r == self@.checksum_matched,
    {
        self.state.checksum_matched
    }

    /// Continues with the user's decision on whether to go on.
    pub fn on_report(self, accepted: bool) -> (step: ImageUploadStep<'a>)
        ensures
            step@ == self@.after_report(accepted),
    {
        proof {
            use_type_invariant(&self);
        }
        if accepted {
            continue_upload(self.state)
        } else {
            ImageUploadStep::Finished(Err(MCUmgrClientError::ProgressCallbackError))
        }
    }
}

fn continue_upload<'a>(state: UploadState<'a>) -> (step: ImageUploadStep<'a>)
    requires
        state.chunk_size_max > 0,
    ensures
        step@ == state.progress().go_on(),
{
    if state.offset < state.data.len() {
        return ImageUploadStep::Send(PendingImageChunk { state });
    }
    match state.checksum_matched {
        Some(false) => ImageUploadStep::Finished(Err(MCUmgrClientError::ChecksumMismatchOnDevice)),
        _ => ImageUploadStep::Finished(Ok(())),
    }
}

impl<'a> ImageUploadStep<'a> {
    /// Starts an upload, with the checksum of the data already known.
    ///
    /// # Arguments
    ///
    /// * `smp_frame_size` - The max allowed size of an SMP frame.
    /// * `data` - The firmware image data
    /// * `image` - Selects target image on the device. Defaults to `0`.
    /// * `checksum` - The checksum that the data is expected to have, if any.
    /// * `upgrade_only` - If true, allow firmware upgrades only and reject downgrades.
    /// * `actual_checksum` - The SHA256 checksum of the data.
    pub fn begin(
        smp_frame_size: usize,
        data: &'a [u8],
        image: Option<u32>,
        checksum: Option<[u8; 32]>,
        upgrade_only: bool,
        actual_checksum: [u8; 32],
    ) -> (step: ImageUploadStep<'a>)
        ensures
            step@ == upload_start(
                smp_frame_size as int,
                data@,
                image,
                checksum,
                upgrade_only,
                actual_checksum@,
            ),
    {
        let chunk_size_max: usize = match image_upload_max_data_chunk_size(smp_frame_size) {
            Ok(n) => n,
            Err(err) => {
                return ImageUploadStep::Finished(Err(MCUmgrClientError::FrameSizeTooSmall(err)));
            },
        };
        if let Some(checksum) = checksum {
            if !bytes_equal(&actual_checksum, &checksum) {
                return ImageUploadStep::Finished(Err(MCUmgrClientError::ChecksumMismatch));
            }
        }
        continue_upload(
            UploadState {
                data,
                image,
                checksum: actual_checksum,
                upgrade_only,
                chunk_size_max,
                offset: 0,
                checksum_matched: None,
            },
        )
    }
}

/// A command that sends the next chunk carries exactly the arguments that the chunk stands for.
pub proof fn law_upload_command_fields(progress: UploadProgress, command: ImageUpload<'_, '_>)
    requires
        progress.is_sent_by(command),
    ensures
        command.fields_spec() == progress.sent_fields(),
{
    assert(command.fields_spec() =~= progress.sent_fields());
}

/// Every command that an upload sends fits into a frame, and so does every request.
pub proof fn law_upload_commands_fit(
    smp_frame_size: usize,
    progress: UploadProgress,
    command: ImageUpload<'_, '_>,
)
    requires
        data_capacity(smp_frame_size as int, IMAGE_UPLOAD_SIZE_WITH_ONE_BYTE as int) == Some(
            progress.chunk_size_max,
        ),
        0 <= progress.offset < progress.data.len(),
        progress.is_sent_by(command),
    ensures
        MGMT_HDR_SIZE + map_bytes(command.fields_spec()).len() <= smp_frame_size,
        MGMT_HDR_SIZE + map_bytes(progress.sent_fields()).len() <= smp_frame_size,
{
    law_image_upload_fits(smp_frame_size, command);
    law_upload_command_fields(progress, command);
}

/// A device that appends every chunk to what it stores, tells how much it stores, and gives a
/// verdict on the checksum once the image is complete. The result of the upload is paired with
/// what the device stores in the end.
pub open spec fn upload_to_device(
    step: UploadStep,
    stored: Seq<u8>,
    verdict: Option<bool>,
) -> (Result<(), MCUmgrClientError>, Seq<u8>)
    decreases
            match step {
                UploadStep::Send(p) => p.data.len() - p.offset,
                UploadStep::Report(p) => p.data.len() - p.offset,
                UploadStep::Finished(_) => 0,
            },
            match step {
                UploadStep::Send(p) => 1int,
                UploadStep::Report(p) => 2,
                UploadStep::Finished(_) => 0,
            },
        when match step {
        UploadStep::Send(p) => p.chunk_size_max > 0 && p.offset == stored.len() && stored.len()
            < p.data.len() <= u64::MAX,
        UploadStep::Report(p) => p.offset <= p.data.len(),
        UploadStep::Finished(_) => true,
    }
{
    match step {
        UploadStep::Finished(result) => (result, stored),
        UploadStep::Report(p) => upload_to_device(p.after_report(true), stored, verdict),
        UploadStep::Send(p) => {
            let stored = stored + p.chunk();
            let response = ImageUploadResponse {
                off: stored.len() as u64,
                matched: if stored.len() == p.data.len() {
                    verdict
                } else {
                    None
                },
            };
            upload_to_device(p.after_reply(Ok(response)), stored, verdict)
        },
    }
}

proof fn lemma_upload_to_device(p: UploadProgress, stored: Seq<u8>, verdict: Option<bool>)
    requires
        p.chunk_size_max > 0,
        p.data.len() <= u64::MAX,
        0 <= p.offset < p.data.len(),
        stored == p.data.subrange(0, p.offset),
        p.checksum_matched is None,
    ensures
        upload_to_device(UploadStep::Send(p), stored, verdict) == (
            if verdict == Some(false) {
                Err(MCUmgrClientError::ChecksumMismatchOnDevice)
            } else {
                Ok(())
            },
            p.data,
        ),
    decreases p.data.len() - p.offset,
{
    let grown = stored + p.chunk();
    assert(grown =~= p.data.subrange(0, p.offset + p.chunk_size()));
    let next = UploadProgress {
        offset: grown.len() as int,
        checksum_matched: if grown.len() == p.data.len() {
            verdict
        } else {
            None
        },
        ..p
    };
    let response = ImageUploadResponse {
        off: grown.len() as u64,
        matched: if grown.len() == p.data.len() {
            verdict
        } else {
            None
        },
    };
    assert(p.after_reply(Ok(response)) == UploadStep::Report(next));
    assert(upload_to_device(UploadStep::Send(p), stored, verdict) == upload_to_device(
        UploadStep::Report(next),
        grown,
        verdict,
    ));
    assert(upload_to_device(UploadStep::Report(next), grown, verdict) == upload_to_device(
        next.go_on(),
        grown,
        verdict,
    ));
    if next.offset < p.data.len() {
        lemma_upload_to_device(next, grown, verdict);
    } else {
        assert(grown =~= p.data);
    }
}

/// An upload delivers exactly the image data to a device that stores what it is sent, and
/// succeeds unless the device finds that the checksum does not match. An empty image is never
/// sent, so there is no verdict on it.
pub proof fn law_upload_delivers_image(
    smp_frame_size: usize,
    data: Seq<u8>,
    image: Option<u32>,
    checksum: Option<[u8; 32]>,
    upgrade_only: bool,
    actual_checksum: Seq<u8>,
    verdict: Option<bool>,
)
    requires
        data_capacity(smp_frame_size as int, IMAGE_UPLOAD_SIZE_WITH_ONE_BYTE as int) is Some,
        checksum is Some ==> checksum->0@ == actual_checksum,
        data.len() <= u64::MAX,
    ensures
        upload_to_device(
            upload_start(
                smp_frame_size as int,
                data,
                image,
                checksum,
                upgrade_only,
                actual_checksum,
            ),
            Seq::empty(),
            verdict,
        ) == (
            if verdict == Some(false) && data.len() > 0 {
                Err(MCUmgrClientError::ChecksumMismatchOnDevice)
            } else {
                Ok(())
            },
            data,
        ),
{
    let chunk_size_max = data_capacity(
        smp_frame_size as int,
        IMAGE_UPLOAD_SIZE_WITH_ONE_BYTE as int,
    )->0;
    let p = UploadProgress {
        data,
        image,
        checksum: actual_checksum,
        upgrade_only,
        chunk_size_max,
        offset: 0,
        checksum_matched: None,
    };
    assert(data.subrange(0, 0) =~= Seq::empty());
    if data.len() > 0 {
        lemma_upload_to_device(p, Seq::empty(), verdict);
    } else {
        assert(data =~= Seq::empty());
    }
}

/// How an upload ends that gets exactly the given replies and whose progress reports are all
/// accepted. There is no end if the replies run out or are left over.
pub open spec fn upload_outcome(
    step: UploadStep,
    replies: Seq<Result<ImageUploadResponse, ExecuteError>>,
) -> Option<Result<(), MCUmgrClientError>>
    decreases
            replies.len(),
            match step {
                UploadStep::Send(_) => 1int,
                UploadStep::Report(_) => 2,
                UploadStep::Finished(_) => 0,
            },
{
    match step {
        UploadStep::Finished(result) => if replies.len() == 0 {
            Some(result)
        } else {
            None
        },
        UploadStep::Report(p) => upload_outcome(p.after_report(true), replies),
        UploadStep::Send(p) => if replies.len() == 0 {
            None
        } else {
            upload_outcome(p.after_reply(replies[0]), replies.drop_first())
        },
    }
}

/// The last verdict that the replies give on the checksum, or the earlier one if they give none.
pub open spec fn last_verdict(
    earlier: Option<bool>,
    replies: Seq<Result<ImageUploadResponse, ExecuteError>>,
) -> Option<bool>
    decreases replies.len(),
{
    if replies.len() == 0 {
        earlier
    } else {
        let verdict = match replies[0] {
            Ok(response) => if response.matched is Some {
                response.matched
            } else {
                earlier
            },
            Err(_) => earlier,
        };
        last_verdict(verdict, replies.drop_first())
    }
}

proof fn lemma_upload_is_acknowledged(
    p: UploadProgress,
    replies: Seq<Result<ImageUploadResponse, ExecuteError>>,
)
    requires
        upload_outcome(UploadStep::Send(p), replies) matches Some(Ok(())),
    ensures
        replies.len() > 0,
        replies.last() matches Ok(response) && response.off == p.data.len(),
        last_verdict(p.checksum_matched, replies) != Some(false),
    decreases replies.len(),
{
    let rest = replies.drop_first();
    let step = p.after_reply(replies[0]);
    assert(upload_outcome(step, rest) matches Some(Ok(())));
    if let UploadStep::Report(next) = step {
        assert(upload_outcome(step, rest) == upload_outcome(next.go_on(), rest));
        assert(last_verdict(p.checksum_matched, replies) == last_verdict(
            next.checksum_matched,
            rest,
        ));
        if next.offset < next.data.len() {
            lemma_upload_is_acknowledged(next, rest);
            assert(rest.last() == replies.last());
        }
    }
}

/// Whatever a device replies, an upload of an image only succeeds after a last reply that
/// acknowledges the whole image, and not if the last verdict on the checksum is that it does not
/// match.
pub proof fn law_successful_upload_is_acknowledged(
    smp_frame_size: usize,
    data: Seq<u8>,
    image: Option<u32>,
    checksum: Option<[u8; 32]>,
    upgrade_only: bool,
    actual_checksum: Seq<u8>,
    replies: Seq<Result<ImageUploadResponse, ExecuteError>>,
)
    requires
        data.len() > 0,
        upload_outcome(
            upload_start(
                smp_frame_size as int,
                data,
                image,
                checksum,
                upgrade_only,
                actual_checksum,
            ),
            replies,
        ) matches Some(Ok(())),
    ensures
        checksum is Some ==> checksum->0@ == actual_checksum,
        replies.len() > 0,
        replies.last() matches Ok(response) && response.off == data.len(),
        last_verdict(None, replies) != Some(false),
{
    match upload_start(
        smp_frame_size as int,
        data,
        image,
        checksum,
        upgrade_only,
        actual_checksum,
    ) {
        UploadStep::Send(p) => {
            lemma_upload_is_acknowledged(p, replies);
        },
        _ => {},
    }
}

} // verus!
