//! What a firmware update does, told from what the device reports.

use super::firmware_update::{
    current_image, find_current_image, first_image, first_slot_holds, holds_in_first_slot,
    in_first_slot, runs, ActivatingImage, Circumstances, DetectingBootloader, FirmwareUpdate,
    FirmwareUpdateAction, FirmwareUpdateError, FirmwareUpdateParams, FirmwareUpdateStep, ImageInfo,
    ImageParseError, ParsingImage, QueryingState, Rebooting, RecheckingState, ReportedStep,
    UploadingImage,
};
use super::image_upload::ImageUploadStep;
use super::request_laws::lemma_set_state_is_read;
use super::MCUmgrClient;
use crate::bootloader::{BootloaderInfo, BootloaderType};
use crate::cbor::Item;
use crate::commands::image::{GetImageState, ImageState};
use crate::commands::os;
use crate::commands::{CommandHeader, McuMgrCommand, Request};
use crate::device::{arguments, law_arguments_are_read_back, lemma_short_none};
use crate::error::{DeviceError, ExecuteError, MCUmgrClientError};
use vstd::prelude::*;

verus! {

/// The entry at the given index is the first one of image zero that is active.
pub open spec fn is_first_active(images: Seq<ImageState>, k: int) -> bool {
    &&& 0 <= k < images.len()
    &&& images[k].image == 0 && images[k].active
    &&& forall|j: int| 0 <= j < k ==> !((#[trigger] images[j]).image == 0 && images[j].active)
}

/// No entry of image zero is active, and the entry at the given index is the first one of its
/// slot zero.
pub open spec fn is_first_of_idle(images: Seq<ImageState>, k: int) -> bool {
    &&& 0 <= k < images.len()
    &&& images[k].image == 0 && images[k].slot == 0
    &&& forall|j: int| 0 <= j < k ==> !((#[trigger] images[j]).image == 0 && images[j].slot == 0)
    &&& forall|j: int|
        0 <= j < images.len() ==> !((#[trigger] images[j]).image == 0 && images[j].active)
}

/// The device runs the image at the given index, as far as can be told: the first active entry of
/// image zero, or else the first entry of its slot zero.
pub open spec fn is_running(images: Seq<ImageState>, k: int) -> bool {
    is_first_active(images, k) || is_first_of_idle(images, k)
}

/// There is no entry of image zero that is active or in slot zero.
pub open spec fn is_blank(images: Seq<ImageState>) -> bool {
    forall|j: int|
        0 <= j < images.len() ==> !((#[trigger] images[j]).image == 0 && (images[j].active
            || images[j].slot == 0))
}

proof fn lemma_first_image(images: Seq<ImageState>, p: spec_fn(ImageState) -> bool, k: int)
    requires
        0 <= k < images.len(),
        p(images[k]),
        forall|j: int| 0 <= j < k ==> !p(#[trigger] images[j]),
    ensures
        first_image(images, p) == Some(images[k]),
    decreases images.len(),
{
    if k > 0 {
        assert(!p(images[0]));
        let rest = images.drop_first();
        assert forall|j: int| 0 <= j < k - 1 implies !p(#[trigger] rest[j]) by {
            assert(rest[j] == images[j + 1]);
        }
        lemma_first_image(rest, p, k - 1);
    }
}

proof fn lemma_no_image(images: Seq<ImageState>, p: spec_fn(ImageState) -> bool)
    requires
        forall|j: int| 0 <= j < images.len() ==> !p(#[trigger] images[j]),
    ensures
        first_image(images, p) is None,
    decreases images.len(),
{
    if images.len() > 0 {
        assert(!p(images[0]));
        let rest = images.drop_first();
        assert forall|j: int| 0 <= j < rest.len() implies !p(#[trigger] rest[j]) by {
            assert(rest[j] == images[j + 1]);
        }
        lemma_no_image(rest, p);
    }
}

proof fn lemma_running(images: Seq<ImageState>, k: int)
    requires
        is_running(images, k),
    ensures
        current_image(images) == Some(images[k]),
{
    let active = |img: ImageState| runs(img);
    let idle = |img: ImageState| in_first_slot(img);
    if is_first_active(images, k) {
        lemma_first_image(images, active, k);
    } else {
        lemma_no_image(images, active);
        lemma_first_image(images, idle, k);
    }
}

proof fn lemma_blank(images: Seq<ImageState>)
    requires
        is_blank(images),
    ensures
        current_image(images) is None,
{
    lemma_no_image(images, |img: ImageState| runs(img));
    lemma_no_image(images, |img: ImageState| in_first_slot(img));
}

/// Only the image that the device runs decides whether the new firmware is installed already.
/// The user is told its version and hash. If the hash is that of the new image, the update ends,
/// and otherwise it goes on to the upload, whatever the other slots hold.
pub proof fn law_running_image_decides<'a>(
    querying: QueryingState<'a>,
    images: Vec<ImageState>,
    k: int,
    action: FirmwareUpdateAction<'a>,
    accepted: bool,
    next: FirmwareUpdateAction<'a>,
)
    requires
        is_running(images@, k),
        call_ensures(
            QueryingState::on_state,
            (querying, Ok::<Vec<ImageState>, MCUmgrClientError>(images)),
            action,
        ),
        action matches FirmwareUpdateAction::Report { step, resume } ==> call_ensures(
            ReportedStep::on_report,
            (resume, accepted),
            next,
        ),
    ensures
        action matches FirmwareUpdateAction::Report { step, .. } && step
            == (FirmwareUpdateStep::UpdateInfo {
            current_version: Some((images@[k].version, images@[k].hash)),
            new_version: (querying.image.version, querying.image.hash),
        }),
        ({
            let same = images@[k].hash is Some && images@[k].hash->0@ == querying.image.hash@;
            &&& !accepted ==> next == FirmwareUpdateAction::Finished(
                Err(FirmwareUpdateError::ProgressCallbackError),
            )
            &&& accepted && same ==> next == FirmwareUpdateAction::Finished(
                Err(FirmwareUpdateError::AlreadyInstalled),
            )
            &&& accepted && !same ==> (next matches FirmwareUpdateAction::Report { step, .. }
                && step is UploadingFirmware)
        }),
{
    lemma_running(images@, k);
}

/// A device that runs nothing gets the new firmware.
pub proof fn law_blank_device_is_updated<'a>(
    querying: QueryingState<'a>,
    images: Vec<ImageState>,
    action: FirmwareUpdateAction<'a>,
    next: FirmwareUpdateAction<'a>,
)
    requires
        is_blank(images@),
        call_ensures(
            QueryingState::on_state,
            (querying, Ok::<Vec<ImageState>, MCUmgrClientError>(images)),
            action,
        ),
        action matches FirmwareUpdateAction::Report { step, resume } ==> call_ensures(
            ReportedStep::on_report,
            (resume, true),
            next,
        ),
    ensures
        action matches FirmwareUpdateAction::Report { step, .. } && step
            == (FirmwareUpdateStep::UpdateInfo {
            current_version: None,
            new_version: (querying.image.version, querying.image.hash),
        }),
        next matches FirmwareUpdateAction::Report { step, .. } && step is UploadingFirmware,
{
    lemma_blank(images@);
}

/// After an activation that is not supported, the update only goes on if slot zero of image zero
/// holds the new image.
pub proof fn law_unsupported_activation_is_checked<'a>(
    rechecking: RecheckingState<'a>,
    images: Vec<ImageState>,
    action: FirmwareUpdateAction<'a>,
    next: FirmwareUpdateAction<'a>,
)
    requires
        call_ensures(
            RecheckingState::on_state,
            (rechecking, Ok::<Vec<ImageState>, MCUmgrClientError>(images)),
            action,
        ),
        action matches FirmwareUpdateAction::Report { step, resume } ==> call_ensures(
            ReportedStep::on_report,
            (resume, true),
            next,
        ),
    ensures
        ({
            let holds = exists|i: int|
                0 <= i < images@.len() && (#[trigger] images@[i]).image == 0 && images@[i].slot
                    == 0 && images@[i].hash is Some && images@[i].hash->0@
                    == rechecking.image.hash@;
            &&& !holds ==> action == FirmwareUpdateAction::Finished(
                Err(FirmwareUpdateError::SetStateFailed(rechecking.error)),
            )
            &&& holds && rechecking.update.params.skip_reboot ==> action
                == FirmwareUpdateAction::Finished(Ok(()))
            &&& holds && !rechecking.update.params.skip_reboot ==> (action
                matches FirmwareUpdateAction::Report { step, .. } && step is TriggeringReboot
                && next is Reset)
        }),
{
    lemma_first_slot(images@, rechecking.image.hash@);
}

proof fn lemma_first_slot(images: Seq<ImageState>, hash: Seq<u8>)
    ensures
        holds_in_first_slot(images, hash) <==> exists|i: int|
            0 <= i < images.len() && (#[trigger] images[i]).image == 0 && images[i].slot == 0
                && images[i].hash is Some && images[i].hash->0@ == hash,
{
    if exists|i: int|
        0 <= i < images.len() && (#[trigger] images[i]).image == 0 && images[i].slot == 0
            && images[i].hash is Some && images[i].hash->0@ == hash {
        let i = choose|i: int|
            0 <= i < images.len() && (#[trigger] images[i]).image == 0 && images[i].slot == 0
                && images[i].hash is Some && images[i].hash->0@ == hash;
        assert(in_first_slot(images[i]));
    }
}

/// What a device reads from the requests of an update. The activation names the hash of the new
/// image, and confirms it exactly if that was asked for. The reset is neither forced nor does it
/// name a boot mode.
pub proof fn law_update_requests_are_read<'a, T>(
    client: MCUmgrClient<T>,
    detecting: DetectingBootloader<'a>,
    detect: Request,
    querying: QueryingState<'a>,
    query: Request,
    activating: ActivatingImage<'a>,
    activate: Request,
    rechecking: RecheckingState<'a>,
    recheck: Request,
    rebooting: Rebooting,
    reset: Request,
)
    requires
        call_ensures(DetectingBootloader::request::<T>, (&detecting, &client), detect),
        call_ensures(QueryingState::request::<T>, (&querying, &client), query),
        call_ensures(ActivatingImage::request::<T>, (&activating, &client), activate),
        call_ensures(RecheckingState::request::<T>, (&rechecking, &client), recheck),
        call_ensures(Rebooting::request::<T>, (&rebooting, &client), reset),
    ensures
        detect.header == (CommandHeader { write: false, group: 0, command: 8 }),
        arguments(detect.payload@) == Some(Seq::<(Seq<char>, Item)>::empty()),
        query.header == (CommandHeader { write: false, group: 1, command: 0 }),
        arguments(query.payload@) == Some(Seq::<(Seq<char>, Item)>::empty()),
        activate.header == (CommandHeader { write: true, group: 1, command: 0 }),
        arguments(activate.payload@) == Some(
            seq![
                ("hash"@, Item::Bytes(activating.image.hash@)),
                ("confirm"@, Item::Flag(activating.update.params.force_confirm)),
            ],
        ),
        recheck.header == (CommandHeader { write: false, group: 1, command: 0 }),
        arguments(recheck.payload@) == Some(Seq::<(Seq<char>, Item)>::empty()),
        reset.header == (CommandHeader { write: true, group: 0, command: 5 }),
        arguments(reset.payload@) == Some(Seq::<(Seq<char>, Item)>::empty()),
        detect.use_retries && query.use_retries && activate.use_retries && recheck.use_retries
            && reset.use_retries,
{
    let none = Seq::<(Seq<char>, Item)>::empty();
    lemma_short_none();
    law_arguments_are_read_back(none);
    assert((os::BootloaderInfo).fields_spec() =~= none);
    assert((GetImageState).fields_spec() =~= none);
    assert((os::SystemReset { force: false, boot_mode: None }).fields_spec() =~= none);
    lemma_set_state_is_read(
        Some(activating.image.hash@),
        activating.update.params.force_confirm,
    );
    assert(arguments(activate.payload@)->0 =~= seq![
        ("hash"@, Item::Bytes(activating.image.hash@)),
        ("confirm"@, Item::Flag(activating.update.params.force_confirm)),
    ]);
}

/// The upload of an update is an ordinary upload of the firmware that names no image, with the
/// checksum and the protection against downgrades that the update was asked for.
pub proof fn law_update_uploads_firmware<'a, T>(
    client: MCUmgrClient<T>,
    uploading: UploadingImage<'a>,
    step: ImageUploadStep<'a>,
    ordinary: ImageUploadStep<'a>,
)
    requires
        call_ensures(UploadingImage::begin_upload::<T>, (&uploading, &client), step),
        call_ensures(
            MCUmgrClient::<T>::image_upload,
            (
                &client,
                uploading.update.firmware,
                None::<u32>,
                uploading.update.checksum,
                uploading.update.params.upgrade_only,
            ),
            ordinary,
        ),
    ensures
        step@ == ordinary@,
{
}

/// An update goes from one action to the next if the user accepts every report.
pub open spec fn follows<'a>(
    action: FirmwareUpdateAction<'a>,
    c: Circumstances,
    next: FirmwareUpdateAction<'a>,
) -> bool {
    match action {
        FirmwareUpdateAction::Report { resume, .. } => call_ensures(
            ReportedStep::on_report,
            (resume, true),
            next,
        ),
        FirmwareUpdateAction::DetectBootloader(detecting) => call_ensures(
            DetectingBootloader::on_info,
            (detecting, c.bootloader),
            next,
        ),
        FirmwareUpdateAction::ParseImage(parsing) => call_ensures(
            ParsingImage::on_parsed,
            (parsing, c.image_info),
            next,
        ),
        FirmwareUpdateAction::GetState(querying) => call_ensures(
            QueryingState::on_state,
            (querying, c.state),
            next,
        ),
        FirmwareUpdateAction::Upload(uploading) => call_ensures(
            UploadingImage::on_uploaded,
            (uploading, c.uploaded),
            next,
        ),
        FirmwareUpdateAction::SetState(activating) => call_ensures(
            ActivatingImage::on_state_set,
            (activating, c.state_set),
            next,
        ),
        FirmwareUpdateAction::Recheck(rechecking) => call_ensures(
            RecheckingState::on_state,
            (rechecking, c.rechecked),
            next,
        ),
        FirmwareUpdateAction::Reset(_) => false,
        FirmwareUpdateAction::Finished(_) => false,
    }
}

/// The actions of an update whose reports are all accepted, from the first one up to the reset
/// or to the end.
pub open spec fn is_run<'a, T>(
    client: MCUmgrClient<T>,
    update: FirmwareUpdate<'a>,
    c: Circumstances,
    run: Seq<FirmwareUpdateAction<'a>>,
) -> bool {
    &&& run.len() > 0
    &&& call_ensures(
        MCUmgrClient::<T>::firmware_update,
        (&client, update.firmware, update.checksum, update.params),
        run[0],
    )
    &&& forall|i: int, j: int|
        #![trigger run[i], run[j]]
        0 <= i && j == i + 1 && j < run.len() ==> follows(run[i], c, run[j])
    &&& run.last() is Reset || run.last() is Finished
}

/// A step is reported.
pub open spec fn reports(action: FirmwareUpdateAction<'_>, step: FirmwareUpdateStep) -> bool {
    action matches FirmwareUpdateAction::Report { step: reported, .. } && reported == step
}

/// The number of actions that find out the bootloader.
pub open spec fn detection_actions(params: FirmwareUpdateParams) -> int {
    if params.bootloader_type is Some {
        0
    } else {
        3
    }
}

/// What an update reports first. The bootloader is only detected if it is not given.
pub proof fn law_bootloader_is_detected<'a, T>(
    client: MCUmgrClient<T>,
    update: FirmwareUpdate<'a>,
    c: Circumstances,
    run: Seq<FirmwareUpdateAction<'a>>,
)
    requires
        is_run(client, update, c, run),
    ensures
        update.params.bootloader_type is Some ==> reports(
            run[0],
            FirmwareUpdateStep::ParsingFirmwareImage,
        ),
        update.params.bootloader_type is None ==> {
            &&& run.len() > 2
            &&& reports(run[0], FirmwareUpdateStep::DetectingBootloader)
            &&& run[1] is DetectBootloader
            &&& c.bootloader matches Err(err) ==> run.len() == 3 && run[2]
                == FirmwareUpdateAction::Finished(
                Err(FirmwareUpdateError::BootloaderDetectionFailed(err)),
            )
            &&& c.bootloader matches Ok(BootloaderInfo::Unknown { name }) ==> run.len() == 3
                && run[2] == FirmwareUpdateAction::Finished(
                Err(FirmwareUpdateError::BootloaderNotSupported(name)),
            )
            &&& c.bootloader matches Ok(BootloaderInfo::MCUboot { .. }) ==> {
                &&& run.len() > 3
                &&& reports(
                    run[2],
                    FirmwareUpdateStep::BootloaderFound(BootloaderType::MCUboot),
                )
                &&& reports(run[3], FirmwareUpdateStep::ParsingFirmwareImage)
            }
        },
{
    if update.params.bootloader_type is None {
        assert(follows(run[0], c, run[1]));
        assert(follows(run[1], c, run[2]));
        if run[2] is Report {
            assert(follows(run[2], c, run[3]));
        } else if run.len() > 3 {
            assert(follows(run[2], c, run[3]));
        }
    }
}

/// The actions of an update up to the summary, with the new image that they work on.
proof fn lemma_run_to_summary<'a, T>(
    client: MCUmgrClient<T>,
    update: FirmwareUpdate<'a>,
    c: Circumstances,
    run: Seq<FirmwareUpdateAction<'a>>,
)
    requires
        is_run(client, update, c, run),
        update.params.bootloader_type is Some || (c.bootloader matches Ok(
            BootloaderInfo::MCUboot { .. },
        )),
        c.image_info is Ok,
        c.state is Ok,
    ensures
        ({
            let b = detection_actions(update.params);
            &&& run.len() > b + 5
            &&& reports(run[b], FirmwareUpdateStep::ParsingFirmwareImage)
            &&& run[b + 1] matches FirmwareUpdateAction::ParseImage(parsing) && parsing.update
                == update
            &&& reports(run[b + 2], FirmwareUpdateStep::QueryingDeviceState)
            &&& run[b + 3] matches FirmwareUpdateAction::GetState(querying) && querying.update
                == update && querying.image.hash == c.image_info->Ok_0.hash
                && querying.image.version == c.image_info->Ok_0.version && call_ensures(
                QueryingState::on_state,
                (querying, c.state),
                run[b + 4],
            )
            &&& run[b + 4] matches FirmwareUpdateAction::Report { resume, .. } && call_ensures(
                ReportedStep::on_report,
                (resume, true),
                run[b + 5],
            )
        }),
{
    law_bootloader_is_detected(client, update, c, run);
    let b = detection_actions(update.params);
    if b == 3 {
        assert(follows(run[0], c, run[1]));
        assert(follows(run[1], c, run[2]));
        assert(follows(run[2], c, run[3]));
    }
    assert(follows(run[b], c, run[b + 1]));
    assert(follows(run[b + 1], c, run[b + 2]));
    assert(follows(run[b + 2], c, run[b + 3]));
    assert(follows(run[b + 3], c, run[b + 4]));
    assert(follows(run[b + 4], c, run[b + 5]));
}

/// An update whose firmware the device runs already ends after the summary. Nothing is uploaded
/// or activated, and the device is not reset.
pub proof fn law_running_firmware_is_not_installed_again<'a, T>(
    client: MCUmgrClient<T>,
    update: FirmwareUpdate<'a>,
    c: Circumstances,
    k: int,
    run: Seq<FirmwareUpdateAction<'a>>,
)
    requires
        is_run(client, update, c, run),
        update.params.bootloader_type is Some || (c.bootloader matches Ok(
            BootloaderInfo::MCUboot { .. },
        )),
        c.image_info is Ok,
        c.state is Ok,
        is_running(c.state->Ok_0@, k),
        c.state->Ok_0@[k].hash is Some,
        c.state->Ok_0@[k].hash->0@ == c.image_info->Ok_0.hash@,
    ensures
        run.last() == FirmwareUpdateAction::Finished(Err(FirmwareUpdateError::AlreadyInstalled)),
        run.len() == detection_actions(update.params) + 6,
        forall|i: int|
            0 <= i < run.len() ==> !(#[trigger] run[i] is Upload || run[i] is SetState || run[i] is
                Reset),
{
    lemma_run_to_summary(client, update, c, run);
    let b = detection_actions(update.params);
    let querying = run[b + 3]->GetState_0;
    law_running_image_decides(querying, c.state->Ok_0, k, run[b + 4], true, run[b + 5]);
    if run.len() > b + 6 {
        assert(follows(run[b + 5], c, run[b + 6]));
    }
    if b == 3 {
        law_bootloader_is_detected(client, update, c, run);
    }
    assert forall|i: int| 0 <= i < run.len() implies !(#[trigger] run[i] is Upload || run[i] is
        SetState || run[i] is Reset) by {
        assert(i == 0 || i == 1 || i == 2 || i == 3 || i == b || i == b + 1 || i == b + 2 || i == b
            + 3 || i == b + 4 || i == b + 5);
    }
}

/// An update of a device that runs another firmware uploads the new firmware, activates it and
/// resets the device, in this order and each exactly once. This does not depend on what the slots
/// hold that do not run. The device is not reset if that is to be skipped.
pub proof fn law_other_firmware_is_replaced<'a, T>(
    client: MCUmgrClient<T>,
    update: FirmwareUpdate<'a>,
    c: Circumstances,
    k: int,
    run: Seq<FirmwareUpdateAction<'a>>,
)
    requires
        is_run(client, update, c, run),
        update.params.bootloader_type is Some || (c.bootloader matches Ok(
            BootloaderInfo::MCUboot { .. },
        )),
        c.image_info is Ok,
        c.state is Ok,
        is_blank(c.state->Ok_0@) || {
            &&& is_running(c.state->Ok_0@, k)
            &&& c.state->Ok_0@[k].hash is Some ==> c.state->Ok_0@[k].hash->0@
                != c.image_info->Ok_0.hash@
        },
        c.uploaded is Ok,
        c.state_set is Ok,
    ensures
        ({
            let b = detection_actions(update.params);
            let info = c.image_info->Ok_0;
            &&& run.len() == if update.params.skip_reboot {
                b + 10
            } else {
                b + 11
            }
            &&& reports(run[b], FirmwareUpdateStep::ParsingFirmwareImage)
            &&& run[b + 1] is ParseImage
            &&& reports(run[b + 2], FirmwareUpdateStep::QueryingDeviceState)
            &&& run[b + 3] is GetState
            &&& run[b + 4] is Report
            &&& reports(run[b + 5], FirmwareUpdateStep::UploadingFirmware)
            &&& run[b + 6] matches FirmwareUpdateAction::Upload(uploading) && uploading.update
                == update
            &&& reports(run[b + 7], FirmwareUpdateStep::ActivatingFirmware)
            &&& run[b + 8] matches FirmwareUpdateAction::SetState(activating)
                && activating.update == update && activating.image.hash == info.hash
            &&& update.params.skip_reboot ==> run[b + 9] == FirmwareUpdateAction::Finished(Ok(()))
            &&& !update.params.skip_reboot ==> reports(
                run[b + 9],
                FirmwareUpdateStep::TriggeringReboot,
            ) && run[b + 10] is Reset
        }),
{
    lemma_run_to_summary(client, update, c, run);
    let b = detection_actions(update.params);
    let querying = run[b + 3]->GetState_0;
    if is_blank(c.state->Ok_0@) {
        law_blank_device_is_updated(querying, c.state->Ok_0, run[b + 4], run[b + 5]);
    } else {
        law_running_image_decides(querying, c.state->Ok_0, k, run[b + 4], true, run[b + 5]);
    }
    assert(follows(run[b + 5], c, run[b + 6]));
    assert(follows(run[b + 6], c, run[b + 7]));
    assert(follows(run[b + 7], c, run[b + 8]));
    assert(follows(run[b + 8], c, run[b + 9]));
    if !update.params.skip_reboot {
        assert(follows(run[b + 9], c, run[b + 10]));
        if run.len() > b + 11 {
            assert(follows(run[b + 10], c, run[b + 11]));
        }
    } else if run.len() > b + 10 {
        assert(follows(run[b + 9], c, run[b + 10]));
    }
}

/// A user who refuses to go on after a report ends the update, whatever was to follow.
pub proof fn law_refusal_ends_update<'a>(
    resume: ReportedStep<'a>,
    action: FirmwareUpdateAction<'a>,
)
    requires
        call_ensures(ReportedStep::on_report, (resume, false), action),
    ensures
        action == FirmwareUpdateAction::Finished(Err(FirmwareUpdateError::ProgressCallbackError)),
{
}

/// An update ends with the first step that fails, and tells which one that was and why.
pub proof fn law_failure_ends_update<'a>(
    parsing: ParsingImage<'a>,
    invalid: ImageParseError,
    parsed: FirmwareUpdateAction<'a>,
    querying: QueryingState<'a>,
    queried: FirmwareUpdateAction<'a>,
    uploading: UploadingImage<'a>,
    uploaded: FirmwareUpdateAction<'a>,
    rechecking: RecheckingState<'a>,
    rechecked: FirmwareUpdateAction<'a>,
    rebooting: Rebooting,
    reset: Result<(), FirmwareUpdateError>,
    err: MCUmgrClientError,
)
    requires
        call_ensures(
            ParsingImage::on_parsed,
            (parsing, Err::<ImageInfo, ImageParseError>(invalid)),
            parsed,
        ),
        call_ensures(
            QueryingState::on_state,
            (querying, Err::<Vec<ImageState>, MCUmgrClientError>(err)),
            queried,
        ),
        call_ensures(
            UploadingImage::on_uploaded,
            (uploading, Err::<(), MCUmgrClientError>(err)),
            uploaded,
        ),
        call_ensures(
            RecheckingState::on_state,
            (rechecking, Err::<Vec<ImageState>, MCUmgrClientError>(err)),
            rechecked,
        ),
        call_ensures(Rebooting::on_reset, (rebooting, Err::<(), MCUmgrClientError>(err)), reset),
    ensures
        parsed == FirmwareUpdateAction::Finished(
            Err(FirmwareUpdateError::InvalidMcuBootFirmwareImage(invalid)),
        ),
        queried == FirmwareUpdateAction::Finished(Err(FirmwareUpdateError::GetStateFailed(err))),
        err is ProgressCallbackError ==> uploaded == FirmwareUpdateAction::Finished(
            Err(FirmwareUpdateError::ProgressCallbackError),
        ),
        !(err is ProgressCallbackError) ==> uploaded == FirmwareUpdateAction::Finished(
            Err(FirmwareUpdateError::ImageUploadFailed(err)),
        ),
        rechecked == FirmwareUpdateAction::Finished(Err(FirmwareUpdateError::GetStateFailed(err))),
        reset == Err::<(), FirmwareUpdateError>(FirmwareUpdateError::RebootFailed(err)),
{
}

/// A device that is reset ends the update with success.
pub proof fn law_reset_completes_update(
    rebooting: Rebooting,
    reset: Result<(), FirmwareUpdateError>,
)
    requires
        call_ensures(Rebooting::on_reset, (rebooting, Ok::<(), MCUmgrClientError>(())), reset),
    ensures
        reset is Ok,
{
}

/// An activation that fails ends the update, unless the device reports with error code eight of
/// the first protocol version that it does not support the command. Then its state is queried
/// once more, for the same image.
pub proof fn law_failed_activation_is_reported<'a>(
    activating: ActivatingImage<'a>,
    err: MCUmgrClientError,
    action: FirmwareUpdateAction<'a>,
    next: FirmwareUpdateAction<'a>,
)
    requires
        call_ensures(
            ActivatingImage::on_state_set,
            (activating, Err::<Vec<ImageState>, MCUmgrClientError>(err)),
            action,
        ),
        action matches FirmwareUpdateAction::Report { step, resume } ==> call_ensures(
            ReportedStep::on_report,
            (resume, true),
            next,
        ),
    ensures
        ({
            let unsupported = MCUmgrClientError::ExecuteError(
                ExecuteError::ErrorResponse(DeviceError::V1 { rc: 8 }),
            );
            &&& err != unsupported ==> action == FirmwareUpdateAction::Finished(
                Err(FirmwareUpdateError::SetStateFailed(err)),
            )
            &&& err == unsupported ==> {
                &&& reports(action, FirmwareUpdateStep::QueryingDeviceState)
                &&& next matches FirmwareUpdateAction::Recheck(rechecking)
                &&& rechecking.update == activating.update
                &&& rechecking.image == activating.image
                &&& rechecking.error == err
            }
        }),
{
}

/// The progress of the upload is reported as part of the upload step, as it is.
pub proof fn law_upload_progress_is_reported<'a>(
    uploading: UploadingImage<'a>,
    current: u64,
    total: u64,
    r: (FirmwareUpdateStep, Option<(u64, u64)>),
)
    requires
        call_ensures(UploadingImage::upload_report, (&uploading, current, total), r),
    ensures
        r.0 == FirmwareUpdateStep::UploadingFirmware,
        r.1 matches Some((shown, all)) && shown == current && all == total,
{
}

/// By default an update detects the bootloader, only tests the new firmware, allows downgrades
/// and reboots the device.
pub proof fn law_update_defaults(params: FirmwareUpdateParams)
    requires
        call_ensures(FirmwareUpdateParams::default, (), params),
    ensures
        params.bootloader_type is None,
        !params.skip_reboot,
        !params.force_confirm,
        !params.upgrade_only,
{
}

/// A copy of a step is the same step.
pub proof fn law_step_is_copied(step: FirmwareUpdateStep, copy: FirmwareUpdateStep)
    requires
        call_ensures(FirmwareUpdateStep::clone, (&step,), copy),
    ensures
        copy == step,
{
}

/// The current image of a device is the one that it runs, as far as can be told. A device whose
/// image zero is neither active nor in slot zero has none.
pub proof fn law_current_image_is_found(images: Vec<ImageState>, r: Option<&ImageState>, k: int)
    requires
        call_ensures(find_current_image, (&images,), r),
    ensures
        is_running(images@, k) ==> r == Some(&images@[k]),
        is_blank(images@) ==> r is None,
{
    if is_running(images@, k) {
        lemma_running(images@, k);
    }
    if is_blank(images@) {
        lemma_blank(images@);
    }
}

/// Whether slot zero of image zero holds an image with the given hash.
pub proof fn law_first_slot_is_searched(images: Vec<ImageState>, hash: [u8; 32], r: bool)
    requires
        call_ensures(first_slot_holds, (&images, &hash), r),
    ensures
        r <==> exists|i: int|
            0 <= i < images@.len() && (#[trigger] images@[i]).image == 0 && images@[i].slot == 0
                && images@[i].hash is Some && images@[i].hash->0@ == hash@,
{
    lemma_first_slot(images@, hash@);
}

} // verus!
