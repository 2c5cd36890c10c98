//! What the commands of the command line tool do, told from their arguments and results.

use super::firmware::{
    closing_lines, image_info_report, BarChange, FirmwareCommand, FirmwarePlan,
    FirmwareUpgradeProgressHandler, ProgressUpdate,
};
use super::image::{
    print_current_image_state, print_slot_info, slot_section, slots_chapter, state_section,
    ImageCommand, ImagePlan, SlotOutput, StateOutput,
};
use super::report::{chapter_views, lines, section_views, Entry, ReportValue};
use super::{CommonArgs, Group, GroupPlan};
use crate::bootloader;
use crate::client::firmware_update::{FirmwareUpdateParams, FirmwareUpdateStep, ImageInfo};
use crate::commands::image::{ImageState, SlotInfoImage};
use crate::hexadecimal::option_hex;
use crate::text::decimal;
use vstd::prelude::*;

verus! {

/// The line shows a text under the given name.
pub open spec fn shows_text(entry: Entry, key: Seq<char>, text: Seq<char>) -> bool {
    &&& entry.key@ == key
    &&& entry.value matches Some(ReportValue::Text(shown)) && shown@ == text
}

/// The line shows a flag under the given name.
pub open spec fn shows_flag(entry: Entry, key: Seq<char>, flag: bool) -> bool {
    &&& entry.key@ == key
    &&& entry.value == Some(ReportValue::Flag(flag))
}

/// The line shows a number under the given name, or nothing if there is no number.
pub open spec fn shows_number(entry: Entry, key: Seq<char>, number: Option<u64>) -> bool {
    &&& entry.key@ == key
    &&& number matches Some(n) ==> entry.value == Some(ReportValue::Number(n))
    &&& number is None ==> entry.value is None
}

/// The state of every image is reported in a section of its own, in the order of the device. Its
/// title tells the numbers of the image and the slot, and its lines tell everything else. Nothing
/// is reported if the output is to be machine-readable.
pub proof fn law_image_states_are_reported(
    images: Vec<ImageState>,
    args: CommonArgs,
    output: StateOutput,
    i: int,
    hash: Option<String>,
)
    requires
        call_ensures(print_current_image_state, (&images, args), output),
        0 <= i < images@.len() ==> call_ensures(option_hex, (&images@[i].hash,), hash),
    ensures
        args.json <==> output == StateOutput::Json,
        output matches StateOutput::Report(sections) ==> sections@.len() == images@.len(),
        0 <= i < images@.len() ==> (output matches StateOutput::Report(sections) ==> {
            let image = images@[i];
            let section = sections@[i];
            let lines = section.entries@;
            &&& section.title@ == "Image "@ + decimal(image.image as nat) + ", Slot "@ + decimal(
                image.slot as nat,
            )
            &&& section.aligned
            &&& lines.len() == 7
            &&& shows_text(lines[0], "version"@, image.version@)
            &&& hash matches Some(digits) ==> shows_text(lines[1], "hash"@, digits@)
            &&& hash is None ==> lines[1].key@ == "hash"@ && lines[1].value is None
            &&& shows_flag(lines[2], "bootable"@, image.bootable)
            &&& shows_flag(lines[3], "pending"@, image.pending)
            &&& shows_flag(lines[4], "confirmed"@, image.confirmed)
            &&& shows_flag(lines[5], "active"@, image.active)
            &&& shows_flag(lines[6], "permanent"@, image.permanent)
        }),
{
    if let StateOutput::Report(sections) = output {
        let image = images@[i];
        let views = section_views(sections@);
        assert(views.len() == images@.len());
        if 0 <= i < images@.len() {
            assert(views[i] == sections@[i]@);
            assert(views[i] == state_section(image));
            let shown = sections@[i].entries@;
            assert(lines(shown) == state_section(image).entries);
            assert(lines(shown).len() == 7);
            assert(lines(shown)[0] == shown[0]@);
            assert(lines(shown)[1] == shown[1]@);
            assert(lines(shown)[2] == shown[2]@);
            assert(lines(shown)[3] == shown[3]@);
            assert(lines(shown)[4] == shown[4]@);
            assert(lines(shown)[5] == shown[5]@);
            assert(lines(shown)[6] == shown[6]@);
        }
    }
}

/// The slots of every image are reported in a chapter of its own, in the order of the device, and
/// every slot in a section of that chapter. The lines tell the sizes, and the ID for uploads to
/// the slot. Nothing is reported if the output is to be machine-readable.
pub proof fn law_slots_are_reported(
    images: Vec<SlotInfoImage>,
    args: CommonArgs,
    output: SlotOutput,
    i: int,
    j: int,
)
    requires
        call_ensures(print_slot_info, (&images, args), output),
    ensures
        args.json <==> output == SlotOutput::Json,
        output matches SlotOutput::Report(chapters) ==> chapters@.len() == images@.len(),
        0 <= i < images@.len() ==> (output matches SlotOutput::Report(chapters) ==> {
            let image = images@[i];
            let chapter = chapters@[i];
            &&& chapter.title@ == "Image "@ + decimal(image.image as nat)
            &&& chapter.entries@.len() == 1
            &&& shows_number(chapter.entries@[0], "max_image_size"@, image.max_image_size)
            &&& chapter.sections@.len() == image.slots@.len()
            &&& 0 <= j < image.slots@.len() ==> {
                let slot = image.slots@[j];
                let section = chapter.sections@[j];
                &&& section.title@ == "Slot "@ + decimal(slot.slot as nat)
                &&& !section.aligned
                &&& section.entries@.len() == 2
                &&& shows_number(section.entries@[0], "size"@, Some(slot.size))
                &&& shows_number(
                    section.entries@[1],
                    "upload_image_id"@,
                    match slot.upload_image_id {
                        Some(id) => Some(id as u64),
                        None => None,
                    },
                )
            }
        }),
{
    if let SlotOutput::Report(chapters) = output {
        let image = images@[i];
        let views = chapter_views(chapters@);
        assert(views.len() == images@.len());
        if 0 <= i < images@.len() {
            assert(views[i] == chapters@[i]@);
            assert(views[i] == slots_chapter(image));
            let chapter = chapters@[i];
            assert(lines(chapter.entries@) == slots_chapter(image).entries);
            assert(lines(chapter.entries@).len() == 1);
            assert(lines(chapter.entries@)[0] == chapter.entries@[0]@);
            let sections = section_views(chapter.sections@);
            assert(sections == slots_chapter(image).sections);
            assert(sections.len() == image.slots@.len());
            if 0 <= j < image.slots@.len() {
                let slot = image.slots@[j];
                assert(sections[j] == chapter.sections@[j]@);
                assert(sections[j] == slot_section(slot));
                let shown = chapter.sections@[j].entries@;
                assert(lines(shown) == slot_section(slot).entries);
                assert(lines(shown).len() == 2);
                assert(lines(shown)[0] == shown[0]@);
                assert(lines(shown)[1] == shown[1]@);
            }
        }
    }
}

/// A command that manages images is executed with exactly the arguments it was given. The new
/// state is announced unless the output is to be quiet or machine-readable, and the progress of
/// an upload is shown unless the output is to be quiet.
pub proof fn law_image_command_is_planned(args: CommonArgs, command: ImageCommand, plan: ImagePlan)
    requires
        call_ensures(super::image::run, (args, command), plan),
    ensures
        command is GetState <==> plan is GetState,
        command is SlotInfo <==> plan is SlotInfo,
        command matches ImageCommand::SetState { hash, confirm } ==> {
            &&& plan matches ImagePlan::SetState { hash: h, confirm: c, announce }
            &&& h == hash
            &&& c == confirm
            &&& announce <==> !args.quiet && !args.json
        },
        command matches ImageCommand::Upload { image_file, image_id, upgrade_only, checksum } ==> {
            &&& plan matches ImagePlan::Upload {
                image_file: file,
                image_id: id,
                upgrade_only: only,
                checksum: sum,
                show_progress,
            }
            &&& file == image_file
            &&& id == image_id
            &&& only == upgrade_only
            &&& sum == checksum
            &&& show_progress <==> !args.quiet
        },
        command matches ImageCommand::Erase { slot } ==> {
            &&& plan matches ImagePlan::Erase { slot: erased }
            &&& erased == slot
        },
{
}

/// A command that deals with firmware is executed with exactly the arguments it was given. The
/// bootloader is only detected if none is named. The progress of an update is shown unless the
/// output is to be quiet.
pub proof fn law_firmware_command_is_planned(
    args: CommonArgs,
    command: FirmwareCommand,
    plan: FirmwarePlan,
)
    requires
        call_ensures(super::firmware::run, (args, command), plan),
    ensures
        command matches FirmwareCommand::GetImageInfo { image_type, file } ==> {
            &&& plan matches FirmwarePlan::GetImageInfo { image_type: t, file: f }
            &&& t == image_type
            &&& f == file
        },
        command matches FirmwareCommand::Update {
            firmware_file,
            bootloader,
            skip_reboot,
            force_confirm,
            upgrade_only,
            checksum,
        } ==> {
            &&& plan matches FirmwarePlan::Update {
                firmware_file: file,
                checksum: sum,
                params,
                show_progress,
            }
            &&& file == firmware_file
            &&& sum == checksum
            &&& bootloader is None ==> params.bootloader_type is None
            &&& bootloader is Some ==> params.bootloader_type == Some(
                bootloader::BootloaderType::MCUboot,
            )
            &&& params.skip_reboot == skip_reboot
            &&& params.force_confirm == force_confirm
            &&& params.upgrade_only == upgrade_only
            &&& show_progress <==> !args.quiet
        },
{
}

/// Every group of commands is executed as such. The commands that manage images or deal with
/// firmware are planned with the common arguments, and the commands of the other groups are passed
/// on unchanged.
pub proof fn law_group_is_kept<Os, Stats, Fs, Enum, Zephyr, Raw>(
    args: CommonArgs,
    group: Group<Os, Stats, Fs, Enum, Zephyr, Raw>,
    plan: GroupPlan<Os, Stats, Fs, Enum, Zephyr, Raw>,
    image: ImagePlan,
    firmware: FirmwarePlan,
)
    requires
        call_ensures(super::run::<Os, Stats, Fs, Enum, Zephyr, Raw>, (args, group), plan),
        group matches Group::Image { command } ==> call_ensures(
            super::image::run,
            (args, command),
            image,
        ),
        group matches Group::Firmware { command } ==> call_ensures(
            super::firmware::run,
            (args, command),
            firmware,
        ),
    ensures
        group matches Group::Os { command } ==> plan
            == GroupPlan::<Os, Stats, Fs, Enum, Zephyr, Raw>::Os(command),
        group is Image ==> plan == GroupPlan::<Os, Stats, Fs, Enum, Zephyr, Raw>::Image(image),
        group matches Group::Stats { command } ==> plan
            == GroupPlan::<Os, Stats, Fs, Enum, Zephyr, Raw>::Stats(command),
        group is Firmware ==> plan
            == GroupPlan::<Os, Stats, Fs, Enum, Zephyr, Raw>::Firmware(firmware),
        group matches Group::Fs { command } ==> plan
            == GroupPlan::<Os, Stats, Fs, Enum, Zephyr, Raw>::Fs(command),
        group matches Group::Shell { argv } ==> plan
            == GroupPlan::<Os, Stats, Fs, Enum, Zephyr, Raw>::Shell(argv),
        group matches Group::Enum { command } ==> plan
            == GroupPlan::<Os, Stats, Fs, Enum, Zephyr, Raw>::Enum(command),
        group matches Group::Zephyr { command } ==> plan
            == GroupPlan::<Os, Stats, Fs, Enum, Zephyr, Raw>::Zephyr(command),
        group matches Group::Raw(command) ==> plan
            == GroupPlan::<Os, Stats, Fs, Enum, Zephyr, Raw>::Raw(command),
{
}

/// The report on a firmware image tells its version and its hash.
pub proof fn law_image_info_is_reported(
    info: ImageInfo,
    entries: Vec<Entry>,
    hash: Option<String>,
)
    requires
        call_ensures(image_info_report, (&info,), entries),
        call_ensures(option_hex, (&Some(info.hash),), hash),
    ensures
        entries@.len() == 2,
        shows_text(entries@[0], "version"@, info.version@),
        hash is Some,
        shows_text(entries@[1], "hash"@, hash->0@),
{
    assert(lines(entries@).len() == 2);
    assert(lines(entries@)[0] == entries@[0]@);
    assert(lines(entries@)[1] == entries@[1]@);
}

/// After an update, the user is told about the success. The reboot is only mentioned if there is
/// one.
pub proof fn law_closing_lines_mention_reboot(
    params: FirmwareUpdateParams,
    messages: Vec<&'static str>,
)
    requires
        call_ensures(closing_lines, (&params,), messages),
    ensures
        messages@.len() == if params.skip_reboot {
            1int
        } else {
            2
        },
        messages@[0]@ == "Success."@,
        !params.skip_reboot ==> messages@[1]@ == "Device should reboot with new firmware."@,
{
    let texts = messages@.map_values(|message: &'static str| message@);
    assert(texts.len() == messages@.len());
    assert(texts[0] == messages@[0]@);
    if !params.skip_reboot {
        assert(texts[1] == messages@[1]@);
    }
}

/// A step is printed exactly if it differs from the one that was printed last, and it is
/// remembered. The progress bar exists exactly as long as a progress is reported, and shows that
/// progress. The update always goes on.
pub proof fn law_progress_is_shown(
    handler: &mut FirmwareUpgradeProgressHandler,
    step: FirmwareUpdateStep,
    progress: Option<(u64, u64)>,
    r: ProgressUpdate,
    repeated: bool,
    text: String,
)
    requires
        call_ensures(FirmwareUpgradeProgressHandler::update, (handler, step, progress), r),
        old(handler).previous_step matches Some(previous) ==> call_ensures(
            FirmwareUpdateStep::is_same,
            (&step, &previous),
            repeated,
        ),
        old(handler).previous_step is None ==> !repeated,
        call_ensures(FirmwareUpdateStep::to_string, (&step,), text),
    ensures
        repeated <==> r.line is None,
        r.line matches Some(line) ==> line@ == text@,
        repeated ==> final(handler).previous_step == old(handler).previous_step,
        !repeated ==> final(handler).previous_step == Some(step),
        final(handler).has_progressbar <==> progress is Some,
        progress matches Some((current, total)) ==> (r.bar matches BarChange::Show {
            created,
            current: shown,
            total: all,
        } && created == !old(handler).has_progressbar && shown == current && all == total),
        progress is None ==> r.bar == if old(handler).has_progressbar {
            BarChange::Remove
        } else {
            BarChange::Keep
        },
        r.accepted,
{
}

/// A handler starts without a printed step and without a progress bar. When the update is over,
/// the progress bar is removed if there is one.
pub proof fn law_progress_bar_is_removed(
    fresh: FirmwareUpgradeProgressHandler,
    handler: &mut FirmwareUpgradeProgressHandler,
    bar: BarChange,
)
    requires
        call_ensures(FirmwareUpgradeProgressHandler::new, (), fresh),
        call_ensures(FirmwareUpgradeProgressHandler::finish, (handler,), bar),
    ensures
        fresh.previous_step is None,
        !fresh.has_progressbar,
        !final(handler).has_progressbar,
        final(handler).previous_step == old(handler).previous_step,
        bar == BarChange::Remove <==> old(handler).has_progressbar,
        bar == BarChange::Keep <==> !old(handler).has_progressbar,
{
}

} // verus!
