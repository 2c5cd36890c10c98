//! Application/Software Image Management

use super::report::{
    chapter_views, flag_entry, lines, number_entry, section_views, text_entry, Chapter,
    ChapterView, Entry, ReportValue, Section, SectionView, ValueView,
};
use super::CommonArgs;
use crate::commands::image::{ImageState, SlotInfoImage, SlotInfoImageSlot};
use crate::hexadecimal::{hex_text, option_hex};
use crate::text::{decimal, push_decimal};
use vstd::prelude::*;
use vstd::string::*;

verus! {

/// The commands that manage images.
#[derive(Debug)]
pub enum ImageCommand {
    /// Obtain a list of images with their current state
    GetState,
    /// Change the image state
    SetState {
        /// Boot to the image with the given hash ID
        hash: Option<[u8; 32]>,
        /// Mark the given image as confirmed
        ///
        /// If no hash is specified, confirm the currently running image
        confirm: bool,
    },
    /// Upload a firmware image to the device
    Upload {
        /// The firmware image file to upload. '-' for stdin.
        image_file: String,
        /// Selects target image on the device. Default: 0
        image_id: Option<u32>,
        /// Prevent firmware downgrades
        upgrade_only: bool,
        /// SHA-256 checksum of the image file
        checksum: Option<[u8; 32]>,
    },
    /// Erase image slot on target device
    Erase {
        /// The slot ID of the image to erase. Default: 1
        slot: Option<u32>,
    },
    /// Obtain a list of available image slots
    SlotInfo,
}

/// What has to be done to execute a command.
#[derive(Debug)]
pub enum ImagePlan {
    /// Query the image state and print it
    GetState,
    /// Set the image state and print the new one
    SetState {
        /// The image
        hash: Option<[u8; 32]>,
        /// Whether to confirm it
        confirm: bool,
        /// Whether to announce the new state first
        announce: bool,
    },
    /// Upload a file as an image
    Upload {
        /// The file
        image_file: String,
        /// The target image
        image_id: Option<u32>,
        /// Whether to reject downgrades
        upgrade_only: bool,
        /// The expected checksum
        checksum: Option<[u8; 32]>,
        /// Whether to show the progress
        show_progress: bool,
    },
    /// Erase a slot
    Erase {
        /// The slot
        slot: Option<u32>,
    },
    /// Query the slots and print them
    SlotInfo,
}

/// What has to be done to execute a command. The new state is announced unless the
/// output is to be quiet or machine-readable, and the progress is shown unless the output is to
/// be quiet.
pub open spec fn plan_for(args: CommonArgs, command: ImageCommand) -> ImagePlan {
    match command {
        ImageCommand::GetState => ImagePlan::GetState,
        ImageCommand::SetState { hash, confirm } => ImagePlan::SetState {
            hash,
            confirm,
            announce: !args.quiet && !args.json,
        },
        ImageCommand::Upload { image_file, image_id, upgrade_only, checksum } => {
            ImagePlan::Upload {
                image_file,
                image_id,
                upgrade_only,
                checksum,
                show_progress: !args.quiet,
            }
        },
        ImageCommand::Erase { slot } => ImagePlan::Erase { slot },
        ImageCommand::SlotInfo => ImagePlan::SlotInfo,
    }
}

/// Decides what has to be done to execute a command.
pub fn run(args: CommonArgs, command: ImageCommand) -> (plan: ImagePlan)
    ensures
        plan == plan_for(args, command),
{
    match command {
        ImageCommand::GetState => ImagePlan::GetState,
        ImageCommand::SetState { hash, confirm } => ImagePlan::SetState {
            hash,
            confirm,
            announce: !(args.quiet || args.json),
        },
        ImageCommand::Upload { image_file, image_id, upgrade_only, checksum } => ImagePlan::Upload {
            image_file,
            image_id,
            upgrade_only,
            checksum,
            show_progress: !args.quiet,
        },
        ImageCommand::Erase { slot } => ImagePlan::Erase { slot },
        ImageCommand::SlotInfo => ImagePlan::SlotInfo,
    }
}

/// The report on the state of an image.
pub open spec fn state_section(image: ImageState) -> SectionView {
    SectionView {
        title: "Image "@ + decimal(image.image as nat) + ", Slot "@ + decimal(image.slot as nat),
        aligned: true,
        entries: seq![
            ("version"@, Some(ValueView::Text(image.version@))),
            (
                "hash"@,
                match image.hash {
                    Some(hash) => Some(ValueView::Text(hex_text(hash@))),
                    None => None,
                },
            ),
            ("bootable"@, Some(ValueView::Flag(image.bootable))),
            ("pending"@, Some(ValueView::Flag(image.pending))),
            ("confirmed"@, Some(ValueView::Flag(image.confirmed))),
            ("active"@, Some(ValueView::Flag(image.active))),
            ("permanent"@, Some(ValueView::Flag(image.permanent))),
        ],
    }
}

fn report_state(image: &ImageState) -> (section: Section)
    ensures
        section@ == state_section(*image),
{
    let mut title = String::new();
    title.append("Image ");
    push_decimal(&mut title, image.image as u64);
    title.append(", Slot ");
    push_decimal(&mut title, image.slot as u64);
    assert(title@ =~= state_section(*image).title);
    let mut entries: Vec<Entry> = Vec::new();
    entries.push(text_entry("version", image.version.clone()));
    entries.push(
        Entry {
            key: "hash",
            value: match option_hex(&image.hash) {
                Some(hash) => Some(ReportValue::Text(hash)),
                None => None,
            },
        },
    );
    entries.push(flag_entry("bootable", image.bootable));
    entries.push(flag_entry("pending", image.pending));
    entries.push(flag_entry("confirmed", image.confirmed));
    entries.push(flag_entry("active", image.active));
    entries.push(flag_entry("permanent", image.permanent));
    assert(lines(entries@) =~= state_section(*image).entries);
    Section { title, aligned: true, entries }
}

/// What is printed about the state of the images.
#[derive(Debug, PartialEq, Eq)]
pub enum StateOutput {
    /// The images, machine-readable
    Json,
    /// A report
    Report(Vec<Section>),
}

/// Decides what is printed about the state of the images. A report has a section for every
/// image, in order.
pub fn print_current_image_state(images: &Vec<ImageState>, args: CommonArgs) -> (output:
    StateOutput)
    ensures
        if args.json {
            output == StateOutput::Json
        } else {
            output matches StateOutput::Report(sections) && section_views(sections@)
                == images@.map_values(|image: ImageState| state_section(image))
        },
{
    if args.json {
        return StateOutput::Json;
    }
    let mut sections: Vec<Section> = Vec::new();
    let mut i: usize = 0;
    while i < images.len()
        invariant
            i <= images@.len(),
            sections@.len() == i,
            forall|j: int| 0 <= j < i ==> (#[trigger] sections@[j])@ == state_section(images@[j]),
        decreases images@.len() - i,
    {
        sections.push(report_state(&images[i]));
        i += 1;
    }
    assert(section_views(sections@) =~= images@.map_values(
        |image: ImageState| state_section(image),
    ));
    StateOutput::Report(sections)
}

/// The report on a slot.
pub open spec fn slot_section(slot: SlotInfoImageSlot) -> SectionView {
    SectionView {
        title: "Slot "@ + decimal(slot.slot as nat),
        aligned: false,
        entries: seq![
            ("size"@, Some(ValueView::Number(slot.size))),
            (
                "upload_image_id"@,
                match slot.upload_image_id {
                    Some(id) => Some(ValueView::Number(id as u64)),
                    None => None,
                },
            ),
        ],
    }
}

/// The report on the slots of an image.
pub open spec fn slots_chapter(image: SlotInfoImage) -> ChapterView {
    ChapterView {
        title: "Image "@ + decimal(image.image as nat),
        sections: image.slots@.map_values(|slot: SlotInfoImageSlot| slot_section(slot)),
        entries: seq![
            (
                "max_image_size"@,
                match image.max_image_size {
                    Some(size) => Some(ValueView::Number(size)),
                    None => None,
                },
            ),
        ],
    }
}

fn report_slot(slot: &SlotInfoImageSlot) -> (section: Section)
    ensures
        section@ == slot_section(*slot),
{
    let mut title = String::new();
    title.append("Slot ");
    push_decimal(&mut title, slot.slot as u64);
    assert(title@ =~= slot_section(*slot).title);
    let mut entries: Vec<Entry> = Vec::new();
    entries.push(number_entry("size", Some(slot.size)));
    entries.push(
        number_entry(
            "upload_image_id",
            match slot.upload_image_id {
                Some(id) => Some(id as u64),
                None => None,
            },
        ),
    );
    assert(lines(entries@) =~= slot_section(*slot).entries);
    Section { title, aligned: false, entries }
}

fn report_slots(image: &SlotInfoImage) -> (chapter: Chapter)
    ensures
        chapter@ == slots_chapter(*image),
{
    let mut title = String::new();
    title.append("Image ");
    push_decimal(&mut title, image.image as u64);
    assert(title@ =~= slots_chapter(*image).title);
    let mut sections: Vec<Section> = Vec::new();
    let mut i: usize = 0;
    while i < image.slots.len()
        invariant
            i <= image.slots@.len(),
            sections@.len() == i,
            forall|j: int|
                0 <= j < i ==> (#[trigger] sections@[j])@ == slot_section(image.slots@[j]),
        decreases image.slots@.len() - i,
    {
        sections.push(report_slot(&image.slots[i]));
        i += 1;
    }
    assert(section_views(sections@) =~= slots_chapter(*image).sections);
    let mut entries: Vec<Entry> = Vec::new();
    entries.push(number_entry("max_image_size", image.max_image_size));
    assert(lines(entries@) =~= slots_chapter(*image).entries);
    Chapter { title, sections, entries }
}

/// What is printed about the slots of the images.
#[derive(Debug, PartialEq, Eq)]
pub enum SlotOutput {
    /// The images, machine-readable
    Json,
    /// A report
    Report(Vec<Chapter>),
}

/// Decides what is printed about the slots of the images. A report has a chapter for every
/// image, in order, with a section for each of its slots.
pub fn print_slot_info(images: &Vec<SlotInfoImage>, args: CommonArgs) -> (output: SlotOutput)
    ensures
        if args.json {
            output == SlotOutput::Json
        } else {
            output matches SlotOutput::Report(chapters) && chapter_views(chapters@)
                == images@.map_values(|image: SlotInfoImage| slots_chapter(image))
        },
{
    if args.json {
        return SlotOutput::Json;
    }
    let mut chapters: Vec<Chapter> = Vec::new();
    let mut i: usize = 0;
    while i < images.len()
        invariant
            i <= images@.len(),
            chapters@.len() == i,
            forall|j: int| 0 <= j < i ==> (#[trigger] chapters@[j])@ == slots_chapter(images@[j]),
        decreases images@.len() - i,
    {
        chapters.push(report_slots(&images[i]));
        i += 1;
    }
    assert(chapter_views(chapters@) =~= images@.map_values(
        |image: SlotInfoImage| slots_chapter(image),
    ));
    SlotOutput::Report(chapters)
}

} // verus!
