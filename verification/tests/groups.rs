//! What the commands of the command line tool do and print.

use mcumgr_toolkit::bootloader;
use mcumgr_toolkit::client::firmware_update::{
    FirmwareUpdateParams, FirmwareUpdateStep, ImageInfo,
};
use mcumgr_toolkit::commands::image::{ImageState, SlotInfoImage, SlotInfoImageSlot};
use mcumgr_toolkit::groups::firmware::{
    closing_lines, image_info_report, BarChange, BootloaderType, FirmwareCommand, FirmwarePlan,
    FirmwareUpgradeProgressHandler,
};
use mcumgr_toolkit::groups::image::{
    print_current_image_state, print_slot_info, ImageCommand, ImagePlan, SlotOutput, StateOutput,
};
use mcumgr_toolkit::groups::report::{Entry, ReportValue, Section};
use mcumgr_toolkit::groups::{firmware, image, run, CommonArgs, Group, GroupPlan};

fn args(json: bool, quiet: bool) -> CommonArgs {
    CommonArgs { json, quiet }
}

fn text(key: &'static str, value: &str) -> Entry {
    Entry {
        key,
        value: Some(ReportValue::Text(value.to_string())),
    }
}

fn flag(key: &'static str, value: bool) -> Entry {
    Entry {
        key,
        value: Some(ReportValue::Flag(value)),
    }
}

fn number(key: &'static str, value: Option<u64>) -> Entry {
    Entry {
        key,
        value: value.map(ReportValue::Number),
    }
}

#[test]
fn the_new_state_is_announced_to_humans_only() {
    for (json, quiet, expected) in [
        (false, false, true),
        (true, false, false),
        (false, true, false),
        (true, true, false),
    ] {
        let command = ImageCommand::SetState {
            hash: Some([1; 32]),
            confirm: true,
        };
        assert!(matches!(
            image::run(args(json, quiet), command),
            ImagePlan::SetState { hash: Some(hash), confirm: true, announce }
                if hash == [1; 32] && announce == expected
        ));
    }
}

#[test]
fn image_commands_keep_their_arguments() {
    let command = ImageCommand::Upload {
        image_file: "fw.bin".to_string(),
        image_id: Some(2),
        upgrade_only: true,
        checksum: Some([3; 32]),
    };
    assert!(matches!(
        image::run(args(true, false), command),
        ImagePlan::Upload {
            image_file,
            image_id: Some(2),
            upgrade_only: true,
            checksum: Some(checksum),
            show_progress: true,
        } if image_file == "fw.bin" && checksum == [3; 32]
    ));
    assert!(matches!(
        image::run(args(false, true), ImageCommand::Erase { slot: Some(4) }),
        ImagePlan::Erase { slot: Some(4) }
    ));
    assert!(matches!(
        image::run(args(false, false), ImageCommand::GetState),
        ImagePlan::GetState
    ));
    assert!(matches!(
        image::run(args(false, false), ImageCommand::SlotInfo),
        ImagePlan::SlotInfo
    ));
}

#[test]
fn the_image_state_is_reported() {
    let images = vec![
        ImageState {
            image: 1,
            slot: 12,
            version: "1.2.3".to_string(),
            hash: Some([0xab; 32]),
            bootable: true,
            pending: false,
            confirmed: true,
            active: false,
            permanent: true,
        },
        ImageState {
            image: 0,
            slot: 0,
            version: "".to_string(),
            hash: None,
            bootable: false,
            pending: true,
            confirmed: false,
            active: true,
            permanent: false,
        },
    ];
    assert_eq!(
        print_current_image_state(&images, args(true, false)),
        StateOutput::Json
    );
    assert_eq!(
        print_current_image_state(&images, args(false, true)),
        StateOutput::Report(vec![
            Section {
                title: "Image 1, Slot 12".to_string(),
                aligned: true,
                entries: vec![
                    text("version", "1.2.3"),
                    text("hash", &"ab".repeat(32)),
                    flag("bootable", true),
                    flag("pending", false),
                    flag("confirmed", true),
                    flag("active", false),
                    flag("permanent", true),
                ],
            },
            Section {
                title: "Image 0, Slot 0".to_string(),
                aligned: true,
                entries: vec![
                    text("version", ""),
                    Entry {
                        key: "hash",
                        value: None
                    },
                    flag("bootable", false),
                    flag("pending", true),
                    flag("confirmed", false),
                    flag("active", true),
                    flag("permanent", false),
                ],
            },
        ])
    );
}

#[test]
fn the_slots_are_reported() {
    let images = vec![
        SlotInfoImage {
            image: 0,
            slots: vec![
                SlotInfoImageSlot {
                    slot: 0,
                    size: 42,
                    upload_image_id: Some(2),
                },
                SlotInfoImageSlot {
                    slot: 1,
                    size: 123456789012,
                    upload_image_id: None,
                },
            ],
            max_image_size: Some(123456789987),
        },
        SlotInfoImage {
            image: 1,
            slots: vec![],
            max_image_size: None,
        },
    ];
    assert_eq!(print_slot_info(&images, args(true, true)), SlotOutput::Json);
    let chapters = match print_slot_info(&images, args(false, false)) {
        SlotOutput::Report(chapters) => chapters,
        SlotOutput::Json => panic!("this is not machine-readable"),
    };
    assert_eq!(chapters.len(), 2);
    assert_eq!(chapters[0].title, "Image 0");
    assert_eq!(
        chapters[0].sections,
        vec![
            Section {
                title: "Slot 0".to_string(),
                aligned: false,
                entries: vec![
                    number("size", Some(42)),
                    number("upload_image_id", Some(2)),
                ],
            },
            Section {
                title: "Slot 1".to_string(),
                aligned: false,
                entries: vec![
                    number("size", Some(123456789012)),
                    number("upload_image_id", None),
                ],
            },
        ]
    );
    assert_eq!(
        chapters[0].entries,
        vec![number("max_image_size", Some(123456789987))]
    );
    assert_eq!(chapters[1].title, "Image 1");
    assert_eq!(chapters[1].sections, vec![]);
    assert_eq!(chapters[1].entries, vec![number("max_image_size", None)]);
}

#[test]
fn an_update_is_planned() {
    let command = FirmwareCommand::Update {
        firmware_file: "-".to_string(),
        bootloader: Some(BootloaderType::Mcuboot),
        skip_reboot: true,
        force_confirm: false,
        upgrade_only: true,
        checksum: None,
    };
    match firmware::run(args(false, true), command) {
        FirmwarePlan::Update {
            firmware_file,
            checksum,
            params,
            show_progress,
        } => {
            assert_eq!(firmware_file, "-");
            assert_eq!(checksum, None);
            assert_eq!(
                params,
                FirmwareUpdateParams {
                    bootloader_type: Some(bootloader::BootloaderType::MCUboot),
                    skip_reboot: true,
                    force_confirm: false,
                    upgrade_only: true,
                }
            );
            assert!(!show_progress);
            assert_eq!(closing_lines(&params), vec!["Success."]);
        }
        _ => panic!("this is not an update"),
    }
    assert_eq!(
        closing_lines(&FirmwareUpdateParams::default()),
        vec!["Success.", "Device should reboot with new firmware."]
    );
}

#[test]
fn image_info_is_reported() {
    let info = ImageInfo {
        version: "1.0.0".to_string(),
        hash: [0x0f; 32],
    };
    assert_eq!(
        image_info_report(&info),
        vec![text("version", "1.0.0"), text("hash", &"0f".repeat(32))]
    );
}

#[test]
fn commands_are_dispatched_to_their_group() {
    type Commands = Group<u8, u16, u32, u64, i8, i16>;
    let plan = |group: Commands| run(args(false, false), group);
    assert!(matches!(plan(Group::Os { command: 1 }), GroupPlan::Os(1)));
    assert!(matches!(
        plan(Group::Image {
            command: ImageCommand::SlotInfo
        }),
        GroupPlan::Image(ImagePlan::SlotInfo)
    ));
    assert!(matches!(plan(Group::Stats { command: 2 }), GroupPlan::Stats(2)));
    assert!(matches!(
        plan(Group::Firmware {
            command: FirmwareCommand::GetImageInfo {
                image_type: BootloaderType::Mcuboot,
                file: "fw".to_string()
            }
        }),
        GroupPlan::Firmware(FirmwarePlan::GetImageInfo { file, .. }) if file == "fw"
    ));
    assert!(matches!(plan(Group::Fs { command: 3 }), GroupPlan::Fs(3)));
    assert!(matches!(
        plan(Group::Shell {
            argv: vec!["ls".to_string()]
        }),
        GroupPlan::Shell(argv) if argv == vec!["ls".to_string()]
    ));
    assert!(matches!(plan(Group::Enum { command: 4 }), GroupPlan::Enum(4)));
    assert!(matches!(
        plan(Group::Zephyr { command: 5 }),
        GroupPlan::Zephyr(5)
    ));
    assert!(matches!(plan(Group::Raw(6)), GroupPlan::Raw(6)));
}

#[test]
fn progress_is_shown_once_per_step() {
    let mut handler = FirmwareUpgradeProgressHandler::new();
    let update = handler.update(FirmwareUpdateStep::ParsingFirmwareImage, None);
    assert_eq!(update.line.as_deref(), Some("Parsing firmware image ..."));
    assert_eq!(update.bar, BarChange::Keep);
    assert!(update.accepted);

    let update = handler.update(FirmwareUpdateStep::UploadingFirmware, None);
    assert_eq!(update.line.as_deref(), Some("Uploading new firmware ..."));
    assert_eq!(update.bar, BarChange::Keep);

    let update = handler.update(FirmwareUpdateStep::UploadingFirmware, Some((10, 100)));
    assert_eq!(update.line, None);
    assert_eq!(
        update.bar,
        BarChange::Show {
            created: true,
            current: 10,
            total: 100
        }
    );
    let update = handler.update(FirmwareUpdateStep::UploadingFirmware, Some((20, 100)));
    assert_eq!(
        update.bar,
        BarChange::Show {
            created: false,
            current: 20,
            total: 100
        }
    );
    let update = handler.update(FirmwareUpdateStep::ActivatingFirmware, None);
    assert_eq!(update.line.as_deref(), Some("Activating new firmware ..."));
    assert_eq!(update.bar, BarChange::Remove);
    assert_eq!(handler.finish(), BarChange::Keep);

    handler.update(FirmwareUpdateStep::UploadingFirmware, Some((1, 2)));
    assert_eq!(handler.finish(), BarChange::Remove);
    assert_eq!(handler.finish(), BarChange::Keep);
}
