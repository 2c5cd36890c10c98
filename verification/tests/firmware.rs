//! The firmware update as a whole.

use mcumgr_toolkit::bootloader::{BootloaderInfo, BootloaderType};
use mcumgr_toolkit::client::firmware_update::{
    FirmwareUpdateAction, FirmwareUpdateError, FirmwareUpdateParams, FirmwareUpdateStep, ImageInfo,
    ImageParseError,
};
use mcumgr_toolkit::client::image_upload::ImageUploadStep;
use mcumgr_toolkit::client::MCUmgrClient;
use mcumgr_toolkit::commands::image::ImageState;
use mcumgr_toolkit::commands::Request;
use mcumgr_toolkit::error::{DeviceError, ExecuteError, MCUmgrClientError, MGMT_ERR_ENOTSUP};

const NEW: [u8; 32] = [0xab; 32];
const OLD: [u8; 32] = [0x12; 32];

fn image(image: u32, slot: u32, hash: Option<[u8; 32]>, active: bool) -> ImageState {
    ImageState {
        image,
        slot,
        version: format!("{image}.{slot}"),
        hash,
        bootable: true,
        pending: false,
        confirmed: true,
        active,
        permanent: false,
    }
}

fn failed(rc: i32) -> MCUmgrClientError {
    MCUmgrClientError::ExecuteError(ExecuteError::ErrorResponse(DeviceError::V1 { rc }))
}

/// How everything around the update turns out.
struct Surroundings {
    bootloader: Result<BootloaderInfo, MCUmgrClientError>,
    info: Result<ImageInfo, ImageParseError>,
    state: Result<Vec<ImageState>, MCUmgrClientError>,
    uploaded: Result<(), MCUmgrClientError>,
    state_set: Result<Vec<ImageState>, MCUmgrClientError>,
    rechecked: Result<Vec<ImageState>, MCUmgrClientError>,
    reset: Result<(), MCUmgrClientError>,
    refused: Option<&'static str>,
    refused_report: Option<usize>,
}

fn fine() -> Surroundings {
    Surroundings {
        bootloader: Ok(BootloaderInfo::MCUboot {
            mode: 0,
            no_downgrade: false,
        }),
        info: Ok(ImageInfo {
            version: "2.0.0".to_string(),
            hash: NEW,
        }),
        state: Ok(vec![image(0, 0, Some(OLD), true)]),
        uploaded: Ok(()),
        state_set: Ok(vec![]),
        rechecked: Ok(vec![]),
        reset: Ok(()),
        refused: None,
        refused_report: None,
    }
}

#[derive(Debug, PartialEq)]
enum Done {
    Reported(String),
    Uploaded,
    Sent(Request),
}

fn run(
    params: FirmwareUpdateParams,
    around: &Surroundings,
) -> (Result<(), FirmwareUpdateError>, Vec<Done>) {
    let client = MCUmgrClient::new_from_serial(());
    let mut done = vec![];
    let mut reports = 0;
    let mut action = client.firmware_update(b"abc", None, params);
    loop {
        action = match action {
            FirmwareUpdateAction::Report { step, resume } => {
                let text = step.to_string();
                let accepted = around.refused != Some(text.as_str())
                    && around.refused_report != Some(reports);
                reports += 1;
                done.push(Done::Reported(text));
                resume.on_report(accepted)
            }
            FirmwareUpdateAction::DetectBootloader(detecting) => {
                assert_eq!(detecting.request(&client), client.os_bootloader_info());
                detecting.on_info(around.bootloader.clone())
            }
            FirmwareUpdateAction::ParseImage(parsing) => parsing.on_parsed(around.info.clone()),
            FirmwareUpdateAction::GetState(querying) => {
                assert_eq!(querying.request(&client), client.image_get_state());
                querying.on_state(around.state.clone())
            }
            FirmwareUpdateAction::Upload(uploading) => {
                match uploading.begin_upload(&client) {
                    ImageUploadStep::Send(chunk) => assert_eq!(chunk.command().data, b"abc"),
                    _ => panic!("there is nothing to send"),
                }
                let (step, progress) = uploading.upload_report(1, 3);
                assert_eq!(step, FirmwareUpdateStep::UploadingFirmware);
                assert_eq!(progress, Some((1, 3)));
                done.push(Done::Uploaded);
                uploading.on_uploaded(around.uploaded.clone())
            }
            FirmwareUpdateAction::SetState(activating) => {
                done.push(Done::Sent(activating.request(&client)));
                activating.on_state_set(around.state_set.clone())
            }
            FirmwareUpdateAction::Recheck(rechecking) => {
                assert_eq!(rechecking.request(&client), client.image_get_state());
                rechecking.on_state(around.rechecked.clone())
            }
            FirmwareUpdateAction::Reset(rebooting) => {
                done.push(Done::Sent(rebooting.request(&client)));
                return (rebooting.on_reset(around.reset.clone()), done);
            }
            FirmwareUpdateAction::Finished(result) => return (result, done),
        };
    }
}

fn operations(done: Vec<Done>) -> Vec<Done> {
    done.into_iter()
        .filter(|done| !matches!(done, Done::Reported(_)))
        .collect()
}

fn result(around: &Surroundings) -> Result<(), FirmwareUpdateError> {
    run(FirmwareUpdateParams::default(), around).0
}

fn reported(text: &str) -> Done {
    Done::Reported(text.to_string())
}

#[test]
fn an_update_uploads_activates_and_reboots() {
    let client = MCUmgrClient::new_from_serial(());
    let (result, done) = run(FirmwareUpdateParams::default(), &fine());
    assert_eq!(result, Ok(()));
    assert_eq!(
        done,
        vec![
            reported("Detecting bootloader ..."),
            reported("Found bootloader: MCUboot"),
            reported("Parsing firmware image ..."),
            reported("Querying device state ..."),
            reported("Update: 0.0-12121212 -> 2.0.0-abababab"),
            reported("Uploading new firmware ..."),
            Done::Uploaded,
            reported("Activating new firmware ..."),
            Done::Sent(client.image_set_state(Some(NEW), false)),
            reported("Triggering device reboot ..."),
            Done::Sent(client.os_system_reset(false, None)),
        ]
    );
}

#[test]
fn parameters_change_the_update() {
    let client = MCUmgrClient::new_from_serial(());
    let params = FirmwareUpdateParams {
        bootloader_type: Some(BootloaderType::MCUboot),
        skip_reboot: true,
        force_confirm: true,
        upgrade_only: true,
    };
    let (result, done) = run(params, &fine());
    assert_eq!(result, Ok(()));
    assert_eq!(done[0], reported("Parsing firmware image ..."));
    assert_eq!(
        operations(done),
        vec![
            Done::Uploaded,
            Done::Sent(client.image_set_state(Some(NEW), true)),
        ]
    );
}

#[test]
fn the_upload_of_an_update_passes_its_parameters_on() {
    let client = MCUmgrClient::new_from_serial(());
    let params = FirmwareUpdateParams {
        bootloader_type: Some(BootloaderType::MCUboot),
        upgrade_only: true,
        ..Default::default()
    };
    let mut action = client.firmware_update(b"abc", Some([0; 32]), params);
    loop {
        action = match action {
            FirmwareUpdateAction::Report { resume, .. } => resume.on_report(true),
            FirmwareUpdateAction::ParseImage(parsing) => parsing.on_parsed(fine().info),
            FirmwareUpdateAction::GetState(querying) => querying.on_state(Ok(vec![])),
            FirmwareUpdateAction::Upload(uploading) => {
                // The checksum does not belong to the firmware
                match uploading.begin_upload(&client) {
                    ImageUploadStep::Finished(result) => {
                        assert_eq!(result, Err(MCUmgrClientError::ChecksumMismatch));
                    }
                    _ => panic!("the upload is not over"),
                }
                break;
            }
            _ => panic!("the firmware is not uploaded"),
        };
    }
}

#[test]
fn installed_firmware_is_left_alone() {
    let around = Surroundings {
        state: Ok(vec![image(0, 0, Some(NEW), true)]),
        ..fine()
    };
    let (result, done) = run(FirmwareUpdateParams::default(), &around);
    assert_eq!(result, Err(FirmwareUpdateError::AlreadyInstalled));
    assert_eq!(
        done.last(),
        Some(&reported("Update: 0.0-abababab -> 2.0.0-abababab"))
    );
    assert_eq!(operations(done), vec![]);
}

fn summary(state: Vec<ImageState>) -> String {
    let around = Surroundings {
        state: Ok(state),
        ..fine()
    };
    let (_, done) = run(FirmwareUpdateParams::default(), &around);
    match &done[4] {
        Done::Reported(text) => text.clone(),
        _ => panic!("there is no summary"),
    }
}

#[test]
fn the_active_slot_is_the_current_one() {
    // The active slot of the image, wherever it is
    assert_eq!(
        summary(vec![
            image(1, 0, Some(NEW), true),
            image(0, 0, Some(NEW), false),
            image(0, 1, Some(OLD), true),
        ]),
        "Update: 0.1-12121212 -> 2.0.0-abababab"
    );
    // Or else its first slot
    assert_eq!(
        summary(vec![
            image(1, 0, Some(NEW), true),
            image(0, 1, Some(NEW), false),
            image(0, 0, None, false),
        ]),
        "Update: 0.0 -> 2.0.0-abababab"
    );
    assert_eq!(
        summary(vec![image(0, 1, Some(NEW), false)]),
        "Update: Empty -> 2.0.0-abababab"
    );
}

#[test]
fn every_failure_has_its_error() {
    let around = Surroundings {
        bootloader: Err(failed(3)),
        ..fine()
    };
    assert_eq!(
        result(&around),
        Err(FirmwareUpdateError::BootloaderDetectionFailed(failed(3)))
    );
    let around = Surroundings {
        bootloader: Ok(BootloaderInfo::Unknown {
            name: "U-Boot".to_string(),
        }),
        ..fine()
    };
    assert_eq!(
        result(&around),
        Err(FirmwareUpdateError::BootloaderNotSupported(
            "U-Boot".to_string()
        ))
    );
    let unreadable = ImageParseError {
        message: "no magic".to_string(),
    };
    let around = Surroundings {
        info: Err(unreadable.clone()),
        ..fine()
    };
    assert_eq!(
        result(&around),
        Err(FirmwareUpdateError::InvalidMcuBootFirmwareImage(unreadable))
    );
    let around = Surroundings {
        state: Err(failed(3)),
        ..fine()
    };
    assert_eq!(
        result(&around),
        Err(FirmwareUpdateError::GetStateFailed(failed(3)))
    );
    let around = Surroundings {
        uploaded: Err(MCUmgrClientError::ChecksumMismatch),
        ..fine()
    };
    assert_eq!(
        result(&around),
        Err(FirmwareUpdateError::ImageUploadFailed(
            MCUmgrClientError::ChecksumMismatch
        ))
    );
    let around = Surroundings {
        uploaded: Err(MCUmgrClientError::ProgressCallbackError),
        ..fine()
    };
    assert_eq!(
        result(&around),
        Err(FirmwareUpdateError::ProgressCallbackError)
    );
    let around = Surroundings {
        reset: Err(failed(3)),
        ..fine()
    };
    assert_eq!(
        result(&around),
        Err(FirmwareUpdateError::RebootFailed(failed(3)))
    );
}

#[test]
fn a_failed_activation_is_checked_again_if_it_is_unsupported() {
    let unsupported = || failed(MGMT_ERR_ENOTSUP);
    let around = Surroundings {
        state_set: Err(failed(3)),
        rechecked: Ok(vec![image(0, 0, Some(NEW), true)]),
        ..fine()
    };
    assert_eq!(
        result(&around),
        Err(FirmwareUpdateError::SetStateFailed(failed(3)))
    );
    let around = Surroundings {
        state_set: Err(unsupported()),
        ..around
    };
    let (outcome, done) = run(FirmwareUpdateParams::default(), &around);
    assert_eq!(outcome, Ok(()));
    assert_eq!(operations(done).len(), 3);
    for state in [
        vec![],
        vec![image(0, 1, Some(NEW), true)],
        vec![image(1, 0, Some(NEW), true)],
        vec![image(0, 0, Some(OLD), true)],
        vec![image(0, 0, None, true)],
    ] {
        let around = Surroundings {
            state_set: Err(unsupported()),
            rechecked: Ok(state),
            ..fine()
        };
        let (outcome, done) = run(FirmwareUpdateParams::default(), &around);
        assert_eq!(
            outcome,
            Err(FirmwareUpdateError::SetStateFailed(unsupported()))
        );
        assert_eq!(operations(done).len(), 2);
    }
    let around = Surroundings {
        state_set: Err(unsupported()),
        rechecked: Err(failed(4)),
        ..fine()
    };
    assert_eq!(
        result(&around),
        Err(FirmwareUpdateError::GetStateFailed(failed(4)))
    );
}

#[test]
fn a_refused_report_ends_the_update() {
    for (text, done_before) in [
        ("Detecting bootloader ...", 0),
        ("Found bootloader: MCUboot", 0),
        ("Parsing firmware image ...", 0),
        ("Querying device state ...", 0),
        ("Update: 0.0-12121212 -> 2.0.0-abababab", 0),
        ("Uploading new firmware ...", 0),
        ("Activating new firmware ...", 1),
        ("Triggering device reboot ...", 2),
    ] {
        let around = Surroundings {
            refused: Some(text),
            ..fine()
        };
        let (outcome, done) = run(FirmwareUpdateParams::default(), &around);
        assert_eq!(outcome, Err(FirmwareUpdateError::ProgressCallbackError));
        assert_eq!(done.last(), Some(&reported(text)));
        assert_eq!(operations(done).len(), done_before);
    }
}

#[test]
fn the_default_parameters_change_nothing() {
    assert_eq!(
        FirmwareUpdateParams::default(),
        FirmwareUpdateParams {
            bootloader_type: None,
            skip_reboot: false,
            force_confirm: false,
            upgrade_only: false,
        }
    );
}

#[test]
fn steps_are_compared_by_their_content() {
    let info = |current: Option<(&str, Option<[u8; 32]>)>, new: [u8; 32]| {
        FirmwareUpdateStep::UpdateInfo {
            current_version: current.map(|(version, hash)| (version.to_string(), hash)),
            new_version: ("2".to_string(), new),
        }
    };
    let steps = [
        FirmwareUpdateStep::DetectingBootloader,
        FirmwareUpdateStep::BootloaderFound(BootloaderType::MCUboot),
        FirmwareUpdateStep::ParsingFirmwareImage,
        FirmwareUpdateStep::QueryingDeviceState,
        info(None, NEW),
        info(None, OLD),
        info(Some(("1", None)), NEW),
        info(Some(("1", Some(OLD))), NEW),
        info(Some(("0", Some(OLD))), NEW),
        FirmwareUpdateStep::UploadingFirmware,
        FirmwareUpdateStep::ActivatingFirmware,
        FirmwareUpdateStep::TriggeringReboot,
    ];
    for (i, a) in steps.iter().enumerate() {
        for (j, b) in steps.iter().enumerate() {
            assert_eq!(a.is_same(b), i == j);
            assert_eq!(a == b, i == j);
        }
        assert!(a.is_same(&a.clone()));
    }
}

#[test]
fn the_second_query_can_be_refused_on_its_own() {
    let around = Surroundings {
        state_set: Err(failed(MGMT_ERR_ENOTSUP)),
        rechecked: Ok(vec![image(0, 0, Some(NEW), true)]),
        refused_report: Some(7),
        ..fine()
    };
    let (outcome, done) = run(FirmwareUpdateParams::default(), &around);
    assert_eq!(outcome, Err(FirmwareUpdateError::ProgressCallbackError));
    assert_eq!(done[3], reported("Querying device state ..."));
    assert_eq!(done.last(), Some(&reported("Querying device state ...")));
    assert_eq!(operations(done).len(), 2);
    // The report after it is the one on the reboot
    let around = Surroundings {
        refused_report: Some(8),
        ..around
    };
    let (outcome, done) = run(FirmwareUpdateParams::default(), &around);
    assert_eq!(outcome, Err(FirmwareUpdateError::ProgressCallbackError));
    assert_eq!(done.last(), Some(&reported("Triggering device reboot ...")));
}
