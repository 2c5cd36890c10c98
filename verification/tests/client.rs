//! The commands that take a single request.

use std::collections::HashMap;

use mcumgr_toolkit::bootloader::{BootloaderInfo, BootloaderType};
use mcumgr_toolkit::client::group_ids::GroupIdQuery;
use mcumgr_toolkit::client::{BootloaderInfoStep, MCUmgrClient};
use mcumgr_toolkit::commands::image::{ImageErase, SetImageState};
use mcumgr_toolkit::commands::{enumeration, fs, image, os, request, shell, stats, zephyr};
use mcumgr_toolkit::error::{
    DeviceError, ExecuteError, IoError, IoErrorKind, MCUmgrClientError, ReceiveError,
    MGMT_ERR_ENOTSUP,
};

fn client() -> MCUmgrClient<()> {
    MCUmgrClient::new_from_serial(())
}

fn failure() -> ExecuteError {
    ExecuteError::ReceiveFailed(ReceiveError::TransportError(IoError {
        kind: IoErrorKind::TimedOut,
        message: "timed out".to_string(),
    }))
}

fn lifted() -> MCUmgrClientError {
    MCUmgrClientError::ExecuteError(failure())
}

#[test]
fn a_client_can_be_configured() {
    let mut client = client();
    assert_eq!(client.smp_frame_size, 384);
    client.set_frame_size(1024);
    assert_eq!(client.smp_frame_size, 1024);
    client.set_retries(5);
    assert_eq!(client.retries, Some(5));
    assert_eq!(client.set_timeout(Ok(())), Ok(()));
    assert_eq!(
        client.set_timeout(Err("unsupported".to_string())),
        Err(MCUmgrClientError::SetTimeoutFailed(
            "unsupported".to_string()
        ))
    );
}

#[test]
fn the_frame_size_can_be_taken_from_the_device() {
    let mut client = client();
    assert_eq!(
        client.use_auto_frame_size(),
        request(&os::MCUmgrParameters, true)
    );
    assert_eq!(client.use_auto_frame_size_reply(Err(failure())), Err(lifted()));
    assert_eq!(client.smp_frame_size, 384);
    let reply = os::MCUmgrParametersResponse {
        buf_size: 2048,
        buf_count: 4,
    };
    assert_eq!(client.use_auto_frame_size_reply(Ok(reply)), Ok(()));
    assert_eq!(client.smp_frame_size, 2048);
}

#[test]
fn a_connection_is_checked_with_a_random_message() {
    let client = client();
    let (message, sent) = client.check_connection();
    assert_eq!(message.len(), 16);
    assert!(message.chars().all(|c| c.is_ascii_alphanumeric()));
    assert_eq!(sent, request(&os::Echo { d: &message }, true));
    assert_ne!(message, client.check_connection().0);

    let echo = |r: &str| Ok(os::EchoResponse { r: r.to_string() });
    assert_eq!(client.check_connection_reply(&message, echo(&message)), Ok(()));
    assert_eq!(
        client.check_connection_reply(&message, echo("something else")),
        Err(MCUmgrClientError::ExecuteError(
            ExecuteError::ReceiveFailed(ReceiveError::UnexpectedResponse)
        ))
    );
    assert_eq!(
        client.check_connection_reply(&message, Err(failure())),
        Err(lifted())
    );
}

fn task(stkuse: Option<u64>, stksiz: Option<u64>) -> os::TaskStatisticsEntry {
    os::TaskStatisticsEntry {
        prio: -1,
        tid: 7,
        state: 2,
        stkuse,
        stksiz,
        cswcnt: Some(9),
        runtime: None,
    }
}

#[test]
fn stack_sizes_are_converted_to_bytes() {
    let client = client();
    let tasks = |entries: Vec<os::TaskStatisticsEntry>| os::TaskStatisticsResponse {
        tasks: entries
            .into_iter()
            .map(|entry| ("main".to_string(), entry))
            .collect(),
    };
    let response = tasks(vec![task(Some(3), Some(10)), task(None, Some(0))]);
    assert!(MCUmgrClient::<()>::has_valid_stack_sizes(&response));
    assert_eq!(
        client.os_task_statistics_reply(Ok(response)),
        Ok(tasks(vec![task(Some(12), Some(40)), task(None, Some(0))]).tasks)
    );
    assert_eq!(
        client.os_task_statistics_reply(Err(failure())),
        Err(lifted())
    );
    let limit = u64::MAX / 4;
    assert!(MCUmgrClient::<()>::has_valid_stack_sizes(&tasks(vec![task(
        Some(limit),
        None
    )])));
    assert!(!MCUmgrClient::<()>::has_valid_stack_sizes(&tasks(vec![
        task(None, None),
        task(None, Some(limit + 1))
    ])));
}

#[test]
fn the_mode_of_mcuboot_is_queried() {
    let client = client();
    let named = |name: &str| {
        Ok(os::BootloaderInfoResponse {
            bootloader: name.to_string(),
        })
    };
    assert!(matches!(
        client.os_bootloader_info_reply(named("MCUboot")),
        BootloaderInfoStep::QueryMode(sent)
            if sent == request(&os::BootloaderInfoMcubootMode, true)
    ));
    assert!(matches!(
        client.os_bootloader_info_reply(named("mcuboot")),
        BootloaderInfoStep::Finished(Ok(BootloaderInfo::Unknown { name })) if name == "mcuboot"
    ));
    assert!(matches!(
        client.os_bootloader_info_reply(Err(failure())),
        BootloaderInfoStep::Finished(Err(err)) if err == lifted()
    ));
    let info = client
        .os_bootloader_info_mode_reply(Ok(os::BootloaderInfoMcubootModeResponse {
            mode: 5,
            no_downgrade: true,
        }))
        .unwrap();
    assert_eq!(
        info,
        BootloaderInfo::MCUboot {
            mode: 5,
            no_downgrade: true
        }
    );
    assert_eq!(info.get_bootloader_type(), Ok(BootloaderType::MCUboot));
    assert_eq!(
        client.os_bootloader_info_mode_reply(Err(failure())),
        Err(lifted())
    );
    let unknown = BootloaderInfo::Unknown {
        name: "U-Boot".to_string(),
    };
    assert_eq!(unknown.get_bootloader_type(), Err("U-Boot".to_string()));
}

#[test]
fn requests_carry_their_command() {
    let client = client();
    assert_eq!(
        client.os_echo("hi"),
        request(&os::Echo { d: "hi" }, true)
    );
    assert_eq!(
        client.os_system_reset(true, Some(1)),
        request(
            &os::SystemReset {
                force: true,
                boot_mode: Some(1)
            },
            true
        )
    );
    assert_eq!(
        client.image_set_state(Some([7; 32]), true),
        request(
            &SetImageState {
                hash: Some(&[7; 32]),
                confirm: true
            },
            true
        )
    );
    assert_eq!(
        client.image_set_state_sha512(Some([7; 64]), false),
        request(
            &SetImageState {
                hash: Some(&[7; 64]),
                confirm: false
            },
            true
        )
    );
    assert_eq!(
        client.image_set_state(None, true),
        client.image_set_state_sha512(None, true)
    );
    assert_eq!(
        client.image_erase(Some(2)),
        request(&ImageErase { slot: Some(2) }, true)
    );
    assert_eq!(
        client.raw_command(&ImageErase { slot: None }),
        client.image_erase(None)
    );
    assert_eq!(
        client.fs_file_checksum("f", Some("crc32"), 3, None),
        request(
            &fs::FileChecksum {
                name: "f",
                algorithm: Some("crc32"),
                off: 3,
                len: None
            },
            true
        )
    );
    let argv = vec!["reboot".to_string()];
    let command = shell::ShellCommandLineExecute { argv: &argv };
    assert_eq!(client.shell_execute(&argv, true), request(&command, true));
    assert_eq!(client.shell_execute(&argv, false), request(&command, false));
    assert_eq!(
        client.enum_get_group_id(4),
        request(&enumeration::GroupId { index: Some(4) }, true)
    );
}

#[test]
fn responses_become_results() {
    let client = client();
    assert_eq!(
        client.os_echo_reply(Ok(os::EchoResponse {
            r: "hi".to_string()
        })),
        Ok("hi".to_string())
    );
    assert_eq!(client.os_echo_reply(Err(failure())), Err(lifted()));
    assert_eq!(
        client.shell_execute_reply(Ok(shell::ShellCommandLineExecuteResponse {
            o: "out".to_string(),
            ret: -3
        })),
        Ok((-3, "out".to_string()))
    );
    assert_eq!(
        client.stats_list_groups_reply(Ok(stats::ListGroupsResponse {
            stat_list: vec!["a".to_string()]
        })),
        Ok(vec!["a".to_string()])
    );
    let fields = HashMap::from([("errors".to_string(), 3)]);
    assert_eq!(
        client.stats_get_group_data_reply(Ok(stats::GroupDataResponse {
            fields: fields.clone()
        })),
        Ok(fields)
    );
    assert_eq!(
        client.image_erase_reply(Ok(image::ImageEraseResponse)),
        Ok(())
    );
    assert_eq!(client.image_erase_reply(Err(failure())), Err(lifted()));
    assert_eq!(
        client.image_slot_info_reply(Ok(image::SlotInfoResponse { images: vec![] })),
        Ok(vec![])
    );
    assert_eq!(
        client.fs_file_status_reply(Ok(fs::FileStatusResponse { len: 123 })),
        Ok(fs::FileStatusResponse { len: 123 })
    );
    assert_eq!(
        client.enum_get_group_ids_reply(Ok(enumeration::ListGroupsResponse {
            groups: vec![1, 8]
        })),
        Ok(vec![1, 8])
    );
    assert_eq!(
        client.zephyr_erase_storage_reply(Ok(zephyr::EraseStorageResponse)),
        Ok(())
    );
    assert_eq!(client.raw_command_reply(Ok(5)), Ok(5));
    assert_eq!(client.raw_command_reply::<()>(Err(failure())), Err(lifted()));
}

#[test]
fn unsupported_commands_are_recognised() {
    let reported = |err| MCUmgrClientError::from(ExecuteError::ErrorResponse(err));
    assert!(reported(DeviceError::V1 {
        rc: MGMT_ERR_ENOTSUP
    })
    .command_not_supported());
    assert!(!reported(DeviceError::V1 { rc: 3 }).command_not_supported());
    assert!(!reported(DeviceError::V2 {
        group: 1,
        rc: MGMT_ERR_ENOTSUP
    })
    .command_not_supported());
    assert!(!lifted().command_not_supported());
    assert!(!MCUmgrClientError::SizeMismatch.command_not_supported());
}

#[test]
fn group_ids_are_enumerated() {
    let client = client();
    let groups = [0u16, 1, 8, 63];
    let mut iter = client.enum_iter_group_ids();
    let mut found = vec![];
    assert_eq!(
        GroupIdQuery::Count.request(&client),
        Some(client.enum_get_group_count())
    );
    assert_eq!(
        GroupIdQuery::Id(2).request(&client),
        Some(client.enum_get_group_id(2))
    );
    assert_eq!(GroupIdQuery::End.request(&client), None);
    loop {
        match iter.next_query() {
            GroupIdQuery::Count => assert_eq!(iter.on_count(Ok(groups.len() as u16)), None),
            GroupIdQuery::Id(index) => {
                found.push(iter.on_id(Ok(groups[index as usize])).unwrap())
            }
            GroupIdQuery::End => break,
        }
    }
    assert_eq!(found, groups);
    assert_eq!(iter.next_query(), GroupIdQuery::End);
}

#[test]
fn the_enumeration_ends_after_an_error() {
    let client = client();
    let mut iter = client.enum_iter_group_ids();
    assert_eq!(iter.on_count(Err(lifted())), Some(Err(lifted())));
    assert_eq!(iter.next_query(), GroupIdQuery::End);

    let mut iter = client.enum_iter_group_ids();
    assert_eq!(iter.on_count(Ok(3)), None);
    assert_eq!(iter.on_id(Ok(5)), Ok(5));
    assert_eq!(iter.next_query(), GroupIdQuery::Id(1));
    assert_eq!(iter.on_id(Err(lifted())), Err(lifted()));
    assert_eq!(iter.next_query(), GroupIdQuery::End);
}
