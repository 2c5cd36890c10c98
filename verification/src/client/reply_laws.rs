//! What the client makes of the responses of a device.
//!
//! Every law here speaks of the result that a function of the client returns for a response, and
//! of what the response holds. An error is always passed on.

use super::{BootloaderInfoStep, MCUmgrClient};
use crate::bootloader::{BootloaderInfo, BootloaderType};
use crate::commands::fs::FileChecksumProperties;
use crate::commands::image::{ImageState, SlotInfoImage};
use crate::commands::{enumeration, fs, image, os, shell, stats, zephyr};
use crate::error::{DeviceError, ExecuteError, MCUmgrClientError, ReceiveError};
use std::collections::HashMap;
use vstd::prelude::*;

verus! {

/// The result of an echo is the text that the device replied.
pub proof fn law_os_echo_is_answered<T>(
    client: MCUmgrClient<T>,
    reply: Result<os::EchoResponse, ExecuteError>,
    r: Result<String, MCUmgrClientError>,
)
    requires
        call_ensures(MCUmgrClient::<T>::os_echo_reply, (&client, reply), r),
    ensures
        reply matches Ok(response) ==> r is Ok && r->Ok_0 == response.r,
        reply matches Err(err) ==> r is Err && r->Err_0 == MCUmgrClientError::ExecuteError(err),
{
}

/// Setting the date and time succeeds if the device does not report an error.
pub proof fn law_os_set_datetime_is_answered<T>(
    client: MCUmgrClient<T>,
    reply: Result<os::DateTimeSetResponse, ExecuteError>,
    r: Result<(), MCUmgrClientError>,
)
    requires
        call_ensures(MCUmgrClient::<T>::os_set_datetime_reply, (&client, reply), r),
    ensures
        reply is Ok ==> r is Ok,
        reply matches Err(err) ==> r is Err && r->Err_0 == MCUmgrClientError::ExecuteError(err),
{
}

/// The date and time are those that the device replied.
pub proof fn law_os_get_datetime_is_answered<T>(
    client: MCUmgrClient<T>,
    reply: Result<os::DateTimeGetResponse, ExecuteError>,
    r: Result<String, MCUmgrClientError>,
)
    requires
        call_ensures(MCUmgrClient::<T>::os_get_datetime_reply, (&client, reply), r),
    ensures
        reply matches Ok(response) ==> r is Ok && r->Ok_0 == response.datetime,
        reply matches Err(err) ==> r is Err && r->Err_0 == MCUmgrClientError::ExecuteError(err),
{
}

/// A reset succeeds if the device does not report an error.
pub proof fn law_os_system_reset_is_answered<T>(
    client: MCUmgrClient<T>,
    reply: Result<os::SystemResetResponse, ExecuteError>,
    r: Result<(), MCUmgrClientError>,
)
    requires
        call_ensures(MCUmgrClient::<T>::os_system_reset_reply, (&client, reply), r),
    ensures
        reply is Ok ==> r is Ok,
        reply matches Err(err) ==> r is Err && r->Err_0 == MCUmgrClientError::ExecuteError(err),
{
}

/// The parameters are those that the device replied.
pub proof fn law_os_mcumgr_parameters_is_answered<T>(
    client: MCUmgrClient<T>,
    reply: Result<os::MCUmgrParametersResponse, ExecuteError>,
    r: Result<os::MCUmgrParametersResponse, MCUmgrClientError>,
)
    requires
        call_ensures(MCUmgrClient::<T>::os_mcumgr_parameters_reply, (&client, reply), r),
    ensures
        reply is Ok ==> r is Ok && r->Ok_0 == reply->Ok_0,
        reply matches Err(err) ==> r is Err && r->Err_0 == MCUmgrClientError::ExecuteError(err),
{
}

/// The information on the application is the text that the device replied.
pub proof fn law_os_application_info_is_answered<T>(
    client: MCUmgrClient<T>,
    reply: Result<os::ApplicationInfoResponse, ExecuteError>,
    r: Result<String, MCUmgrClientError>,
)
    requires
        call_ensures(MCUmgrClient::<T>::os_application_info_reply, (&client, reply), r),
    ensures
        reply matches Ok(response) ==> r is Ok && r->Ok_0 == response.output,
        reply matches Err(err) ==> r is Err && r->Err_0 == MCUmgrClientError::ExecuteError(err),
{
}

/// The image state is the one that the device replied.
pub proof fn law_image_get_state_is_answered<T>(
    client: MCUmgrClient<T>,
    reply: Result<image::ImageStateResponse, ExecuteError>,
    r: Result<Vec<ImageState>, MCUmgrClientError>,
)
    requires
        call_ensures(MCUmgrClient::<T>::image_get_state_reply, (&client, reply), r),
    ensures
        reply matches Ok(response) ==> r is Ok && r->Ok_0 == response.images,
        reply matches Err(err) ==> r is Err && r->Err_0 == MCUmgrClientError::ExecuteError(err),
{
}

/// The new image state is the one that the device replied.
pub proof fn law_image_set_state_is_answered<T>(
    client: MCUmgrClient<T>,
    reply: Result<image::ImageStateResponse, ExecuteError>,
    r: Result<Vec<ImageState>, MCUmgrClientError>,
)
    requires
        call_ensures(MCUmgrClient::<T>::image_set_state_reply, (&client, reply), r),
    ensures
        reply matches Ok(response) ==> r is Ok && r->Ok_0 == response.images,
        reply matches Err(err) ==> r is Err && r->Err_0 == MCUmgrClientError::ExecuteError(err),
{
}

/// The new image state is the one that the device replied, for longer hashes as well.
pub proof fn law_image_set_state_sha512_is_answered<T>(
    client: MCUmgrClient<T>,
    reply: Result<image::ImageStateResponse, ExecuteError>,
    r: Result<Vec<ImageState>, MCUmgrClientError>,
)
    requires
        call_ensures(MCUmgrClient::<T>::image_set_state_sha512_reply, (&client, reply), r),
    ensures
        reply matches Ok(response) ==> r is Ok && r->Ok_0 == response.images,
        reply matches Err(err) ==> r is Err && r->Err_0 == MCUmgrClientError::ExecuteError(err),
{
}

/// Erasing a slot succeeds if the device does not report an error.
pub proof fn law_image_erase_is_answered<T>(
    client: MCUmgrClient<T>,
    reply: Result<image::ImageEraseResponse, ExecuteError>,
    r: Result<(), MCUmgrClientError>,
)
    requires
        call_ensures(MCUmgrClient::<T>::image_erase_reply, (&client, reply), r),
    ensures
        reply is Ok ==> r is Ok,
        reply matches Err(err) ==> r is Err && r->Err_0 == MCUmgrClientError::ExecuteError(err),
{
}

/// The slots are those that the device replied.
pub proof fn law_image_slot_info_is_answered<T>(
    client: MCUmgrClient<T>,
    reply: Result<image::SlotInfoResponse, ExecuteError>,
    r: Result<Vec<SlotInfoImage>, MCUmgrClientError>,
)
    requires
        call_ensures(MCUmgrClient::<T>::image_slot_info_reply, (&client, reply), r),
    ensures
        reply matches Ok(response) ==> r is Ok && r->Ok_0 == response.images,
        reply matches Err(err) ==> r is Err && r->Err_0 == MCUmgrClientError::ExecuteError(err),
{
}

/// The statistics are those that the device replied.
pub proof fn law_stats_get_group_data_is_answered<T>(
    client: MCUmgrClient<T>,
    reply: Result<stats::GroupDataResponse, ExecuteError>,
    r: Result<HashMap<String, u64>, MCUmgrClientError>,
)
    requires
        call_ensures(MCUmgrClient::<T>::stats_get_group_data_reply, (&client, reply), r),
    ensures
        reply matches Ok(response) ==> r is Ok && r->Ok_0 == response.fields,
        reply matches Err(err) ==> r is Err && r->Err_0 == MCUmgrClientError::ExecuteError(err),
{
}

/// The groups of statistics are those that the device replied.
pub proof fn law_stats_list_groups_is_answered<T>(
    client: MCUmgrClient<T>,
    reply: Result<stats::ListGroupsResponse, ExecuteError>,
    r: Result<Vec<String>, MCUmgrClientError>,
)
    requires
        call_ensures(MCUmgrClient::<T>::stats_list_groups_reply, (&client, reply), r),
    ensures
        reply matches Ok(response) ==> r is Ok && r->Ok_0 == response.stat_list,
        reply matches Err(err) ==> r is Err && r->Err_0 == MCUmgrClientError::ExecuteError(err),
{
}

/// The status of a file is the one that the device replied.
pub proof fn law_fs_file_status_is_answered<T>(
    client: MCUmgrClient<T>,
    reply: Result<fs::FileStatusResponse, ExecuteError>,
    r: Result<fs::FileStatusResponse, MCUmgrClientError>,
)
    requires
        call_ensures(MCUmgrClient::<T>::fs_file_status_reply, (&client, reply), r),
    ensures
        reply is Ok ==> r is Ok && r->Ok_0 == reply->Ok_0,
        reply matches Err(err) ==> r is Err && r->Err_0 == MCUmgrClientError::ExecuteError(err),
{
}

/// The checksum of a file is the one that the device replied.
pub proof fn law_fs_file_checksum_is_answered<T>(
    client: MCUmgrClient<T>,
    reply: Result<fs::FileChecksumResponse, ExecuteError>,
    r: Result<fs::FileChecksumResponse, MCUmgrClientError>,
)
    requires
        call_ensures(MCUmgrClient::<T>::fs_file_checksum_reply, (&client, reply), r),
    ensures
        reply is Ok ==> r is Ok && r->Ok_0 == reply->Ok_0,
        reply matches Err(err) ==> r is Err && r->Err_0 == MCUmgrClientError::ExecuteError(err),
{
}

/// The types of checksums are those that the device replied.
pub proof fn law_fs_supported_checksum_types_is_answered<T>(
    client: MCUmgrClient<T>,
    reply: Result<fs::SupportedFileChecksumTypesResponse, ExecuteError>,
    r: Result<HashMap<String, FileChecksumProperties>, MCUmgrClientError>,
)
    requires
        call_ensures(MCUmgrClient::<T>::fs_supported_checksum_types_reply, (&client, reply), r),
    ensures
        reply matches Ok(response) ==> r is Ok && r->Ok_0 == response.types,
        reply matches Err(err) ==> r is Err && r->Err_0 == MCUmgrClientError::ExecuteError(err),
{
}

/// Closing files succeeds if the device does not report an error.
pub proof fn law_fs_file_close_is_answered<T>(
    client: MCUmgrClient<T>,
    reply: Result<fs::FileCloseResponse, ExecuteError>,
    r: Result<(), MCUmgrClientError>,
)
    requires
        call_ensures(MCUmgrClient::<T>::fs_file_close_reply, (&client, reply), r),
    ensures
        reply is Ok ==> r is Ok,
        reply matches Err(err) ==> r is Err && r->Err_0 == MCUmgrClientError::ExecuteError(err),
{
}

/// The result of a shell command is its return value together with its output.
pub proof fn law_shell_execute_is_answered<T>(
    client: MCUmgrClient<T>,
    reply: Result<shell::ShellCommandLineExecuteResponse, ExecuteError>,
    r: Result<(i32, String), MCUmgrClientError>,
)
    requires
        call_ensures(MCUmgrClient::<T>::shell_execute_reply, (&client, reply), r),
    ensures
        reply matches Ok(response) ==> r is Ok && r->Ok_0 == (response.ret, response.o),
        reply matches Err(err) ==> r is Err && r->Err_0 == MCUmgrClientError::ExecuteError(err),
{
}

/// The number of groups is the one that the device replied.
pub proof fn law_enum_get_group_count_is_answered<T>(
    client: MCUmgrClient<T>,
    reply: Result<enumeration::GroupCountResponse, ExecuteError>,
    r: Result<u16, MCUmgrClientError>,
)
    requires
        call_ensures(MCUmgrClient::<T>::enum_get_group_count_reply, (&client, reply), r),
    ensures
        reply matches Ok(response) ==> r is Ok && r->Ok_0 == response.count,
        reply matches Err(err) ==> r is Err && r->Err_0 == MCUmgrClientError::ExecuteError(err),
{
}

/// The groups are those that the device replied.
pub proof fn law_enum_get_group_ids_is_answered<T>(
    client: MCUmgrClient<T>,
    reply: Result<enumeration::ListGroupsResponse, ExecuteError>,
    r: Result<Vec<u16>, MCUmgrClientError>,
)
    requires
        call_ensures(MCUmgrClient::<T>::enum_get_group_ids_reply, (&client, reply), r),
    ensures
        reply matches Ok(response) ==> r is Ok && r->Ok_0 == response.groups,
        reply matches Err(err) ==> r is Err && r->Err_0 == MCUmgrClientError::ExecuteError(err),
{
}

/// The ID of a group is the one that the device replied.
pub proof fn law_enum_get_group_id_is_answered<T>(
    client: MCUmgrClient<T>,
    reply: Result<enumeration::GroupIdResponse, ExecuteError>,
    r: Result<u16, MCUmgrClientError>,
)
    requires
        call_ensures(MCUmgrClient::<T>::enum_get_group_id_reply, (&client, reply), r),
    ensures
        reply matches Ok(response) ==> r is Ok && r->Ok_0 == response.group,
        reply matches Err(err) ==> r is Err && r->Err_0 == MCUmgrClientError::ExecuteError(err),
{
}

/// Erasing the storage succeeds if the device does not report an error.
pub proof fn law_zephyr_erase_storage_is_answered<T>(
    client: MCUmgrClient<T>,
    reply: Result<zephyr::EraseStorageResponse, ExecuteError>,
    r: Result<(), MCUmgrClientError>,
)
    requires
        call_ensures(MCUmgrClient::<T>::zephyr_erase_storage_reply, (&client, reply), r),
    ensures
        reply is Ok ==> r is Ok,
        reply matches Err(err) ==> r is Err && r->Err_0 == MCUmgrClientError::ExecuteError(err),
{
}

/// The result of a raw command is the response itself.
pub proof fn law_raw_command_is_answered<T, R>(
    client: MCUmgrClient<T>,
    reply: Result<R, ExecuteError>,
    r: Result<R, MCUmgrClientError>,
)
    requires
        call_ensures(MCUmgrClient::<T>::raw_command_reply::<R>, (&client, reply), r),
    ensures
        reply is Ok ==> r is Ok && r->Ok_0 == reply->Ok_0,
        reply matches Err(err) ==> r is Err && r->Err_0 == MCUmgrClientError::ExecuteError(err),
{
}

/// The mode of MCUboot is the one that the device replied, and so is whether it rejects
/// downgrades. Such a bootloader is supported, and any other is only known by its name.
pub proof fn law_mcuboot_mode_is_answered<T>(
    client: MCUmgrClient<T>,
    reply: Result<os::BootloaderInfoMcubootModeResponse, ExecuteError>,
    r: Result<BootloaderInfo, MCUmgrClientError>,
    supported: Result<BootloaderType, String>,
    name: String,
    unsupported: Result<BootloaderType, String>,
)
    requires
        call_ensures(MCUmgrClient::<T>::os_bootloader_info_mode_reply, (&client, reply), r),
        r matches Ok(info) ==> call_ensures(
            BootloaderInfo::get_bootloader_type,
            (info,),
            supported,
        ),
        call_ensures(
            BootloaderInfo::get_bootloader_type,
            (BootloaderInfo::Unknown { name },),
            unsupported,
        ),
    ensures
        reply matches Ok(response) ==> {
            &&& r matches Ok(BootloaderInfo::MCUboot { mode, no_downgrade })
            &&& mode == response.mode
            &&& no_downgrade == response.no_downgrade
            &&& supported == Ok::<BootloaderType, String>(BootloaderType::MCUboot)
        },
        reply matches Err(err) ==> r is Err && r->Err_0 == MCUmgrClientError::ExecuteError(err),
        unsupported == Err::<BootloaderType, String>(name),
{
}

/// The query for the bootloader fails if the device reports an error.
pub proof fn law_bootloader_info_fails<T>(
    client: MCUmgrClient<T>,
    err: ExecuteError,
    step: BootloaderInfoStep,
)
    requires
        call_ensures(
            MCUmgrClient::<T>::os_bootloader_info_reply,
            (&client, Err::<os::BootloaderInfoResponse, ExecuteError>(err)),
            step,
        ),
    ensures
        step == BootloaderInfoStep::Finished(Err(MCUmgrClientError::ExecuteError(err))),
{
}

/// Task statistics can be converted exactly if four times every stack size is a valid number.
pub proof fn law_convertible_statistics_are_recognised<T>(
    response: os::TaskStatisticsResponse,
    b: bool,
)
    requires
        call_ensures(MCUmgrClient::<T>::has_valid_stack_sizes, (&response,), b),
    ensures
        b <==> (forall|i: int|
            #![trigger response.tasks@[i]]
            0 <= i < response.tasks@.len() ==> {
                &&& response.tasks@[i].1.stkuse matches Some(n) ==> n * 4 <= u64::MAX
                &&& response.tasks@[i].1.stksiz matches Some(n) ==> n * 4 <= u64::MAX
            }),
{
}

/// A failed query for task statistics is reported.
pub proof fn law_task_statistics_fail<T>(
    client: MCUmgrClient<T>,
    err: ExecuteError,
    r: Result<Vec<(String, os::TaskStatisticsEntry)>, MCUmgrClientError>,
)
    requires
        call_ensures(
            MCUmgrClient::<T>::os_task_statistics_reply,
            (&client, Err::<os::TaskStatisticsResponse, ExecuteError>(err)),
            r,
        ),
    ensures
        r is Err && r->Err_0 == MCUmgrClientError::ExecuteError(err),
{
}

/// A device is alive exactly if it replies the very message that it was sent. Any other message
/// is an unexpected response.
pub proof fn law_connection_is_checked<T>(
    client: MCUmgrClient<T>,
    message: &str,
    reply: Result<os::EchoResponse, ExecuteError>,
    r: Result<(), MCUmgrClientError>,
)
    requires
        call_ensures(MCUmgrClient::<T>::check_connection_reply, (&client, message, reply), r),
    ensures
        reply matches Ok(response) ==> (r is Ok <==> response.r@ == message@),
        reply is Ok && r is Err ==> r->Err_0 == MCUmgrClientError::ExecuteError(
            ExecuteError::ReceiveFailed(ReceiveError::UnexpectedResponse),
        ),
        reply matches Err(err) ==> r is Err && r->Err_0 == MCUmgrClientError::ExecuteError(err),
{
}

/// The frame size is taken from the buffer size that the device replied, and nothing else
/// changes. It is kept if the device reports an error.
pub proof fn law_frame_size_is_taken_over<T>(
    client: &mut MCUmgrClient<T>,
    reply: Result<os::MCUmgrParametersResponse, ExecuteError>,
    r: Result<(), MCUmgrClientError>,
)
    requires
        call_ensures(MCUmgrClient::<T>::use_auto_frame_size_reply, (client, reply), r),
    ensures
        reply matches Ok(response) ==> r is Ok && final(client).smp_frame_size
            == response.buf_size,
        reply matches Err(err) ==> r is Err && r->Err_0 == MCUmgrClientError::ExecuteError(err)
            && final(client).smp_frame_size == old(client).smp_frame_size,
        final(client).connection == old(client).connection,
        final(client).retries == old(client).retries,
{
}

/// Only the error code eight of the first protocol version stands for an unsupported command.
pub proof fn law_unsupported_command_is_recognised(
    err: ExecuteError,
    b: bool,
    client_err: MCUmgrClientError,
    client_b: bool,
)
    requires
        call_ensures(ExecuteError::command_not_supported, (&err,), b),
        call_ensures(MCUmgrClientError::command_not_supported, (&client_err,), client_b),
    ensures
        b <==> err == ExecuteError::ErrorResponse(DeviceError::V1 { rc: 8 }),
        client_b <==> client_err == MCUmgrClientError::ExecuteError(
            ExecuteError::ErrorResponse(DeviceError::V1 { rc: 8 }),
        ),
{
}

} // verus!
