//! The high-level client.
//!
//! The client does not talk to the device itself. For every command there is a function that
//! builds the request, and one that turns the device's response into the result. Whatever takes
//! more than a single request is a chain of steps.

use crate::bootloader::BootloaderInfo;
use crate::cbor::map_bytes;
use crate::checksum::{sha256, sha256_digest};
use crate::commands;
use crate::commands::fs::{
    FileChecksumProperties, FileChecksumResponse, FileCloseResponse, FileStatusResponse,
    SupportedFileChecksumTypesResponse,
};
use crate::commands::image::{
    set_state_fields, set_state_header, ImageEraseResponse, ImageState, ImageStateResponse,
    SlotInfoImage, SlotInfoResponse,
};
use crate::commands::os::{
    echo_fields, echo_header, has_distinct_names, ApplicationInfoResponse, BootloaderInfoMcubootModeResponse,
    BootloaderInfoResponse, DateTimeGetResponse, DateTimeSetResponse, EchoResponse,
    MCUmgrParametersResponse, SystemResetResponse, TaskStatisticsEntry, TaskStatisticsResponse,
};
use crate::commands::shell::ShellCommandLineExecuteResponse;
use crate::commands::{request, McuMgrCommand, Request};
use crate::error::{ExecuteError, MCUmgrClientError, ReceiveError};
use crate::random::{is_alphanumeric, random_text};
use crate::text::text_equal;
use crate::usb::{
    lists_usb_ports, select_port, selects_port, usb_ports, SystemPort, UsbSerialError,
    UsbSerialPorts,
};
use file_download::{download_start, FileDownloadStep};
use file_upload::{file_upload_start, FileUploadStep};
use firmware_update::{FirmwareUpdate, FirmwareUpdateAction, FirmwareUpdateParams};
use group_ids::GroupIdIter;
use image_upload::{upload_start, ImageUploadStep};
use std::collections::HashMap;
use vstd::prelude::*;

pub mod connection_laws;
pub mod file_download;
pub mod file_laws;
pub mod file_upload;
pub mod firmware_update;
pub mod firmware_update_laws;
pub mod group_ids;
pub mod image_upload;
pub mod image_upload_laws;
pub mod reply_laws;
pub mod request_laws;
pub mod step_text;

verus! {

/// The default SMP frame size of Zephyr.
///
/// Matches Zephyr default value of [MCUMGR_TRANSPORT_NETBUF_SIZE](https://github.com/zephyrproject-rtos/zephyr/blob/v4.2.1/subsys/mgmt/mcumgr/transport/Kconfig#L40).
pub const ZEPHYR_DEFAULT_SMP_FRAME_SIZE: usize = 384;

/// The length of the message with which the connection is checked.
pub const CHECK_MESSAGE_LENGTH: usize = 16;

/// A high-level client for Zephyr's MCUmgr SMP protocol.
///
/// This struct is the central entry point of this crate.
pub struct MCUmgrClient<T> {
    /// The connection to the device
    pub connection: T,
    /// The maximum size of a frame that the device accepts
    pub smp_frame_size: usize,
    /// How often a request is sent again, if that was configured
    pub retries: Option<u8>,
}

/// The result of a command, with its error turned into an error of the client.
pub open spec fn lifted<R>(reply: Result<R, ExecuteError>) -> Result<R, MCUmgrClientError> {
    match reply {
        Ok(response) => Ok(response),
        Err(err) => Err(MCUmgrClientError::ExecuteError(err)),
    }
}

/// A stack size in bytes, given as a number of words.
pub open spec fn words_to_bytes(words: Option<u64>) -> Option<u64> {
    match words {
        Some(words) => Some((words * 4) as u64),
        None => None,
    }
}

/// The stack size in bytes is a valid number.
pub open spec fn bytes_fit(words: Option<u64>) -> bool {
    words is Some ==> words->0 * 4 <= u64::MAX
}

/// The statistics with stack sizes in bytes, given with stack sizes in words.
pub open spec fn with_stack_in_bytes(entry: TaskStatisticsEntry) -> TaskStatisticsEntry {
    TaskStatisticsEntry {
        stkuse: words_to_bytes(entry.stkuse),
        stksiz: words_to_bytes(entry.stksiz),
        ..entry
    }
}

/// All stack sizes in bytes are valid numbers.
pub open spec fn stack_sizes_fit(tasks: Seq<(String, TaskStatisticsEntry)>) -> bool {
    forall|i: int|
        0 <= i < tasks.len() ==> bytes_fit((#[trigger] tasks[i]).1.stkuse) && bytes_fit(
            tasks[i].1.stksiz,
        )
}

/// Lists with the same names in the same order agree on whether a name occurs twice.
proof fn lemma_same_names(
    a: Seq<(String, TaskStatisticsEntry)>,
    b: Seq<(String, TaskStatisticsEntry)>,
)
    requires
        a.len() == b.len(),
        forall|i: int| 0 <= i < a.len() ==> a[i].0 == b[i].0,
    ensures
        has_distinct_names(a) ==> has_distinct_names(b),
{
    if has_distinct_names(a) {
        assert forall|i: int, j: int| 0 <= i < j < b.len() implies (#[trigger] b[i]).0@ != (
        #[trigger] b[j]).0@ by {
            assert(a[i].0@ != a[j].0@);
        }
    }
}

fn in_bytes(words: Option<u64>) -> (bytes: Option<u64>)
    requires
        bytes_fit(words),
    ensures
        bytes == words_to_bytes(words),
{
    match words {
        Some(words) => Some(words * 4),
        None => None,
    }
}

fn is_convertible(words: Option<u64>) -> (b: bool)
    ensures
        b == bytes_fit(words),
{
    match words {
        Some(words) => words <= u64::MAX / 4,
        None => true,
    }
}

/// What has to be done next to learn about the bootloader of the device.
pub enum BootloaderInfoStep {
    /// Query the mode of MCUboot
    QueryMode(Request),
    /// Nothing, the query is over
    Finished(Result<BootloaderInfo, MCUmgrClientError>),
}

impl<T> MCUmgrClient<T> {
    /// Creates a Zephyr MCUmgr SMP client based on a configured and opened serial port.
    pub fn new_from_serial(serial: T) -> (client: Self)
        ensures
            client.connection == serial,
            client.smp_frame_size == ZEPHYR_DEFAULT_SMP_FRAME_SIZE,
            client.retries is None,
    {
        MCUmgrClient {
            connection: serial,
            smp_frame_size: ZEPHYR_DEFAULT_SMP_FRAME_SIZE,
            retries: None,
        }
    }

    /// Selects the USB serial port identified by VID:PID that a client can be based on.
    ///
    /// Useful for programming many devices in rapid succession, as Windows usually
    /// gives each one a different COMxx identifier.
    ///
    /// # Arguments
    ///
    /// * `identifier` - A regex that identifies the device.
    /// * `available` - The serial ports of the system.
    ///
    /// # Identifier examples
    ///
    /// - `1234:89AB` - Vendor ID 1234, Product ID 89AB. Will fail if product has multiple serial ports.
    /// - `1234:89AB:12` - Vendor ID 1234, Product ID 89AB, Interface 12.
    /// - `1234:.*:[2-3]` - Vendor ID 1234, any Product Id, Interface 2 or 3.
    ///
    /// # Return
    ///
    /// The name of the port. It has to be opened for
    /// [`new_from_opened_serial`](Self::new_from_opened_serial).
    pub fn new_from_usb_serial(
        identifier: &str,
        available: Result<Vec<SystemPort>, String>,
    ) -> (r: Result<String, UsbSerialError>)
        ensures
            match available {
                Err(err) => r == Err::<String, UsbSerialError>(UsbSerialError::SerialPortError(err)),
                Ok(ports) => exists|listed: UsbSerialPorts|
                    #[trigger] lists_usb_ports(listed.0@, ports@) && selects_port(
                        identifier@,
                        listed,
                        r,
                    ),
            },
    {
        match available {
            Err(err) => Err(UsbSerialError::SerialPortError(err)),
            Ok(ports) => {
                let listed = usb_ports(ports);
                assert(lists_usb_ports(listed.0@, ports@));
                select_port(identifier, listed)
            },
        }
    }

    /// Creates a client based on the outcome of opening a serial port.
    pub fn new_from_opened_serial(opened: Result<T, String>) -> (r: Result<Self, UsbSerialError>)
        ensures
            match opened {
                Err(err) => r matches Err(UsbSerialError::SerialPortError(e)) && e == err,
                Ok(serial) => r matches Ok(client) && client == (MCUmgrClient {
                    connection: serial,
                    smp_frame_size: ZEPHYR_DEFAULT_SMP_FRAME_SIZE,
                    retries: None,
                }),
            },
    {
        match opened {
            Err(err) => Err(UsbSerialError::SerialPortError(err)),
            Ok(serial) => Ok(MCUmgrClient::new_from_serial(serial)),
        }
    }

    /// Configures the maximum SMP frame size that we can send to the device.
    ///
    /// Must not exceed [`MCUMGR_TRANSPORT_NETBUF_SIZE`](https://github.com/zephyrproject-rtos/zephyr/blob/v4.2.1/subsys/mgmt/mcumgr/transport/Kconfig#L40),
    /// otherwise we might crash the device.
    pub fn set_frame_size(&mut self, smp_frame_size: usize)
        ensures
            *final(self) == (MCUmgrClient { smp_frame_size, ..*old(self) }),
    {
        self.smp_frame_size = smp_frame_size;
    }

    /// Configures the maximum SMP frame size that we can send to the device automatically
    /// by reading the value of [`MCUMGR_TRANSPORT_NETBUF_SIZE`](https://github.com/zephyrproject-rtos/zephyr/blob/v4.2.1/subsys/mgmt/mcumgr/transport/Kconfig#L40)
    /// from the device.
    pub fn use_auto_frame_size(&self) -> (r: Request)
        ensures
            r.carries(commands::os::MCUmgrParameters),
            r.use_retries,
    {
        request(&commands::os::MCUmgrParameters, true)
    }

    /// Takes the frame size from the response to [`use_auto_frame_size`](Self::use_auto_frame_size).
    pub fn use_auto_frame_size_reply(
        &mut self,
        reply: Result<MCUmgrParametersResponse, ExecuteError>,
    ) -> (r: Result<(), MCUmgrClientError>)
        ensures
            match reply {
                Ok(mcumgr_params) => {
                    &&& r == Ok::<(), MCUmgrClientError>(())
                    &&& *final(self) == (MCUmgrClient {
                        smp_frame_size: mcumgr_params.buf_size as usize,
                        ..*old(self)
                    })
                },
                Err(err) => {
                    &&& r == Err::<(), MCUmgrClientError>(MCUmgrClientError::ExecuteError(err))
                    &&& *final(self) == *old(self)
                },
            },
    {
        match reply {
            Ok(mcumgr_params) => {
                self.smp_frame_size = mcumgr_params.buf_size as usize;
                Ok(())
            },
            Err(err) => Err(MCUmgrClientError::from(err)),
        }
    }

    /// Changes the communication timeout.
    ///
    /// When the device does not respond to packets within the set
    /// duration, an error will be raised.
    ///
    /// # Arguments
    ///
    /// * `configured` - The outcome of configuring the timeout of the transport.
    pub fn set_timeout(&self, configured: Result<(), String>) -> (r: Result<(), MCUmgrClientError>)
        ensures
            r == match configured {
                Ok(()) => Ok::<(), MCUmgrClientError>(()),
                Err(err) => Err(MCUmgrClientError::SetTimeoutFailed(err)),
            },
    {
        match configured {
            Ok(()) => Ok(()),
            Err(err) => Err(MCUmgrClientError::SetTimeoutFailed(err)),
        }
    }

    /// Changes the retry amount.
    ///
    /// When the device encounters a transport error, it will retry
    /// this many times until giving up.
    pub fn set_retries(&mut self, retries: u8)
        ensures
            *final(self) == (MCUmgrClient { retries: Some(retries), ..*old(self) }),
    {
        self.retries = Some(retries);
    }

    /// Checks if the device is alive and responding.
    ///
    /// Runs a simple echo with random data and checks if the response matches.
    ///
    /// # Return
    ///
    /// The random message, and the request that sends it.
    pub fn check_connection(&self) -> (r: (String, Request))
        ensures
            r.0@.len() == CHECK_MESSAGE_LENGTH,
            forall|i: int| 0 <= i < r.0@.len() ==> is_alphanumeric(#[trigger] r.0@[i]),
            r.1.header == echo_header(),
            r.1.payload@ == map_bytes(echo_fields(r.0@)),
            r.1.use_retries,
    {
        let random_message = random_text(CHECK_MESSAGE_LENGTH);
        let echo = commands::os::Echo { d: random_message.as_str() };
        let r = request(&echo, true);
        (random_message, r)
    }

    /// Compares the response to [`check_connection`](Self::check_connection) with the message.
    ///
    /// # Return
    ///
    /// An error if the device is not alive and responding.
    pub fn check_connection_reply(
        &self,
        random_message: &str,
        reply: Result<EchoResponse, ExecuteError>,
    ) -> (r: Result<(), MCUmgrClientError>)
        ensures
            r == match reply {
                Ok(response) => if response.r@ == random_message@ {
                    Ok::<(), MCUmgrClientError>(())
                } else {
                    Err(
                        MCUmgrClientError::ExecuteError(
                            ExecuteError::ReceiveFailed(ReceiveError::UnexpectedResponse),
                        ),
                    )
                },
                Err(err) => Err(MCUmgrClientError::ExecuteError(err)),
            },
    {
        match self.os_echo_reply(reply) {
            Ok(response) => if text_equal(random_message, response.as_str()) {
                Ok(())
            } else {
                Err(
                    MCUmgrClientError::from(
                        ExecuteError::ReceiveFailed(ReceiveError::UnexpectedResponse),
                    ),
                )
            },
            Err(err) => Err(err),
        }
    }

    /// High-level firmware update routine.
    ///
    /// # Arguments
    ///
    /// * `firmware` - The firmware image data.
    /// * `checksum` - SHA256 of the firmware image. Optional.
    /// * `params` - Configurable parameters.
    pub fn firmware_update<'a>(
        &self,
        firmware: &'a [u8],
        checksum: Option<[u8; 32]>,
        params: FirmwareUpdateParams,
    ) -> (action: FirmwareUpdateAction<'a>)
        ensures
            action == (FirmwareUpdate { firmware, checksum, params }).start(),
    {
        FirmwareUpdate { firmware, checksum, params }.begin()
    }

    /// Sends a message to the device and expects the same message back as response.
    ///
    /// This can be used as a sanity check for whether the device is connected and responsive.
    pub fn os_echo(&self, msg: &str) -> (r: Request)
        ensures
            r.carries((commands::os::Echo { d: msg })),
            r.use_retries,
    {
        request(&commands::os::Echo { d: msg }, true)
    }

    /// Turns the response to [`os_echo`](Self::os_echo) into its result.
    pub fn os_echo_reply(&self, reply: Result<EchoResponse, ExecuteError>) -> (r: Result<
        String,
        MCUmgrClientError,
    >)
        ensures
            r == match reply {
                Ok(response) => Ok::<String, MCUmgrClientError>(response.r),
                Err(err) => Err(MCUmgrClientError::ExecuteError(err)),
            },
    {
        match reply {
            Ok(response) => Ok(response.r),
            Err(err) => Err(MCUmgrClientError::from(err)),
        }
    }

    /// Queries live task statistics
    pub fn os_task_statistics(&self) -> (r: Request)
        ensures
            r.carries(commands::os::TaskStatistics),
            r.use_retries,
    {
        request(&commands::os::TaskStatistics, true)
    }

    /// Whether the stack sizes of all tasks can be converted to bytes.
    pub fn has_valid_stack_sizes(response: &TaskStatisticsResponse) -> (b: bool)
        ensures
            b == stack_sizes_fit(response.tasks@),
    {
        let mut i: usize = 0;
        while i < response.tasks.len()
            invariant
                i <= response.tasks@.len(),
                stack_sizes_fit(response.tasks@.take(i as int)),
            decreases response.tasks@.len() - i,
        {
            let entry = &response.tasks[i].1;
            assert(response.tasks@[i as int].1 == *entry);
            if !is_convertible(entry.stkuse) || !is_convertible(entry.stksiz) {
                return false;
            }
            assert forall|j: int| 0 <= j < i + 1 implies {
                &&& bytes_fit((#[trigger] response.tasks@.take(i + 1)[j]).1.stkuse)
                &&& bytes_fit(response.tasks@.take(i + 1)[j].1.stksiz)
            } by {
                if j < i {
                    assert(response.tasks@.take(i as int)[j] == response.tasks@.take(i + 1)[j]);
                }
            }
            i += 1;
        }
        assert(response.tasks@.take(i as int) =~= response.tasks@);
        true
    }

    /// Turns the response to [`os_task_statistics`](Self::os_task_statistics) into its result.
    ///
    /// # Note
    ///
    /// Converts `stkuse` and `stksiz` to bytes.
    /// Zephyr originally reports them as number of 4 byte words.
    ///
    /// # Return
    ///
    /// The task names with their respective statistics
    pub fn os_task_statistics_reply(
        &self,
        reply: Result<TaskStatisticsResponse, ExecuteError>,
    ) -> (r: Result<Vec<(String, TaskStatisticsEntry)>, MCUmgrClientError>)
        requires
            reply matches Ok(response) ==> stack_sizes_fit(response.tasks@),
        ensures
            match reply {
                Ok(response) => {
                    &&& r matches Ok(tasks)
                    &&& tasks@ == response.tasks@.map_values(
                        |task: (String, TaskStatisticsEntry)|
                            (task.0, with_stack_in_bytes(task.1)),
                    )
                    &&& has_distinct_names(tasks@) == has_distinct_names(response.tasks@)
                },
                Err(err) => r == Err::<Vec<(String, TaskStatisticsEntry)>, MCUmgrClientError>(
                    MCUmgrClientError::ExecuteError(err),
                ),
            },
    {
        match reply {
            Ok(response) => {
                let mut tasks = response.tasks;
                let ghost reported = tasks@;
                let mut i: usize = 0;
                while i < tasks.len()
                    invariant
                        i <= tasks@.len(),
                        tasks@.len() == reported.len(),
                        stack_sizes_fit(reported),
                        forall|j: int|
                            0 <= j < i ==> #[trigger] tasks@[j] == (
                                reported[j].0,
                                with_stack_in_bytes(reported[j].1),
                            ),
                        forall|j: int| i <= j < tasks@.len() ==> #[trigger] tasks@[j] == reported[j],
                    decreases tasks@.len() - i,
                {
                    assert(tasks@[i as int] == reported[i as int]);
                    let stkuse = in_bytes(tasks[i].1.stkuse);
                    let stksiz = in_bytes(tasks[i].1.stksiz);
                    tasks[i].1.stkuse = stkuse;
                    tasks[i].1.stksiz = stksiz;
                    i += 1;
                }
                assert(tasks@ =~= reported.map_values(
                    |task: (String, TaskStatisticsEntry)| (task.0, with_stack_in_bytes(task.1)),
                ));
                proof {
                    lemma_same_names(reported, tasks@);
                    lemma_same_names(tasks@, reported);
                }
                Ok(tasks)
            },
            Err(err) => Err(MCUmgrClientError::from(err)),
        }
    }

    /// Sets the RTC of the device to the given datetime.
    ///
    /// # Arguments
    ///
    /// * `datetime` - The date and time, as the device reads it.
    pub fn os_set_datetime(&self, datetime: &str) -> (r: Request)
        ensures
            r.carries((commands::os::DateTimeSet { datetime })),
            r.use_retries,
    {
        request(&commands::os::DateTimeSet { datetime }, true)
    }

    /// Turns the response to [`os_set_datetime`](Self::os_set_datetime) into its result.
    pub fn os_set_datetime_reply(&self, reply: Result<DateTimeSetResponse, ExecuteError>) -> (r: Result<
        (),
        MCUmgrClientError,
    >)
        ensures
            r == match reply {
                Ok(response) => Ok::<(), MCUmgrClientError>(()),
                Err(err) => Err(MCUmgrClientError::ExecuteError(err)),
            },
    {
        match reply {
            Ok(response) => Ok(()),
            Err(err) => Err(MCUmgrClientError::from(err)),
        }
    }

    /// Retrieves the device RTC's datetime.
    pub fn os_get_datetime(&self) -> (r: Request)
        ensures
            r.carries(commands::os::DateTimeGet),
            r.use_retries,
    {
        request(&commands::os::DateTimeGet, true)
    }

    /// Turns the response to [`os_get_datetime`](Self::os_get_datetime) into its result.
    pub fn os_get_datetime_reply(&self, reply: Result<DateTimeGetResponse, ExecuteError>) -> (r: Result<
        String,
        MCUmgrClientError,
    >)
        ensures
            r == match reply {
                Ok(response) => Ok::<String, MCUmgrClientError>(response.datetime),
                Err(err) => Err(MCUmgrClientError::ExecuteError(err)),
            },
    {
        match reply {
            Ok(response) => Ok(response.datetime),
            Err(err) => Err(MCUmgrClientError::from(err)),
        }
    }

    /// Issues a system reset.
    ///
    /// # Arguments
    ///
    /// * `force` - Issues a force reset.
    /// * `boot_mode` - Overwrites the boot mode.
    ///
    /// Known `boot_mode` values:
    /// * `0` - Normal system boot
    /// * `1` - Bootloader recovery mode
    ///
    /// Note that `boot_mode` only works if [`MCUMGR_GRP_OS_RESET_BOOT_MODE`](https://docs.zephyrproject.org/latest/kconfig.html#CONFIG_MCUMGR_GRP_OS_RESET_BOOT_MODE) is enabled.
    ///
    pub fn os_system_reset(&self, force: bool, boot_mode: Option<u8>) -> (r: Request)
        ensures
            r.carries((commands::os::SystemReset { force, boot_mode })),
            r.use_retries,
    {
        request(&commands::os::SystemReset { force, boot_mode }, true)
    }

    /// Turns the response to [`os_system_reset`](Self::os_system_reset) into its result.
    pub fn os_system_reset_reply(&self, reply: Result<SystemResetResponse, ExecuteError>) -> (r: Result<
        (),
        MCUmgrClientError,
    >)
        ensures
            r == match reply {
                Ok(response) => Ok::<(), MCUmgrClientError>(()),
                Err(err) => Err(MCUmgrClientError::ExecuteError(err)),
            },
    {
        match reply {
            Ok(response) => Ok(()),
            Err(err) => Err(MCUmgrClientError::from(err)),
        }
    }

    /// Fetch parameters from the MCUmgr library
    pub fn os_mcumgr_parameters(&self) -> (r: Request)
        ensures
            r.carries(commands::os::MCUmgrParameters),
            r.use_retries,
    {
        request(&commands::os::MCUmgrParameters, true)
    }

    /// Turns the response to [`os_mcumgr_parameters`](Self::os_mcumgr_parameters) into its result.
    pub fn os_mcumgr_parameters_reply(&self, reply: Result<MCUmgrParametersResponse, ExecuteError>) -> (r: Result<
        MCUmgrParametersResponse,
        MCUmgrClientError,
    >)
        ensures
            r == match reply {
                Ok(response) => Ok::<MCUmgrParametersResponse, MCUmgrClientError>(response),
                Err(err) => Err(MCUmgrClientError::ExecuteError(err)),
            },
    {
        match reply {
            Ok(response) => Ok(response),
            Err(err) => Err(MCUmgrClientError::from(err)),
        }
    }

    /// Fetch information on the running image
    ///
    /// Similar to Linux's `uname` command.
    ///
    /// # Arguments
    ///
    /// * `format` - Format specifier for the returned response
    ///
    /// For more information about the format specifier fields, see
    /// the [SMP documentation](https://docs.zephyrproject.org/latest/services/device_mgmt/smp_groups/smp_group_0.html#os-application-info-request).
    ///
    pub fn os_application_info(&self, format: Option<&str>) -> (r: Request)
        ensures
            r.carries((commands::os::ApplicationInfo { format })),
            r.use_retries,
    {
        request(&commands::os::ApplicationInfo { format }, true)
    }

    /// Turns the response to [`os_application_info`](Self::os_application_info) into its result.
    pub fn os_application_info_reply(&self, reply: Result<ApplicationInfoResponse, ExecuteError>) -> (r: Result<
        String,
        MCUmgrClientError,
    >)
        ensures
            r == match reply {
                Ok(response) => Ok::<String, MCUmgrClientError>(response.output),
                Err(err) => Err(MCUmgrClientError::ExecuteError(err)),
            },
    {
        match reply {
            Ok(response) => Ok(response.output),
            Err(err) => Err(MCUmgrClientError::from(err)),
        }
    }

    /// Fetch information on the device's bootloader
    pub fn os_bootloader_info(&self) -> (r: Request)
        ensures
            r.carries(commands::os::BootloaderInfo),
            r.use_retries,
    {
        request(&commands::os::BootloaderInfo, true)
    }

    /// Continues with the response to [`os_bootloader_info`](Self::os_bootloader_info).
    pub fn os_bootloader_info_reply(
        &self,
        reply: Result<BootloaderInfoResponse, ExecuteError>,
    ) -> (step: BootloaderInfoStep)
        ensures
            match reply {
                Ok(response) => if response.bootloader@ == "MCUboot"@ {
                    &&& step matches BootloaderInfoStep::QueryMode(r)
                    &&& r.carries(commands::os::BootloaderInfoMcubootMode)
                    &&& r.use_retries
                } else {
                    step == BootloaderInfoStep::Finished(
                        Ok(BootloaderInfo::Unknown { name: response.bootloader }),
                    )
                },
                Err(err) => step == BootloaderInfoStep::Finished(
                    Err(MCUmgrClientError::ExecuteError(err)),
                ),
            },
    {
        match reply {
            Ok(response) => if text_equal(response.bootloader.as_str(), "MCUboot") {
                BootloaderInfoStep::QueryMode(
                    request(&commands::os::BootloaderInfoMcubootMode, true),
                )
            } else {
                BootloaderInfoStep::Finished(
                    Ok(BootloaderInfo::Unknown { name: response.bootloader }),
                )
            },
            Err(err) => BootloaderInfoStep::Finished(Err(MCUmgrClientError::from(err))),
        }
    }

    /// Turns the response to the query for the mode of MCUboot into the result of
    /// [`os_bootloader_info`](Self::os_bootloader_info).
    pub fn os_bootloader_info_mode_reply(
        &self,
        reply: Result<BootloaderInfoMcubootModeResponse, ExecuteError>,
    ) -> (r: Result<BootloaderInfo, MCUmgrClientError>)
        ensures
            r == match reply {
                Ok(mode_data) => Ok::<BootloaderInfo, MCUmgrClientError>(
                    BootloaderInfo::MCUboot {
                        mode: mode_data.mode,
                        no_downgrade: mode_data.no_downgrade,
                    },
                ),
                Err(err) => Err(MCUmgrClientError::ExecuteError(err)),
            },
    {
        match reply {
            Ok(mode_data) => Ok(
                BootloaderInfo::MCUboot {
                    mode: mode_data.mode,
                    no_downgrade: mode_data.no_downgrade,
                },
            ),
            Err(err) => Err(MCUmgrClientError::from(err)),
        }
    }

    /// Obtain a list of images with their current state.
    pub fn image_get_state(&self) -> (r: Request)
        ensures
            r.carries(commands::image::GetImageState),
            r.use_retries,
    {
        request(&commands::image::GetImageState, true)
    }

    /// Turns the response to [`image_get_state`](Self::image_get_state) into its result.
    pub fn image_get_state_reply(&self, reply: Result<ImageStateResponse, ExecuteError>) -> (r: Result<
        Vec<ImageState>,
        MCUmgrClientError,
    >)
        ensures
            r == match reply {
                Ok(response) => Ok::<Vec<ImageState>, MCUmgrClientError>(response.images),
                Err(err) => Err(MCUmgrClientError::ExecuteError(err)),
            },
    {
        match reply {
            Ok(response) => Ok(response.images),
            Err(err) => Err(MCUmgrClientError::from(err)),
        }
    }

    /// Modify the current image state
    ///
    /// # Arguments
    ///
    /// * `hash` - the SHA256 id of the image.
    /// * `confirm` - mark the given image as 'confirmed'
    ///
    /// If `confirm` is `false`, perform a test boot with the given image and revert upon hard reset.
    ///
    /// If `confirm` is `true`, boot to the given image and mark it as `confirmed`. If `hash` is omitted,
    /// confirm the currently running image.
    ///
    /// Note that `hash` will not be the same as the checksum of the whole firmware image,
    /// it is the field in the MCUboot TLV section that contains a hash of the data
    /// which is used for signature verification purposes.
    pub fn image_set_state(&self, hash: Option<[u8; 32]>, confirm: bool) -> (r: Request)
        ensures
            r.header == set_state_header(),
            r.payload@ == map_bytes(
                set_state_fields(
                    match hash {
                        Some(hash) => Some(hash@),
                        None => None,
                    },
                    confirm,
                ),
            ),
            r.use_retries,
    {
        let command = commands::image::SetImageState {
            hash: match &hash {
                Some(hash) => Some(hash.as_slice()),
                None => None,
            },
            confirm,
        };
        request(&command, true)
    }

    /// Turns the response to [`image_set_state`](Self::image_set_state) into its result.
    pub fn image_set_state_reply(&self, reply: Result<ImageStateResponse, ExecuteError>) -> (r: Result<
        Vec<ImageState>,
        MCUmgrClientError,
    >)
        ensures
            r == match reply {
                Ok(response) => Ok::<Vec<ImageState>, MCUmgrClientError>(response.images),
                Err(err) => Err(MCUmgrClientError::ExecuteError(err)),
            },
    {
        match reply {
            Ok(response) => Ok(response.images),
            Err(err) => Err(MCUmgrClientError::from(err)),
        }
    }

    /// Modify the current image state
    ///
    /// # Arguments
    ///
    /// * `hash` - the SHA512 id of the image.
    /// * `confirm` - mark the given image as 'confirmed'
    ///
    /// If `confirm` is `false`, perform a test boot with the given image and revert upon hard reset.
    ///
    /// If `confirm` is `true`, boot to the given image and mark it as `confirmed`. If `hash` is omitted,
    /// confirm the currently running image.
    ///
    /// Note that `hash` will not be the same as the checksum of the whole firmware image,
    /// it is the field in the MCUboot TLV section that contains a hash of the data
    /// which is used for signature verification purposes.
    pub fn image_set_state_sha512(&self, hash: Option<[u8; 64]>, confirm: bool) -> (r: Request)
        ensures
            r.header == set_state_header(),
            r.payload@ == map_bytes(
                set_state_fields(
                    match hash {
                        Some(hash) => Some(hash@),
                        None => None,
                    },
                    confirm,
                ),
            ),
            r.use_retries,
    {
        let command = commands::image::SetImageState {
            hash: match &hash {
                Some(hash) => Some(hash.as_slice()),
                None => None,
            },
            confirm,
        };
        request(&command, true)
    }

    /// Turns the response to [`image_set_state_sha512`](Self::image_set_state_sha512) into its result.
    pub fn image_set_state_sha512_reply(&self, reply: Result<ImageStateResponse, ExecuteError>) -> (r: Result<
        Vec<ImageState>,
        MCUmgrClientError,
    >)
        ensures
            r == match reply {
                Ok(response) => Ok::<Vec<ImageState>, MCUmgrClientError>(response.images),
                Err(err) => Err(MCUmgrClientError::ExecuteError(err)),
            },
    {
        match reply {
            Ok(response) => Ok(response.images),
            Err(err) => Err(MCUmgrClientError::from(err)),
        }
    }

    /// Upload a firmware image to an image slot.
    ///
    /// # Note
    ///
    /// This only uploads the image to a slot on the device, it has to be activated
    /// through [`image_set_state`](Self::image_set_state) for an actual update to happen.
    ///
    /// For a full firmware update algorithm in a single step, see [`firmware_update`](Self::firmware_update).
    ///
    /// # Arguments
    ///
    /// * `data` - The firmware image data
    /// * `image` - Selects target image on the device. Defaults to `0`.
    /// * `checksum` - The SHA256 checksum of the image. If missing, will be computed from the image data.
    /// * `upgrade_only` - If true, allow firmware upgrades only and reject downgrades.
    pub fn image_upload<'a>(
        &self,
        data: &'a [u8],
        image: Option<u32>,
        checksum: Option<[u8; 32]>,
        upgrade_only: bool,
    ) -> (step: ImageUploadStep<'a>)
        ensures
            step@ == upload_start(
                self.smp_frame_size as int,
                data@,
                image,
                checksum,
                upgrade_only,
                sha256_digest(data@),
            ),
            sha256_digest(data@).len() == 32,
    {
        ImageUploadStep::begin(
            self.smp_frame_size,
            data,
            image,
            checksum,
            upgrade_only,
            sha256(data),
        )
    }

    /// Erase image slot on target device.
    ///
    /// # Arguments
    ///
    /// * `slot` - The slot ID of the image to erase. Slot `1` if omitted.
    ///
    pub fn image_erase(&self, slot: Option<u32>) -> (r: Request)
        ensures
            r.carries((commands::image::ImageErase { slot })),
            r.use_retries,
    {
        request(&commands::image::ImageErase { slot }, true)
    }

    /// Turns the response to [`image_erase`](Self::image_erase) into its result.
    pub fn image_erase_reply(&self, reply: Result<ImageEraseResponse, ExecuteError>) -> (r: Result<
        (),
        MCUmgrClientError,
    >)
        ensures
            r == match reply {
                Ok(response) => Ok::<(), MCUmgrClientError>(()),
                Err(err) => Err(MCUmgrClientError::ExecuteError(err)),
            },
    {
        match reply {
            Ok(response) => Ok(()),
            Err(err) => Err(MCUmgrClientError::from(err)),
        }
    }

    /// Obtain a list of available image slots.
    pub fn image_slot_info(&self) -> (r: Request)
        ensures
            r.carries(commands::image::SlotInfo),
            r.use_retries,
    {
        request(&commands::image::SlotInfo, true)
    }

    /// Turns the response to [`image_slot_info`](Self::image_slot_info) into its result.
    pub fn image_slot_info_reply(&self, reply: Result<SlotInfoResponse, ExecuteError>) -> (r: Result<
        Vec<SlotInfoImage>,
        MCUmgrClientError,
    >)
        ensures
            r == match reply {
                Ok(response) => Ok::<Vec<SlotInfoImage>, MCUmgrClientError>(response.images),
                Err(err) => Err(MCUmgrClientError::ExecuteError(err)),
            },
    {
        match reply {
            Ok(response) => Ok(response.images),
            Err(err) => Err(MCUmgrClientError::from(err)),
        }
    }

    /// Query the current values of a given stats group
    ///
    /// # Arguments
    ///
    /// * `name` - The name of the group. See [`stats_list_groups`](Self::stats_list_groups).
    ///
    pub fn stats_get_group_data(&self, name: &str) -> (r: Request)
        ensures
            r.carries((commands::stats::GroupData { name })),
            r.use_retries,
    {
        request(&commands::stats::GroupData { name }, true)
    }

    /// Turns the response to [`stats_get_group_data`](Self::stats_get_group_data) into its result.
    pub fn stats_get_group_data_reply(&self, reply: Result<commands::stats::GroupDataResponse, ExecuteError>) -> (r: Result<
        HashMap<String, u64>,
        MCUmgrClientError,
    >)
        ensures
            r == match reply {
                Ok(response) => Ok::<HashMap<String, u64>, MCUmgrClientError>(response.fields),
                Err(err) => Err(MCUmgrClientError::ExecuteError(err)),
            },
    {
        match reply {
            Ok(response) => Ok(response.fields),
            Err(err) => Err(MCUmgrClientError::from(err)),
        }
    }

    /// Query the list of available stats groups
    pub fn stats_list_groups(&self) -> (r: Request)
        ensures
            r.carries(commands::stats::ListGroups),
            r.use_retries,
    {
        request(&commands::stats::ListGroups, true)
    }

    /// Turns the response to [`stats_list_groups`](Self::stats_list_groups) into its result.
    pub fn stats_list_groups_reply(&self, reply: Result<commands::stats::ListGroupsResponse, ExecuteError>) -> (r: Result<
        Vec<String>,
        MCUmgrClientError,
    >)
        ensures
            r == match reply {
                Ok(response) => Ok::<Vec<String>, MCUmgrClientError>(response.stat_list),
                Err(err) => Err(MCUmgrClientError::ExecuteError(err)),
            },
    {
        match reply {
            Ok(response) => Ok(response.stat_list),
            Err(err) => Err(MCUmgrClientError::from(err)),
        }
    }

    /// Load a file from the device.
    ///
    /// # Arguments
    ///
    /// * `name` - The full path of the file on the device.
    ///
    /// # Performance
    ///
    /// Downloading files with Zephyr's default parameters is slow.
    /// You want to increase [`MCUMGR_TRANSPORT_NETBUF_SIZE`](https://github.com/zephyrproject-rtos/zephyr/blob/v4.2.1/subsys/mgmt/mcumgr/transport/Kconfig#L40)
    /// to maybe `4096` or larger.
    pub fn fs_file_download<'a>(&self, name: &'a str) -> (step: FileDownloadStep<'a>)
        ensures
            step@ == download_start(name@),
    {
        FileDownloadStep::begin(name)
    }

    /// Write a file to the device.
    ///
    /// # Arguments
    ///
    /// * `name` - The full path of the file on the device.
    /// * `size` - The file size.
    ///
    /// # Performance
    ///
    /// Uploading files with Zephyr's default parameters is slow.
    /// You want to increase [`MCUMGR_TRANSPORT_NETBUF_SIZE`](https://github.com/zephyrproject-rtos/zephyr/blob/v4.2.1/subsys/mgmt/mcumgr/transport/Kconfig#L40)
    /// to maybe `4096` and then enable larger chunking through either [`MCUmgrClient::set_frame_size`]
    /// or [`MCUmgrClient::use_auto_frame_size`].
    pub fn fs_file_upload<'a>(&self, name: &'a str, size: u64) -> (step: FileUploadStep<'a>)
        ensures
            step@ == file_upload_start(self.smp_frame_size as int, name@, size),
    {
        FileUploadStep::begin(self.smp_frame_size, name, size)
    }

    /// Queries the file status
    pub fn fs_file_status(&self, name: &str) -> (r: Request)
        ensures
            r.carries((commands::fs::FileStatus { name })),
            r.use_retries,
    {
        request(&commands::fs::FileStatus { name }, true)
    }

    /// Turns the response to [`fs_file_status`](Self::fs_file_status) into its result.
    pub fn fs_file_status_reply(&self, reply: Result<FileStatusResponse, ExecuteError>) -> (r: Result<
        FileStatusResponse,
        MCUmgrClientError,
    >)
        ensures
            r == match reply {
                Ok(response) => Ok::<FileStatusResponse, MCUmgrClientError>(response),
                Err(err) => Err(MCUmgrClientError::ExecuteError(err)),
            },
    {
        match reply {
            Ok(response) => Ok(response),
            Err(err) => Err(MCUmgrClientError::from(err)),
        }
    }

    /// Computes the hash/checksum of a file
    ///
    /// For available algorithms, see [`fs_supported_checksum_types()`](MCUmgrClient::fs_supported_checksum_types).
    ///
    /// # Arguments
    ///
    /// * `name` - The absolute path of the file on the device
    /// * `algorithm` - The hash/checksum algorithm to use, or default if None
    /// * `offset` - How many bytes of the file to skip
    /// * `length` - How many bytes to read after `offset`. None for the entire file.
    ///
    pub fn fs_file_checksum(&self, name: &str, algorithm: Option<&str>, offset: u64, length: Option<u64>) -> (r: Request)
        ensures
            r.carries((commands::fs::FileChecksum { name, algorithm, off: offset, len: length })),
            r.use_retries,
    {
        request(&commands::fs::FileChecksum { name, algorithm, off: offset, len: length }, true)
    }

    /// Turns the response to [`fs_file_checksum`](Self::fs_file_checksum) into its result.
    pub fn fs_file_checksum_reply(&self, reply: Result<FileChecksumResponse, ExecuteError>) -> (r: Result<
        FileChecksumResponse,
        MCUmgrClientError,
    >)
        ensures
            r == match reply {
                Ok(response) => Ok::<FileChecksumResponse, MCUmgrClientError>(response),
                Err(err) => Err(MCUmgrClientError::ExecuteError(err)),
            },
    {
        match reply {
            Ok(response) => Ok(response),
            Err(err) => Err(MCUmgrClientError::from(err)),
        }
    }

    /// Queries which hash/checksum algorithms are available on the target
    pub fn fs_supported_checksum_types(&self) -> (r: Request)
        ensures
            r.carries(commands::fs::SupportedFileChecksumTypes),
            r.use_retries,
    {
        request(&commands::fs::SupportedFileChecksumTypes, true)
    }

    /// Turns the response to [`fs_supported_checksum_types`](Self::fs_supported_checksum_types) into its result.
    pub fn fs_supported_checksum_types_reply(&self, reply: Result<SupportedFileChecksumTypesResponse, ExecuteError>) -> (r: Result<
        HashMap<String, FileChecksumProperties>,
        MCUmgrClientError,
    >)
        ensures
            r == match reply {
                Ok(response) => Ok::<HashMap<String, FileChecksumProperties>, MCUmgrClientError>(response.types),
                Err(err) => Err(MCUmgrClientError::ExecuteError(err)),
            },
    {
        match reply {
            Ok(response) => Ok(response.types),
            Err(err) => Err(MCUmgrClientError::from(err)),
        }
    }

    /// Close all device files MCUmgr has currently open
    pub fn fs_file_close(&self) -> (r: Request)
        ensures
            r.carries(commands::fs::FileClose),
            r.use_retries,
    {
        request(&commands::fs::FileClose, true)
    }

    /// Turns the response to [`fs_file_close`](Self::fs_file_close) into its result.
    pub fn fs_file_close_reply(&self, reply: Result<FileCloseResponse, ExecuteError>) -> (r: Result<
        (),
        MCUmgrClientError,
    >)
        ensures
            r == match reply {
                Ok(response) => Ok::<(), MCUmgrClientError>(()),
                Err(err) => Err(MCUmgrClientError::ExecuteError(err)),
            },
    {
        match reply {
            Ok(response) => Ok(()),
            Err(err) => Err(MCUmgrClientError::from(err)),
        }
    }

    /// Run a shell command.
    ///
    /// # Arguments
    ///
    /// * `argv` - The shell command to be executed.
    /// * `use_retries` - Retry request a certain amount of times if a transport error occurs.
    ///   Be aware that this might cause the command to be executed multiple times.
    ///
    /// # Return
    ///
    /// A tuple of (returncode, stdout) produced by the command execution.
    pub fn shell_execute(&self, argv: &[String], use_retries: bool) -> (r: Request)
        ensures
            r.carries((commands::shell::ShellCommandLineExecute { argv })),
            r.use_retries == use_retries,
    {
        request(&commands::shell::ShellCommandLineExecute { argv }, use_retries)
    }

    /// Turns the response to [`shell_execute`](Self::shell_execute) into its result.
    pub fn shell_execute_reply(&self, reply: Result<ShellCommandLineExecuteResponse, ExecuteError>) -> (r: Result<
        (i32, String),
        MCUmgrClientError,
    >)
        ensures
            r == match reply {
                Ok(response) => Ok::<(i32, String), MCUmgrClientError>((response.ret, response.o)),
                Err(err) => Err(MCUmgrClientError::ExecuteError(err)),
            },
    {
        match reply {
            Ok(response) => Ok((response.ret, response.o)),
            Err(err) => Err(MCUmgrClientError::from(err)),
        }
    }

    /// Query how many MCUmgr groups are supported by the device.
    ///
    /// # Return
    ///
    /// The number of MCUmgr groups the device supports.
    ///
    pub fn enum_get_group_count(&self) -> (r: Request)
        ensures
            r.carries(commands::enumeration::GroupCount),
            r.use_retries,
    {
        request(&commands::enumeration::GroupCount, true)
    }

    /// Turns the response to [`enum_get_group_count`](Self::enum_get_group_count) into its result.
    pub fn enum_get_group_count_reply(&self, reply: Result<commands::enumeration::GroupCountResponse, ExecuteError>) -> (r: Result<
        u16,
        MCUmgrClientError,
    >)
        ensures
            r == match reply {
                Ok(response) => Ok::<u16, MCUmgrClientError>(response.count),
                Err(err) => Err(MCUmgrClientError::ExecuteError(err)),
            },
    {
        match reply {
            Ok(response) => Ok(response.count),
            Err(err) => Err(MCUmgrClientError::from(err)),
        }
    }

    /// Query all available group IDs in a single command.
    ///
    /// Note that this might fail if the amount of groups is too large for the
    /// SMP frame.
    /// But given that the Zephyr implementation contains less than 10 groups,
    /// this is currently highly unlikely.
    ///
    /// If it does fail, use [`enum_iter_group_ids`](Self::enum_iter_group_ids) to iterate
    /// through the available group IDs one by one.
    ///
    /// # Return
    ///
    /// A list of all MCUmgr group IDs the device supports.
    ///
    pub fn enum_get_group_ids(&self) -> (r: Request)
        ensures
            r.carries(commands::enumeration::ListGroups),
            r.use_retries,
    {
        request(&commands::enumeration::ListGroups, true)
    }

    /// Turns the response to [`enum_get_group_ids`](Self::enum_get_group_ids) into its result.
    pub fn enum_get_group_ids_reply(&self, reply: Result<commands::enumeration::ListGroupsResponse, ExecuteError>) -> (r: Result<
        Vec<u16>,
        MCUmgrClientError,
    >)
        ensures
            r == match reply {
                Ok(response) => Ok::<Vec<u16>, MCUmgrClientError>(response.groups),
                Err(err) => Err(MCUmgrClientError::ExecuteError(err)),
            },
    {
        match reply {
            Ok(response) => Ok(response.groups),
            Err(err) => Err(MCUmgrClientError::from(err)),
        }
    }

    /// Query a single group ID from the device.
    ///
    /// # Arguments
    ///
    /// * `index` - The index in the list of group IDs.
    ///   Must be smaller than [`enum_get_group_count`](Self::enum_get_group_count).
    ///
    /// # Return
    ///
    /// The group ID of the group with the given index
    ///
    pub fn enum_get_group_id(&self, index: u16) -> (r: Request)
        ensures
            r.carries((commands::enumeration::GroupId { index: Some(index) })),
            r.use_retries,
    {
        request(&commands::enumeration::GroupId { index: Some(index) }, true)
    }

    /// Turns the response to [`enum_get_group_id`](Self::enum_get_group_id) into its result.
    pub fn enum_get_group_id_reply(&self, reply: Result<commands::enumeration::GroupIdResponse, ExecuteError>) -> (r: Result<
        u16,
        MCUmgrClientError,
    >)
        ensures
            r == match reply {
                Ok(response) => Ok::<u16, MCUmgrClientError>(response.group),
                Err(err) => Err(MCUmgrClientError::ExecuteError(err)),
            },
    {
        match reply {
            Ok(response) => Ok(response.group),
            Err(err) => Err(MCUmgrClientError::from(err)),
        }
    }

    /// Iterate through all supported MCUmgr Groups.
    ///
    /// Same as [`enum_get_group_ids`](Self::enum_get_group_ids), but does not
    /// require large message sizes if the number of groups is large. The tradeoff is
    /// that this function is much slower.
    pub fn enum_iter_group_ids(&self) -> (iter: GroupIdIter)
        ensures
            iter == GroupIdIter::start(),
    {
        GroupIdIter::begin()
    }

    /// Erase the `storage_partition` flash partition.
    pub fn zephyr_erase_storage(&self) -> (r: Request)
        ensures
            r.carries(commands::zephyr::EraseStorage),
            r.use_retries,
    {
        request(&commands::zephyr::EraseStorage, true)
    }

    /// Turns the response to [`zephyr_erase_storage`](Self::zephyr_erase_storage) into its result.
    pub fn zephyr_erase_storage_reply(&self, reply: Result<commands::zephyr::EraseStorageResponse, ExecuteError>) -> (r: Result<
        (),
        MCUmgrClientError,
    >)
        ensures
            r == match reply {
                Ok(response) => Ok::<(), MCUmgrClientError>(()),
                Err(err) => Err(MCUmgrClientError::ExecuteError(err)),
            },
    {
        match reply {
            Ok(response) => Ok(()),
            Err(err) => Err(MCUmgrClientError::from(err)),
        }
    }

    /// Execute a raw [`commands::McuMgrCommand`].
    ///
    /// Only returns if no error happened, so the
    /// user does not need to check for an `rc` or `err`
    /// field in the response.
    pub fn raw_command<C: McuMgrCommand>(&self, command: &C) -> (r: Request)
        ensures
            r.carries(*command),
            r.use_retries,
    {
        request(command, true)
    }

    /// Turns the response to [`raw_command`](Self::raw_command) into its result.
    pub fn raw_command_reply<R>(&self, reply: Result<R, ExecuteError>) -> (r: Result<
        R,
        MCUmgrClientError,
    >)
        ensures
            r == lifted(reply),
    {
        match reply {
            Ok(response) => Ok(response),
            Err(err) => Err(MCUmgrClientError::from(err)),
        }
    }
}

} // verus!
