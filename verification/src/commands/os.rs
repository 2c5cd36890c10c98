//! The commands that manage the operating system.

use super::{CommandHeader, McuMgrCommand};
use crate::cbor::{entries, optional, put, put_optional, Field, FieldValue, Item};
use vstd::prelude::*;

verus! {

/// The command group of the operating system commands.
pub const OS_GROUP: u16 = 0;

/// Echo command
#[derive(Clone, Debug, PartialEq, Eq)]
pub struct Echo<'a> {
    /// string to be replied by the device
    pub d: &'a str,
}

/// The header of an [`Echo`] command.
pub open spec fn echo_header() -> CommandHeader {
    CommandHeader { write: true, group: OS_GROUP, command: 0 }
}

/// The arguments of an [`Echo`] command.
pub open spec fn echo_fields(d: Seq<char>) -> Seq<(Seq<char>, Item)> {
    seq![("d"@, Item::Text(d))]
}

impl<'a> McuMgrCommand for Echo<'a> {
    type Response = EchoResponse;

    open spec fn header_spec(&self) -> CommandHeader {
        echo_header()
    }

    open spec fn fields_spec(&self) -> Seq<(Seq<char>, Item)> {
        echo_fields(self.d@)
    }

    fn header(&self) -> CommandHeader {
        CommandHeader { write: true, group: OS_GROUP, command: 0 }
    }

    fn fields(&self) -> Vec<Field<'_>> {
        let mut fields: Vec<Field<'_>> = Vec::new();
        put(&mut fields, "d", FieldValue::Text(self.d));
        assert(entries(fields@) =~= self.fields_spec());
        fields
    }
}

/// Response for [`Echo`] command
#[derive(Clone, Debug, PartialEq, Eq)]
pub struct EchoResponse {
    /// replied string
    pub r: String,
}

/// Task statistics command
#[derive(Clone, Debug, PartialEq, Eq)]
pub struct TaskStatistics;

impl McuMgrCommand for TaskStatistics {
    type Response = TaskStatisticsResponse;

    open spec fn header_spec(&self) -> CommandHeader {
        CommandHeader { write: false, group: OS_GROUP, command: 2 }
    }

    open spec fn fields_spec(&self) -> Seq<(Seq<char>, Item)> {
        Seq::empty()
    }

    fn header(&self) -> CommandHeader {
        CommandHeader { write: false, group: OS_GROUP, command: 2 }
    }

    fn fields(&self) -> Vec<Field<'_>> {
        let fields: Vec<Field<'_>> = Vec::new();
        assert(entries(fields@) =~= self.fields_spec());
        fields
    }
}

/// Statistics of a task
#[derive(Clone, Debug, PartialEq, Eq)]
pub struct TaskStatisticsEntry {
    /// task priority
    pub prio: i32,
    /// numeric task ID
    pub tid: u32,
    /// numeric task state
    pub state: u32,
    /// stack usage
    pub stkuse: Option<u64>,
    /// stack size
    pub stksiz: Option<u64>,
    /// number of context switches
    pub cswcnt: Option<u64>,
    /// runtime in ticks
    pub runtime: Option<u64>,
}

/// Response for [`TaskStatistics`] command
#[derive(Clone, Debug, PartialEq, Eq)]
pub struct TaskStatisticsResponse {
    /// names of the tasks with their respective statistics
    ///
    /// No name occurs twice, see [`has_distinct_names`].
    pub tasks: Vec<(String, TaskStatisticsEntry)>,
}

/// No task name occurs twice.
pub open spec fn has_distinct_names(tasks: Seq<(String, TaskStatisticsEntry)>) -> bool {
    forall|i: int, j: int|
        0 <= i < j < tasks.len() ==> (#[trigger] tasks[i]).0@ != (#[trigger] tasks[j]).0@
}

/// Command that reads the date and time
#[derive(Clone, Debug, PartialEq, Eq)]
pub struct DateTimeGet;

impl McuMgrCommand for DateTimeGet {
    type Response = DateTimeGetResponse;

    open spec fn header_spec(&self) -> CommandHeader {
        CommandHeader { write: false, group: OS_GROUP, command: 4 }
    }

    open spec fn fields_spec(&self) -> Seq<(Seq<char>, Item)> {
        Seq::empty()
    }

    fn header(&self) -> CommandHeader {
        CommandHeader { write: false, group: OS_GROUP, command: 4 }
    }

    fn fields(&self) -> Vec<Field<'_>> {
        let fields: Vec<Field<'_>> = Vec::new();
        assert(entries(fields@) =~= self.fields_spec());
        fields
    }
}

/// Response for [`DateTimeGet`] command
#[derive(Clone, Debug, PartialEq, Eq)]
pub struct DateTimeGetResponse {
    /// date and time, as the device writes it
    pub datetime: String,
}

/// Command that sets the date and time
#[derive(Clone, Debug, PartialEq, Eq)]
pub struct DateTimeSet<'a> {
    /// date and time, as the device reads it
    pub datetime: &'a str,
}

impl<'a> McuMgrCommand for DateTimeSet<'a> {
    type Response = DateTimeSetResponse;

    open spec fn header_spec(&self) -> CommandHeader {
        CommandHeader { write: true, group: OS_GROUP, command: 4 }
    }

    open spec fn fields_spec(&self) -> Seq<(Seq<char>, Item)> {
        seq![("datetime"@, Item::Text(self.datetime@))]
    }

    fn header(&self) -> CommandHeader {
        CommandHeader { write: true, group: OS_GROUP, command: 4 }
    }

    fn fields(&self) -> Vec<Field<'_>> {
        let mut fields: Vec<Field<'_>> = Vec::new();
        put(&mut fields, "datetime", FieldValue::Text(self.datetime));
        assert(entries(fields@) =~= self.fields_spec());
        fields
    }
}

/// Response for [`DateTimeSet`] command
#[derive(Clone, Debug, PartialEq, Eq)]
pub struct DateTimeSetResponse;

/// System reset command
#[derive(Clone, Debug, PartialEq, Eq)]
pub struct SystemReset {
    /// forces a reset
    pub force: bool,
    /// overwrites the boot mode
    pub boot_mode: Option<u8>,
}

impl McuMgrCommand for SystemReset {
    type Response = SystemResetResponse;

    open spec fn header_spec(&self) -> CommandHeader {
        CommandHeader { write: true, group: OS_GROUP, command: 5 }
    }

    open spec fn fields_spec(&self) -> Seq<(Seq<char>, Item)> {
        optional(
            "force"@,
            if self.force {
                Some(Item::Flag(true))
            } else {
                None
            },
        ) + optional(
            "boot_mode"@,
            match self.boot_mode {
                Some(boot_mode) => Some(Item::Unsigned(boot_mode as u64)),
                None => None,
            },
        )
    }

    fn header(&self) -> CommandHeader {
        CommandHeader { write: true, group: OS_GROUP, command: 5 }
    }

    fn fields(&self) -> Vec<Field<'_>> {
        let mut fields: Vec<Field<'_>> = Vec::new();
        let force = if self.force {
            Some(FieldValue::Flag(true))
        } else {
            None
        };
        put_optional(&mut fields, "force", force);
        let boot_mode = match self.boot_mode {
            Some(boot_mode) => Some(FieldValue::Unsigned(boot_mode as u64)),
            None => None,
        };
        put_optional(&mut fields, "boot_mode", boot_mode);
        assert(entries(fields@) =~= self.fields_spec());
        fields
    }
}

/// Response for [`SystemReset`] command
#[derive(Clone, Debug, PartialEq, Eq)]
pub struct SystemResetResponse;

/// Command that reads the parameters of the management library
#[derive(Clone, Debug, PartialEq, Eq)]
pub struct MCUmgrParameters;

impl McuMgrCommand for MCUmgrParameters {
    type Response = MCUmgrParametersResponse;

    open spec fn header_spec(&self) -> CommandHeader {
        CommandHeader { write: false, group: OS_GROUP, command: 6 }
    }

    open spec fn fields_spec(&self) -> Seq<(Seq<char>, Item)> {
        Seq::empty()
    }

    fn header(&self) -> CommandHeader {
        CommandHeader { write: false, group: OS_GROUP, command: 6 }
    }

    fn fields(&self) -> Vec<Field<'_>> {
        let fields: Vec<Field<'_>> = Vec::new();
        assert(entries(fields@) =~= self.fields_spec());
        fields
    }
}

/// Response for [`MCUmgrParameters`] command
#[derive(Clone, Debug, PartialEq, Eq)]
pub struct MCUmgrParametersResponse {
    /// size of a single frame buffer
    pub buf_size: u32,
    /// number of frame buffers
    pub buf_count: u32,
}

/// Command that reads information on the running image
#[derive(Clone, Debug, PartialEq, Eq)]
pub struct ApplicationInfo<'a> {
    /// format specifier for the returned response
    pub format: Option<&'a str>,
}

impl<'a> McuMgrCommand for ApplicationInfo<'a> {
    type Response = ApplicationInfoResponse;

    open spec fn header_spec(&self) -> CommandHeader {
        CommandHeader { write: false, group: OS_GROUP, command: 7 }
    }

    open spec fn fields_spec(&self) -> Seq<(Seq<char>, Item)> {
        optional(
            "format"@,
            match self.format {
                Some(format) => Some(Item::Text(format@)),
                None => None,
            },
        )
    }

    fn header(&self) -> CommandHeader {
        CommandHeader { write: false, group: OS_GROUP, command: 7 }
    }

    fn fields(&self) -> Vec<Field<'_>> {
        let mut fields: Vec<Field<'_>> = Vec::new();
        let format = match self.format {
            Some(format) => Some(FieldValue::Text(format)),
            None => None,
        };
        put_optional(&mut fields, "format", format);
        assert(entries(fields@) =~= self.fields_spec());
        fields
    }
}

/// Response for [`ApplicationInfo`] command
#[derive(Clone, Debug, PartialEq, Eq)]
pub struct ApplicationInfoResponse {
    /// text response, with the requested information
    pub output: String,
}

/// Command that reads the name of the bootloader
#[derive(Clone, Debug, PartialEq, Eq)]
pub struct BootloaderInfo;

impl McuMgrCommand for BootloaderInfo {
    type Response = BootloaderInfoResponse;

    open spec fn header_spec(&self) -> CommandHeader {
        CommandHeader { write: false, group: OS_GROUP, command: 8 }
    }

    open spec fn fields_spec(&self) -> Seq<(Seq<char>, Item)> {
        Seq::empty()
    }

    fn header(&self) -> CommandHeader {
        CommandHeader { write: false, group: OS_GROUP, command: 8 }
    }

    fn fields(&self) -> Vec<Field<'_>> {
        let fields: Vec<Field<'_>> = Vec::new();
        assert(entries(fields@) =~= self.fields_spec());
        fields
    }
}

/// Response for [`BootloaderInfo`] command
#[derive(Clone, Debug, PartialEq, Eq)]
pub struct BootloaderInfoResponse {
    /// name of the bootloader
    pub bootloader: String,
}

/// Command that reads the mode of the MCUboot bootloader
#[derive(Clone, Debug, PartialEq, Eq)]
pub struct BootloaderInfoMcubootMode;

impl McuMgrCommand for BootloaderInfoMcubootMode {
    type Response = BootloaderInfoMcubootModeResponse;

    open spec fn header_spec(&self) -> CommandHeader {
        CommandHeader { write: false, group: OS_GROUP, command: 8 }
    }

    open spec fn fields_spec(&self) -> Seq<(Seq<char>, Item)> {
        seq![("query"@, Item::Text("mode"@))]
    }

    fn header(&self) -> CommandHeader {
        CommandHeader { write: false, group: OS_GROUP, command: 8 }
    }

    fn fields(&self) -> Vec<Field<'_>> {
        let mut fields: Vec<Field<'_>> = Vec::new();
        put(&mut fields, "query", FieldValue::Text("mode"));
        assert(entries(fields@) =~= self.fields_spec());
        fields
    }
}

/// Response for [`BootloaderInfoMcubootMode`] command
#[derive(Clone, Debug, PartialEq, Eq)]
pub struct BootloaderInfoMcubootModeResponse {
    /// the mode of the bootloader
    pub mode: i32,
    /// whether the bootloader rejects downgrades
    pub no_downgrade: bool,
}

} // verus!
