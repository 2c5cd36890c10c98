//! What the commands of the command line tool do.
//!
//! Nothing here prints or talks to the device: every command becomes a plan of what is to be
//! done, and every result becomes a report of what is to be printed.

use firmware::{FirmwareCommand, FirmwarePlan};
use image::{ImageCommand, ImagePlan};
use vstd::prelude::*;

pub mod firmware;
pub mod image;
pub mod laws;
pub mod report;

verus! {

/// The arguments that all commands have in common.
#[derive(Clone, Copy, Debug, PartialEq, Eq, Structural)]
pub struct CommonArgs {
    /// Print machine-readable output
    pub json: bool,
    /// Do not print progress
    pub quiet: bool,
}

/// The groups of commands. The commands of the groups that only pass their arguments on are
/// parameters.
#[derive(Debug)]
pub enum Group<OsCommand, StatsCommand, FsCommand, EnumCommand, ZephyrCommand, RawCommand> {
    /// Default/OS Management
    Os {
        /// The command
        command: OsCommand,
    },
    /// Application/Software Image Management
    Image {
        /// The command
        command: ImageCommand,
    },
    /// Statistics Management
    Stats {
        /// The command
        command: StatsCommand,
    },
    /// High-level firmware update utilities
    Firmware {
        /// The command
        command: FirmwareCommand,
    },
    /// File Management
    Fs {
        /// The command
        command: FsCommand,
    },
    /// Shell command execution
    Shell {
        /// The shell command to execute
        argv: Vec<String>,
    },
    /// Enumeration
    Enum {
        /// The command
        command: EnumCommand,
    },
    /// Zephyr Management
    Zephyr {
        /// The command
        command: ZephyrCommand,
    },
    /// Execute a raw SMP command
    Raw(RawCommand),
}

/// What has to be done to execute a command of any group.
#[derive(Debug)]
pub enum GroupPlan<OsCommand, StatsCommand, FsCommand, EnumCommand, ZephyrCommand, RawCommand> {
    /// Default/OS Management
    Os(OsCommand),
    /// Application/Software Image Management
    Image(ImagePlan),
    /// Statistics Management
    Stats(StatsCommand),
    /// High-level firmware update utilities
    Firmware(FirmwarePlan),
    /// File Management
    Fs(FsCommand),
    /// Shell command execution
    Shell(Vec<String>),
    /// Enumeration
    Enum(EnumCommand),
    /// Zephyr Management
    Zephyr(ZephyrCommand),
    /// Execute a raw SMP command
    Raw(RawCommand),
}

/// What has to be done to execute a command of any group.
pub open spec fn plan_for<OsCommand, StatsCommand, FsCommand, EnumCommand, ZephyrCommand, RawCommand>(
    args: CommonArgs,
    group: Group<OsCommand, StatsCommand, FsCommand, EnumCommand, ZephyrCommand, RawCommand>,
) -> GroupPlan<OsCommand, StatsCommand, FsCommand, EnumCommand, ZephyrCommand, RawCommand> {
    match group {
        Group::Os { command } => GroupPlan::Os(command),
        Group::Image { command } => GroupPlan::Image(image::plan_for(args, command)),
        Group::Stats { command } => GroupPlan::Stats(command),
        Group::Firmware { command } => GroupPlan::Firmware(firmware::plan_for(args, command)),
        Group::Fs { command } => GroupPlan::Fs(command),
        Group::Shell { argv } => GroupPlan::Shell(argv),
        Group::Enum { command } => GroupPlan::Enum(command),
        Group::Zephyr { command } => GroupPlan::Zephyr(command),
        Group::Raw(command) => GroupPlan::Raw(command),
    }
}

/// Decides what has to be done to execute a command of any group.
pub fn run<OsCommand, StatsCommand, FsCommand, EnumCommand, ZephyrCommand, RawCommand>(
    args: CommonArgs,
    group: Group<OsCommand, StatsCommand, FsCommand, EnumCommand, ZephyrCommand, RawCommand>,
) -> (plan: GroupPlan<
    OsCommand,
    StatsCommand,
    FsCommand,
    EnumCommand,
    ZephyrCommand,
    RawCommand,
>)
    ensures
        plan == plan_for(args, group),
{
    match group {
        Group::Os { command } => GroupPlan::Os(command),
        Group::Image { command } => GroupPlan::Image(image::run(args, command)),
        Group::Stats { command } => GroupPlan::Stats(command),
        Group::Firmware { command } => GroupPlan::Firmware(firmware::run(args, command)),
        Group::Fs { command } => GroupPlan::Fs(command),
        Group::Shell { argv } => GroupPlan::Shell(argv),
        Group::Enum { command } => GroupPlan::Enum(command),
        Group::Zephyr { command } => GroupPlan::Zephyr(command),
        Group::Raw(command) => GroupPlan::Raw(command),
    }
}

} // verus!
