//! High-level firmware update utilities

use super::report::{lines, text_entry, Entry, ValueView};
use super::CommonArgs;
use crate::bootloader;
use crate::client::firmware_update::{FirmwareUpdateParams, FirmwareUpdateStep, ImageInfo};
use crate::client::step_text::{same_step, step_text};
use crate::hexadecimal::{encode_hex, hex_text};
use vstd::prelude::*;
use vstd::std_specs::convert::FromSpecImpl;

verus! {

/// The bootloaders that can be named on the command line.
#[derive(Clone, Copy, Debug, PartialEq, Eq, Structural)]
pub enum BootloaderType {
    /// MCUboot
    Mcuboot,
}

impl From<BootloaderType> for bootloader::BootloaderType {
    fn from(value: BootloaderType) -> (r: bootloader::BootloaderType) {
        match value {
            BootloaderType::Mcuboot => bootloader::BootloaderType::MCUboot,
        }
    }
}

impl FromSpecImpl<BootloaderType> for bootloader::BootloaderType {
    open spec fn obeys_from_spec() -> bool {
        true
    }

    open spec fn from_spec(value: BootloaderType) -> bootloader::BootloaderType {
        match value {
            BootloaderType::Mcuboot => bootloader::BootloaderType::MCUboot,
        }
    }
}

/// The commands that deal with firmware.
#[derive(Debug)]
pub enum FirmwareCommand {
    /// Show information about an MCUboot image file
    GetImageInfo {
        /// The image type
        image_type: BootloaderType,
        /// The image file to analyze. '-' for stdin.
        file: String,
    },
    /// Perform a device firmware update
    Update {
        /// The firmware image file to update to. '-' for stdin.
        firmware_file: String,
        /// Specify the bootloader type
        ///
        /// Auto-detect if not specified
        bootloader: Option<BootloaderType>,
        /// Do not reboot after the update
        skip_reboot: bool,
        /// Skip test boot and confirm directly
        force_confirm: bool,
        /// Prevent firmware downgrades
        upgrade_only: bool,
        /// SHA-256 checksum of the image file
        checksum: Option<[u8; 32]>,
    },
}

/// What has to be done to execute a command.
#[derive(Debug)]
pub enum FirmwarePlan {
    /// Parse an image file and print what it tells about itself
    GetImageInfo {
        /// The image type
        image_type: BootloaderType,
        /// The file
        file: String,
    },
    /// Update the firmware
    Update {
        /// The firmware image file
        firmware_file: String,
        /// The expected checksum
        checksum: Option<[u8; 32]>,
        /// The parameters of the update
        params: FirmwareUpdateParams,
        /// Whether to show the progress
        show_progress: bool,
    },
}

/// What has to be done to execute a command. The progress is shown unless the output is
/// to be quiet.
pub open spec fn plan_for(args: CommonArgs, command: FirmwareCommand) -> FirmwarePlan {
    match command {
        FirmwareCommand::GetImageInfo { image_type, file } => FirmwarePlan::GetImageInfo {
            image_type,
            file,
        },
        FirmwareCommand::Update {
            firmware_file,
            bootloader,
            skip_reboot,
            force_confirm,
            upgrade_only,
            checksum,
        } => FirmwarePlan::Update {
            firmware_file,
            checksum,
            params: FirmwareUpdateParams {
                bootloader_type: match bootloader {
                    Some(BootloaderType::Mcuboot) => Some(bootloader::BootloaderType::MCUboot),
                    None => None,
                },
                skip_reboot,
                force_confirm,
                upgrade_only,
            },
            show_progress: !args.quiet,
        },
    }
}

/// Decides what has to be done to execute a command.
pub fn run(args: CommonArgs, command: FirmwareCommand) -> (plan: FirmwarePlan)
    ensures
        plan == plan_for(args, command),
{
    match command {
        FirmwareCommand::GetImageInfo { image_type, file } => FirmwarePlan::GetImageInfo {
            image_type,
            file,
        },
        FirmwareCommand::Update {
            firmware_file,
            bootloader,
            skip_reboot,
            force_confirm,
            upgrade_only,
            checksum,
        } => {
            let bootloader_type = match bootloader {
                Some(bootloader) => Some(bootloader::BootloaderType::from(bootloader)),
                None => None,
            };
            FirmwarePlan::Update {
                firmware_file,
                checksum,
                params: FirmwareUpdateParams {
                    bootloader_type,
                    skip_reboot,
                    force_confirm,
                    upgrade_only,
                },
                show_progress: !args.quiet,
            }
        },
    }
}

/// Reports what a firmware image tells about itself.
pub fn image_info_report(info: &ImageInfo) -> (entries: Vec<Entry>)
    ensures
        lines(entries@) == seq![
            ("version"@, Some(ValueView::Text(info.version@))),
            ("hash"@, Some(ValueView::Text(hex_text(info.hash@)))),
        ],
{
    let mut entries: Vec<Entry> = Vec::new();
    entries.push(text_entry("version", info.version.clone()));
    entries.push(text_entry("hash", encode_hex(&info.hash)));
    assert(lines(entries@) =~= seq![
        ("version"@, Some(ValueView::Text(info.version@))),
        ("hash"@, Some(ValueView::Text(hex_text(info.hash@)))),
    ]);
    entries
}

/// What is printed after a successful update.
pub fn closing_lines(params: &FirmwareUpdateParams) -> (messages: Vec<&'static str>)
    ensures
        messages@.map_values(|message: &'static str| message@) == if params.skip_reboot {
            seq!["Success."@]
        } else {
            seq!["Success."@, "Device should reboot with new firmware."@]
        },
{
    let mut messages: Vec<&'static str> = Vec::new();
    messages.push("Success.");
    if !params.skip_reboot {
        messages.push("Device should reboot with new firmware.");
    }
    assert(messages@.map_values(|message: &'static str| message@) =~= if params.skip_reboot {
        seq!["Success."@]
    } else {
        seq!["Success."@, "Device should reboot with new firmware."@]
    });
    messages
}

/// What happens to the progress bar.
#[derive(Clone, Copy, Debug, PartialEq, Eq, Structural)]
pub enum BarChange {
    /// Nothing
    Keep,
    /// It is created if it does not exist yet, and shows how much is done
    Show {
        /// Whether it does not exist yet
        created: bool,
        /// How much is done
        current: u64,
        /// How much there is to do
        total: u64,
    },
    /// It is removed
    Remove,
}

/// How the user is told about a step of an update.
#[derive(Debug, PartialEq, Eq)]
pub struct ProgressUpdate {
    /// The line to print, if there is one
    pub line: Option<String>,
    /// What happens to the progress bar
    pub bar: BarChange,
    /// Whether the update goes on
    pub accepted: bool,
}

/// Tells the user about the progress of an update.
pub struct FirmwareUpgradeProgressHandler {
    /// The step that was printed last
    pub previous_step: Option<FirmwareUpdateStep>,
    /// Whether there is a progress bar
    pub has_progressbar: bool,
}

impl FirmwareUpgradeProgressHandler {
    /// The step is the one that was printed last.
    pub open spec fn printed(self, step: FirmwareUpdateStep) -> bool {
        self.previous_step matches Some(previous) && same_step(step, previous)
    }

    /// Makes a handler that has not printed anything.
    pub fn new() -> (handler: FirmwareUpgradeProgressHandler)
        ensures
            handler.previous_step is None,
            !handler.has_progressbar,
    {
        FirmwareUpgradeProgressHandler { previous_step: None, has_progressbar: false }
    }

    /// Decides how the user is told about a step. A step is only printed when it changes. The
    /// progress bar is shown as long as the step reports a progress.
    pub fn update(&mut self, step: FirmwareUpdateStep, progress: Option<(u64, u64)>) -> (r:
        ProgressUpdate)
        ensures
            old(self).printed(step) ==> r.line is None && final(self).previous_step == old(
                self,
            ).previous_step,
            !old(self).printed(step) ==> r.line is Some && r.line->0@ == step_text(step)
                && final(self).previous_step == Some(step),
            r.bar == match progress {
                Some((current, total)) => BarChange::Show {
                    created: !old(self).has_progressbar,
                    current,
                    total,
                },
                None => if old(self).has_progressbar {
                    BarChange::Remove
                } else {
                    BarChange::Keep
                },
            },
            final(self).has_progressbar == progress is Some,
            r.accepted,
            final(self).printed(step),
    {
        let repeated = match &self.previous_step {
            Some(previous) => step.is_same(previous),
            None => false,
        };
        let line = if repeated {
            None
        } else {
            let text = step.to_string();
            self.previous_step = Some(step);
            Some(text)
        };
        let bar = match progress {
            Some((current, total)) => BarChange::Show {
                created: !self.has_progressbar,
                current,
                total,
            },
            None => if self.has_progressbar {
                BarChange::Remove
            } else {
                BarChange::Keep
            },
        };
        self.has_progressbar = progress.is_some();
        ProgressUpdate { line, bar, accepted: true }
    }

    /// Decides what happens to the progress bar when the update is over.
    pub fn finish(&mut self) -> (bar: BarChange)
        ensures
            bar == if old(self).has_progressbar {
                BarChange::Remove
            } else {
                BarChange::Keep
            },
            !final(self).has_progressbar,
            final(self).previous_step == old(self).previous_step,
    {
        if self.has_progressbar {
            self.has_progressbar = false;
            BarChange::Remove
        } else {
            BarChange::Keep
        }
    }
}

} // verus!
