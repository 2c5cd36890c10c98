//! The bootloaders that devices run.

use vstd::prelude::*;

verus! {

/// The bootloaders whose firmware images can be updated.
#[derive(Clone, Copy, Debug, PartialEq, Eq, PartialOrd, Ord, Structural)]
pub enum BootloaderType {
    /// MCUboot
    MCUboot,
}

impl BootloaderType {
    /// The name of the bootloader.
    pub fn name(&self) -> (s: &'static str)
        ensures
            s@ == "MCUboot"@,
    {
        match self {
            BootloaderType::MCUboot => "MCUboot",
        }
    }
}

/// Information about the bootloader of a device.
#[derive(Clone, Debug, PartialEq, Eq)]
pub enum BootloaderInfo {
    /// MCUboot
    MCUboot {
        /// The mode of the bootloader
        mode: i32,
        /// Whether the bootloader rejects downgrades
        no_downgrade: bool,
    },
    /// Any other bootloader
    Unknown {
        /// The name of the bootloader
        name: String,
    },
}

impl BootloaderInfo {
    /// The type of the bootloader, or its name if it is not known.
    pub fn get_bootloader_type(self) -> (r: Result<BootloaderType, String>)
        ensures
            r == match self {
                BootloaderInfo::MCUboot { .. } => Ok::<BootloaderType, String>(
                    BootloaderType::MCUboot,
                ),
                BootloaderInfo::Unknown { name } => Err(name),
            },
    {
        match self {
            BootloaderInfo::MCUboot { .. } => Ok(BootloaderType::MCUboot),
            BootloaderInfo::Unknown { name } => Err(name),
        }
    }
}

} // verus!
