//! What a device says of its bootloader.

use vstd::prelude::*;
use vstd::string::StringExecFns;
use crate::commands::os::BootloaderInfoResponse;

verus! {

/// The name by which MCUboot reports itself.
pub open spec fn mcuboot_name() -> Seq<char> {
    "MCUboot"@
}

/// The bootloaders that a firmware update can be made for.
#[derive(Debug, Clone, Copy, PartialEq, Eq, Structural)]
pub enum BootloaderType {
    /// MCUboot
    McuBoot,
}

impl BootloaderType {
    /// The name of the bootloader.
    pub fn as_str(self) -> (s: &'static str)
        ensures
            s@ == mcuboot_name(),
    {
        "MCUboot"
    }
}

/// Information about the bootloader
#[derive(Debug, PartialEq, Eq)]
pub enum BootloaderInfo {
    /// MCUboot bootloader
    MCUboot {
        /// Bootloader mode
        mode: i32,
        /// Bootloader has downgrade prevention enabled
        no_downgrade: bool,
    },
    /// Other bootloader
    Other {
        /// Name of the bootloader
        name: String,
    },
}

impl BootloaderInfo {
    /// What a response to the bootloader query says: MCUboot with its mode
    /// and downgrade setting where the name is `MCUboot`, and the name alone
    /// for any other bootloader.
    pub fn from_response(response: BootloaderInfoResponse) -> (info: BootloaderInfo)
        ensures
            response.bootloader@ == mcuboot_name() ==> info == (BootloaderInfo::MCUboot {
                mode: response.mode,
                no_downgrade: response.no_downgrade,
            }),
            response.bootloader@ != mcuboot_name() ==> info == (BootloaderInfo::Other {
                name: response.bootloader,
            }),
    {
        let mcuboot = String::from_str("MCUboot");
        if response.bootloader == mcuboot {
            BootloaderInfo::MCUboot { mode: response.mode, no_downgrade: response.no_downgrade }
        } else {
            BootloaderInfo::Other { name: response.bootloader }
        }
    }

    /// The kind of the bootloader, or its name where the kind is not one
    /// that this library knows.
    pub fn get_bootloader_type(self) -> (r: Result<BootloaderType, String>)
        ensures
            match self {
                BootloaderInfo::MCUboot { .. } => r == Ok::<BootloaderType, String>(
                    BootloaderType::McuBoot,
                ),
                BootloaderInfo::Other { name } => r == Err::<BootloaderType, String>(name),
            },
    {
        match self {
            BootloaderInfo::MCUboot { .. } => Ok(BootloaderType::McuBoot),
            BootloaderInfo::Other { name } => Err(name),
        }
    }
}

/// MCUboot modes
///
/// See [`enum mcuboot_mode`](https://github.com/mcu-tools/mcuboot/blob/main/boot/bootutil/include/bootutil/boot_status.h).
#[derive(Debug, Copy, Clone, PartialEq, Eq, Structural)]
#[allow(non_camel_case_types)]
#[allow(missing_docs)]
pub enum MCUbootMode {
    MCUBOOT_MODE_SINGLE_SLOT,
    MCUBOOT_MODE_SWAP_USING_SCRATCH,
    MCUBOOT_MODE_UPGRADE_ONLY,
    MCUBOOT_MODE_SWAP_USING_MOVE,
    MCUBOOT_MODE_DIRECT_XIP,
    MCUBOOT_MODE_DIRECT_XIP_WITH_REVERT,
    MCUBOOT_MODE_RAM_LOAD,
    MCUBOOT_MODE_FIRMWARE_LOADER,
    MCUBOOT_MODE_SINGLE_SLOT_RAM_LOAD,
    MCUBOOT_MODE_SWAP_USING_OFFSET,
}

impl MCUbootMode {
    /// The number of the mode.
    pub open spec fn number(self) -> int {
        match self {
            MCUbootMode::MCUBOOT_MODE_SINGLE_SLOT => 0,
            MCUbootMode::MCUBOOT_MODE_SWAP_USING_SCRATCH => 1,
            MCUbootMode::MCUBOOT_MODE_UPGRADE_ONLY => 2,
            MCUbootMode::MCUBOOT_MODE_SWAP_USING_MOVE => 3,
            MCUbootMode::MCUBOOT_MODE_DIRECT_XIP => 4,
            MCUbootMode::MCUBOOT_MODE_DIRECT_XIP_WITH_REVERT => 5,
            MCUbootMode::MCUBOOT_MODE_RAM_LOAD => 6,
            MCUbootMode::MCUBOOT_MODE_FIRMWARE_LOADER => 7,
            MCUbootMode::MCUBOOT_MODE_SINGLE_SLOT_RAM_LOAD => 8,
            MCUbootMode::MCUBOOT_MODE_SWAP_USING_OFFSET => 9,
        }
    }

    /// The mode that has the number `repr`, if there is one.
    pub fn from_repr(repr: i32) -> (m: Option<MCUbootMode>)
        ensures
            0 <= repr <= 9 <==> m is Some,
            m matches Some(mode) ==> mode.number() == repr,
    {
        match repr {
            0 => Some(MCUbootMode::MCUBOOT_MODE_SINGLE_SLOT),
            1 => Some(MCUbootMode::MCUBOOT_MODE_SWAP_USING_SCRATCH),
            2 => Some(MCUbootMode::MCUBOOT_MODE_UPGRADE_ONLY),
            3 => Some(MCUbootMode::MCUBOOT_MODE_SWAP_USING_MOVE),
            4 => Some(MCUbootMode::MCUBOOT_MODE_DIRECT_XIP),
            5 => Some(MCUbootMode::MCUBOOT_MODE_DIRECT_XIP_WITH_REVERT),
            6 => Some(MCUbootMode::MCUBOOT_MODE_RAM_LOAD),
            7 => Some(MCUbootMode::MCUBOOT_MODE_FIRMWARE_LOADER),
            8 => Some(MCUbootMode::MCUBOOT_MODE_SINGLE_SLOT_RAM_LOAD),
            9 => Some(MCUbootMode::MCUBOOT_MODE_SWAP_USING_OFFSET),
            _ => None,
        }
    }

    /// The name of the mode.
    pub fn as_str(self) -> (s: &'static str)
        ensures
            s@ == match self {
                MCUbootMode::MCUBOOT_MODE_SINGLE_SLOT => "MCUBOOT_MODE_SINGLE_SLOT"@,
                MCUbootMode::MCUBOOT_MODE_SWAP_USING_SCRATCH => "MCUBOOT_MODE_SWAP_USING_SCRATCH"@,
                MCUbootMode::MCUBOOT_MODE_UPGRADE_ONLY => "MCUBOOT_MODE_UPGRADE_ONLY"@,
                MCUbootMode::MCUBOOT_MODE_SWAP_USING_MOVE => "MCUBOOT_MODE_SWAP_USING_MOVE"@,
                MCUbootMode::MCUBOOT_MODE_DIRECT_XIP => "MCUBOOT_MODE_DIRECT_XIP"@,
                MCUbootMode::MCUBOOT_MODE_DIRECT_XIP_WITH_REVERT => "MCUBOOT_MODE_DIRECT_XIP_WITH_REVERT"@,
                MCUbootMode::MCUBOOT_MODE_RAM_LOAD => "MCUBOOT_MODE_RAM_LOAD"@,
                MCUbootMode::MCUBOOT_MODE_FIRMWARE_LOADER => "MCUBOOT_MODE_FIRMWARE_LOADER"@,
                MCUbootMode::MCUBOOT_MODE_SINGLE_SLOT_RAM_LOAD => "MCUBOOT_MODE_SINGLE_SLOT_RAM_LOAD"@,
                MCUbootMode::MCUBOOT_MODE_SWAP_USING_OFFSET => "MCUBOOT_MODE_SWAP_USING_OFFSET"@,
            },
    {
        match self {
            MCUbootMode::MCUBOOT_MODE_SINGLE_SLOT => "MCUBOOT_MODE_SINGLE_SLOT",
            MCUbootMode::MCUBOOT_MODE_SWAP_USING_SCRATCH => "MCUBOOT_MODE_SWAP_USING_SCRATCH",
            MCUbootMode::MCUBOOT_MODE_UPGRADE_ONLY => "MCUBOOT_MODE_UPGRADE_ONLY",
            MCUbootMode::MCUBOOT_MODE_SWAP_USING_MOVE => "MCUBOOT_MODE_SWAP_USING_MOVE",
            MCUbootMode::MCUBOOT_MODE_DIRECT_XIP => "MCUBOOT_MODE_DIRECT_XIP",
            MCUbootMode::MCUBOOT_MODE_DIRECT_XIP_WITH_REVERT => "MCUBOOT_MODE_DIRECT_XIP_WITH_REVERT",
            MCUbootMode::MCUBOOT_MODE_RAM_LOAD => "MCUBOOT_MODE_RAM_LOAD",
            MCUbootMode::MCUBOOT_MODE_FIRMWARE_LOADER => "MCUBOOT_MODE_FIRMWARE_LOADER",
            MCUbootMode::MCUBOOT_MODE_SINGLE_SLOT_RAM_LOAD => "MCUBOOT_MODE_SINGLE_SLOT_RAM_LOAD",
            MCUbootMode::MCUBOOT_MODE_SWAP_USING_OFFSET => "MCUBOOT_MODE_SWAP_USING_OFFSET",
        }
    }
}

} // verus!
