use zephyr_mcumgr::bootloader::{BootloaderInfo, BootloaderType, MCUbootMode};
use zephyr_mcumgr::commands::fs::{
    FileClose, FileDownload, FileHashChecksum, FileStatus, FileUpload,
    SupportedFileHashChecksumDataFormat, SupportedFileHashChecksumTypes,
};
use zephyr_mcumgr::commands::image::{GetImageState, ImageUpload, SetImageState};
use zephyr_mcumgr::commands::os::{
    BootloaderInfoResponse, Echo, MCUmgrParameters, SystemReset, TaskStatistics,
};
use zephyr_mcumgr::commands::shell::ShellCommandLineExecute;
use zephyr_mcumgr::commands::{MCUmgrGroup, McuMgrCommand};

fn triple<C: McuMgrCommand>(c: &C) -> (bool, u16, u8) {
    (c.is_write_operation(), c.group_id(), c.command_id())
}

#[test]
fn command_catalogue() {
    assert_eq!(triple(&Echo { d: "Hello World!" }), (true, 0, 0));
    assert_eq!(triple(&TaskStatistics), (false, 0, 2));
    assert_eq!(triple(&SystemReset { force: false, boot_mode: None }), (true, 0, 5));
    assert_eq!(triple(&MCUmgrParameters), (false, 0, 6));
    assert_eq!(triple(&zephyr_mcumgr::commands::os::BootloaderInfo), (false, 0, 8));
    assert_eq!(triple(&GetImageState), (false, 1, 0));
    assert_eq!(triple(&SetImageState { hash: None, confirm: true }), (true, 1, 0));
    assert_eq!(
        triple(&ImageUpload { image: None, off: 0, data: &[], len: None, sha: None, upgrade: None }),
        (true, 1, 1)
    );
    assert_eq!(triple(&FileDownload { off: 0, name: "a" }), (false, 8, 0));
    assert_eq!(triple(&FileUpload { off: 0, data: &[], name: "a", len: None }), (true, 8, 0));
    assert_eq!(triple(&FileStatus { name: "a" }), (false, 8, 1));
    assert_eq!(
        triple(&FileHashChecksum { name: "a", hash_type: None, off: 0, len: None }),
        (false, 8, 2)
    );
    assert_eq!(triple(&SupportedFileHashChecksumTypes), (false, 8, 3));
    assert_eq!(triple(&FileClose), (true, 8, 4));
    let argv = vec!["kernel".to_string(), "uptime".to_string()];
    assert_eq!(triple(&ShellCommandLineExecute { argv: &argv }), (true, 9, 0));
}

#[test]
fn command_data_is_the_command() {
    let echo = Echo { d: "Hello World!" };
    assert_eq!(echo.data(), &echo);
    assert_eq!(echo.data().d, "Hello World!");
}

#[test]
fn group_numbers() {
    assert_eq!(MCUmgrGroup::MGMT_GROUP_ID_OS.id(), 0);
    assert_eq!(MCUmgrGroup::MGMT_GROUP_ID_IMAGE.id(), 1);
    assert_eq!(MCUmgrGroup::MGMT_GROUP_ID_STAT.id(), 2);
    assert_eq!(MCUmgrGroup::MGMT_GROUP_ID_SETTINGS.id(), 3);
    assert_eq!(MCUmgrGroup::MGMT_GROUP_ID_LOG.id(), 4);
    assert_eq!(MCUmgrGroup::MGMT_GROUP_ID_CRASH.id(), 5);
    assert_eq!(MCUmgrGroup::MGMT_GROUP_ID_SPLIT.id(), 6);
    assert_eq!(MCUmgrGroup::MGMT_GROUP_ID_RUN.id(), 7);
    assert_eq!(MCUmgrGroup::MGMT_GROUP_ID_FS.id(), 8);
    assert_eq!(MCUmgrGroup::MGMT_GROUP_ID_SHELL.id(), 9);
    assert_eq!(MCUmgrGroup::MGMT_GROUP_ID_ENUM.id(), 10);
}

#[test]
fn hash_data_formats() {
    assert_eq!(
        SupportedFileHashChecksumDataFormat::from_repr(0),
        Some(SupportedFileHashChecksumDataFormat::Numerical)
    );
    assert_eq!(
        SupportedFileHashChecksumDataFormat::from_repr(1),
        Some(SupportedFileHashChecksumDataFormat::ByteArray)
    );
    assert_eq!(SupportedFileHashChecksumDataFormat::from_repr(2), None);
    assert_eq!(SupportedFileHashChecksumDataFormat::Numerical.as_str(), "Numerical");
    assert_eq!(SupportedFileHashChecksumDataFormat::ByteArray.as_str(), "ByteArray");
}

#[test]
fn bootloader_from_response() {
    let info = BootloaderInfo::from_response(BootloaderInfoResponse {
        bootloader: "MCUboot".to_string(),
        mode: 3,
        no_downgrade: true,
    });
    assert_eq!(info, BootloaderInfo::MCUboot { mode: 3, no_downgrade: true });
    assert_eq!(info.get_bootloader_type(), Ok(BootloaderType::McuBoot));

    let info = BootloaderInfo::from_response(BootloaderInfoResponse {
        bootloader: "mcuboot".to_string(),
        mode: 3,
        no_downgrade: true,
    });
    assert_eq!(info, BootloaderInfo::Other { name: "mcuboot".to_string() });
    assert_eq!(info.get_bootloader_type(), Err("mcuboot".to_string()));
    assert_eq!(BootloaderType::McuBoot.as_str(), "MCUboot");
}

#[test]
fn mcuboot_modes() {
    assert_eq!(MCUbootMode::from_repr(0), Some(MCUbootMode::MCUBOOT_MODE_SINGLE_SLOT));
    assert_eq!(MCUbootMode::from_repr(3), Some(MCUbootMode::MCUBOOT_MODE_SWAP_USING_MOVE));
    assert_eq!(MCUbootMode::from_repr(9), Some(MCUbootMode::MCUBOOT_MODE_SWAP_USING_OFFSET));
    assert_eq!(MCUbootMode::from_repr(10), None);
    assert_eq!(MCUbootMode::from_repr(-1), None);
    for n in 0..10 {
        let mode = MCUbootMode::from_repr(n).unwrap();
        assert_eq!(format!("{:?}", mode), mode.as_str());
    }
    assert_eq!(MCUbootMode::MCUBOOT_MODE_DIRECT_XIP.as_str(), "MCUBOOT_MODE_DIRECT_XIP");
}
