//! The catalogue of SMP commands: each request with its operation, group and
//! command number, and the shape of its response.

use vstd::prelude::*;

/// [File management](https://docs.zephyrproject.org/latest/services/device_mgmt/smp_groups/smp_group_8.html) group commands
pub mod fs;
/// [Application/software image management](https://docs.zephyrproject.org/latest/services/device_mgmt/smp_groups/smp_group_1.html) group commands
pub mod image;
/// [Default/OS management](https://docs.zephyrproject.org/latest/services/device_mgmt/smp_groups/smp_group_0.html) group commands
pub mod os;
/// [Shell management](https://docs.zephyrproject.org/latest/services/device_mgmt/smp_groups/smp_group_9.html) group commands
pub mod shell;

verus! {

/// The command groups of MCUmgr.
#[derive(Debug, Clone, Copy, PartialEq, Eq, Structural)]
#[allow(non_camel_case_types)]
pub enum MCUmgrGroup {
    /// Default/OS management
    MGMT_GROUP_ID_OS,
    /// Application/software image management
    MGMT_GROUP_ID_IMAGE,
    /// Statistics management
    MGMT_GROUP_ID_STAT,
    /// Settings (config) management
    MGMT_GROUP_ID_SETTINGS,
    /// Log management
    MGMT_GROUP_ID_LOG,
    /// Crash management
    MGMT_GROUP_ID_CRASH,
    /// Split image management
    MGMT_GROUP_ID_SPLIT,
    /// Run-time tests
    MGMT_GROUP_ID_RUN,
    /// File management
    MGMT_GROUP_ID_FS,
    /// Shell management
    MGMT_GROUP_ID_SHELL,
    /// Enumeration management
    MGMT_GROUP_ID_ENUM,
}

impl MCUmgrGroup {
    /// The number of the group on the wire.
    pub open spec fn number(self) -> u16 {
        match self {
            MCUmgrGroup::MGMT_GROUP_ID_OS => 0,
            MCUmgrGroup::MGMT_GROUP_ID_IMAGE => 1,
            MCUmgrGroup::MGMT_GROUP_ID_STAT => 2,
            MCUmgrGroup::MGMT_GROUP_ID_SETTINGS => 3,
            MCUmgrGroup::MGMT_GROUP_ID_LOG => 4,
            MCUmgrGroup::MGMT_GROUP_ID_CRASH => 5,
            MCUmgrGroup::MGMT_GROUP_ID_SPLIT => 6,
            MCUmgrGroup::MGMT_GROUP_ID_RUN => 7,
            MCUmgrGroup::MGMT_GROUP_ID_FS => 8,
            MCUmgrGroup::MGMT_GROUP_ID_SHELL => 9,
            MCUmgrGroup::MGMT_GROUP_ID_ENUM => 10,
        }
    }

    /// The number of the group on the wire.
    pub fn id(self) -> (n: u16)
        ensures
            n == self.number(),
    {
        match self {
            MCUmgrGroup::MGMT_GROUP_ID_OS => 0,
            MCUmgrGroup::MGMT_GROUP_ID_IMAGE => 1,
            MCUmgrGroup::MGMT_GROUP_ID_STAT => 2,
            MCUmgrGroup::MGMT_GROUP_ID_SETTINGS => 3,
            MCUmgrGroup::MGMT_GROUP_ID_LOG => 4,
            MCUmgrGroup::MGMT_GROUP_ID_CRASH => 5,
            MCUmgrGroup::MGMT_GROUP_ID_SPLIT => 6,
            MCUmgrGroup::MGMT_GROUP_ID_RUN => 7,
            MCUmgrGroup::MGMT_GROUP_ID_FS => 8,
            MCUmgrGroup::MGMT_GROUP_ID_SHELL => 9,
            MCUmgrGroup::MGMT_GROUP_ID_ENUM => 10,
        }
    }
}

/// SMP version 2 group based error message
#[derive(Debug, Clone, Copy, PartialEq, Eq, Structural)]
pub struct ErrResponseV2 {
    /// group of the group-based error code
    pub group: u16,
    /// contains the index of the group-based error code
    pub rc: i32,
}

/// [SMP error message](https://docs.zephyrproject.org/latest/services/device_mgmt/smp_protocol.html#minimal-response-smp-data)
///
/// Every response is first read as this envelope. Both fields are optional;
/// which of them is there tells which kind of error the device reports.
#[derive(Debug, Clone, Copy, PartialEq, Eq, Structural)]
pub struct ErrResponse {
    /// SMP version 1 error code
    pub rc: Option<i32>,
    /// SMP version 2 error message
    pub err: Option<ErrResponseV2>,
}

/// An MCUmgr command that can be executed through
/// [`Connection::execute_command`](crate::connection::Connection::execute_command).
pub trait McuMgrCommand {
    /// the data payload type
    type Payload;

    /// the response type of the command
    type Response;

    /// whether this command is a read or write operation
    spec fn is_write(&self) -> bool;

    /// the group ID of the command
    spec fn group(&self) -> u16;

    /// the command ID
    spec fn command(&self) -> u8;

    /// whether this command is a read or write operation
    fn is_write_operation(&self) -> (w: bool)
        ensures
            w == self.is_write(),
    ;

    /// the group ID of the command
    fn group_id(&self) -> (g: u16)
        ensures
            g == self.group(),
    ;

    /// the command ID
    fn command_id(&self) -> (c: u8)
        ensures
            c == self.command(),
    ;

    /// the data: what is encoded as the payload of the request. Every
    /// command of the catalogue is its own payload.
    fn data(&self) -> &Self::Payload;
}

impl McuMgrCommand for os::Echo<'_> {
    type Payload = Self;

    type Response = os::EchoResponse;

    open spec fn is_write(&self) -> bool {
        true
    }

    open spec fn group(&self) -> u16 {
        0
    }

    open spec fn command(&self) -> u8 {
        0
    }

    fn is_write_operation(&self) -> bool {
        true
    }

    fn group_id(&self) -> u16 {
        MCUmgrGroup::MGMT_GROUP_ID_OS.id()
    }

    fn command_id(&self) -> u8 {
        0
    }

    fn data(&self) -> (payload: &Self)
        ensures
            payload == self,
    {
        self
    }
}

impl McuMgrCommand for os::TaskStatistics {
    type Payload = Self;

    type Response = os::TaskStatisticsResponse;

    open spec fn is_write(&self) -> bool {
        false
    }

    open spec fn group(&self) -> u16 {
        0
    }

    open spec fn command(&self) -> u8 {
        2
    }

    fn is_write_operation(&self) -> bool {
        false
    }

    fn group_id(&self) -> u16 {
        MCUmgrGroup::MGMT_GROUP_ID_OS.id()
    }

    fn command_id(&self) -> u8 {
        2
    }

    fn data(&self) -> (payload: &Self)
        ensures
            payload == self,
    {
        self
    }
}

impl McuMgrCommand for os::SystemReset {
    type Payload = Self;

    type Response = os::SystemResetResponse;

    open spec fn is_write(&self) -> bool {
        true
    }

    open spec fn group(&self) -> u16 {
        0
    }

    open spec fn command(&self) -> u8 {
        5
    }

    fn is_write_operation(&self) -> bool {
        true
    }

    fn group_id(&self) -> u16 {
        MCUmgrGroup::MGMT_GROUP_ID_OS.id()
    }

    fn command_id(&self) -> u8 {
        5
    }

    fn data(&self) -> (payload: &Self)
        ensures
            payload == self,
    {
        self
    }
}

impl McuMgrCommand for os::MCUmgrParameters {
    type Payload = Self;

    type Response = os::MCUmgrParametersResponse;

    open spec fn is_write(&self) -> bool {
        false
    }

    open spec fn group(&self) -> u16 {
        0
    }

    open spec fn command(&self) -> u8 {
        6
    }

    fn is_write_operation(&self) -> bool {
        false
    }

    fn group_id(&self) -> u16 {
        MCUmgrGroup::MGMT_GROUP_ID_OS.id()
    }

    fn command_id(&self) -> u8 {
        6
    }

    fn data(&self) -> (payload: &Self)
        ensures
            payload == self,
    {
        self
    }
}

impl McuMgrCommand for os::BootloaderInfo {
    type Payload = Self;

    type Response = os::BootloaderInfoResponse;

    open spec fn is_write(&self) -> bool {
        false
    }

    open spec fn group(&self) -> u16 {
        0
    }

    open spec fn command(&self) -> u8 {
        8
    }

    fn is_write_operation(&self) -> bool {
        false
    }

    fn group_id(&self) -> u16 {
        MCUmgrGroup::MGMT_GROUP_ID_OS.id()
    }

    fn command_id(&self) -> u8 {
        8
    }

    fn data(&self) -> (payload: &Self)
        ensures
            payload == self,
    {
        self
    }
}

impl McuMgrCommand for image::GetImageState {
    type Payload = Self;

    type Response = image::GetImageStateResponse;

    open spec fn is_write(&self) -> bool {
        false
    }

    open spec fn group(&self) -> u16 {
        1
    }

    open spec fn command(&self) -> u8 {
        0
    }

    fn is_write_operation(&self) -> bool {
        false
    }

    fn group_id(&self) -> u16 {
        MCUmgrGroup::MGMT_GROUP_ID_IMAGE.id()
    }

    fn command_id(&self) -> u8 {
        0
    }

    fn data(&self) -> (payload: &Self)
        ensures
            payload == self,
    {
        self
    }
}

impl McuMgrCommand for image::SetImageState<'_> {
    type Payload = Self;

    type Response = image::GetImageStateResponse;

    open spec fn is_write(&self) -> bool {
        true
    }

    open spec fn group(&self) -> u16 {
        1
    }

    open spec fn command(&self) -> u8 {
        0
    }

    fn is_write_operation(&self) -> bool {
        true
    }

    fn group_id(&self) -> u16 {
        MCUmgrGroup::MGMT_GROUP_ID_IMAGE.id()
    }

    fn command_id(&self) -> u8 {
        0
    }

    fn data(&self) -> (payload: &Self)
        ensures
            payload == self,
    {
        self
    }
}

impl McuMgrCommand for image::ImageUpload<'_, '_> {
    type Payload = Self;

    type Response = image::ImageUploadResponse;

    open spec fn is_write(&self) -> bool {
        true
    }

    open spec fn group(&self) -> u16 {
        1
    }

    open spec fn command(&self) -> u8 {
        1
    }

    fn is_write_operation(&self) -> bool {
        true
    }

    fn group_id(&self) -> u16 {
        MCUmgrGroup::MGMT_GROUP_ID_IMAGE.id()
    }

    fn command_id(&self) -> u8 {
        1
    }

    fn data(&self) -> (payload: &Self)
        ensures
            payload == self,
    {
        self
    }
}

impl McuMgrCommand for fs::FileUpload<'_, '_> {
    type Payload = Self;

    type Response = fs::FileUploadResponse;

    open spec fn is_write(&self) -> bool {
        true
    }

    open spec fn group(&self) -> u16 {
        8
    }

    open spec fn command(&self) -> u8 {
        0
    }

    fn is_write_operation(&self) -> bool {
        true
    }

    fn group_id(&self) -> u16 {
        MCUmgrGroup::MGMT_GROUP_ID_FS.id()
    }

    fn command_id(&self) -> u8 {
        0
    }

    fn data(&self) -> (payload: &Self)
        ensures
            payload == self,
    {
        self
    }
}

impl McuMgrCommand for fs::FileDownload<'_> {
    type Payload = Self;

    type Response = fs::FileDownloadResponse;

    open spec fn is_write(&self) -> bool {
        false
    }

    open spec fn group(&self) -> u16 {
        8
    }

    open spec fn command(&self) -> u8 {
        0
    }

    fn is_write_operation(&self) -> bool {
        false
    }

    fn group_id(&self) -> u16 {
        MCUmgrGroup::MGMT_GROUP_ID_FS.id()
    }

    fn command_id(&self) -> u8 {
        0
    }

    fn data(&self) -> (payload: &Self)
        ensures
            payload == self,
    {
        self
    }
}

impl McuMgrCommand for fs::FileStatus<'_> {
    type Payload = Self;

    type Response = fs::FileStatusResponse;

    open spec fn is_write(&self) -> bool {
        false
    }

    open spec fn group(&self) -> u16 {
        8
    }

    open spec fn command(&self) -> u8 {
        1
    }

    fn is_write_operation(&self) -> bool {
        false
    }

    fn group_id(&self) -> u16 {
        MCUmgrGroup::MGMT_GROUP_ID_FS.id()
    }

    fn command_id(&self) -> u8 {
        1
    }

    fn data(&self) -> (payload: &Self)
        ensures
            payload == self,
    {
        self
    }
}

impl McuMgrCommand for fs::FileHashChecksum<'_, '_> {
    type Payload = Self;

    type Response = fs::FileHashChecksumResponse;

    open spec fn is_write(&self) -> bool {
        false
    }

    open spec fn group(&self) -> u16 {
        8
    }

    open spec fn command(&self) -> u8 {
        2
    }

    fn is_write_operation(&self) -> bool {
        false
    }

    fn group_id(&self) -> u16 {
        MCUmgrGroup::MGMT_GROUP_ID_FS.id()
    }

    fn command_id(&self) -> u8 {
        2
    }

    fn data(&self) -> (payload: &Self)
        ensures
            payload == self,
    {
        self
    }
}

impl McuMgrCommand for fs::SupportedFileHashChecksumTypes {
    type Payload = Self;

    type Response = fs::SupportedFileHashChecksumTypesResponse;

    open spec fn is_write(&self) -> bool {
        false
    }

    open spec fn group(&self) -> u16 {
        8
    }

    open spec fn command(&self) -> u8 {
        3
    }

    fn is_write_operation(&self) -> bool {
        false
    }

    fn group_id(&self) -> u16 {
        MCUmgrGroup::MGMT_GROUP_ID_FS.id()
    }

    fn command_id(&self) -> u8 {
        3
    }

    fn data(&self) -> (payload: &Self)
        ensures
            payload == self,
    {
        self
    }
}

impl McuMgrCommand for fs::FileClose {
    type Payload = Self;

    type Response = fs::FileCloseResponse;

    open spec fn is_write(&self) -> bool {
        true
    }

    open spec fn group(&self) -> u16 {
        8
    }

    open spec fn command(&self) -> u8 {
        4
    }

    fn is_write_operation(&self) -> bool {
        true
    }

    fn group_id(&self) -> u16 {
        MCUmgrGroup::MGMT_GROUP_ID_FS.id()
    }

    fn command_id(&self) -> u8 {
        4
    }

    fn data(&self) -> (payload: &Self)
        ensures
            payload == self,
    {
        self
    }
}

impl McuMgrCommand for shell::ShellCommandLineExecute<'_> {
    type Payload = Self;

    type Response = shell::ShellCommandLineExecuteResponse;

    open spec fn is_write(&self) -> bool {
        true
    }

    open spec fn group(&self) -> u16 {
        9
    }

    open spec fn command(&self) -> u8 {
        0
    }

    fn is_write_operation(&self) -> bool {
        true
    }

    fn group_id(&self) -> u16 {
        MCUmgrGroup::MGMT_GROUP_ID_SHELL.id()
    }

    fn command_id(&self) -> u8 {
        0
    }

    fn data(&self) -> (payload: &Self)
        ensures
            payload == self,
    {
        self
    }
}

} // verus!
