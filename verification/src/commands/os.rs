use std::collections::HashMap;

use vstd::prelude::*;

verus! {

/// [Echo](https://docs.zephyrproject.org/latest/services/device_mgmt/smp_groups/smp_group_0.html#echo-command) command
#[derive(Debug, Eq, PartialEq)]
pub struct Echo<'a> {
    /// string to be replied by echo service
    pub d: &'a str,
}

/// Response for [`Echo`] command
#[derive(Debug, Eq, PartialEq)]
pub struct EchoResponse {
    /// replying echo string
    pub r: String,
}

/// [Task statistics](https://docs.zephyrproject.org/latest/services/device_mgmt/smp_groups/smp_group_0.html#task-statistics-command) command
#[derive(Debug, Eq, PartialEq)]
pub struct TaskStatistics;

/// Statistics of an MCU task/thread
#[derive(Debug, Eq, PartialEq)]
pub struct TaskStatisticsEntry {
    /// task priority
    pub prio: i32,
    /// numeric task ID
    pub tid: u32,
    /// numeric task state
    pub state: u32,
    /// task’s/thread’s stack usage
    pub stkuse: Option<u64>,
    /// task’s/thread’s stack size
    pub stksiz: Option<u64>,
    /// task’s/thread’s context switches
    pub cswcnt: Option<u64>,
    /// task’s/thread’s runtime in “ticks”
    pub runtime: Option<u64>,
}

/// Response for [`TaskStatistics`] command
#[derive(Debug, Eq, PartialEq)]
pub struct TaskStatisticsResponse {
    /// Dictionary of task names with their respective statistics
    pub tasks: HashMap<String, TaskStatisticsEntry>,
}

/// [System reset](https://docs.zephyrproject.org/latest/services/device_mgmt/smp_groups/smp_group_0.html#system-reset) command
#[derive(Debug, Eq, PartialEq)]
pub struct SystemReset {
    /// Forces reset
    pub force: bool,
    /// Boot mode
    ///
    /// - 0: Normal boot
    /// - 1: Bootloader recovery mode
    pub boot_mode: Option<u32>,
}

/// Response for [`SystemReset`] command
#[derive(Debug, Default, Eq, PartialEq)]
pub struct SystemResetResponse;

/// [MCUmgr Parameters](https://docs.zephyrproject.org/latest/services/device_mgmt/smp_groups/smp_group_0.html#mcumgr-parameters) command
#[derive(Debug, Eq, PartialEq)]
pub struct MCUmgrParameters;

/// Response for [`MCUmgrParameters`] command
#[derive(Debug, Eq, PartialEq)]
pub struct MCUmgrParametersResponse {
    /// Single SMP buffer size, this includes SMP header and CBOR payload
    pub buf_size: u32,
    /// Number of SMP buffers supported
    pub buf_count: u32,
}

/// [Bootloader information](https://docs.zephyrproject.org/latest/services/device_mgmt/smp_groups/smp_group_0.html#bootloader-information) command, without a query
#[derive(Debug, Eq, PartialEq)]
pub struct BootloaderInfo;

/// Response for [`BootloaderInfo`] command
#[derive(Debug, Eq, PartialEq)]
pub struct BootloaderInfoResponse {
    /// name of the bootloader
    pub bootloader: String,
    /// MCUboot only: the mode the bootloader runs in
    pub mode: i32,
    /// MCUboot only: downgrade prevention is enabled
    pub no_downgrade: bool,
}

} // verus!
