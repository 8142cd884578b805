use vstd::prelude::*;

verus! {

/// [Shell command line execute](https://docs.zephyrproject.org/latest/services/device_mgmt/smp_groups/smp_group_9.html#shell-command-line-execute) command
#[derive(Debug, Eq, PartialEq)]
pub struct ShellCommandLineExecute<'a> {
    /// the command and its arguments
    pub argv: &'a [String],
}

/// Response for [`ShellCommandLineExecute`] command
#[derive(Debug, Eq, PartialEq)]
pub struct ShellCommandLineExecuteResponse {
    /// what the command printed
    pub o: String,
    /// the return code of the command
    pub ret: i32,
}

} // verus!
