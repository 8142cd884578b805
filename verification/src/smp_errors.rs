//! The errors that a device reports in its responses.

use vstd::prelude::*;
use vstd::string::StringExecFns;
use crate::text::{decimal, push_decimal, push_signed_decimal, signed_decimal};

verus! {

/// The return code with which a device says that it does not know a command.
pub const MGMT_ERR_ENOTSUP: i32 = 8;

/// The return codes of SMP version 1 (`MGMT_ERR_*`).
///
/// These are the codes of the management layer. They are not the error
/// numbers of the C library, which shell commands return negated.
#[derive(Debug, Clone, Copy, PartialEq, Eq, Structural)]
#[allow(non_camel_case_types)]
pub enum MCUmgrErr {
    /// No error
    MGMT_ERR_EOK,
    /// Unknown error
    MGMT_ERR_EUNKNOWN,
    /// Insufficient memory
    MGMT_ERR_ENOMEM,
    /// Error in input value
    MGMT_ERR_EINVAL,
    /// Operation timed out
    MGMT_ERR_ETIMEOUT,
    /// No such file or entry
    MGMT_ERR_ENOENT,
    /// Current state disallows command
    MGMT_ERR_EBADSTATE,
    /// Response too large
    MGMT_ERR_EMSGSIZE,
    /// Command not supported
    MGMT_ERR_ENOTSUP,
    /// Corrupt
    MGMT_ERR_ECORRUPT,
    /// Command blocked by processing of other command
    MGMT_ERR_EBUSY,
    /// Access to specific function, command or resource denied
    MGMT_ERR_EACCESSDENIED,
    /// Requested SMP protocol version is not supported (too old)
    MGMT_ERR_UNSUPPORTED_TOO_OLD,
    /// Requested SMP protocol version is not supported (too new)
    MGMT_ERR_UNSUPPORTED_TOO_NEW,
    /// User errors defined from 256 onwards
    MGMT_ERR_EPERUSER,
}

impl MCUmgrErr {
    /// The code that has the number `rc`, if there is one.
    pub open spec fn of_number(rc: int) -> Option<MCUmgrErr> {
        if rc == 0 {
            Some(MCUmgrErr::MGMT_ERR_EOK)
        } else if rc == 1 {
            Some(MCUmgrErr::MGMT_ERR_EUNKNOWN)
        } else if rc == 2 {
            Some(MCUmgrErr::MGMT_ERR_ENOMEM)
        } else if rc == 3 {
            Some(MCUmgrErr::MGMT_ERR_EINVAL)
        } else if rc == 4 {
            Some(MCUmgrErr::MGMT_ERR_ETIMEOUT)
        } else if rc == 5 {
            Some(MCUmgrErr::MGMT_ERR_ENOENT)
        } else if rc == 6 {
            Some(MCUmgrErr::MGMT_ERR_EBADSTATE)
        } else if rc == 7 {
            Some(MCUmgrErr::MGMT_ERR_EMSGSIZE)
        } else if rc == 8 {
            Some(MCUmgrErr::MGMT_ERR_ENOTSUP)
        } else if rc == 9 {
            Some(MCUmgrErr::MGMT_ERR_ECORRUPT)
        } else if rc == 10 {
            Some(MCUmgrErr::MGMT_ERR_EBUSY)
        } else if rc == 11 {
            Some(MCUmgrErr::MGMT_ERR_EACCESSDENIED)
        } else if rc == 12 {
            Some(MCUmgrErr::MGMT_ERR_UNSUPPORTED_TOO_OLD)
        } else if rc == 13 {
            Some(MCUmgrErr::MGMT_ERR_UNSUPPORTED_TOO_NEW)
        } else if rc == 256 {
            Some(MCUmgrErr::MGMT_ERR_EPERUSER)
        } else {
            None
        }
    }

    /// The name of the code.
    pub open spec fn name(self) -> Seq<char> {
        match self {
            MCUmgrErr::MGMT_ERR_EOK => "MGMT_ERR_EOK"@,
            MCUmgrErr::MGMT_ERR_EUNKNOWN => "MGMT_ERR_EUNKNOWN"@,
            MCUmgrErr::MGMT_ERR_ENOMEM => "MGMT_ERR_ENOMEM"@,
            MCUmgrErr::MGMT_ERR_EINVAL => "MGMT_ERR_EINVAL"@,
            MCUmgrErr::MGMT_ERR_ETIMEOUT => "MGMT_ERR_ETIMEOUT"@,
            MCUmgrErr::MGMT_ERR_ENOENT => "MGMT_ERR_ENOENT"@,
            MCUmgrErr::MGMT_ERR_EBADSTATE => "MGMT_ERR_EBADSTATE"@,
            MCUmgrErr::MGMT_ERR_EMSGSIZE => "MGMT_ERR_EMSGSIZE"@,
            MCUmgrErr::MGMT_ERR_ENOTSUP => "MGMT_ERR_ENOTSUP"@,
            MCUmgrErr::MGMT_ERR_ECORRUPT => "MGMT_ERR_ECORRUPT"@,
            MCUmgrErr::MGMT_ERR_EBUSY => "MGMT_ERR_EBUSY"@,
            MCUmgrErr::MGMT_ERR_EACCESSDENIED => "MGMT_ERR_EACCESSDENIED"@,
            MCUmgrErr::MGMT_ERR_UNSUPPORTED_TOO_OLD => "MGMT_ERR_UNSUPPORTED_TOO_OLD"@,
            MCUmgrErr::MGMT_ERR_UNSUPPORTED_TOO_NEW => "MGMT_ERR_UNSUPPORTED_TOO_NEW"@,
            MCUmgrErr::MGMT_ERR_EPERUSER => "MGMT_ERR_EPERUSER"@,
        }
    }

    /// The text of a return code: the name of the code, or
    /// `MGMT_ERR_UNKNOWN(rc)` where no code has that number.
    pub open spec fn text_of(rc: int) -> Seq<char> {
        match MCUmgrErr::of_number(rc) {
            Some(e) => e.name(),
            None => "MGMT_ERR_UNKNOWN("@ + signed_decimal(rc) + ")"@,
        }
    }

    /// The code that has the number `rc`, if there is one.
    pub fn from_repr(rc: i32) -> (e: Option<MCUmgrErr>)
        ensures
            e == MCUmgrErr::of_number(rc as int),
    {
        match rc {
            0 => Some(MCUmgrErr::MGMT_ERR_EOK),
            1 => Some(MCUmgrErr::MGMT_ERR_EUNKNOWN),
            2 => Some(MCUmgrErr::MGMT_ERR_ENOMEM),
            3 => Some(MCUmgrErr::MGMT_ERR_EINVAL),
            4 => Some(MCUmgrErr::MGMT_ERR_ETIMEOUT),
            5 => Some(MCUmgrErr::MGMT_ERR_ENOENT),
            6 => Some(MCUmgrErr::MGMT_ERR_EBADSTATE),
            7 => Some(MCUmgrErr::MGMT_ERR_EMSGSIZE),
            8 => Some(MCUmgrErr::MGMT_ERR_ENOTSUP),
            9 => Some(MCUmgrErr::MGMT_ERR_ECORRUPT),
            10 => Some(MCUmgrErr::MGMT_ERR_EBUSY),
            11 => Some(MCUmgrErr::MGMT_ERR_EACCESSDENIED),
            12 => Some(MCUmgrErr::MGMT_ERR_UNSUPPORTED_TOO_OLD),
            13 => Some(MCUmgrErr::MGMT_ERR_UNSUPPORTED_TOO_NEW),
            256 => Some(MCUmgrErr::MGMT_ERR_EPERUSER),
            _ => None,
        }
    }

    /// The name of the code.
    pub fn as_str(self) -> (s: &'static str)
        ensures
            s@ == self.name(),
    {
        match self {
            MCUmgrErr::MGMT_ERR_EOK => "MGMT_ERR_EOK",
            MCUmgrErr::MGMT_ERR_EUNKNOWN => "MGMT_ERR_EUNKNOWN",
            MCUmgrErr::MGMT_ERR_ENOMEM => "MGMT_ERR_ENOMEM",
            MCUmgrErr::MGMT_ERR_EINVAL => "MGMT_ERR_EINVAL",
            MCUmgrErr::MGMT_ERR_ETIMEOUT => "MGMT_ERR_ETIMEOUT",
            MCUmgrErr::MGMT_ERR_ENOENT => "MGMT_ERR_ENOENT",
            MCUmgrErr::MGMT_ERR_EBADSTATE => "MGMT_ERR_EBADSTATE",
            MCUmgrErr::MGMT_ERR_EMSGSIZE => "MGMT_ERR_EMSGSIZE",
            MCUmgrErr::MGMT_ERR_ENOTSUP => "MGMT_ERR_ENOTSUP",
            MCUmgrErr::MGMT_ERR_ECORRUPT => "MGMT_ERR_ECORRUPT",
            MCUmgrErr::MGMT_ERR_EBUSY => "MGMT_ERR_EBUSY",
            MCUmgrErr::MGMT_ERR_EACCESSDENIED => "MGMT_ERR_EACCESSDENIED",
            MCUmgrErr::MGMT_ERR_UNSUPPORTED_TOO_OLD => "MGMT_ERR_UNSUPPORTED_TOO_OLD",
            MCUmgrErr::MGMT_ERR_UNSUPPORTED_TOO_NEW => "MGMT_ERR_UNSUPPORTED_TOO_NEW",
            MCUmgrErr::MGMT_ERR_EPERUSER => "MGMT_ERR_EPERUSER",
        }
    }

    /// Converts a raw SMP return code to a string.
    pub fn err_to_string(rc: i32) -> (s: String)
        ensures
            s@ == MCUmgrErr::text_of(rc as int),
    {
        match MCUmgrErr::from_repr(rc) {
            Some(e) => String::from_str(e.as_str()),
            None => {
                let mut s = String::from_str("MGMT_ERR_UNKNOWN(");
                push_signed_decimal(&mut s, rc as i64);
                s.append(")");
                s
            },
        }
    }
}

/// An error that the device reported in place of a response.
#[derive(Debug, Clone, Copy, PartialEq, Eq, Structural)]
pub enum DeviceError {
    /// SMP version 1: a bare return code
    V1 {
        /// the return code
        rc: i32,
    },
    /// SMP version 2: a return code of a command group
    V2 {
        /// the group whose code this is
        group: u16,
        /// the return code within the group
        rc: i32,
    },
}

impl DeviceError {
    /// The device does not know the command: return code 8, as a version 1
    /// code or as a version 2 code of group 0.
    pub open spec fn is_command_not_supported(self) -> bool {
        match self {
            DeviceError::V1 { rc } => rc == MGMT_ERR_ENOTSUP,
            DeviceError::V2 { group, rc } => group == 0 && rc == MGMT_ERR_ENOTSUP,
        }
    }

    /// The error as text: the name of a version 1 code, `group=G,rc=R` for a
    /// version 2 code.
    pub open spec fn text(self) -> Seq<char> {
        match self {
            DeviceError::V1 { rc } => MCUmgrErr::text_of(rc as int),
            DeviceError::V2 { group, rc } => "group="@ + decimal(group as nat) + ",rc="@
                + signed_decimal(rc as int),
        }
    }

    /// Whether the device said that it does not support the command.
    pub fn command_not_supported(&self) -> (b: bool)
        ensures
            b == self.is_command_not_supported(),
    {
        match self {
            DeviceError::V1 { rc } => *rc == MGMT_ERR_ENOTSUP,
            DeviceError::V2 { group, rc } => *group == 0 && *rc == MGMT_ERR_ENOTSUP,
        }
    }

    /// The error as text.
    pub fn to_string(&self) -> (s: String)
        ensures
            s@ == self.text(),
    {
        match self {
            DeviceError::V1 { rc } => MCUmgrErr::err_to_string(*rc),
            DeviceError::V2 { group, rc } => {
                let mut s = String::from_str("group=");
                push_decimal(&mut s, *group as u64);
                s.append(",rc=");
                push_signed_decimal(&mut s, *rc as i64);
                s
            },
        }
    }
}

} // verus!
