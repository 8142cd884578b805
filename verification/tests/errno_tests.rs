use zephyr_mcumgr::errno::Errno;
use zephyr_mcumgr::smp_errors::{DeviceError, MCUmgrErr};

#[test]
fn test_errno_to_string_success() {
    assert_eq!(Errno::errno_to_string(0), "EOK");
    assert_eq!(Errno::errno_to_string(1), "EOK");
}

#[test]
fn test_errno_to_string_known_codes() {
    assert_eq!(Errno::errno_to_string(-1), "EPERM");
    assert_eq!(Errno::errno_to_string(-2), "ENOENT");
    assert_eq!(Errno::errno_to_string(-22), "EINVAL");
}

#[test]
fn test_errno_to_string_unknown_code() {
    assert_eq!(Errno::errno_to_string(-999), "EUNKNOWN(-999)");
}

#[test]
fn errno_edges() {
    assert_eq!(Errno::errno_to_string(i32::MAX), "EOK");
    assert_eq!(Errno::errno_to_string(i32::MIN), "EUNKNOWN(-2147483648)");
    assert_eq!(Errno::errno_to_string(-140), "ECANCELED");
    assert_eq!(Errno::errno_to_string(-134), "ENOTSUP");
    assert_eq!(Errno::errno_to_string(-36), "EUNKNOWN(-36)");
    assert_eq!(Errno::errno_to_string(-141), "EUNKNOWN(-141)");
}

#[test]
fn errno_numbers_and_names_agree() {
    let mut known = 0;
    for n in -10..300 {
        match Errno::from_repr(n) {
            Some(e) => {
                known += 1;
                assert_eq!(e.to_repr(), n);
                assert_eq!(Errno::errno_to_string(-n), e.as_str());
                assert_eq!(format!("{:?}", e), e.as_str());
            }
            None => {
                if n > 0 {
                    assert_eq!(Errno::errno_to_string(-n), format!("EUNKNOWN(-{})", n));
                }
            }
        }
    }
    assert_eq!(known, 79);
    assert_eq!(Errno::from_repr(0), None);
    assert_eq!(Errno::from_repr(7), Some(Errno::E2BIG));
    assert_eq!(Errno::from_repr(116), Some(Errno::ETIMEDOUT));
}

#[test]
fn management_codes_have_their_own_table() {
    assert_eq!(MCUmgrErr::err_to_string(0), "MGMT_ERR_EOK");
    assert_eq!(MCUmgrErr::err_to_string(8), "MGMT_ERR_ENOTSUP");
    assert_eq!(MCUmgrErr::err_to_string(13), "MGMT_ERR_UNSUPPORTED_TOO_NEW");
    assert_eq!(MCUmgrErr::err_to_string(256), "MGMT_ERR_EPERUSER");
    assert_eq!(MCUmgrErr::err_to_string(14), "MGMT_ERR_UNKNOWN(14)");
    assert_eq!(MCUmgrErr::err_to_string(-8), "MGMT_ERR_UNKNOWN(-8)");
    // the same number means different things in the two tables
    assert_eq!(Errno::errno_to_string(-8), "ENOEXEC");
    assert_eq!(MCUmgrErr::from_repr(5), Some(MCUmgrErr::MGMT_ERR_ENOENT));
    assert_eq!(MCUmgrErr::from_repr(255), None);
}

#[test]
fn device_error_text_and_predicate() {
    assert_eq!(DeviceError::V1 { rc: 8 }.to_string(), "MGMT_ERR_ENOTSUP");
    assert_eq!(DeviceError::V1 { rc: 99 }.to_string(), "MGMT_ERR_UNKNOWN(99)");
    assert_eq!(DeviceError::V2 { group: 8, rc: -3 }.to_string(), "group=8,rc=-3");
    assert_eq!(DeviceError::V2 { group: 65535, rc: 2147483647 }.to_string(), "group=65535,rc=2147483647");

    assert!(DeviceError::V1 { rc: 8 }.command_not_supported());
    assert!(!DeviceError::V1 { rc: 7 }.command_not_supported());
    assert!(DeviceError::V2 { group: 0, rc: 8 }.command_not_supported());
    assert!(!DeviceError::V2 { group: 1, rc: 8 }.command_not_supported());
    assert!(!DeviceError::V2 { group: 0, rc: 9 }.command_not_supported());
}
