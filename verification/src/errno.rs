//! The error numbers of Zephyr's C library, as shell commands return them.

use vstd::prelude::*;
use vstd::string::StringExecFns;
use crate::text::{push_signed_decimal, signed_decimal};

verus! {

/// An error number of Zephyr's minimal C library (`errno.h`).
#[derive(Debug, Copy, Clone, PartialEq, Eq, Structural)]
#[allow(non_camel_case_types)]
pub enum Errno {
    /// Not owner
    EPERM,
    /// No such file or directory
    ENOENT,
    /// No such context
    ESRCH,
    /// Interrupted system call
    EINTR,
    /// I/O error
    EIO,
    /// No such device or address
    ENXIO,
    /// Arg list too long
    E2BIG,
    /// Exec format error
    ENOEXEC,
    /// Bad file number
    EBADF,
    /// No children
    ECHILD,
    /// No more contexts
    EAGAIN,
    /// Not enough core
    ENOMEM,
    /// Permission denied
    EACCES,
    /// Bad address
    EFAULT,
    /// Block device required
    ENOTBLK,
    /// Mount device busy
    EBUSY,
    /// File exists
    EEXIST,
    /// Cross-device link
    EXDEV,
    /// No such device
    ENODEV,
    /// Not a directory
    ENOTDIR,
    /// Is a directory
    EISDIR,
    /// Invalid argument
    EINVAL,
    /// File table overflow
    ENFILE,
    /// Too many open files
    EMFILE,
    /// Not a typewriter
    ENOTTY,
    /// Text file busy
    ETXTBSY,
    /// File too large
    EFBIG,
    /// No space left on device
    ENOSPC,
    /// Illegal seek
    ESPIPE,
    /// Read-only file system
    EROFS,
    /// Too many links
    EMLINK,
    /// Broken pipe
    EPIPE,
    /// Argument too large
    EDOM,
    /// Result too large
    ERANGE,
    /// Unexpected message type
    ENOMSG,
    /// Resource deadlock avoided
    EDEADLK,
    /// No locks available
    ENOLCK,
    /// STREAMS device required
    ENOSTR,
    /// Missing expected message data
    ENODATA,
    /// STREAMS timeout occurred
    ETIME,
    /// Insufficient memory
    ENOSR,
    /// Generic STREAMS error
    EPROTO,
    /// Invalid STREAMS message
    EBADMSG,
    /// Function not implemented
    ENOSYS,
    /// Directory not empty
    ENOTEMPTY,
    /// File name too long
    ENAMETOOLONG,
    /// Too many levels of symbolic links
    ELOOP,
    /// Operation not supported on socket
    EOPNOTSUPP,
    /// Protocol family not supported
    EPFNOSUPPORT,
    /// Connection reset by peer
    ECONNRESET,
    /// No buffer space available
    ENOBUFS,
    /// Addr family not supported
    EAFNOSUPPORT,
    /// Protocol wrong type for socket
    EPROTOTYPE,
    /// Socket operation on non-socket
    ENOTSOCK,
    /// Protocol not available
    ENOPROTOOPT,
    /// Can't send after socket shutdown
    ESHUTDOWN,
    /// Connection refused
    ECONNREFUSED,
    /// Address already in use
    EADDRINUSE,
    /// Software caused connection abort
    ECONNABORTED,
    /// Network is unreachable
    ENETUNREACH,
    /// Network is down
    ENETDOWN,
    /// Connection timed out
    ETIMEDOUT,
    /// Host is down
    EHOSTDOWN,
    /// No route to host
    EHOSTUNREACH,
    /// Operation now in progress
    EINPROGRESS,
    /// Operation already in progress
    EALREADY,
    /// Destination address required
    EDESTADDRREQ,
    /// Message size
    EMSGSIZE,
    /// Protocol not supported
    EPROTONOSUPPORT,
    /// Socket type not supported
    ESOCKTNOSUPPORT,
    /// Can't assign requested address
    EADDRNOTAVAIL,
    /// Network dropped connection on reset
    ENETRESET,
    /// Socket is already connected
    EISCONN,
    /// Socket is not connected
    ENOTCONN,
    /// Too many references: can't splice
    ETOOMANYREFS,
    /// Unsupported value
    ENOTSUP,
    /// Illegal byte sequence
    EILSEQ,
    /// Value overflow
    EOVERFLOW,
    /// Operation canceled
    ECANCELED,
}

impl Errno {
    /// The number of the error.
    pub open spec fn number(self) -> int {
        match self {
            Errno::EPERM => 1,
            Errno::ENOENT => 2,
            Errno::ESRCH => 3,
            Errno::EINTR => 4,
            Errno::EIO => 5,
            Errno::ENXIO => 6,
            Errno::E2BIG => 7,
            Errno::ENOEXEC => 8,
            Errno::EBADF => 9,
            Errno::ECHILD => 10,
            Errno::EAGAIN => 11,
            Errno::ENOMEM => 12,
            Errno::EACCES => 13,
            Errno::EFAULT => 14,
            Errno::ENOTBLK => 15,
            Errno::EBUSY => 16,
            Errno::EEXIST => 17,
            Errno::EXDEV => 18,
            Errno::ENODEV => 19,
            Errno::ENOTDIR => 20,
            Errno::EISDIR => 21,
            Errno::EINVAL => 22,
            Errno::ENFILE => 23,
            Errno::EMFILE => 24,
            Errno::ENOTTY => 25,
            Errno::ETXTBSY => 26,
            Errno::EFBIG => 27,
            Errno::ENOSPC => 28,
            Errno::ESPIPE => 29,
            Errno::EROFS => 30,
            Errno::EMLINK => 31,
            Errno::EPIPE => 32,
            Errno::EDOM => 33,
            Errno::ERANGE => 34,
            Errno::ENOMSG => 35,
            Errno::EDEADLK => 45,
            Errno::ENOLCK => 46,
            Errno::ENOSTR => 60,
            Errno::ENODATA => 61,
            Errno::ETIME => 62,
            Errno::ENOSR => 63,
            Errno::EPROTO => 71,
            Errno::EBADMSG => 77,
            Errno::ENOSYS => 88,
            Errno::ENOTEMPTY => 90,
            Errno::ENAMETOOLONG => 91,
            Errno::ELOOP => 92,
            Errno::EOPNOTSUPP => 95,
            Errno::EPFNOSUPPORT => 96,
            Errno::ECONNRESET => 104,
            Errno::ENOBUFS => 105,
            Errno::EAFNOSUPPORT => 106,
            Errno::EPROTOTYPE => 107,
            Errno::ENOTSOCK => 108,
            Errno::ENOPROTOOPT => 109,
            Errno::ESHUTDOWN => 110,
            Errno::ECONNREFUSED => 111,
            Errno::EADDRINUSE => 112,
            Errno::ECONNABORTED => 113,
            Errno::ENETUNREACH => 114,
            Errno::ENETDOWN => 115,
            Errno::ETIMEDOUT => 116,
            Errno::EHOSTDOWN => 117,
            Errno::EHOSTUNREACH => 118,
            Errno::EINPROGRESS => 119,
            Errno::EALREADY => 120,
            Errno::EDESTADDRREQ => 121,
            Errno::EMSGSIZE => 122,
            Errno::EPROTONOSUPPORT => 123,
            Errno::ESOCKTNOSUPPORT => 124,
            Errno::EADDRNOTAVAIL => 125,
            Errno::ENETRESET => 126,
            Errno::EISCONN => 127,
            Errno::ENOTCONN => 128,
            Errno::ETOOMANYREFS => 129,
            Errno::ENOTSUP => 134,
            Errno::EILSEQ => 138,
            Errno::EOVERFLOW => 139,
            Errno::ECANCELED => 140,
        }
    }

    /// The name of the error.
    pub open spec fn name(self) -> Seq<char> {
        match self {
            Errno::EPERM => "EPERM"@,
            Errno::ENOENT => "ENOENT"@,
            Errno::ESRCH => "ESRCH"@,
            Errno::EINTR => "EINTR"@,
            Errno::EIO => "EIO"@,
            Errno::ENXIO => "ENXIO"@,
            Errno::E2BIG => "E2BIG"@,
            Errno::ENOEXEC => "ENOEXEC"@,
            Errno::EBADF => "EBADF"@,
            Errno::ECHILD => "ECHILD"@,
            Errno::EAGAIN => "EAGAIN"@,
            Errno::ENOMEM => "ENOMEM"@,
            Errno::EACCES => "EACCES"@,
            Errno::EFAULT => "EFAULT"@,
            Errno::ENOTBLK => "ENOTBLK"@,
            Errno::EBUSY => "EBUSY"@,
            Errno::EEXIST => "EEXIST"@,
            Errno::EXDEV => "EXDEV"@,
            Errno::ENODEV => "ENODEV"@,
            Errno::ENOTDIR => "ENOTDIR"@,
            Errno::EISDIR => "EISDIR"@,
            Errno::EINVAL => "EINVAL"@,
            Errno::ENFILE => "ENFILE"@,
            Errno::EMFILE => "EMFILE"@,
            Errno::ENOTTY => "ENOTTY"@,
            Errno::ETXTBSY => "ETXTBSY"@,
            Errno::EFBIG => "EFBIG"@,
            Errno::ENOSPC => "ENOSPC"@,
            Errno::ESPIPE => "ESPIPE"@,
            Errno::EROFS => "EROFS"@,
            Errno::EMLINK => "EMLINK"@,
            Errno::EPIPE => "EPIPE"@,
            Errno::EDOM => "EDOM"@,
            Errno::ERANGE => "ERANGE"@,
            Errno::ENOMSG => "ENOMSG"@,
            Errno::EDEADLK => "EDEADLK"@,
            Errno::ENOLCK => "ENOLCK"@,
            Errno::ENOSTR => "ENOSTR"@,
            Errno::ENODATA => "ENODATA"@,
            Errno::ETIME => "ETIME"@,
            Errno::ENOSR => "ENOSR"@,
            Errno::EPROTO => "EPROTO"@,
            Errno::EBADMSG => "EBADMSG"@,
            Errno::ENOSYS => "ENOSYS"@,
            Errno::ENOTEMPTY => "ENOTEMPTY"@,
            Errno::ENAMETOOLONG => "ENAMETOOLONG"@,
            Errno::ELOOP => "ELOOP"@,
            Errno::EOPNOTSUPP => "EOPNOTSUPP"@,
            Errno::EPFNOSUPPORT => "EPFNOSUPPORT"@,
            Errno::ECONNRESET => "ECONNRESET"@,
            Errno::ENOBUFS => "ENOBUFS"@,
            Errno::EAFNOSUPPORT => "EAFNOSUPPORT"@,
            Errno::EPROTOTYPE => "EPROTOTYPE"@,
            Errno::ENOTSOCK => "ENOTSOCK"@,
            Errno::ENOPROTOOPT => "ENOPROTOOPT"@,
            Errno::ESHUTDOWN => "ESHUTDOWN"@,
            Errno::ECONNREFUSED => "ECONNREFUSED"@,
            Errno::EADDRINUSE => "EADDRINUSE"@,
            Errno::ECONNABORTED => "ECONNABORTED"@,
            Errno::ENETUNREACH => "ENETUNREACH"@,
            Errno::ENETDOWN => "ENETDOWN"@,
            Errno::ETIMEDOUT => "ETIMEDOUT"@,
            Errno::EHOSTDOWN => "EHOSTDOWN"@,
            Errno::EHOSTUNREACH => "EHOSTUNREACH"@,
            Errno::EINPROGRESS => "EINPROGRESS"@,
            Errno::EALREADY => "EALREADY"@,
            Errno::EDESTADDRREQ => "EDESTADDRREQ"@,
            Errno::EMSGSIZE => "EMSGSIZE"@,
            Errno::EPROTONOSUPPORT => "EPROTONOSUPPORT"@,
            Errno::ESOCKTNOSUPPORT => "ESOCKTNOSUPPORT"@,
            Errno::EADDRNOTAVAIL => "EADDRNOTAVAIL"@,
            Errno::ENETRESET => "ENETRESET"@,
            Errno::EISCONN => "EISCONN"@,
            Errno::ENOTCONN => "ENOTCONN"@,
            Errno::ETOOMANYREFS => "ETOOMANYREFS"@,
            Errno::ENOTSUP => "ENOTSUP"@,
            Errno::EILSEQ => "EILSEQ"@,
            Errno::EOVERFLOW => "EOVERFLOW"@,
            Errno::ECANCELED => "ECANCELED"@,
        }
    }

    /// The error that has the number `repr`, if there is one.
    pub open spec fn of_number(repr: int) -> Option<Errno> {
        if repr == 1 {
            Some(Errno::EPERM)
        } else if repr == 2 {
            Some(Errno::ENOENT)
        } else if repr == 3 {
            Some(Errno::ESRCH)
        } else if repr == 4 {
            Some(Errno::EINTR)
        } else if repr == 5 {
            Some(Errno::EIO)
        } else if repr == 6 {
            Some(Errno::ENXIO)
        } else if repr == 7 {
            Some(Errno::E2BIG)
        } else if repr == 8 {
            Some(Errno::ENOEXEC)
        } else if repr == 9 {
            Some(Errno::EBADF)
        } else if repr == 10 {
            Some(Errno::ECHILD)
        } else if repr == 11 {
            Some(Errno::EAGAIN)
        } else if repr == 12 {
            Some(Errno::ENOMEM)
        } else if repr == 13 {
            Some(Errno::EACCES)
        } else if repr == 14 {
            Some(Errno::EFAULT)
        } else if repr == 15 {
            Some(Errno::ENOTBLK)
        } else if repr == 16 {
            Some(Errno::EBUSY)
        } else if repr == 17 {
            Some(Errno::EEXIST)
        } else if repr == 18 {
            Some(Errno::EXDEV)
        } else if repr == 19 {
            Some(Errno::ENODEV)
        } else if repr == 20 {
            Some(Errno::ENOTDIR)
        } else if repr == 21 {
            Some(Errno::EISDIR)
        } else if repr == 22 {
            Some(Errno::EINVAL)
        } else if repr == 23 {
            Some(Errno::ENFILE)
        } else if repr == 24 {
            Some(Errno::EMFILE)
        } else if repr == 25 {
            Some(Errno::ENOTTY)
        } else if repr == 26 {
            Some(Errno::ETXTBSY)
        } else if repr == 27 {
            Some(Errno::EFBIG)
        } else if repr == 28 {
            Some(Errno::ENOSPC)
        } else if repr == 29 {
            Some(Errno::ESPIPE)
        } else if repr == 30 {
            Some(Errno::EROFS)
        } else if repr == 31 {
            Some(Errno::EMLINK)
        } else if repr == 32 {
            Some(Errno::EPIPE)
        } else if repr == 33 {
            Some(Errno::EDOM)
        } else if repr == 34 {
            Some(Errno::ERANGE)
        } else if repr == 35 {
            Some(Errno::ENOMSG)
        } else if repr == 45 {
            Some(Errno::EDEADLK)
        } else if repr == 46 {
            Some(Errno::ENOLCK)
        } else if repr == 60 {
            Some(Errno::ENOSTR)
        } else if repr == 61 {
            Some(Errno::ENODATA)
        } else if repr == 62 {
            Some(Errno::ETIME)
        } else if repr == 63 {
            Some(Errno::ENOSR)
        } else if repr == 71 {
            Some(Errno::EPROTO)
        } else if repr == 77 {
            Some(Errno::EBADMSG)
        } else if repr == 88 {
            Some(Errno::ENOSYS)
        } else if repr == 90 {
            Some(Errno::ENOTEMPTY)
        } else if repr == 91 {
            Some(Errno::ENAMETOOLONG)
        } else if repr == 92 {
            Some(Errno::ELOOP)
        } else if repr == 95 {
            Some(Errno::EOPNOTSUPP)
        } else if repr == 96 {
            Some(Errno::EPFNOSUPPORT)
        } else if repr == 104 {
            Some(Errno::ECONNRESET)
        } else if repr == 105 {
            Some(Errno::ENOBUFS)
        } else if repr == 106 {
            Some(Errno::EAFNOSUPPORT)
        } else if repr == 107 {
            Some(Errno::EPROTOTYPE)
        } else if repr == 108 {
            Some(Errno::ENOTSOCK)
        } else if repr == 109 {
            Some(Errno::ENOPROTOOPT)
        } else if repr == 110 {
            Some(Errno::ESHUTDOWN)
        } else if repr == 111 {
            Some(Errno::ECONNREFUSED)
        } else if repr == 112 {
            Some(Errno::EADDRINUSE)
        } else if repr == 113 {
            Some(Errno::ECONNABORTED)
        } else if repr == 114 {
            Some(Errno::ENETUNREACH)
        } else if repr == 115 {
            Some(Errno::ENETDOWN)
        } else if repr == 116 {
            Some(Errno::ETIMEDOUT)
        } else if repr == 117 {
            Some(Errno::EHOSTDOWN)
        } else if repr == 118 {
            Some(Errno::EHOSTUNREACH)
        } else if repr == 119 {
            Some(Errno::EINPROGRESS)
        } else if repr == 120 {
            Some(Errno::EALREADY)
        } else if repr == 121 {
            Some(Errno::EDESTADDRREQ)
        } else if repr == 122 {
            Some(Errno::EMSGSIZE)
        } else if repr == 123 {
            Some(Errno::EPROTONOSUPPORT)
        } else if repr == 124 {
            Some(Errno::ESOCKTNOSUPPORT)
        } else if repr == 125 {
            Some(Errno::EADDRNOTAVAIL)
        } else if repr == 126 {
            Some(Errno::ENETRESET)
        } else if repr == 127 {
            Some(Errno::EISCONN)
        } else if repr == 128 {
            Some(Errno::ENOTCONN)
        } else if repr == 129 {
            Some(Errno::ETOOMANYREFS)
        } else if repr == 134 {
            Some(Errno::ENOTSUP)
        } else if repr == 138 {
            Some(Errno::EILSEQ)
        } else if repr == 139 {
            Some(Errno::EOVERFLOW)
        } else if repr == 140 {
            Some(Errno::ECANCELED)
        } else {
            None
        }
    }

    /// The text of a raw return code: `EOK` for a code that is not negative,
    /// the name of the error whose number is the negated code, and
    /// `EUNKNOWN(code)` where no error has that number.
    pub open spec fn text_of(err: int) -> Seq<char> {
        if err >= 0 {
            "EOK"@
        } else {
            match Errno::of_number(-err) {
                Some(e) => e.name(),
                None => "EUNKNOWN("@ + signed_decimal(err) + ")"@,
            }
        }
    }

    /// The number of the error.
    pub fn to_repr(self) -> (n: i32)
        ensures
            n == self.number(),
    {
        match self {
            Errno::EPERM => 1,
            Errno::ENOENT => 2,
            Errno::ESRCH => 3,
            Errno::EINTR => 4,
            Errno::EIO => 5,
            Errno::ENXIO => 6,
            Errno::E2BIG => 7,
            Errno::ENOEXEC => 8,
            Errno::EBADF => 9,
            Errno::ECHILD => 10,
            Errno::EAGAIN => 11,
            Errno::ENOMEM => 12,
            Errno::EACCES => 13,
            Errno::EFAULT => 14,
            Errno::ENOTBLK => 15,
            Errno::EBUSY => 16,
            Errno::EEXIST => 17,
            Errno::EXDEV => 18,
            Errno::ENODEV => 19,
            Errno::ENOTDIR => 20,
            Errno::EISDIR => 21,
            Errno::EINVAL => 22,
            Errno::ENFILE => 23,
            Errno::EMFILE => 24,
            Errno::ENOTTY => 25,
            Errno::ETXTBSY => 26,
            Errno::EFBIG => 27,
            Errno::ENOSPC => 28,
            Errno::ESPIPE => 29,
            Errno::EROFS => 30,
            Errno::EMLINK => 31,
            Errno::EPIPE => 32,
            Errno::EDOM => 33,
            Errno::ERANGE => 34,
            Errno::ENOMSG => 35,
            Errno::EDEADLK => 45,
            Errno::ENOLCK => 46,
            Errno::ENOSTR => 60,
            Errno::ENODATA => 61,
            Errno::ETIME => 62,
            Errno::ENOSR => 63,
            Errno::EPROTO => 71,
            Errno::EBADMSG => 77,
            Errno::ENOSYS => 88,
            Errno::ENOTEMPTY => 90,
            Errno::ENAMETOOLONG => 91,
            Errno::ELOOP => 92,
            Errno::EOPNOTSUPP => 95,
            Errno::EPFNOSUPPORT => 96,
            Errno::ECONNRESET => 104,
            Errno::ENOBUFS => 105,
            Errno::EAFNOSUPPORT => 106,
            Errno::EPROTOTYPE => 107,
            Errno::ENOTSOCK => 108,
            Errno::ENOPROTOOPT => 109,
            Errno::ESHUTDOWN => 110,
            Errno::ECONNREFUSED => 111,
            Errno::EADDRINUSE => 112,
            Errno::ECONNABORTED => 113,
            Errno::ENETUNREACH => 114,
            Errno::ENETDOWN => 115,
            Errno::ETIMEDOUT => 116,
            Errno::EHOSTDOWN => 117,
            Errno::EHOSTUNREACH => 118,
            Errno::EINPROGRESS => 119,
            Errno::EALREADY => 120,
            Errno::EDESTADDRREQ => 121,
            Errno::EMSGSIZE => 122,
            Errno::EPROTONOSUPPORT => 123,
            Errno::ESOCKTNOSUPPORT => 124,
            Errno::EADDRNOTAVAIL => 125,
            Errno::ENETRESET => 126,
            Errno::EISCONN => 127,
            Errno::ENOTCONN => 128,
            Errno::ETOOMANYREFS => 129,
            Errno::ENOTSUP => 134,
            Errno::EILSEQ => 138,
            Errno::EOVERFLOW => 139,
            Errno::ECANCELED => 140,
        }
    }

    /// The error that has the number `repr`, if there is one.
    pub fn from_repr(repr: i32) -> (e: Option<Errno>)
        ensures
            e == Errno::of_number(repr as int),
            e matches Some(errno) ==> errno.number() == repr,
    {
        match repr {
            1 => Some(Errno::EPERM),
            2 => Some(Errno::ENOENT),
            3 => Some(Errno::ESRCH),
            4 => Some(Errno::EINTR),
            5 => Some(Errno::EIO),
            6 => Some(Errno::ENXIO),
            7 => Some(Errno::E2BIG),
            8 => Some(Errno::ENOEXEC),
            9 => Some(Errno::EBADF),
            10 => Some(Errno::ECHILD),
            11 => Some(Errno::EAGAIN),
            12 => Some(Errno::ENOMEM),
            13 => Some(Errno::EACCES),
            14 => Some(Errno::EFAULT),
            15 => Some(Errno::ENOTBLK),
            16 => Some(Errno::EBUSY),
            17 => Some(Errno::EEXIST),
            18 => Some(Errno::EXDEV),
            19 => Some(Errno::ENODEV),
            20 => Some(Errno::ENOTDIR),
            21 => Some(Errno::EISDIR),
            22 => Some(Errno::EINVAL),
            23 => Some(Errno::ENFILE),
            24 => Some(Errno::EMFILE),
            25 => Some(Errno::ENOTTY),
            26 => Some(Errno::ETXTBSY),
            27 => Some(Errno::EFBIG),
            28 => Some(Errno::ENOSPC),
            29 => Some(Errno::ESPIPE),
            30 => Some(Errno::EROFS),
            31 => Some(Errno::EMLINK),
            32 => Some(Errno::EPIPE),
            33 => Some(Errno::EDOM),
            34 => Some(Errno::ERANGE),
            35 => Some(Errno::ENOMSG),
            45 => Some(Errno::EDEADLK),
            46 => Some(Errno::ENOLCK),
            60 => Some(Errno::ENOSTR),
            61 => Some(Errno::ENODATA),
            62 => Some(Errno::ETIME),
            63 => Some(Errno::ENOSR),
            71 => Some(Errno::EPROTO),
            77 => Some(Errno::EBADMSG),
            88 => Some(Errno::ENOSYS),
            90 => Some(Errno::ENOTEMPTY),
            91 => Some(Errno::ENAMETOOLONG),
            92 => Some(Errno::ELOOP),
            95 => Some(Errno::EOPNOTSUPP),
            96 => Some(Errno::EPFNOSUPPORT),
            104 => Some(Errno::ECONNRESET),
            105 => Some(Errno::ENOBUFS),
            106 => Some(Errno::EAFNOSUPPORT),
            107 => Some(Errno::EPROTOTYPE),
            108 => Some(Errno::ENOTSOCK),
            109 => Some(Errno::ENOPROTOOPT),
            110 => Some(Errno::ESHUTDOWN),
            111 => Some(Errno::ECONNREFUSED),
            112 => Some(Errno::EADDRINUSE),
            113 => Some(Errno::ECONNABORTED),
            114 => Some(Errno::ENETUNREACH),
            115 => Some(Errno::ENETDOWN),
            116 => Some(Errno::ETIMEDOUT),
            117 => Some(Errno::EHOSTDOWN),
            118 => Some(Errno::EHOSTUNREACH),
            119 => Some(Errno::EINPROGRESS),
            120 => Some(Errno::EALREADY),
            121 => Some(Errno::EDESTADDRREQ),
            122 => Some(Errno::EMSGSIZE),
            123 => Some(Errno::EPROTONOSUPPORT),
            124 => Some(Errno::ESOCKTNOSUPPORT),
            125 => Some(Errno::EADDRNOTAVAIL),
            126 => Some(Errno::ENETRESET),
            127 => Some(Errno::EISCONN),
            128 => Some(Errno::ENOTCONN),
            129 => Some(Errno::ETOOMANYREFS),
            134 => Some(Errno::ENOTSUP),
            138 => Some(Errno::EILSEQ),
            139 => Some(Errno::EOVERFLOW),
            140 => Some(Errno::ECANCELED),
            _ => None,
        }
    }

    /// The name of the error.
    pub fn as_str(self) -> (s: &'static str)
        ensures
            s@ == self.name(),
    {
        match self {
            Errno::EPERM => "EPERM",
            Errno::ENOENT => "ENOENT",
            Errno::ESRCH => "ESRCH",
            Errno::EINTR => "EINTR",
            Errno::EIO => "EIO",
            Errno::ENXIO => "ENXIO",
            Errno::E2BIG => "E2BIG",
            Errno::ENOEXEC => "ENOEXEC",
            Errno::EBADF => "EBADF",
            Errno::ECHILD => "ECHILD",
            Errno::EAGAIN => "EAGAIN",
            Errno::ENOMEM => "ENOMEM",
            Errno::EACCES => "EACCES",
            Errno::EFAULT => "EFAULT",
            Errno::ENOTBLK => "ENOTBLK",
            Errno::EBUSY => "EBUSY",
            Errno::EEXIST => "EEXIST",
            Errno::EXDEV => "EXDEV",
            Errno::ENODEV => "ENODEV",
            Errno::ENOTDIR => "ENOTDIR",
            Errno::EISDIR => "EISDIR",
            Errno::EINVAL => "EINVAL",
            Errno::ENFILE => "ENFILE",
            Errno::EMFILE => "EMFILE",
            Errno::ENOTTY => "ENOTTY",
            Errno::ETXTBSY => "ETXTBSY",
            Errno::EFBIG => "EFBIG",
            Errno::ENOSPC => "ENOSPC",
            Errno::ESPIPE => "ESPIPE",
            Errno::EROFS => "EROFS",
            Errno::EMLINK => "EMLINK",
            Errno::EPIPE => "EPIPE",
            Errno::EDOM => "EDOM",
            Errno::ERANGE => "ERANGE",
            Errno::ENOMSG => "ENOMSG",
            Errno::EDEADLK => "EDEADLK",
            Errno::ENOLCK => "ENOLCK",
            Errno::ENOSTR => "ENOSTR",
            Errno::ENODATA => "ENODATA",
            Errno::ETIME => "ETIME",
            Errno::ENOSR => "ENOSR",
            Errno::EPROTO => "EPROTO",
            Errno::EBADMSG => "EBADMSG",
            Errno::ENOSYS => "ENOSYS",
            Errno::ENOTEMPTY => "ENOTEMPTY",
            Errno::ENAMETOOLONG => "ENAMETOOLONG",
            Errno::ELOOP => "ELOOP",
            Errno::EOPNOTSUPP => "EOPNOTSUPP",
            Errno::EPFNOSUPPORT => "EPFNOSUPPORT",
            Errno::ECONNRESET => "ECONNRESET",
            Errno::ENOBUFS => "ENOBUFS",
            Errno::EAFNOSUPPORT => "EAFNOSUPPORT",
            Errno::EPROTOTYPE => "EPROTOTYPE",
            Errno::ENOTSOCK => "ENOTSOCK",
            Errno::ENOPROTOOPT => "ENOPROTOOPT",
            Errno::ESHUTDOWN => "ESHUTDOWN",
            Errno::ECONNREFUSED => "ECONNREFUSED",
            Errno::EADDRINUSE => "EADDRINUSE",
            Errno::ECONNABORTED => "ECONNABORTED",
            Errno::ENETUNREACH => "ENETUNREACH",
            Errno::ENETDOWN => "ENETDOWN",
            Errno::ETIMEDOUT => "ETIMEDOUT",
            Errno::EHOSTDOWN => "EHOSTDOWN",
            Errno::EHOSTUNREACH => "EHOSTUNREACH",
            Errno::EINPROGRESS => "EINPROGRESS",
            Errno::EALREADY => "EALREADY",
            Errno::EDESTADDRREQ => "EDESTADDRREQ",
            Errno::EMSGSIZE => "EMSGSIZE",
            Errno::EPROTONOSUPPORT => "EPROTONOSUPPORT",
            Errno::ESOCKTNOSUPPORT => "ESOCKTNOSUPPORT",
            Errno::EADDRNOTAVAIL => "EADDRNOTAVAIL",
            Errno::ENETRESET => "ENETRESET",
            Errno::EISCONN => "EISCONN",
            Errno::ENOTCONN => "ENOTCONN",
            Errno::ETOOMANYREFS => "ETOOMANYREFS",
            Errno::ENOTSUP => "ENOTSUP",
            Errno::EILSEQ => "EILSEQ",
            Errno::EOVERFLOW => "EOVERFLOW",
            Errno::ECANCELED => "ECANCELED",
        }
    }

    /// Converts a raw errno error code to a string.
    pub fn errno_to_string(err: i32) -> (s: String)
        ensures
            s@ == Errno::text_of(err as int),
    {
        if err >= 0 {
            return String::from_str("EOK");
        }
        let known: Option<Errno> = if err == i32::MIN {
            None
        } else {
            Errno::from_repr(-err)
        };
        match known {
            Some(e) => String::from_str(e.as_str()),
            None => {
                let mut s = String::from_str("EUNKNOWN(");
                push_signed_decimal(&mut s, err as i64);
                s.append(")");
                s
            },
        }
    }
}

} // verus!
