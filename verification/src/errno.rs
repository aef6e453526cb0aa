//! Error numbers of the Linux kernel that decisions depend on, and their names.

use vstd::prelude::*;
use crate::number::{dec_i64, int_text};
use crate::text::cat;

verus! {

pub const EPERM: i32 = 1;

pub const ENOENT: i32 = 2;

pub const EINTR: i32 = 4;

pub const EBADF: i32 = 9;

pub const EAGAIN: i32 = 11;

pub const EACCES: i32 = 13;

pub const EINVAL: i32 = 22;

pub const EROFS: i32 = 30;

pub const ENOSYS: i32 = 38;

pub const EPROTONOSUPPORT: i32 = 93;

pub const EOPNOTSUPP: i32 = 95;

pub const EINPROGRESS: i32 = 115;

/// The name of an error number that a clone probe may document.
pub open spec fn errno_text(errno: i32) -> Seq<char> {
    if errno == EACCES {
        "EACCES"@
    } else if errno == EBADF {
        "EBADF"@
    } else if errno == EINVAL {
        "EINVAL"@
    } else if errno == ENOENT {
        "ENOENT"@
    } else if errno == ENOSYS {
        "ENOSYS"@
    } else if errno == EOPNOTSUPP {
        "EOPNOTSUPP"@
    } else if errno == EPERM {
        "EPERM"@
    } else if errno == EROFS {
        "EROFS"@
    } else {
        "errno="@ + int_text(errno as int)
    }
}

/// The name of an error number, or the number itself where it has no name here.
pub fn errno_name(errno: i32) -> (r: String)
    ensures
        r@ == errno_text(errno),
{
    if errno == EACCES {
        "EACCES".to_string()
    } else if errno == EBADF {
        "EBADF".to_string()
    } else if errno == EINVAL {
        "EINVAL".to_string()
    } else if errno == ENOENT {
        "ENOENT".to_string()
    } else if errno == ENOSYS {
        "ENOSYS".to_string()
    } else if errno == EOPNOTSUPP {
        "EOPNOTSUPP".to_string()
    } else if errno == EPERM {
        "EPERM".to_string()
    } else if errno == EROFS {
        "EROFS".to_string()
    } else {
        let n = dec_i64(errno as i64);
        cat("errno=", n.as_str())
    }
}

/// The name of the last error number, taken as zero where there is none.
pub fn last_errno_name(last: Option<i32>) -> (r: String)
    ensures
        r@ == errno_text(
            match last {
                Some(e) => e,
                None => 0i32,
            },
        ),
{
    match last {
        Some(e) => errno_name(e),
        None => errno_name(0),
    }
}

/// The numbers that have a name, by what the kernel means by them; any other is shown as a
/// number.
pub proof fn law_errno_names(errno: i32)
    ensures
        errno_text(1) == "EPERM"@,
        errno_text(2) == "ENOENT"@,
        errno_text(9) == "EBADF"@,
        errno_text(13) == "EACCES"@,
        errno_text(22) == "EINVAL"@,
        errno_text(30) == "EROFS"@,
        errno_text(38) == "ENOSYS"@,
        errno_text(95) == "EOPNOTSUPP"@,
        errno != 1 && errno != 2 && errno != 9 && errno != 13 && errno != 22 && errno != 30
            && errno != 38 && errno != 95 ==> errno_text(errno) == "errno="@ + int_text(
            errno as int,
        ),
        EINTR == 4,
        EAGAIN == 11,
        EPROTONOSUPPORT == 93,
        EINPROGRESS == 115,
{
}

} // verus!
