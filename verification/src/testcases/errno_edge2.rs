use vstd::prelude::*;

use crate::linux::{EBADF, ECHILD, EEXIST, EINVAL, EISDIR, EPERM};
use crate::runner::TestStatus;
use crate::verdict::{
    check_errno, check_errno_either, check_errno_strict, check_ret_strict, decide, error,
    expect_errno, failure, is_error, outcome, require_errno, require_errno_either, require_ret,
};

verus! {

/// An `mmap` of a file at an offset that is not page aligned should fail
/// (`MAP_FAILED`) with EINVAL; the failure reports the address returned.
pub fn mmap_unaligned_offset(open_fd: i32, failed: bool, address: i64, errno: i32) -> (s:
    TestStatus)
    ensures
        open_fd < 0 ==> is_error(s, "open failed"@),
        open_fd >= 0 ==> s == outcome(
            failed && errno == EINVAL,
            false,
            failure(-1i64, address, Some(EINVAL), Some(errno)),
        ),
{
    if open_fd < 0 {
        return error("open failed");
    }
    decide(failed && errno == EINVAL, false, -1, address, Some(EINVAL), Some(errno))
}

/// `munmap` of a mapping with length 0 should fail with EINVAL.
pub fn munmap_zero_length(mapped: bool, ret: i64, errno: i32) -> (s: TestStatus)
    ensures
        !mapped ==> is_error(s, "mmap failed"@),
        mapped ==> s == require_errno(ret, errno, EINVAL),
{
    if !mapped {
        return error("mmap failed");
    }
    check_errno_strict(ret, errno, EINVAL)
}

/// `waitpid` of a process that is not a child should fail with ECHILD.
pub fn waitpid_echild(ret: i64, errno: i32) -> (s: TestStatus)
    ensures
        s == require_errno(ret, errno, ECHILD),
{
    check_errno_strict(ret, errno, ECHILD)
}

/// `mkdir` of an existing directory should fail with EEXIST.
pub fn mkdir_eexist(ret: i32, errno: i32) -> (s: TestStatus)
    ensures
        s == require_errno(ret as i64, errno, EEXIST),
{
    check_errno_strict(ret as i64, errno, EEXIST)
}

/// `rename` of a file onto itself should return 0.
pub fn rename_self(ret: i32, errno: i32) -> (s: TestStatus)
    ensures
        s == require_ret(ret as i64, errno, 0),
{
    check_ret_strict(ret as i64, errno, 0)
}

/// `unlink` of a directory should fail with EISDIR (Linux) or EPERM (POSIX).
pub fn unlink_directory(ret: i32, errno: i32) -> (s: TestStatus)
    ensures
        s == require_errno_either(ret as i64, errno, EISDIR, EPERM),
{
    check_errno_either(ret as i64, errno, EISDIR, EPERM)
}

/// `ftruncate` of a descriptor opened read-only should fail with EINVAL or
/// EBADF.
pub fn ftruncate_readonly(ret: i32, errno: i32) -> (s: TestStatus)
    ensures
        s == require_errno_either(ret as i64, errno, EINVAL, EBADF),
{
    check_errno_either(ret as i64, errno, EINVAL, EBADF)
}

/// `pipe2` with unknown flags should fail with EINVAL.
pub fn pipe2_invalid_flags(ret: i32, errno: i32) -> (s: TestStatus)
    ensures
        s == expect_errno(ret as i64, errno, EINVAL),
{
    check_errno(ret as i64, errno, EINVAL)
}

/// `dup2(fd, fd)` should return `fd`.
pub fn dup2_self(open_fd: i32, ret: i32, errno: i32) -> (s: TestStatus)
    ensures
        open_fd < 0 ==> is_error(s, "open failed"@),
        open_fd >= 0 ==> s == require_ret(ret as i64, errno, open_fd as i64),
{
    if open_fd < 0 {
        return error("open failed");
    }
    check_ret_strict(ret as i64, errno, open_fd as i64)
}

} // verus!
