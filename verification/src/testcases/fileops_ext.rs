use vstd::prelude::*;

use crate::linux::{EINVAL, ENOENT, ENOSYS, FD_CLOEXEC};
use crate::runner::TestStatus;
use crate::verdict::{
    check_errno, check_ret, decide, error, expect_errno, expect_ret, failure, is_error, outcome,
};

verus! {

/// The error of a test whose file could not be created.
pub open spec fn create_failed() -> Seq<char> {
    "failed to create test file"@
}

/// `umask` should return the previous mask, a value of at most 0o777.
pub fn umask_get(previous: i64) -> (s: TestStatus)
    ensures
        s == outcome(0 <= previous <= 0o777, false, failure(0o022, previous, None, None)),
{
    decide(0 <= previous && previous <= 0o777, false, 0o022, previous, None, None)
}

/// Setting the mask to 0o077 and back should return 0o077 the second time.
pub fn umask_roundtrip(got: u32) -> (s: TestStatus)
    ensures
        s == outcome(got == 0o077, false, failure(0o077, got as i64, None, None)),
{
    decide(got == 0o077, false, 0o077, got as i64, None, None)
}

/// `dup3(fd, newfd, 0)` should return `newfd`.
pub fn dup3_basic(open_fd: i32, newfd: i32, ret: i64, errno: i32) -> (s: TestStatus)
    ensures
        open_fd < 0 ==> is_error(s, create_failed()),
        open_fd >= 0 ==> s == expect_ret(ret, errno, newfd as i64),
{
    if open_fd < 0 {
        return error("failed to create test file");
    }
    check_ret(ret, errno, newfd as i64)
}

/// `dup3(fd, newfd, O_CLOEXEC)` should return `newfd` with `FD_CLOEXEC` set
/// in its descriptor flags, as `F_GETFD` reads them; otherwise the test
/// fails with the expected value 1 and the actual value 0.
pub fn dup3_cloexec(open_fd: i32, newfd: i32, ret: i64, errno: i32, fd_flags: i32) -> (s:
    TestStatus)
    ensures
        open_fd < 0 ==> is_error(s, create_failed()),
        open_fd >= 0 && ret == newfd ==> s == outcome(
            fd_flags >= 0 && fd_flags & FD_CLOEXEC != 0,
            false,
            failure(1, 0, None, None),
        ),
        open_fd >= 0 && ret != newfd ==> s == outcome(
            false,
            errno == ENOSYS,
            failure(newfd as i64, ret, None, Some(errno)),
        ),
{
    if open_fd < 0 {
        return error("failed to create test file");
    }
    if ret == newfd as i64 {
        decide(fd_flags >= 0 && fd_flags & FD_CLOEXEC != 0, false, 1, 0, None, None)
    } else {
        decide(false, errno == ENOSYS, newfd as i64, ret, None, Some(errno))
    }
}

/// `dup3(fd, fd, 0)` should fail with EINVAL.
pub fn dup3_same_fd(open_fd: i32, ret: i64, errno: i32) -> (s: TestStatus)
    ensures
        open_fd < 0 ==> is_error(s, create_failed()),
        open_fd >= 0 ==> s == expect_errno(ret, errno, EINVAL),
{
    if open_fd < 0 {
        return error("failed to create test file");
    }
    check_errno(ret, errno, EINVAL)
}

/// `chown` or `fchown` of a new file to the caller's own ids should return 0.
pub fn chown_own_ids(open_fd: i32, ret: i64, errno: i32) -> (s: TestStatus)
    ensures
        open_fd < 0 ==> is_error(s, create_failed()),
        open_fd >= 0 ==> s == expect_ret(ret, errno, 0),
{
    if open_fd < 0 {
        return error("failed to create test file");
    }
    check_ret(ret, errno, 0)
}

/// A call on a path that does not exist (`chown`, `faccessat`, `fstatat`)
/// should fail with ENOENT.
pub fn missing_path(ret: i64, errno: i32) -> (s: TestStatus)
    ensures
        s == expect_errno(ret, errno, ENOENT),
{
    check_errno(ret, errno, ENOENT)
}

/// `fstatat` of a file holding 4 bytes should return 0 and report size 4.
pub fn fstatat_basic(ret: i64, size: i64, errno: i32) -> (s: TestStatus)
    ensures
        s == outcome(ret == 0 && size == 4, errno == ENOSYS, failure(0, ret, None, Some(errno))),
{
    decide(ret == 0 && size == 4, errno == ENOSYS, 0, ret, None, Some(errno))
}

} // verus!
