use vstd::prelude::*;

use crate::linux::{EINVAL, ENOSYS, ENOTTY, FD_CLOEXEC, F_RDLCK, O_ACCMODE, O_NONBLOCK, O_RDONLY};
use crate::runner::TestStatus;
use crate::verdict::{check_errno, check_ret, decide, error, expect_errno, expect_ret, failure, is_error, outcome};

verus! {

/// `fcntl(F_SETLK, F_RDLCK)` of a region of an open file should return 0,
/// and the lock should then be held: `held` is the lock type that
/// `F_GETLK` reports to another process asking for a write lock on the
/// region, which must be `F_RDLCK`; otherwise the test fails with that
/// type against `F_RDLCK`.
pub fn setlk_read(open_fd: i32, ret: i32, errno: i32, held: i32) -> (s: TestStatus)
    ensures
        open_fd < 0 ==> is_error(s, "open failed"@),
        open_fd >= 0 && ret != 0 ==> s == outcome(false, errno == ENOSYS, failure(0, ret as i64, None, Some(errno))),
        open_fd >= 0 && ret == 0 ==> s == outcome(
            held == F_RDLCK,
            false,
            failure(F_RDLCK as i64, held as i64, None, None),
        ),
{
    if open_fd < 0 {
        return error("open failed");
    }
    if ret != 0 {
        return decide(false, errno == ENOSYS, 0, ret as i64, None, Some(errno));
    }
    decide(held == F_RDLCK, false, F_RDLCK as i64, held as i64, None, None)
}

/// `fcntl(F_SETLK, F_WRLCK)` of a region of an open file should return 0.
pub fn setlk(open_fd: i32, ret: i32, errno: i32) -> (s: TestStatus)
    ensures
        open_fd < 0 ==> is_error(s, "open failed"@),
        open_fd >= 0 ==> s == expect_ret(ret as i64, errno, 0),
{
    if open_fd < 0 {
        return error("open failed");
    }
    check_ret(ret as i64, errno, 0)
}

/// `fcntl(F_GETFL)` of a file opened read-only should report the read-only
/// access mode.
pub fn getfl_flags(open_fd: i32, flags: i32, errno: i32) -> (s: TestStatus)
    ensures
        open_fd < 0 ==> is_error(s, "open failed"@),
        open_fd >= 0 ==> s == outcome(
            flags >= 0 && (flags & O_ACCMODE) == O_RDONLY,
            errno == ENOSYS,
            failure(O_RDONLY as i64, (flags & O_ACCMODE) as i64, None, Some(errno)),
        ),
{
    if open_fd < 0 {
        return error("open failed");
    }
    decide(
        flags >= 0 && (flags & O_ACCMODE) == O_RDONLY,
        errno == ENOSYS,
        O_RDONLY as i64,
        (flags & O_ACCMODE) as i64,
        None,
        Some(errno),
    )
}

/// `fcntl(F_SETFL)` adding `O_NONBLOCK` should return 0, and the next
/// `F_GETFL` should show it.
pub fn setfl_add_nonblock(open_fd: i32, ret: i32, new_flags: i32, errno: i32) -> (s: TestStatus)
    ensures
        open_fd < 0 ==> is_error(s, "open failed"@),
        open_fd >= 0 ==> s == outcome(
            ret == 0 && (new_flags & O_NONBLOCK) != 0,
            errno == ENOSYS,
            failure(0, ret as i64, None, Some(errno)),
        ),
{
    if open_fd < 0 {
        return error("open failed");
    }
    decide(ret == 0 && (new_flags & O_NONBLOCK) != 0, errno == ENOSYS, 0, ret as i64, None, Some(errno))
}

/// `fcntl(F_DUPFD_CLOEXEC)` should return a descriptor with the
/// close-on-exec bit set.
pub fn dupfd_cloexec(open_fd: i32, newfd: i32, cloexec_set: bool, errno: i32) -> (s: TestStatus)
    ensures
        open_fd < 0 ==> is_error(s, "open failed"@),
        open_fd >= 0 ==> s == outcome(
            newfd >= 0 && cloexec_set,
            errno == ENOSYS,
            failure(1, newfd as i64, None, Some(errno)),
        ),
{
    if open_fd < 0 {
        return error("open failed");
    }
    decide(newfd >= 0 && cloexec_set, errno == ENOSYS, 1, newfd as i64, None, Some(errno))
}

/// `ioctl(TIOCGPGRP)` on a pipe should fail with ENOTTY.
pub fn ioctl_tiocgpgrp(pipe_ret: i32, ret: i32, errno: i32) -> (s: TestStatus)
    ensures
        pipe_ret != 0 ==> is_error(s, "pipe failed"@),
        pipe_ret == 0 ==> s == expect_errno(ret as i64, errno, ENOTTY),
{
    if pipe_ret != 0 {
        return error("pipe failed");
    }
    check_errno(ret as i64, errno, ENOTTY)
}

/// `isatty` on a pipe should return 0.
pub fn isatty_pipe(pipe_ret: i32, ret: i32) -> (s: TestStatus)
    ensures
        pipe_ret != 0 ==> is_error(s, "pipe failed"@),
        pipe_ret == 0 ==> s == outcome(ret == 0, false, failure(0, ret as i64, None, None)),
{
    if pipe_ret != 0 {
        return error("pipe failed");
    }
    decide(ret == 0, false, 0, ret as i64, None, None)
}

/// `open(O_SYNC)` should return a descriptor.
pub fn open_osync(fd: i32, errno: i32) -> (s: TestStatus)
    ensures
        s == outcome(fd >= 0, errno == ENOSYS, failure(3, fd as i64, None, Some(errno))),
{
    decide(fd >= 0, errno == ENOSYS, 3, fd as i64, None, Some(errno))
}

/// `open(O_DIRECT)` should return a descriptor; a file system that refuses
/// the flag with EINVAL counts as not implementing it.
pub fn open_odirect(fd: i32, errno: i32) -> (s: TestStatus)
    ensures
        s == outcome(
            fd >= 0,
            errno == ENOSYS || errno == EINVAL,
            failure(3, fd as i64, None, Some(errno)),
        ),
{
    decide(fd >= 0, errno == ENOSYS || errno == EINVAL, 3, fd as i64, None, Some(errno))
}

/// `ioctl(FIOCLEX)` should set the close-on-exec bit and `ioctl(FIONCLEX)`
/// clear it again, both returning 0.
pub fn ioctl_fioclex(
    open_fd: i32,
    set_ret: i32,
    flags_after_set: i32,
    clear_ret: i32,
    flags_after_clear: i32,
    errno: i32,
) -> (s: TestStatus)
    ensures
        open_fd < 0 ==> is_error(s, "open failed"@),
        open_fd >= 0 ==> s == outcome(
            set_ret == 0 && clear_ret == 0 && (flags_after_set & FD_CLOEXEC) != 0 && (
            flags_after_clear & FD_CLOEXEC) == 0,
            errno == ENOSYS,
            failure(0, set_ret as i64, None, Some(errno)),
        ),
{
    if open_fd < 0 {
        return error("open failed");
    }
    decide(
        set_ret == 0 && clear_ret == 0 && (flags_after_set & FD_CLOEXEC) != 0 && (flags_after_clear
            & FD_CLOEXEC) == 0,
        errno == ENOSYS,
        0,
        set_ret as i64,
        None,
        Some(errno),
    )
}

} // verus!
