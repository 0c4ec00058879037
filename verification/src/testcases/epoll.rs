use vstd::prelude::*;

use crate::linux::{EBADF, EEXIST, ENOSYS, EPOLLIN, EPOLLOUT, FD_CLOEXEC};
use crate::runner::TestStatus;
use crate::verdict::{check_errno, check_ret, decide, expect_errno, expect_ret, failure, outcome};

verus! {

/// `epoll_create1(0)` should return a descriptor.
pub fn create1_basic(ret: i64, errno: i32) -> (s: TestStatus)
    ensures
        s == outcome(ret >= 0, errno == ENOSYS, failure(0, ret, None, Some(errno))),
{
    decide(ret >= 0, errno == ENOSYS, 0, ret, None, Some(errno))
}

/// `epoll_create1(EPOLL_CLOEXEC)` should return a descriptor whose
/// descriptor flags (`F_GETFD`, read only when one was returned) were read
/// and have the close-on-exec bit.
pub fn create1_cloexec(ret: i64, errno: i32, fd_flags: i32) -> (s: TestStatus)
    ensures
        ret >= 0 ==> s == outcome(
            fd_flags >= 0 && (fd_flags & FD_CLOEXEC) != 0,
            false,
            failure(1, 0, None, None),
        ),
        ret < 0 ==> s == outcome(false, errno == ENOSYS, failure(0, ret, None, Some(errno))),
{
    if ret >= 0 {
        decide(fd_flags >= 0 && (fd_flags & FD_CLOEXEC) != 0, false, 1, 0, None, None)
    } else {
        decide(false, errno == ENOSYS, 0, ret, None, Some(errno))
    }
}

/// An epoll call that should return 0: `epoll_ctl` with `EPOLL_CTL_ADD`,
/// `EPOLL_CTL_DEL` or `EPOLL_CTL_MOD` on a pipe end, and `epoll_wait` with a
/// zero timeout and nothing ready.
pub fn call_returns_zero(ret: i64, errno: i32) -> (s: TestStatus)
    ensures
        s == expect_ret(ret, errno, 0),
{
    check_ret(ret, errno, 0)
}

/// `epoll_ctl(EPOLL_CTL_ADD)` of an invalid descriptor should fail with
/// EBADF.
pub fn ctl_bad_fd(ret: i64, errno: i32) -> (s: TestStatus)
    ensures
        s == expect_errno(ret, errno, EBADF),
{
    check_errno(ret, errno, EBADF)
}

/// `epoll_ctl(EPOLL_CTL_ADD)` of a descriptor already added should fail with
/// EEXIST.
pub fn ctl_duplicate(ret: i64, errno: i32) -> (s: TestStatus)
    ensures
        s == expect_errno(ret, errno, EEXIST),
{
    check_errno(ret, errno, EEXIST)
}

/// `epoll_wait` on a pipe holding data should return one event, with
/// `EPOLLIN` in the first event's mask.
pub fn wait_ready(ret: i64, first_events: u32, errno: i32) -> (s: TestStatus)
    ensures
        s == outcome(
            ret == 1 && (first_events & EPOLLIN) != 0,
            errno == ENOSYS,
            failure(1, ret, None, Some(errno)),
        ),
{
    decide(ret == 1 && (first_events & EPOLLIN) != 0, errno == ENOSYS, 1, ret, None, Some(errno))
}

/// `epoll_wait` on a writable pipe end should return at least one event,
/// with `EPOLLOUT` in the first event's mask.
pub fn wait_epollout(ret: i64, first_events: u32, errno: i32) -> (s: TestStatus)
    ensures
        s == outcome(
            ret >= 1 && (first_events & EPOLLOUT) != 0,
            errno == ENOSYS,
            failure(1, ret, None, Some(errno)),
        ),
{
    decide(ret >= 1 && (first_events & EPOLLOUT) != 0, errno == ENOSYS, 1, ret, None, Some(errno))
}

} // verus!
