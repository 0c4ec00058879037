use vstd::prelude::*;

use crate::linux::{ENOSYS, EPOLLIN};
use crate::runner::TestStatus;
use crate::verdict::{check_ret, decide, error, expect_ret, failure, is_error, outcome};

verus! {

/// `poll` of one descriptor with a zero timeout should return 1 with a
/// `wanted` event reported (`POLLOUT` on a pipe's write end, `POLLIN` on a
/// read end holding data, `POLLNVAL` on a descriptor that is not open).
pub fn poll_reports(pipe_ok: bool, ret: i32, revents: i16, wanted: i16, errno: i32) -> (s:
    TestStatus)
    ensures
        !pipe_ok ==> is_error(s, "pipe failed"@),
        pipe_ok ==> s == outcome(
            ret == 1 && revents & wanted != 0,
            errno == ENOSYS,
            failure(1, ret as i64, None, Some(errno)),
        ),
{
    if !pipe_ok {
        return error("pipe failed");
    }
    decide(ret == 1 && revents & wanted != 0, errno == ENOSYS, 1, ret as i64, None, Some(errno))
}

/// `poll` or `select` with a zero timeout should return `ready`, the number
/// of descriptors ready: 0 for the read end of an empty pipe, 1 for a write
/// end.
pub fn ready_count(pipe_ok: bool, ret: i32, ready: i64, errno: i32) -> (s: TestStatus)
    ensures
        !pipe_ok ==> is_error(s, "pipe failed"@),
        pipe_ok ==> s == expect_ret(ret as i64, errno, ready),
{
    if !pipe_ok {
        return error("pipe failed");
    }
    check_ret(ret as i64, errno, ready)
}

/// After data is written to a pipe whose read end an epoll instance watches,
/// `epoll_wait` should return 1 event with `EPOLLIN`. An instance that
/// cannot be created counts as not implemented.
pub fn epoll_wait_after_write(epfd: i32, pipe_ok: bool, ret: i32, first_events: u32, errno: i32)
    -> (s: TestStatus)
    ensures
        epfd < 0 ==> s == TestStatus::Unimplemented,
        epfd >= 0 && !pipe_ok ==> is_error(s, "pipe failed"@),
        epfd >= 0 && pipe_ok ==> s == outcome(
            ret == 1 && first_events & EPOLLIN != 0,
            errno == ENOSYS,
            failure(1, ret as i64, None, Some(errno)),
        ),
{
    if epfd < 0 {
        return TestStatus::Unimplemented;
    }
    if !pipe_ok {
        return error("pipe failed");
    }
    decide(ret == 1 && first_events & EPOLLIN != 0, errno == ENOSYS, 1, ret as i64, None, Some(errno))
}

/// After `epoll_ctl(EPOLL_CTL_DEL)` of a watched pipe end (which should
/// return 0), a write to the pipe should leave `epoll_wait` with 0 events;
/// a failure reports the `epoll_ctl` result. An instance that cannot be
/// created counts as not implemented.
pub fn epoll_del_quiet(epfd: i32, pipe_ok: bool, del_ret: i32, waited: i32, errno: i32) -> (s:
    TestStatus)
    ensures
        epfd < 0 ==> s == TestStatus::Unimplemented,
        epfd >= 0 && !pipe_ok ==> is_error(s, "pipe failed"@),
        epfd >= 0 && pipe_ok ==> s == outcome(
            del_ret == 0 && waited == 0,
            errno == ENOSYS,
            failure(0, del_ret as i64, None, Some(errno)),
        ),
{
    if epfd < 0 {
        return TestStatus::Unimplemented;
    }
    if !pipe_ok {
        return error("pipe failed");
    }
    decide(del_ret == 0 && waited == 0, errno == ENOSYS, 0, del_ret as i64, None, Some(errno))
}

} // verus!
