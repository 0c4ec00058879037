use vstd::prelude::*;

use crate::linux::{ENOSYS, O_NONBLOCK};
use crate::runner::TestStatus;
use crate::verdict::{bytes_equal, decide, failure, outcome};

verus! {

/// `sendmsg` of two buffers making up `expected` on one end of a Unix
/// stream socket pair, then `recvmsg` into one buffer on the other end:
/// both should move `expected@.len()` bytes and the buffer (`buf`) should
/// hold `expected`; a failure reports the count received. A pair that
/// cannot be created counts as not implemented.
pub fn sendmsg_recvmsg(pair_ret: i32, sent: i64, received: i64, buf: &[u8], expected: &[u8], errno: i32)
    -> (s: TestStatus)
    requires
        expected@.len() <= i64::MAX,
    ensures
        pair_ret != 0 ==> s == TestStatus::Unimplemented,
        pair_ret == 0 ==> s == outcome(
            sent == expected@.len() && received == expected@.len() && buf@ == expected@,
            errno == ENOSYS,
            failure(expected@.len() as i64, received, None, Some(errno)),
        ),
{
    if pair_ret != 0 {
        return TestStatus::Unimplemented;
    }
    let n = expected.len() as i64;
    let same = bytes_equal(buf, expected);
    decide(sent == n && received == n && same, errno == ENOSYS, n, received, None, Some(errno))
}

/// `accept4(SOCK_NONBLOCK)` of a connection from a forked child should
/// return a descriptor whose file status flags (`F_GETFL`) have
/// `O_NONBLOCK`. A server socket or child that cannot be created counts as
/// not implemented.
pub fn accept4_nonblock(server_fd: i32, fork_pid: i32, conn: i32, flags: i32, errno: i32) -> (s:
    TestStatus)
    ensures
        server_fd < 0 || fork_pid < 0 ==> s == TestStatus::Unimplemented,
        server_fd >= 0 && fork_pid >= 0 ==> s == outcome(
            conn >= 0 && (flags & O_NONBLOCK) != 0,
            errno == ENOSYS,
            failure(1, conn as i64, None, Some(errno)),
        ),
{
    if server_fd < 0 || fork_pid < 0 {
        return TestStatus::Unimplemented;
    }
    decide(conn >= 0 && (flags & O_NONBLOCK) != 0, errno == ENOSYS, 1, conn as i64, None, Some(errno))
}

} // verus!
