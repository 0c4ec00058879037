use vstd::prelude::*;

use crate::linux::{AF_INET, ENOSYS};
use crate::runner::TestStatus;
use crate::verdict::{bytes_equal, decide, error, failure, is_error, outcome};

verus! {

/// A UDP `sendto` of `msg` to a socket bound on the loopback address, then
/// `recvfrom` on that socket: both should move `msg@.len()` bytes, and the
/// bytes received (`buf`) should be `msg`; a failure reports the count
/// received. A server socket that cannot be created counts as not
/// implemented.
pub fn udp_sendto_recvfrom(server_fd: i32, sent: i64, received: i64, msg: &[u8], buf: &[u8], errno: i32)
    -> (s: TestStatus)
    requires
        msg@.len() <= i64::MAX,
    ensures
        server_fd < 0 ==> s == TestStatus::Unimplemented,
        server_fd >= 0 ==> s == outcome(
            sent == msg@.len() && received == msg@.len() && buf@ == msg@,
            errno == ENOSYS,
            failure(msg@.len() as i64, received, None, Some(errno)),
        ),
{
    if server_fd < 0 {
        return TestStatus::Unimplemented;
    }
    let n = msg.len() as i64;
    let same = bytes_equal(buf, msg);
    decide(sent == n && received == n && same, errno == ENOSYS, n, received, None, Some(errno))
}

/// A forked child connects to a listening Unix stream socket and sends
/// `expected`; the accepted connection should receive exactly those bytes
/// (`buf`, the first `expected@.len()` bytes read). A server socket or child
/// that cannot be created counts as not implemented; a failing `bind` is a
/// test error.
pub fn unix_stream_roundtrip(server_fd: i32, bind_ret: i32, fork_pid: i32, received: i64, buf: &[u8], expected: &[u8])
    -> (s: TestStatus)
    requires
        expected@.len() <= i64::MAX,
    ensures
        server_fd < 0 ==> s == TestStatus::Unimplemented,
        server_fd >= 0 && bind_ret != 0 ==> is_error(s, "bind failed"@),
        server_fd >= 0 && bind_ret == 0 && fork_pid < 0 ==> s == TestStatus::Unimplemented,
        server_fd >= 0 && bind_ret == 0 && fork_pid >= 0 ==> s == outcome(
            received == expected@.len() && buf@ == expected@,
            false,
            failure(expected@.len() as i64, received, None, None),
        ),
{
    if server_fd < 0 {
        return TestStatus::Unimplemented;
    }
    if bind_ret != 0 {
        return error("bind failed");
    }
    if fork_pid < 0 {
        return TestStatus::Unimplemented;
    }
    let n = expected.len() as i64;
    let same = bytes_equal(buf, expected);
    decide(received == n && same, false, n, received, None, None)
}

/// On a connection accepted from a forked child on the loopback address,
/// `getpeername` should return 0 with an IPv4 address. A server socket or
/// child that cannot be created counts as not implemented.
pub fn getpeername_inet(server_fd: i32, fork_pid: i32, ret: i32, family: u16, errno: i32) -> (s:
    TestStatus)
    ensures
        server_fd < 0 || fork_pid < 0 ==> s == TestStatus::Unimplemented,
        server_fd >= 0 && fork_pid >= 0 ==> s == outcome(
            ret == 0 && family == AF_INET,
            errno == ENOSYS,
            failure(0, ret as i64, None, Some(errno)),
        ),
{
    if server_fd < 0 || fork_pid < 0 {
        return TestStatus::Unimplemented;
    }
    decide(ret == 0 && family == AF_INET, errno == ENOSYS, 0, ret as i64, None, Some(errno))
}

} // verus!
