use vstd::prelude::*;

use crate::linux::{AF_INET, EAFNOSUPPORT, EINVAL, ENOSYS};
use crate::runner::TestStatus;
use crate::verdict::{bytes_equal, check_ret, decide, error, expect_ret, failure, is_error, outcome};

verus! {

/// A `socket` call that should return a descriptor.
pub fn socket_created(fd: i32, errno: i32) -> (s: TestStatus)
    ensures
        s == outcome(fd >= 0, errno == ENOSYS, failure(3, fd as i64, None, Some(errno))),
{
    decide(fd >= 0, errno == ENOSYS, 3, fd as i64, None, Some(errno))
}

/// `socket(999, SOCK_STREAM, 0)` should fail with EINVAL or EAFNOSUPPORT.
pub fn socket_invalid_domain(fd: i64, errno: i32) -> (s: TestStatus)
    ensures
        s == outcome(
            fd == -1 && (errno == EINVAL || errno == EAFNOSUPPORT),
            errno == ENOSYS,
            failure(-1i64, fd, Some(EAFNOSUPPORT), Some(errno)),
        ),
{
    decide(
        fd == -1 && (errno == EINVAL || errno == EAFNOSUPPORT),
        errno == ENOSYS,
        -1,
        fd,
        Some(EAFNOSUPPORT),
        Some(errno),
    )
}

/// A call on a new TCP socket (`bind`, `listen`, `setsockopt`) that should
/// return 0; a socket that cannot be created is a test error.
pub fn socket_call_succeeds(fd: i32, ret: i32, errno: i32) -> (s: TestStatus)
    ensures
        fd < 0 ==> is_error(s, "socket failed"@),
        fd >= 0 ==> s == expect_ret(ret as i64, errno, 0),
{
    if fd < 0 {
        return error("socket failed");
    }
    check_ret(ret as i64, errno, 0)
}

/// `getsockname` after binding should return 0 and an IPv4 address.
pub fn getsockname_bound(fd: i32, ret: i32, family: u16, errno: i32) -> (s: TestStatus)
    ensures
        fd < 0 ==> is_error(s, "socket failed"@),
        fd >= 0 ==> s == outcome(
            ret == 0 && family == AF_INET,
            errno == ENOSYS,
            failure(0, ret as i64, None, Some(errno)),
        ),
{
    if fd < 0 {
        return error("socket failed");
    }
    decide(ret == 0 && family == AF_INET, errno == ENOSYS, 0, ret as i64, None, Some(errno))
}

/// A loopback connection: the server socket must be created, bound and
/// listening (else a test error), a `fork` that fails counts as
/// unimplemented, and the accepted connection should receive exactly
/// `expected` (3 bytes) from the child.
pub fn loopback_connect_accept(
    server_fd: i32,
    bind_ret: i32,
    listen_ret: i32,
    fork_pid: i32,
    received_len: i64,
    received: &[u8],
    expected: &[u8],
) -> (s: TestStatus)
    requires
        expected@.len() <= i64::MAX,
    ensures
        server_fd < 0 ==> is_error(s, "socket failed"@),
        server_fd >= 0 && bind_ret != 0 ==> is_error(s, "bind failed"@),
        server_fd >= 0 && bind_ret == 0 && listen_ret != 0 ==> is_error(s, "listen failed"@),
        server_fd >= 0 && bind_ret == 0 && listen_ret == 0 && fork_pid < 0 ==> s
            == TestStatus::Unimplemented,
        server_fd >= 0 && bind_ret == 0 && listen_ret == 0 && fork_pid >= 0 ==> s == outcome(
            received_len == expected@.len() && received@ == expected@,
            false,
            failure(expected@.len() as i64, received_len, None, None),
        ),
{
    if server_fd < 0 {
        return error("socket failed");
    }
    if bind_ret != 0 {
        return error("bind failed");
    }
    if listen_ret != 0 {
        return error("listen failed");
    }
    if fork_pid < 0 {
        return TestStatus::Unimplemented;
    }
    let len = expected.len() as i64;
    let same = bytes_equal(received, expected);
    decide(received_len == len && same, false, len, received_len, None, None)
}

} // verus!
