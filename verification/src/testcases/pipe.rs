use vstd::prelude::*;

use crate::linux::{EAGAIN, ENOSYS, EWOULDBLOCK, FD_CLOEXEC, O_NONBLOCK};
use crate::runner::TestStatus;
use crate::verdict::{bytes_equal, decide, error, failure, is_error, outcome};

verus! {

/// `pipe` should create two descriptors that carry `sent` from the write end
/// to the read end: the write and the read both take all of it and the bytes
/// read are the bytes written.
pub fn pipe_basic(
    ret: i32,
    errno: i32,
    written: i64,
    read: i64,
    sent: &[u8],
    received: &[u8],
) -> (s: TestStatus)
    requires
        sent@.len() <= i64::MAX,
    ensures
        ret != 0 ==> s == outcome(false, errno == ENOSYS, failure(0, ret as i64, None, Some(errno))),
        ret == 0 ==> s == outcome(
            written == sent@.len() && read == sent@.len() && received@ == sent@,
            false,
            failure(sent@.len() as i64, read, None, None),
        ),
{
    if ret != 0 {
        return decide(false, errno == ENOSYS, 0, ret as i64, None, Some(errno));
    }
    let len = sent.len() as i64;
    let same = bytes_equal(received, sent);
    decide(written == len && read == len && same, false, len, read, None, None)
}

/// A read from a pipe whose write end is closed should return 0 (end of
/// file).
pub fn pipe_read_eof(ret: i32, read: i64) -> (s: TestStatus)
    ensures
        ret != 0 ==> is_error(s, "pipe failed"@),
        ret == 0 ==> s == outcome(read == 0, false, failure(0, read, None, None)),
{
    if ret != 0 {
        return error("pipe failed");
    }
    decide(read == 0, false, 0, read, None, None)
}

/// `pipe2(O_CLOEXEC)` should set the close-on-exec flag on both ends, as
/// `F_GETFD` reads them.
pub fn pipe2_cloexec(ret: i32, errno: i32, read_end_flags: i32, write_end_flags: i32) -> (s:
    TestStatus)
    ensures
        ret != 0 ==> s == outcome(false, errno == ENOSYS, failure(0, ret as i64, None, Some(errno))),
        ret == 0 ==> s == outcome(
            read_end_flags >= 0 && (read_end_flags & FD_CLOEXEC) != 0 && write_end_flags >= 0
                && (write_end_flags & FD_CLOEXEC) != 0,
            false,
            failure(FD_CLOEXEC as i64, read_end_flags as i64, None, None),
        ),
{
    if ret != 0 {
        return decide(false, errno == ENOSYS, 0, ret as i64, None, Some(errno));
    }
    decide(
        read_end_flags >= 0 && (read_end_flags & FD_CLOEXEC) != 0 && write_end_flags >= 0
                && (write_end_flags & FD_CLOEXEC) != 0,
        false,
        FD_CLOEXEC as i64,
        read_end_flags as i64,
        None,
        None,
    )
}

/// `fcntl(1, F_GETFD)` should return non-negative flags.
pub fn fcntl_get_fd_flags(ret: i64, errno: i32) -> (s: TestStatus)
    ensures
        s == outcome(ret >= 0, errno == ENOSYS, failure(0, ret, None, Some(errno))),
{
    decide(ret >= 0, errno == ENOSYS, 0, ret, None, Some(errno))
}

/// `fcntl(F_SETFL, O_NONBLOCK)` on a pipe end should return 0, and
/// `F_GETFL` should then show `O_NONBLOCK`.
pub fn fcntl_set_nonblock(pipe_ret: i32, ret: i32, errno: i32, flags: i32) -> (s: TestStatus)
    ensures
        pipe_ret != 0 ==> is_error(s, "pipe failed"@),
        pipe_ret == 0 ==> s == outcome(
            ret == 0 && (flags & O_NONBLOCK) != 0,
            errno == ENOSYS,
            failure(0, ret as i64, None, Some(errno)),
        ),
{
    if pipe_ret != 0 {
        return error("pipe failed");
    }
    decide(ret == 0 && (flags & O_NONBLOCK) != 0, errno == ENOSYS, 0, ret as i64, None, Some(errno))
}

/// A read from an empty non-blocking pipe should fail with EAGAIN
/// (EWOULDBLOCK).
pub fn read_nonblock_eagain(pipe_ret: i32, ret: i64, errno: i32) -> (s: TestStatus)
    ensures
        pipe_ret != 0 ==> is_error(s, "pipe failed"@),
        pipe_ret == 0 ==> s == outcome(
            ret == -1 && (errno == EAGAIN || errno == EWOULDBLOCK),
            errno == ENOSYS,
            failure(-1i64, ret, Some(EAGAIN), Some(errno)),
        ),
{
    if pipe_ret != 0 {
        return error("pipe failed");
    }
    decide(
        ret == -1 && (errno == EAGAIN || errno == EWOULDBLOCK),
        errno == ENOSYS,
        -1,
        ret,
        Some(EAGAIN),
        Some(errno),
    )
}

} // verus!
