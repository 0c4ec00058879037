use vstd::prelude::*;

use crate::linux::ENOSYS;
use crate::runner::TestStatus;
use crate::verdict::{bytes_equal, decide, error, failure, is_error, outcome};

verus! {

/// `tee` of the `msg` written to one pipe into another should return its
/// length, after which a read of 8 bytes from each pipe returns 8 bytes, the
/// same in both and equal to `msg`.
pub fn tee_basic(
    pipes_ok: bool,
    ret: i64,
    msg: &[u8],
    first_read: i64,
    first: &[u8],
    second_read: i64,
    second: &[u8],
    errno: i32,
) -> (s: TestStatus)
    requires
        msg@.len() <= i64::MAX,
    ensures
        !pipes_ok ==> is_error(s, "pipe failed"@),
        pipes_ok ==> s == outcome(
            ret == msg@.len() && first_read == 8 && second_read == 8 && first@ == second@
                && first@ == msg@,
            errno == ENOSYS,
            failure(msg@.len() as i64, ret, None, Some(errno)),
        ),
{
    if !pipes_ok {
        return error("pipe failed");
    }
    let n = msg.len() as i64;
    let same = bytes_equal(first, second);
    let expected = bytes_equal(first, msg);
    decide(
        ret == n && first_read == 8 && second_read == 8 && same && expected,
        errno == ENOSYS,
        n,
        ret,
        None,
        Some(errno),
    )
}

/// `vmsplice` of `data` into a pipe should return its length, after which a
/// read returns the same bytes.
pub fn vmsplice_basic(pipe_ok: bool, ret: i64, data: &[u8], read: i64, buf: &[u8], errno: i32) -> (s:
    TestStatus)
    requires
        data@.len() <= i64::MAX,
    ensures
        !pipe_ok ==> is_error(s, "pipe failed"@),
        pipe_ok ==> s == outcome(
            ret == data@.len() && read == data@.len() && buf@ == data@,
            errno == ENOSYS,
            failure(data@.len() as i64, ret, None, Some(errno)),
        ),
{
    if !pipe_ok {
        return error("pipe failed");
    }
    let n = data.len() as i64;
    let same = bytes_equal(buf, data);
    decide(ret == n && read == n && same, errno == ENOSYS, n, ret, None, Some(errno))
}

/// Whether every byte of `buf` is `b`.
pub open spec fn all_bytes(buf: Seq<u8>, b: u8) -> bool {
    forall|i: int| 0 <= i < buf.len() ==> buf[i] == b
}

fn every_byte_is(buf: &[u8], b: u8) -> (r: bool)
    ensures
        r == all_bytes(buf@, b),
{
    let mut i: usize = 0;
    while i < buf.len()
        invariant
            i <= buf.len(),
            forall|j: int| 0 <= j < i ==> buf@[j] == b,
        decreases buf.len() - i,
    {
        if buf[i] != b {
            return false;
        }
        i = i + 1;
    }
    true
}

/// A write of 4096 bytes of 0xAB (at most `PIPE_BUF`) into a pipe should be
/// written whole, and a read should return all 4096 bytes, each 0xAB.
pub fn pipe_buf_atomic(pipe_ok: bool, written: i64, read: i64, buf: &[u8]) -> (s: TestStatus)
    ensures
        !pipe_ok ==> is_error(s, "pipe failed"@),
        pipe_ok ==> s == outcome(
            written == 4096 && read == 4096 && all_bytes(buf@, 0xABu8),
            false,
            failure(4096, written, None, None),
        ),
{
    if !pipe_ok {
        return error("pipe failed");
    }
    let filled = every_byte_is(buf, 0xABu8);
    decide(written == 4096 && read == 4096 && filled, false, 4096, written, None, None)
}

/// `fcntl(fd, F_DUPFD, 100)` should return a descriptor of at least 100.
pub fn fcntl_dupfd(open_fd: i32, ret: i32, errno: i32) -> (s: TestStatus)
    ensures
        open_fd < 0 ==> is_error(s, "open failed"@),
        open_fd >= 0 ==> s == outcome(
            ret >= 100,
            errno == ENOSYS,
            failure(100, ret as i64, None, Some(errno)),
        ),
{
    if open_fd < 0 {
        return error("open failed");
    }
    decide(ret >= 100, errno == ENOSYS, 100, ret as i64, None, Some(errno))
}

/// `fcntl(F_GETPIPE_SZ)` should report a capacity of at least 4096 bytes.
pub fn pipe_capacity(pipe_ok: bool, size: i32, errno: i32) -> (s: TestStatus)
    ensures
        !pipe_ok ==> is_error(s, "pipe failed"@),
        pipe_ok ==> s == outcome(
            size >= 4096,
            errno == ENOSYS,
            failure(4096, size as i64, None, Some(errno)),
        ),
{
    if !pipe_ok {
        return error("pipe failed");
    }
    decide(size >= 4096, errno == ENOSYS, 4096, size as i64, None, Some(errno))
}

} // verus!
