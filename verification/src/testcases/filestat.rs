use vstd::prelude::*;

use crate::linux::{ENOENT, ENOSYS, S_IFLNK, S_IFMT};
use crate::runner::TestStatus;
use crate::verdict::{
    bytes_equal, check_errno, check_ret, decide, error, expect_errno, expect_ret, failure,
    is_error, outcome,
};

verus! {

/// `chmod(path, 0o600)` should return 0, and `stat` should then report the
/// permission bits 0o600.
pub fn chmod_basic(open_fd: i32, ret: i32, mode: u32, errno: i32) -> (s: TestStatus)
    ensures
        open_fd < 0 ==> is_error(s, "open failed"@),
        open_fd >= 0 ==> s == outcome(
            ret == 0 && (mode & 0o777u32) == 0o600u32,
            errno == ENOSYS,
            failure(0, ret as i64, None, Some(errno)),
        ),
{
    if open_fd < 0 {
        return error("open failed");
    }
    decide(
        ret == 0 && (mode & 0o777u32) == 0o600u32,
        errno == ENOSYS,
        0,
        ret as i64,
        None,
        Some(errno),
    )
}

/// A call that should leave the file `expected_size` bytes long: it passes
/// when it returned 0 and the size reads back as `expected_size`.
pub open spec fn expect_size(ret: i32, size: i64, errno: i32, expected_size: i64) -> TestStatus {
    outcome(
        ret == 0 && size == expected_size,
        errno == ENOSYS,
        failure(expected_size, size, None, Some(errno)),
    )
}

/// A size check passes exactly when the call returned 0 and the size read
/// back is the size expected; otherwise ENOSYS makes it not implemented,
/// and any other errno a failure that records the two sizes.
pub proof fn lemma_expect_size_rule(ret: i32, size: i64, errno: i32, expected_size: i64)
    ensures
        expect_size(ret, size, errno, expected_size) == TestStatus::Pass <==> ret == 0 && size
            == expected_size,
        expect_size(ret, size, errno, expected_size) == TestStatus::Unimplemented <==> !(ret == 0
            && size == expected_size) && errno == 38,
        !(ret == 0 && size == expected_size) && errno != 38 ==> expect_size(
            ret,
            size,
            errno,
            expected_size,
        ) == (TestStatus::Fail {
            expected_ret: expected_size,
            actual_ret: size,
            expected_errno: None,
            actual_errno: Some(errno),
        }),
{
}

fn check_size(ret: i32, size: i64, errno: i32, expected_size: i64) -> (s: TestStatus)
    ensures
        s == expect_size(ret, size, errno, expected_size),
{
    decide(ret == 0 && size == expected_size, errno == ENOSYS, expected_size, size, None, Some(errno))
}

/// `truncate(path, 5)` of a 12-byte file should leave it 5 bytes long.
pub fn truncate_basic(open_fd: i32, ret: i32, size: i64, errno: i32) -> (s: TestStatus)
    ensures
        open_fd < 0 ==> is_error(s, "open failed"@),
        open_fd >= 0 ==> s == expect_size(ret, size, errno, 5),
{
    if open_fd < 0 {
        return error("open failed");
    }
    check_size(ret, size, errno, 5)
}

/// `ftruncate(fd, 4)` of a 10-byte file should leave it 4 bytes long.
pub fn ftruncate_basic(open_fd: i32, ret: i32, size: i64, errno: i32) -> (s: TestStatus)
    ensures
        open_fd < 0 ==> is_error(s, "open failed"@),
        open_fd >= 0 ==> s == expect_size(ret, size, errno, 4),
{
    if open_fd < 0 {
        return error("open failed");
    }
    check_size(ret, size, errno, 4)
}

/// `fstat` of a file holding `len` bytes should return 0 and size `len`.
pub fn fstat_basic(open_fd: i32, ret: i32, size: i64, errno: i32, len: i64) -> (s: TestStatus)
    ensures
        open_fd < 0 ==> is_error(s, "open failed"@),
        open_fd >= 0 ==> s == expect_size(ret, size, errno, len),
{
    if open_fd < 0 {
        return error("open failed");
    }
    check_size(ret, size, errno, len)
}

/// `access(path, R_OK)` of a readable file should return 0.
pub fn access_readable(open_fd: i32, ret: i32, errno: i32) -> (s: TestStatus)
    ensures
        open_fd < 0 ==> is_error(s, "open failed"@),
        open_fd >= 0 ==> s == expect_ret(ret as i64, errno, 0),
{
    if open_fd < 0 {
        return error("open failed");
    }
    check_ret(ret as i64, errno, 0)
}

/// `access` of a missing file should fail with ENOENT.
pub fn access_nonexistent(ret: i32, errno: i32) -> (s: TestStatus)
    ensures
        s == expect_errno(ret as i64, errno, ENOENT),
{
    check_errno(ret as i64, errno, ENOENT)
}

/// `symlink` should return 0, and `lstat` of the link should succeed and
/// report a symbolic link.
pub fn symlink_basic(open_fd: i32, ret: i32, lstat_ret: i32, mode: u32, errno: i32) -> (s:
    TestStatus)
    ensures
        open_fd < 0 ==> is_error(s, "open failed"@),
        open_fd >= 0 ==> s == outcome(
            ret == 0 && lstat_ret == 0 && (mode & S_IFMT) == S_IFLNK,
            errno == ENOSYS,
            failure(0, ret as i64, None, Some(errno)),
        ),
{
    if open_fd < 0 {
        return error("open failed");
    }
    decide(
        ret == 0 && lstat_ret == 0 && (mode & S_IFMT) == S_IFLNK,
        errno == ENOSYS,
        0,
        ret as i64,
        None,
        Some(errno),
    )
}

/// `readlink` of a link to `target` should return a positive length, and
/// the bytes it returned should be exactly `target`.
pub fn readlink_basic(open_fd: i32, ret: i64, target: &[u8], link_text: &[u8], errno: i32) -> (s:
    TestStatus)
    requires
        target@.len() <= i64::MAX,
    ensures
        open_fd < 0 ==> is_error(s, "open failed"@),
        open_fd >= 0 ==> s == outcome(
            ret > 0 && link_text@ == target@,
            errno == ENOSYS,
            failure(target@.len() as i64, ret, None, Some(errno)),
        ),
{
    if open_fd < 0 {
        return error("open failed");
    }
    let same = bytes_equal(link_text, target);
    decide(ret > 0 && same, errno == ENOSYS, target.len() as i64, ret, None, Some(errno))
}

/// `link` should return 0 and leave the source with at least two links.
pub fn link_hardlink(open_fd: i32, ret: i32, nlink: u64, errno: i32) -> (s: TestStatus)
    ensures
        open_fd < 0 ==> is_error(s, "open failed"@),
        open_fd >= 0 ==> s == outcome(
            ret == 0 && nlink >= 2,
            errno == ENOSYS,
            failure(0, ret as i64, None, Some(errno)),
        ),
{
    if open_fd < 0 {
        return error("open failed");
    }
    decide(ret == 0 && nlink >= 2, errno == ENOSYS, 0, ret as i64, None, Some(errno))
}

/// `statfs("/tmp")` should return 0 and a positive block size.
pub fn statfs_tmp(ret: i32, block_size: i64, errno: i32) -> (s: TestStatus)
    ensures
        s == outcome(ret == 0 && block_size > 0, errno == ENOSYS, failure(0, ret as i64, None, Some(errno))),
{
    decide(ret == 0 && block_size > 0, errno == ENOSYS, 0, ret as i64, None, Some(errno))
}

} // verus!
