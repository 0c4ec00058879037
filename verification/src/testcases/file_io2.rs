use vstd::prelude::*;

use crate::linux::{EBADF, EEXIST, ENOENT, ENOSYS, EOPNOTSUPP, EXDEV};
use crate::runner::TestStatus;
use crate::verdict::{
    bytes_equal, check_errno_strict, check_ret, check_success_with, decide, error, expect_ret,
    expect_success_with, failure, is_error, outcome, require_errno,
};

verus! {

/// `open(O_CREAT | O_EXCL)` of an existing file should fail with EEXIST.
pub fn open_excl_exists(fd: i32, errno: i32) -> (s: TestStatus)
    ensures
        s == require_errno(fd as i64, errno, EEXIST),
{
    check_errno_strict(fd as i64, errno, EEXIST)
}

/// A `write` to a descriptor opened read-only, or a `read` from one opened
/// write-only, should fail with EBADF.
pub fn wrong_access_mode(ret: i64, errno: i32) -> (s: TestStatus)
    ensures
        s == require_errno(ret, errno, EBADF),
{
    check_errno_strict(ret, errno, EBADF)
}

/// Seeking to offset 1000 of an empty file and writing 3 bytes should leave
/// it 1003 bytes long.
pub fn lseek_hole(open_fd: i32, size: i64) -> (s: TestStatus)
    ensures
        open_fd < 0 ==> is_error(s, "open failed"@),
        open_fd >= 0 ==> s == outcome(size == 1003, false, failure(1003, size, None, None)),
{
    if open_fd < 0 {
        return error("open failed");
    }
    decide(size == 1003, false, 1003, size, None, None)
}

/// `open(O_RDONLY)` of a missing file should fail with ENOENT.
pub fn open_noent(fd: i32, errno: i32) -> (s: TestStatus)
    ensures
        s == require_errno(fd as i64, errno, ENOENT),
{
    check_errno_strict(fd as i64, errno, ENOENT)
}

/// `flock(LOCK_EX)` and then `flock(LOCK_UN)` should both return 0; a failure
/// reports the first call.
pub fn flock_exclusive(open_fd: i32, lock_ret: i32, unlock_ret: i32, errno: i32) -> (s:
    TestStatus)
    ensures
        open_fd < 0 ==> is_error(s, "open failed"@),
        open_fd >= 0 ==> s == outcome(
            lock_ret == 0 && unlock_ret == 0,
            errno == ENOSYS,
            failure(0, lock_ret as i64, None, Some(errno)),
        ),
{
    if open_fd < 0 {
        return error("open failed");
    }
    decide(lock_ret == 0 && unlock_ret == 0, errno == ENOSYS, 0, lock_ret as i64, None, Some(errno))
}

/// `fallocate(fd, 0, 0, 4096)` should return 0 and leave the file at least
/// 4096 bytes long; ENOSYS and EOPNOTSUPP count as not implemented.
pub fn fallocate_basic(open_fd: i32, ret: i32, size: i64, errno: i32) -> (s: TestStatus)
    ensures
        open_fd < 0 ==> is_error(s, "open failed"@),
        open_fd >= 0 ==> s == outcome(
            ret == 0 && size >= 4096,
            errno == ENOSYS || errno == EOPNOTSUPP,
            failure(0, ret as i64, None, Some(errno)),
        ),
{
    if open_fd < 0 {
        return error("open failed");
    }
    decide(
        ret == 0 && size >= 4096,
        errno == ENOSYS || errno == EOPNOTSUPP,
        0,
        ret as i64,
        None,
        Some(errno),
    )
}

/// `copy_file_range` of the `written` bytes of one file to another should
/// return their number, after which the copy reads back `copied == written`;
/// ENOSYS and EXDEV count as not implemented.
pub fn copy_file_range(open_ok: bool, ret: i64, written: &[u8], copied: &[u8], errno: i32) -> (s:
    TestStatus)
    requires
        written@.len() <= i64::MAX,
    ensures
        !open_ok ==> is_error(s, "open failed"@),
        open_ok ==> s == outcome(
            ret == written@.len() && copied@ == written@,
            errno == ENOSYS || errno == EXDEV,
            failure(written@.len() as i64, ret, None, Some(errno)),
        ),
{
    if !open_ok {
        return error("open failed");
    }
    let n = written.len() as i64;
    let same = bytes_equal(copied, written);
    decide(ret == n && same, errno == ENOSYS || errno == EXDEV, n, ret, None, Some(errno))
}

/// `linkat(AT_FDCWD, src, AT_FDCWD, dst, 0)` should return 0 and leave the
/// source with at least 2 links.
pub fn linkat_cwd(ret: i32, nlink: u64, errno: i32) -> (s: TestStatus)
    ensures
        s == expect_success_with(ret as i64, nlink >= 2, errno),
{
    check_success_with(ret as i64, nlink >= 2, errno)
}

/// `unlinkat(AT_FDCWD, path, 0)` should return 0, after which `stat` of the
/// path fails with ENOENT.
pub fn unlinkat_cwd(ret: i32, stat_ret: i32, stat_errno: i32, errno: i32) -> (s: TestStatus)
    ensures
        s == expect_success_with(ret as i64, stat_ret == -1 && stat_errno == ENOENT, errno),
{
    check_success_with(ret as i64, stat_ret == -1 && stat_errno == ENOENT, errno)
}

/// `renameat(AT_FDCWD, src, AT_FDCWD, dst)` should return 0, after which
/// `stat` finds the destination.
pub fn renameat_cwd(ret: i32, stat_ret: i32, errno: i32) -> (s: TestStatus)
    ensures
        s == expect_success_with(ret as i64, stat_ret == 0, errno),
{
    check_success_with(ret as i64, stat_ret == 0, errno)
}

/// `readahead` of an open file should return 0.
pub fn readahead_basic(open_fd: i32, ret: i64, errno: i32) -> (s: TestStatus)
    ensures
        open_fd < 0 ==> is_error(s, "open failed"@),
        open_fd >= 0 ==> s == expect_ret(ret, errno, 0),
{
    if open_fd < 0 {
        return error("open failed");
    }
    check_ret(ret, errno, 0)
}

} // verus!
