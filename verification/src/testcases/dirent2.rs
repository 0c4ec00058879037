use vstd::prelude::*;

use crate::linux::{ENOSYS, EPERM};
use crate::runner::TestStatus;
use crate::verdict::{
    bytes_equal, check_success_with, decide, error, expect_success_with, failure, is_error,
    outcome,
};

verus! {

/// `fchdir` to a descriptor of "/tmp" should return 0, after which `getcwd`
/// reads "/tmp".
pub fn fchdir_getcwd(open_fd: i32, ret: i32, cwd: &[u8], errno: i32) -> (s: TestStatus)
    ensures
        open_fd < 0 ==> is_error(s, "open /tmp failed"@),
        open_fd >= 0 ==> s == expect_success_with(
            ret as i64,
            cwd@ == seq![47u8, 116u8, 109u8, 112u8],
            errno,
        ),
{
    if open_fd < 0 {
        return error("open /tmp failed");
    }
    let tmp: [u8; 4] = [47u8, 116u8, 109u8, 112u8];
    let same = bytes_equal(cwd, tmp.as_slice());
    assert(tmp@ =~= seq![47u8, 116u8, 109u8, 112u8]);
    check_success_with(ret as i64, same, errno)
}

/// `fchmod(fd, 0o600)` should return 0, and `fstat` should then report the
/// permission bits 0o600.
pub fn fchmod_mode(open_fd: i32, ret: i32, mode: u32, errno: i32) -> (s: TestStatus)
    ensures
        open_fd < 0 ==> is_error(s, "open failed"@),
        open_fd >= 0 ==> s == expect_success_with(ret as i64, (mode & 0o777u32) == 0o600u32, errno),
{
    if open_fd < 0 {
        return error("open failed");
    }
    check_success_with(ret as i64, (mode & 0o777u32) == 0o600u32, errno)
}

/// `fchmodat(AT_FDCWD, path, 0o755)` should return 0, and `stat` should then
/// report the permission bits 0o755.
pub fn fchmodat_mode(ret: i32, mode: u32, errno: i32) -> (s: TestStatus)
    ensures
        s == expect_success_with(ret as i64, (mode & 0o777u32) == 0o755u32, errno),
{
    check_success_with(ret as i64, (mode & 0o777u32) == 0o755u32, errno)
}

/// `lchown` of a symbolic link to the caller's own ids should return 0; an
/// EPERM refusal passes too.
pub fn lchown_symlink(ret: i32, errno: i32) -> (s: TestStatus)
    ensures
        s == outcome(
            ret == 0 || errno == EPERM,
            errno == ENOSYS,
            failure(0, ret as i64, None, Some(errno)),
        ),
{
    decide(ret == 0 || errno == EPERM, errno == ENOSYS, 0, ret as i64, None, Some(errno))
}

/// `utimes` setting the modification time to 2000000 should return 0, and
/// `stat` should then read that time back.
pub fn utimes_mtime(ret: i32, mtime: i64, errno: i32) -> (s: TestStatus)
    ensures
        s == expect_success_with(ret as i64, mtime == 2000000, errno),
{
    check_success_with(ret as i64, mtime == 2000000, errno)
}

/// `futimens` with `UTIME_NOW` should return 0 and leave a modification time
/// after the start of 2020 (1577836800).
pub fn futimens_now(open_fd: i32, ret: i32, mtime: i64, errno: i32) -> (s: TestStatus)
    ensures
        open_fd < 0 ==> is_error(s, "open failed"@),
        open_fd >= 0 ==> s == expect_success_with(ret as i64, mtime > 1577836800, errno),
{
    if open_fd < 0 {
        return error("open failed");
    }
    check_success_with(ret as i64, mtime > 1577836800, errno)
}

/// `statvfs("/tmp")` should return 0 with a positive block size.
pub fn statvfs_tmp(ret: i32, block_size: u64, errno: i32) -> (s: TestStatus)
    ensures
        s == expect_success_with(ret as i64, block_size > 0, errno),
{
    check_success_with(ret as i64, block_size > 0, errno)
}

} // verus!
