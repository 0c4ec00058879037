use vstd::prelude::*;

use crate::linux::{
    EACCES, EBADF, EINVAL, EISDIR, ELOOP, ENAMETOOLONG, ENOENT, ENOTDIR, ENOTEMPTY, EPIPE,
    S_IFLNK, S_IFMT, S_IFREG,
};
use crate::runner::TestStatus;
use crate::text::{octal, u32_octal_text};
use crate::verdict::{
    check_errno_strict, check_ret, decide, error, expect_ret, failure, is_error, outcome,
    require_errno,
};

verus! {

/// A `read`, `write` or `lseek` on a descriptor that is not open should fail
/// with EBADF.
pub fn closed_fd_ebadf(ret: i64, errno: i32) -> (s: TestStatus)
    ensures
        s == require_errno(ret, errno, EBADF),
{
    check_errno_strict(ret, errno, EBADF)
}

/// A zero-length `mmap` should fail (`MAP_FAILED`) with EINVAL; the failure
/// reports the address returned.
pub fn mmap_zero_length(failed: bool, address: i64, errno: i32) -> (s: TestStatus)
    ensures
        s == outcome(failed && errno == EINVAL, false, failure(-1i64, address, Some(EINVAL), Some(errno))),
{
    decide(failed && errno == EINVAL, false, -1, address, Some(EINVAL), Some(errno))
}

/// A call with an invalid argument (`kill` with signal 200, `fcntl` with
/// command 9999) should fail with EINVAL.
pub fn invalid_argument(ret: i64, errno: i32) -> (s: TestStatus)
    ensures
        s == require_errno(ret, errno, EINVAL),
{
    check_errno_strict(ret, errno, EINVAL)
}

/// `open` below a missing directory should fail with ENOENT.
pub fn open_deep_noent(fd: i32, errno: i32) -> (s: TestStatus)
    ensures
        s == require_errno(fd as i64, errno, ENOENT),
{
    check_errno_strict(fd as i64, errno, ENOENT)
}

/// `rmdir` of a directory holding a file should fail with ENOTEMPTY.
pub fn rmdir_notempty(ret: i32, errno: i32) -> (s: TestStatus)
    ensures
        s == require_errno(ret as i64, errno, ENOTEMPTY),
{
    check_errno_strict(ret as i64, errno, ENOTEMPTY)
}

/// `open` of a path below a regular file should fail with ENOTDIR.
pub fn open_enotdir(fd: i32, errno: i32) -> (s: TestStatus)
    ensures
        s == require_errno(fd as i64, errno, ENOTDIR),
{
    check_errno_strict(fd as i64, errno, ENOTDIR)
}

/// A `write` to a pipe whose read end is closed, with SIGPIPE ignored,
/// should fail with EPIPE.
pub fn write_pipe_epipe(pipe_ret: i32, ret: i64, errno: i32) -> (s: TestStatus)
    ensures
        pipe_ret != 0 ==> is_error(s, "pipe failed"@),
        pipe_ret == 0 ==> s == require_errno(ret, errno, EPIPE),
{
    if pipe_ret != 0 {
        return error("pipe failed");
    }
    check_errno_strict(ret, errno, EPIPE)
}

/// An `open` that a non-root user may not make should fail with EACCES;
/// run as root (uid 0) the check cannot be made and counts as not
/// implemented.
pub fn open_eacces(uid: u32, fd: i32, errno: i32) -> (s: TestStatus)
    ensures
        uid == 0 ==> s == TestStatus::Unimplemented,
        uid != 0 ==> s == require_errno(fd as i64, errno, EACCES),
{
    if uid == 0 {
        return TestStatus::Unimplemented;
    }
    check_errno_strict(fd as i64, errno, EACCES)
}

/// `open(O_WRONLY)` of a directory should fail with EISDIR.
pub fn open_eisdir(fd: i32, errno: i32) -> (s: TestStatus)
    ensures
        s == require_errno(fd as i64, errno, EISDIR),
{
    check_errno_strict(fd as i64, errno, EISDIR)
}

/// `open` of a symbolic link loop should fail with ELOOP.
pub fn symlink_loop(fd: i32, errno: i32) -> (s: TestStatus)
    ensures
        s == require_errno(fd as i64, errno, ELOOP),
{
    check_errno_strict(fd as i64, errno, ELOOP)
}

/// `open` of a path longer than `PATH_MAX` should fail with ENAMETOOLONG.
pub fn open_enametoolong(fd: i32, errno: i32) -> (s: TestStatus)
    ensures
        s == require_errno(fd as i64, errno, ENAMETOOLONG),
{
    check_errno_strict(fd as i64, errno, ENAMETOOLONG)
}

/// A `write` of 0 bytes should return 0.
pub fn write_zero_bytes(open_fd: i32, ret: i64, errno: i32) -> (s: TestStatus)
    ensures
        open_fd < 0 ==> is_error(s, "open failed"@),
        open_fd >= 0 ==> s == outcome(ret == 0, false, failure(0, ret, None, Some(errno))),
{
    if open_fd < 0 {
        return error("open failed");
    }
    decide(ret == 0, false, 0, ret, None, Some(errno))
}

/// `lseek(fd, 0, SEEK_END)` on an empty file should return 0.
pub fn lseek_end_empty_file(open_fd: i32, ret: i64, errno: i32) -> (s: TestStatus)
    ensures
        open_fd < 0 ==> is_error(s, "open failed"@),
        open_fd >= 0 ==> s == expect_ret(ret, errno, 0),
{
    if open_fd < 0 {
        return error("open failed");
    }
    check_ret(ret, errno, 0)
}

/// The message that reports the two modes seen by `stat` and `lstat`.
pub open spec fn stat_modes_message(stat_mode: u32, lstat_mode: u32) -> Seq<char> {
    "stat_mode="@ + octal(stat_mode as nat) + " lstat_mode="@ + octal(lstat_mode as nat)
}

/// Through a symbolic link to a regular file, `stat` should see the regular
/// file and `lstat` the link; otherwise the test error reports both modes in
/// octal.
pub fn stat_vs_lstat(stat_ret: i32, lstat_ret: i32, stat_mode: u32, lstat_mode: u32) -> (s:
    TestStatus)
    ensures
        stat_ret == 0 && lstat_ret == 0 && (stat_mode & S_IFMT) == S_IFREG && (lstat_mode & S_IFMT)
            == S_IFLNK ==> s == TestStatus::Pass,
        !(stat_ret == 0 && lstat_ret == 0 && (stat_mode & S_IFMT) == S_IFREG && (lstat_mode
            & S_IFMT) == S_IFLNK) ==> is_error(s, stat_modes_message(stat_mode, lstat_mode)),
{
    if stat_ret == 0 && lstat_ret == 0 && (stat_mode & S_IFMT) == S_IFREG && (lstat_mode & S_IFMT)
        == S_IFLNK {
        TestStatus::Pass
    } else {
        let mut m = "stat_mode=".to_owned();
        let t = u32_octal_text(stat_mode);
        m.append(t.as_str());
        m.append(" lstat_mode=");
        let t = u32_octal_text(lstat_mode);
        m.append(t.as_str());
        TestStatus::Error(m)
    }
}

/// `fstat` and `stat` of a file holding `len` bytes should both report size
/// `len`.
pub fn fstat_stat_consistency(open_fd: i32, fstat_size: i64, stat_size: i64, len: i64) -> (s:
    TestStatus)
    ensures
        open_fd < 0 ==> is_error(s, "open failed"@),
        open_fd >= 0 ==> s == outcome(
            fstat_size == stat_size && fstat_size == len,
            false,
            failure(len, fstat_size, None, None),
        ),
{
    if open_fd < 0 {
        return error("open failed");
    }
    decide(fstat_size == stat_size && fstat_size == len, false, len, fstat_size, None, None)
}

/// Reading a file of `len` bytes should return them all, and the next read
/// 0 (end of file).
pub fn read_at_eof(open_fd: i32, first_read: i64, second_read: i64, len: i64) -> (s: TestStatus)
    ensures
        open_fd < 0 ==> is_error(s, "open failed"@),
        open_fd >= 0 ==> s == outcome(
            first_read == len && second_read == 0,
            false,
            failure(0, second_read, None, None),
        ),
{
    if open_fd < 0 {
        return error("open failed");
    }
    decide(first_read == len && second_read == 0, false, 0, second_read, None, None)
}

} // verus!
