use vstd::prelude::*;

use crate::linux::{EBADF, EINVAL, ENOENT, ENOSYS};
use crate::runner::TestStatus;
use crate::text::signed_decimal;
use crate::verdict::{
    bytes_equal, check_errno, check_ret, decide, error, error_with_code, expect_errno, expect_ret,
    failure, is_error, outcome,
};

verus! {

/// `open(O_CREAT|O_WRONLY|O_TRUNC)` of a new file should return a
/// descriptor; ENOSYS counts as not implemented.
pub fn open_basic(ret: i64, errno: i32) -> (s: TestStatus)
    ensures
        s == outcome(ret >= 0, errno == ENOSYS, failure(3, ret, None, Some(errno))),
{
    decide(ret >= 0, errno == ENOSYS, 3, ret, None, Some(errno))
}

/// `open` of a missing file without `O_CREAT` should fail with ENOENT.
pub fn open_nonexistent(ret: i64, errno: i32) -> (s: TestStatus)
    ensures
        s == expect_errno(ret, errno, ENOENT),
{
    check_errno(ret, errno, ENOENT)
}

/// Write `sent` to a new file and read it back: the file must open
/// (ENOSYS there is unimplemented, any other errno a test error naming it),
/// the write must take all `sent.len()` bytes, and the read must return them
/// all, equal to what was written.
pub fn read_write(
    open_fd: i32,
    open_errno: i32,
    written: i64,
    read: i64,
    sent: &[u8],
    received: &[u8],
) -> (s: TestStatus)
    requires
        sent@.len() <= i64::MAX,
    ensures
        open_fd < 0 && open_errno == ENOSYS ==> s == TestStatus::Unimplemented,
        open_fd < 0 && open_errno != ENOSYS ==> is_error(
            s,
            "open failed: errno="@ + signed_decimal(open_errno as int),
        ),
        open_fd >= 0 && written != sent@.len() ==> s == failure(
            sent@.len() as i64,
            written,
            None,
            None,
        ),
        open_fd >= 0 && written == sent@.len() ==> s == outcome(
            read == sent@.len() && received@ == sent@,
            false,
            failure(sent@.len() as i64, read, None, None),
        ),
{
    if open_fd < 0 {
        if open_errno == ENOSYS {
            return TestStatus::Unimplemented;
        }
        return error_with_code("open failed: errno=", open_errno);
    }
    let len = sent.len() as i64;
    if written != len {
        return TestStatus::Fail {
            expected_ret: len,
            actual_ret: written,
            expected_errno: None,
            actual_errno: None,
        };
    }
    let same = bytes_equal(received, sent);
    decide(read == len && same, false, len, read, None, None)
}

/// `read` of 0 bytes from an open file should return 0.
pub fn read_zero(open_fd: i32, ret: i64, errno: i32) -> (s: TestStatus)
    ensures
        open_fd < 0 ==> is_error(s, "open failed"@),
        open_fd >= 0 ==> s == outcome(ret == 0, errno == ENOSYS, failure(0, ret, None, Some(errno))),
{
    if open_fd < 0 {
        return error("open failed");
    }
    decide(ret == 0, errno == ENOSYS, 0, ret, None, Some(errno))
}

/// Write 6 bytes, reopen with `O_APPEND` and write 6 more: the file must
/// then be 12 bytes long. A first open that fails is a test error; an
/// `O_APPEND` open that fails counts as unimplemented.
pub fn write_append(first_open: i32, append_open: i32, stat_ret: i32, size: i64) -> (s: TestStatus)
    ensures
        first_open < 0 ==> is_error(s, "initial open failed"@),
        first_open >= 0 && append_open < 0 ==> s == TestStatus::Unimplemented,
        first_open >= 0 && append_open >= 0 ==> s == outcome(
            stat_ret == 0 && size == 12,
            false,
            failure(
                12,
                if stat_ret == 0 {
                    size
                } else {
                    -1i64
                },
                None,
                None,
            ),
        ),
{
    if first_open < 0 {
        return error("initial open failed");
    }
    if append_open < 0 {
        return TestStatus::Unimplemented;
    }
    let actual: i64 = if stat_ret == 0 {
        size
    } else {
        -1
    };
    decide(stat_ret == 0 && size == 12, false, 12, actual, None, None)
}

/// `close(-1)` should fail with EBADF.
pub fn close_invalid_fd(ret: i64, errno: i32) -> (s: TestStatus)
    ensures
        s == expect_errno(ret, errno, EBADF),
{
    check_errno(ret, errno, EBADF)
}

/// `stat` of a file holding `len` bytes should succeed and report size
/// `len`; a `stat` that fails with ENOSYS is unimplemented.
pub fn stat_basic(open_fd: i32, stat_ret: i32, size: i64, errno: i32, len: i64) -> (s: TestStatus)
    ensures
        open_fd < 0 ==> is_error(s, "open failed"@),
        open_fd >= 0 ==> s == outcome(
            stat_ret == 0 && size == len,
            stat_ret == -1 && errno == ENOSYS,
            failure(
                len,
                if stat_ret == 0 {
                    size
                } else {
                    -1i64
                },
                None,
                None,
            ),
        ),
{
    if open_fd < 0 {
        return error("open failed");
    }
    let actual: i64 = if stat_ret == 0 {
        size
    } else {
        -1
    };
    decide(stat_ret == 0 && size == len, stat_ret == -1 && errno == ENOSYS, len, actual, None, None)
}

/// `stat` of a missing path should fail with ENOENT.
pub fn stat_nonexistent(ret: i64, errno: i32) -> (s: TestStatus)
    ensures
        s == expect_errno(ret, errno, ENOENT),
{
    check_errno(ret, errno, ENOENT)
}

/// `lseek(fd, 0, SEEK_SET)` on an open file should return 0.
pub fn lseek_basic(open_fd: i32, ret: i64, errno: i32) -> (s: TestStatus)
    ensures
        open_fd < 0 ==> is_error(s, "open failed"@),
        open_fd >= 0 ==> s == expect_ret(ret, errno, 0),
{
    if open_fd < 0 {
        return error("open failed");
    }
    check_ret(ret, errno, 0)
}

/// `lseek` with whence 99 should fail with EINVAL.
pub fn lseek_invalid_whence(open_fd: i32, ret: i64, errno: i32) -> (s: TestStatus)
    ensures
        open_fd < 0 ==> is_error(s, "open failed"@),
        open_fd >= 0 ==> s == expect_errno(ret, errno, EINVAL),
{
    if open_fd < 0 {
        return error("open failed");
    }
    check_errno(ret, errno, EINVAL)
}

/// `unlink` of an existing file should return 0, after which `stat` of the
/// path fails with ENOENT; a path that `stat` still finds is a test error.
pub fn unlink_basic(open_fd: i32, ret: i64, errno: i32, stat_ret: i32, stat_errno: i32) -> (s:
    TestStatus)
    ensures
        open_fd < 0 ==> is_error(s, "open failed"@),
        open_fd >= 0 && ret == 0 && stat_ret == -1 && stat_errno == ENOENT ==> s
            == TestStatus::Pass,
        open_fd >= 0 && ret == 0 && !(stat_ret == -1 && stat_errno == ENOENT) ==> is_error(
            s,
            "file still exists after unlink"@,
        ),
        open_fd >= 0 && ret != 0 ==> s == expect_ret(ret, errno, 0),
{
    if open_fd < 0 {
        return error("open failed");
    }
    if ret == 0 {
        if stat_ret == -1 && stat_errno == ENOENT {
            TestStatus::Pass
        } else {
            error("file still exists after unlink")
        }
    } else {
        check_ret(ret, errno, 0)
    }
}

/// `rename` of an existing file to a new name should return 0.
pub fn rename_basic(open_fd: i32, ret: i64, errno: i32) -> (s: TestStatus)
    ensures
        open_fd < 0 ==> is_error(s, "open failed"@),
        open_fd >= 0 ==> s == expect_ret(ret, errno, 0),
{
    if open_fd < 0 {
        return error("open failed");
    }
    check_ret(ret, errno, 0)
}

/// `mkdir` then `rmdir` of a new directory should both return 0; the
/// failure reports the first call that failed.
pub fn mkdir_rmdir(mkdir_ret: i32, mkdir_errno: i32, ret: i64, errno: i32) -> (s: TestStatus)
    ensures
        s == outcome(
            mkdir_ret == 0 && ret == 0,
            mkdir_errno == ENOSYS || errno == ENOSYS,
            failure(
                0,
                if mkdir_ret != 0 {
                    mkdir_ret as i64
                } else {
                    ret
                },
                None,
                Some(
                    if mkdir_ret != 0 {
                        mkdir_errno
                    } else {
                        errno
                    },
                ),
            ),
        ),
{
    let actual: i64 = if mkdir_ret != 0 {
        mkdir_ret as i64
    } else {
        ret
    };
    let actual_errno: i32 = if mkdir_ret != 0 {
        mkdir_errno
    } else {
        errno
    };
    decide(
        mkdir_ret == 0 && ret == 0,
        mkdir_errno == ENOSYS || errno == ENOSYS,
        0,
        actual,
        None,
        Some(actual_errno),
    )
}

/// `getcwd` should return a non-null buffer holding a path that starts
/// with '/'.
pub fn getcwd_basic(ret: i64, first_byte: u8, errno: i32) -> (s: TestStatus)
    ensures
        s == outcome(
            ret != 0 && first_byte == 47,
            errno == ENOSYS,
            failure(1, ret, None, Some(errno)),
        ),
{
    decide(ret != 0 && first_byte == 47u8, errno == ENOSYS, 1, ret, None, Some(errno))
}

/// `dup` of an open descriptor should return another non-negative one.
pub fn dup_basic(open_fd: i32, ret: i64, errno: i32) -> (s: TestStatus)
    ensures
        open_fd < 0 ==> is_error(s, "open failed"@),
        open_fd >= 0 ==> s == outcome(
            ret >= 0 && ret != open_fd as i64,
            errno == ENOSYS,
            failure((open_fd + 1) as i64, ret, None, Some(errno)),
        ),
{
    if open_fd < 0 {
        return error("open failed");
    }
    let fd = open_fd as i64;
    decide(ret >= 0 && ret != fd, errno == ENOSYS, fd + 1, ret, None, Some(errno))
}

/// `dup2(fd, newfd)` should return `newfd`.
pub fn dup2_basic(open_fd: i32, newfd: i32, ret: i64, errno: i32) -> (s: TestStatus)
    ensures
        open_fd < 0 ==> is_error(s, "open failed"@),
        open_fd >= 0 ==> s == expect_ret(ret, errno, newfd as i64),
{
    if open_fd < 0 {
        return error("open failed");
    }
    check_ret(ret, errno, newfd as i64)
}

} // verus!
