use vstd::prelude::*;

use crate::linux::ENOSYS;
use crate::runner::TestStatus;
use crate::text::signed_decimal;
use crate::verdict::{
    check_ret, decide, error, error_with_code, expect_ret, failure, is_error, outcome,
};

verus! {

/// `brk(0)` should return the current break, a non-negative value.
pub fn brk_basic(ret: i64) -> (s: TestStatus)
    ensures
        s == outcome(ret >= 0, false, failure(1, ret, None, None)),
{
    decide(ret >= 0, false, 1, ret, None, None)
}

/// An anonymous private `mmap` of one page should succeed.
pub fn mmap_anon(mapped: bool, errno: i32) -> (s: TestStatus)
    ensures
        s == outcome(mapped, errno == ENOSYS, failure(1, -1i64, None, Some(errno))),
{
    decide(mapped, errno == ENOSYS, 1, -1, None, Some(errno))
}

/// A mapped page should keep the bytes written to it. A mapping that fails
/// is unimplemented on ENOSYS and a test error naming the errno otherwise.
pub fn mmap_read_write(mapped: bool, errno: i32, read_back: bool) -> (s: TestStatus)
    ensures
        !mapped && errno == ENOSYS ==> s == TestStatus::Unimplemented,
        !mapped && errno != ENOSYS ==> is_error(
            s,
            "mmap failed errno="@ + signed_decimal(errno as int),
        ),
        mapped && read_back ==> s == TestStatus::Pass,
        mapped && !read_back ==> is_error(s, "read-back mismatch after write"@),
{
    if !mapped {
        if errno == ENOSYS {
            return TestStatus::Unimplemented;
        }
        return error_with_code("mmap failed errno=", errno);
    }
    if read_back {
        TestStatus::Pass
    } else {
        error("read-back mismatch after write")
    }
}

/// `munmap` of a mapped page should return 0.
pub fn munmap_basic(mapped: bool, ret: i64, errno: i32) -> (s: TestStatus)
    ensures
        !mapped ==> is_error(s, "mmap failed"@),
        mapped ==> s == expect_ret(ret, errno, 0),
{
    if !mapped {
        return error("mmap failed");
    }
    check_ret(ret, errno, 0)
}

/// `mprotect(PROT_READ)` of a mapped page should return 0.
pub fn mprotect_basic(mapped: bool, ret: i64, errno: i32) -> (s: TestStatus)
    ensures
        !mapped ==> is_error(s, "mmap failed"@),
        mapped ==> s == expect_ret(ret, errno, 0),
{
    if !mapped {
        return error("mmap failed");
    }
    check_ret(ret, errno, 0)
}

} // verus!
