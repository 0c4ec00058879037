use vstd::prelude::*;

use crate::linux::{ENOSYS, EPERM};
use crate::runner::TestStatus;
use crate::verdict::{
    bytes_equal, check_ret, decide, error, expect_ret, failure, is_error, outcome,
};

verus! {

/// The status of a mapping call that returned `MAP_FAILED`: not implemented
/// on ENOSYS, otherwise a failure with expected value 1 and actual value -1.
pub open spec fn mapping_refused(errno: i32) -> TestStatus {
    outcome(false, errno == ENOSYS, failure(1, -1i64, None, Some(errno)))
}

/// A refused mapping never passes: it is not implemented exactly on
/// ENOSYS, and otherwise a failure with expected value 1 and actual value
/// -1 that records the errno.
pub proof fn lemma_mapping_refused_rule(errno: i32)
    ensures
        mapping_refused(errno) != TestStatus::Pass,
        mapping_refused(errno) == TestStatus::Unimplemented <==> errno == 38,
        errno != 38 ==> mapping_refused(errno) == (TestStatus::Fail {
            expected_ret: 1,
            actual_ret: -1i64,
            expected_errno: None,
            actual_errno: Some(errno),
        }),
{
}

fn refused(errno: i32) -> (s: TestStatus)
    ensures
        s == mapping_refused(errno),
{
    decide(false, errno == ENOSYS, 1, -1, None, Some(errno))
}

/// A read-only private mapping of a file holding `data` should show `data`.
pub fn mmap_file(open_fd: i32, mapped: bool, errno: i32, data: &[u8], content: &[u8]) -> (s:
    TestStatus)
    ensures
        open_fd < 0 ==> is_error(s, "open failed"@),
        open_fd >= 0 && !mapped ==> s == mapping_refused(errno),
        open_fd >= 0 && mapped && content@ == data@ ==> s == TestStatus::Pass,
        open_fd >= 0 && mapped && content@ != data@ ==> is_error(s, "mapped content mismatch"@),
{
    if open_fd < 0 {
        return error("open failed");
    }
    if !mapped {
        return refused(errno);
    }
    if bytes_equal(content, data) {
        TestStatus::Pass
    } else {
        error("mapped content mismatch")
    }
}

/// Bytes `written` through a shared mapping and flushed with
/// `msync(MS_SYNC)` should read back from the file (`on_disk`); a mapping
/// that cannot be made counts as not implemented.
pub fn msync_shared(open_fd: i32, mapped: bool, ret: i64, written: &[u8], on_disk: &[u8], errno: i32)
    -> (s: TestStatus)
    ensures
        open_fd < 0 ==> is_error(s, "open failed"@),
        open_fd >= 0 && !mapped ==> s == TestStatus::Unimplemented,
        open_fd >= 0 && mapped ==> s == outcome(
            ret == 0 && on_disk@ == written@,
            errno == ENOSYS,
            failure(0, ret, None, Some(errno)),
        ),
{
    if open_fd < 0 {
        return error("open failed");
    }
    if !mapped {
        return TestStatus::Unimplemented;
    }
    let same = bytes_equal(on_disk, written);
    decide(ret == 0 && same, errno == ENOSYS, 0, ret, None, Some(errno))
}

/// `madvise(MADV_NORMAL)` of an anonymous mapping should return 0.
pub fn madvise_normal(mapped: bool, ret: i64, errno: i32) -> (s: TestStatus)
    ensures
        !mapped ==> is_error(s, "mmap failed"@),
        mapped ==> s == expect_ret(ret, errno, 0),
{
    if !mapped {
        return error("mmap failed");
    }
    check_ret(ret, errno, 0)
}

/// `mlock` and then `munlock` of an anonymous mapping should both return 0;
/// ENOSYS and EPERM of `mlock` count as not implemented.
pub fn mlock_munlock(mapped: bool, lock_ret: i32, unlock_ret: i32, errno: i32) -> (s: TestStatus)
    ensures
        !mapped ==> is_error(s, "mmap failed"@),
        mapped ==> s == outcome(
            lock_ret == 0 && unlock_ret == 0,
            errno == ENOSYS || errno == EPERM,
            failure(0, lock_ret as i64, None, Some(errno)),
        ),
{
    if !mapped {
        return error("mmap failed");
    }
    decide(
        lock_ret == 0 && unlock_ret == 0,
        errno == ENOSYS || errno == EPERM,
        0,
        lock_ret as i64,
        None,
        Some(errno),
    )
}

/// A mapping at offset 4096 of a file whose second page is all 'B' should
/// start with 'B'.
pub fn mmap_offset(open_fd: i32, mapped: bool, errno: i32, first_byte: u8) -> (s: TestStatus)
    ensures
        open_fd < 0 ==> is_error(s, "open failed"@),
        open_fd >= 0 && !mapped ==> s == mapping_refused(errno),
        open_fd >= 0 && mapped ==> s == outcome(
            first_byte == 66,
            false,
            failure(66, first_byte as i64, None, None),
        ),
{
    if open_fd < 0 {
        return error("open failed");
    }
    if !mapped {
        return refused(errno);
    }
    decide(first_byte == 66, false, 66, first_byte as i64, None, None)
}

/// Growing an anonymous mapping whose first byte is 0xAB with `mremap`
/// should keep that byte.
pub fn mremap_grow(mapped: bool, remapped: bool, errno: i32, first_byte: u8) -> (s: TestStatus)
    ensures
        !mapped ==> is_error(s, "mmap failed"@),
        mapped && !remapped ==> s == mapping_refused(errno),
        mapped && remapped ==> s == outcome(
            first_byte == 0xAB,
            false,
            failure(0xAB, first_byte as i64, None, None),
        ),
{
    if !mapped {
        return error("mmap failed");
    }
    if !remapped {
        return refused(errno);
    }
    decide(first_byte == 0xAB, false, 0xAB, first_byte as i64, None, None)
}

} // verus!
