use vstd::prelude::*;

use crate::linux::ENOSYS;
use crate::runner::TestStatus;
use crate::verdict::{
    check_ret, check_success_with, decide, error, expect_ret, expect_success_with, failure,
    is_error, outcome,
};

verus! {

/// `sched_getscheduler(0)` should return a policy, that is a value of at
/// least 0.
pub fn getscheduler_nonnegative(ret: i64, errno: i32) -> (s: TestStatus)
    ensures
        s == outcome(ret >= 0, errno == ENOSYS, failure(0, ret, None, Some(errno))),
{
    decide(ret >= 0, errno == ENOSYS, 0, ret, None, Some(errno))
}

/// `sched_getparam(0)` should return 0 with a priority of at least 0.
pub fn getparam_priority(ret: i32, priority: i32, errno: i32) -> (s: TestStatus)
    ensures
        s == expect_success_with(ret as i64, priority >= 0, errno),
{
    check_success_with(ret as i64, priority >= 0, errno)
}

/// `sched_get_priority_max` and `sched_get_priority_min` of `SCHED_OTHER`
/// should both be 0; a failure reports the maximum.
pub fn priority_range(max: i32, min: i32, errno: i32) -> (s: TestStatus)
    ensures
        s == outcome(max == 0 && min == 0, errno == ENOSYS, failure(0, max as i64, None, Some(errno))),
{
    decide(max == 0 && min == 0, errno == ENOSYS, 0, max as i64, None, Some(errno))
}

/// Setting the nice value to its current value `original` should return 0,
/// after which `getpriority` reads `original` back without setting errno; a
/// failure reports the value read back.
pub fn setpriority_roundtrip(original: i32, set_ret: i32, errno: i32, read_back: i32, read_errno: i32)
    -> (s: TestStatus)
    ensures
        s == outcome(
            set_ret == 0 && read_back == original && read_errno == 0,
            errno == ENOSYS,
            failure(original as i64, read_back as i64, None, Some(errno)),
        ),
{
    decide(
        set_ret == 0 && read_back == original && read_errno == 0,
        errno == ENOSYS,
        original as i64,
        read_back as i64,
        None,
        Some(errno),
    )
}

/// `prlimit(0, RLIMIT_NOFILE, NULL, &old)` should return 0 with a positive
/// soft limit.
pub fn prlimit_nofile(ret: i32, soft_limit: u64, errno: i32) -> (s: TestStatus)
    ensures
        s == expect_success_with(ret as i64, soft_limit > 0, errno),
{
    check_success_with(ret as i64, soft_limit > 0, errno)
}

/// `mincore` of a touched anonymous page should return 0.
pub fn mincore_touched(mapped: bool, ret: i64, errno: i32) -> (s: TestStatus)
    ensures
        !mapped ==> is_error(s, "mmap failed"@),
        mapped ==> s == expect_ret(ret, errno, 0),
{
    if !mapped {
        return error("mmap failed");
    }
    check_ret(ret, errno, 0)
}

/// `getloadavg` of 3 values should return 3, all of them non-negative
/// (`non_negative`, as the caller compared the floating-point values).
pub fn getloadavg_three(ret: i32, non_negative: bool, errno: i32) -> (s: TestStatus)
    ensures
        s == outcome(ret == 3 && non_negative, errno == ENOSYS, failure(3, ret as i64, None, Some(errno))),
{
    decide(ret == 3 && non_negative, errno == ENOSYS, 3, ret as i64, None, Some(errno))
}

} // verus!
