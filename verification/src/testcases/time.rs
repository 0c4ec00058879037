use vstd::prelude::*;

use crate::linux::{EINVAL, ENOSYS};
use crate::runner::TestStatus;
use crate::verdict::{check_errno, decide, expect_errno, failure, outcome};

verus! {

/// 2020-01-01T00:00:00Z in seconds since the Unix epoch.
pub const YEAR_2020: i64 = 1_577_836_800;

/// A clock read should return 0 with a time that satisfies `plausible`.
pub open spec fn expect_clock(ret: i64, plausible: bool, errno: i32) -> TestStatus {
    outcome(ret == 0 && plausible, errno == ENOSYS, failure(0, ret, None, Some(errno)))
}

/// A clock read passes exactly when it returned 0 with a plausible time;
/// otherwise ENOSYS makes it not implemented, and any other errno a failure
/// that records the return value.
pub proof fn lemma_expect_clock_rule(ret: i64, plausible: bool, errno: i32)
    ensures
        expect_clock(ret, plausible, errno) == TestStatus::Pass <==> ret == 0 && plausible,
        expect_clock(ret, plausible, errno) == TestStatus::Unimplemented <==> !(ret == 0 && plausible)
            && errno == 38,
        !(ret == 0 && plausible) && errno != 38 ==> expect_clock(ret, plausible, errno) == (
        TestStatus::Fail { expected_ret: 0, actual_ret: ret, expected_errno: None, actual_errno: Some(errno) }),
{
}

/// `clock_gettime(CLOCK_REALTIME)` should return 0 and a time after 2020.
pub fn clock_gettime_realtime(ret: i64, seconds: i64, errno: i32) -> (s: TestStatus)
    ensures
        s == expect_clock(ret, seconds > YEAR_2020, errno),
{
    decide(ret == 0 && seconds > YEAR_2020, errno == ENOSYS, 0, ret, None, Some(errno))
}

/// `clock_gettime(CLOCK_MONOTONIC)` should return 0 and a non-negative time.
pub fn clock_gettime_monotonic(ret: i64, seconds: i64, errno: i32) -> (s: TestStatus)
    ensures
        s == expect_clock(ret, seconds >= 0, errno),
{
    decide(ret == 0 && seconds >= 0, errno == ENOSYS, 0, ret, None, Some(errno))
}

/// `gettimeofday` should return 0 and a time after 2020.
pub fn gettimeofday_after_2020(ret: i64, seconds: i64, errno: i32) -> (s: TestStatus)
    ensures
        s == expect_clock(ret, seconds > YEAR_2020, errno),
{
    decide(ret == 0 && seconds > YEAR_2020, errno == ENOSYS, 0, ret, None, Some(errno))
}

/// A 1 ms `nanosleep` should return 0 after at least 900 microseconds.
pub fn nanosleep_basic(ret: i64, elapsed_us: u64, errno: i32) -> (s: TestStatus)
    ensures
        s == expect_clock(ret, elapsed_us >= 900, errno),
{
    decide(ret == 0 && elapsed_us >= 900, errno == ENOSYS, 0, ret, None, Some(errno))
}

/// `nanosleep` with `tv_nsec` of 2e9 should fail with EINVAL.
pub fn nanosleep_invalid(ret: i64, errno: i32) -> (s: TestStatus)
    ensures
        s == expect_errno(ret, errno, EINVAL),
{
    check_errno(ret, errno, EINVAL)
}

} // verus!
