use vstd::prelude::*;

use crate::linux::ENOSYS;
use crate::runner::TestStatus;
use crate::testcases::compat_check::{nanos, reading_nanos};
use crate::testcases::time::YEAR_2020;
use crate::verdict::{check_success_with, decide, expect_success_with, failure, outcome};

verus! {

/// `clock_getres(CLOCK_REALTIME)` should return 0 with a resolution of at
/// most 1 ms.
pub fn getres_realtime(ret: i32, nsec: i64, errno: i32) -> (s: TestStatus)
    ensures
        s == expect_success_with(ret as i64, nsec <= 1_000_000, errno),
{
    check_success_with(ret as i64, nsec <= 1_000_000, errno)
}

/// `clock_getres(CLOCK_MONOTONIC)` should return 0 with a non-negative
/// resolution.
pub fn getres_monotonic(ret: i32, nsec: i64, errno: i32) -> (s: TestStatus)
    ensures
        s == expect_success_with(ret as i64, nsec >= 0, errno),
{
    check_success_with(ret as i64, nsec >= 0, errno)
}

/// Two consecutive `CLOCK_MONOTONIC` readings (seconds, nanoseconds): the
/// second must not be earlier than the first; otherwise the test fails with
/// the expected value 1 and the actual value 0.
pub fn monotonic_pair(first: (i64, i64), second: (i64, i64)) -> (s: TestStatus)
    ensures
        s == outcome(reading_nanos(second) >= reading_nanos(first), false, failure(1, 0, None, None)),
{
    let a = nanos(first);
    let b = nanos(second);
    decide(b >= a, false, 1, 0, None, None)
}

/// `setitimer(ITIMER_REAL, 10 s)` and `getitimer` should both return 0, the
/// latter with time left on the timer; a failure reports `setitimer`.
pub fn setitimer_getitimer(set_ret: i32, get_ret: i32, remaining_sec: i64, errno: i32) -> (s:
    TestStatus)
    ensures
        s == outcome(
            set_ret == 0 && get_ret == 0 && remaining_sec > 0,
            errno == ENOSYS,
            failure(0, set_ret as i64, None, Some(errno)),
        ),
{
    decide(
        set_ret == 0 && get_ret == 0 && remaining_sec > 0,
        errno == ENOSYS,
        0,
        set_ret as i64,
        None,
        Some(errno),
    )
}

/// `time(NULL)` should return a time after the start of 2020.
pub fn time_basic(ret: i64, errno: i32) -> (s: TestStatus)
    ensures
        s == outcome(ret > YEAR_2020, errno == ENOSYS, failure(YEAR_2020, ret, None, Some(errno))),
{
    decide(ret > YEAR_2020, errno == ENOSYS, YEAR_2020, ret, None, Some(errno))
}

} // verus!
