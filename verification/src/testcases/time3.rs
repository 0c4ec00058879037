use vstd::prelude::*;

use crate::runner::TestStatus;
use crate::verdict::{check_success_with, decide, expect_success_with, failure, outcome};

verus! {

/// `timerfd_gettime` of a timer armed for 60 s should return 0 with time
/// left on it; a timer that cannot be created counts as not implemented.
pub fn timerfd_gettime(fd: i32, ret: i32, remaining_sec: i64, errno: i32) -> (s: TestStatus)
    ensures
        fd < 0 ==> s == TestStatus::Unimplemented,
        fd >= 0 ==> s == expect_success_with(ret as i64, remaining_sec > 0, errno),
{
    if fd < 0 {
        return TestStatus::Unimplemented;
    }
    check_success_with(ret as i64, remaining_sec > 0, errno)
}

/// Five 1 ms `nanosleep` calls should take at least 4500 microseconds in
/// all; a failure reports the time against 5000.
pub fn nanosleep_accumulate(elapsed_us: u64) -> (s: TestStatus)
    requires
        elapsed_us <= i64::MAX,
    ensures
        s == outcome(elapsed_us >= 4500, false, failure(5000, elapsed_us as i64, None, None)),
{
    decide(elapsed_us >= 4500, false, 5000, elapsed_us as i64, None, None)
}

/// `clock_nanosleep(TIMER_ABSTIME)` to 1 ms from now should return 0 after
/// at least 500 microseconds.
pub fn clock_nanosleep_abstime(ret: i64, elapsed_us: u64, errno: i32) -> (s: TestStatus)
    ensures
        s == expect_success_with(ret, elapsed_us >= 500, errno),
{
    check_success_with(ret, elapsed_us >= 500, errno)
}

} // verus!
