use vstd::prelude::*;

use crate::linux::ENOSYS;
use crate::runner::TestStatus;
use crate::verdict::{decide, error, failure, is_error, outcome};

verus! {

/// A value that threads or a thread-library call left behind should be
/// `expected`: a flag set by a joined thread (42), a counter two threads
/// incremented under a mutex (2000), a thread-specific value read back
/// (0xABCD), or the number of runs of a `pthread_once` routine (1). A thread
/// or key that cannot be created (`started` false) counts as not
/// implemented.
pub fn thread_value(started: bool, observed: i64, expected: i64) -> (s: TestStatus)
    ensures
        !started ==> s == TestStatus::Unimplemented,
        started ==> s == outcome(observed == expected, false, failure(expected, observed, None, None)),
{
    if !started {
        return TestStatus::Unimplemented;
    }
    decide(observed == expected, false, expected, observed, None, None)
}

/// `gettid` should return a positive thread id.
pub fn gettid_positive(ret: i64, errno: i32) -> (s: TestStatus)
    ensures
        s == outcome(ret > 0, errno == ENOSYS, failure(1, ret, None, Some(errno))),
{
    decide(ret > 0, errno == ENOSYS, 1, ret, None, Some(errno))
}

/// A thread waiting on a condition variable should be woken by
/// `pthread_cond_signal` once the flag it waits for is set (`ready` is the
/// flag after the join); a thread that cannot be created counts as not
/// implemented.
pub fn cond_signal(started: bool, ready: i32) -> (s: TestStatus)
    ensures
        !started ==> s == TestStatus::Unimplemented,
        started && ready == 1 ==> s == TestStatus::Pass,
        started && ready != 1 ==> is_error(s, "cond_signal did not wake waiter"@),
{
    if !started {
        TestStatus::Unimplemented
    } else if ready == 1 {
        TestStatus::Pass
    } else {
        error("cond_signal did not wake waiter")
    }
}

} // verus!
