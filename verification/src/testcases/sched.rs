use vstd::prelude::*;

use crate::linux::{ENOSYS, ESRCH, SCHED_BATCH, SCHED_FIFO, SCHED_OTHER, SCHED_RR};
use crate::runner::TestStatus;
use crate::verdict::{check_errno, decide, expect_errno, failure, outcome};

verus! {

/// `sched_getaffinity(0)` should return 0 with at least one CPU in the set
/// (`cpus` is the number of CPUs in it); an empty set fails with expected and
/// actual value 0.
pub fn getaffinity_self(ret: i64, cpus: u32, errno: i32) -> (s: TestStatus)
    ensures
        ret == 0 ==> s == outcome(cpus > 0, false, failure(0, 0, None, None)),
        ret != 0 ==> s == outcome(false, errno == ENOSYS, failure(0, ret, None, Some(errno))),
{
    if ret == 0 {
        decide(cpus > 0, false, 0, 0, None, None)
    } else {
        decide(false, errno == ENOSYS, 0, ret, None, Some(errno))
    }
}

/// `sched_getaffinity` of a process that does not exist should fail with
/// ESRCH.
pub fn getaffinity_bad_pid(ret: i64, errno: i32) -> (s: TestStatus)
    ensures
        s == expect_errno(ret, errno, ESRCH),
{
    check_errno(ret, errno, ESRCH)
}

/// Whether `policy` is one of the policies a process can run under:
/// `SCHED_OTHER`, `SCHED_FIFO`, `SCHED_RR` or `SCHED_BATCH`.
pub open spec fn known_policy(policy: i64) -> bool {
    policy == SCHED_OTHER || policy == SCHED_FIFO || policy == SCHED_RR || policy == SCHED_BATCH
}

/// `sched_getscheduler(0)` should return a known policy.
pub fn getscheduler_self(ret: i64, errno: i32) -> (s: TestStatus)
    ensures
        s == outcome(ret >= 0 && known_policy(ret), errno == ENOSYS, failure(0, ret, None, Some(errno))),
{
    let known = ret == SCHED_OTHER || ret == SCHED_FIFO || ret == SCHED_RR || ret == SCHED_BATCH;
    decide(ret >= 0 && known, errno == ENOSYS, 0, ret, None, Some(errno))
}

} // verus!
