use vstd::prelude::*;

use crate::linux::{ECHILD, ENOSYS};
use crate::runner::TestStatus;
use crate::testcases::process::{exit_code_of, reported_exit_code};
use crate::verdict::{decide, error, failure, is_error, outcome};

verus! {

/// `getpgrp` should return a positive process group id.
pub fn getpgrp_positive(ret: i64) -> (s: TestStatus)
    ensures
        s == outcome(ret > 0, false, failure(1, ret, None, None)),
{
    decide(ret > 0, false, 1, ret, None, None)
}

/// `geteuid` and `getegid` should return a non-negative id.
pub fn effective_id_valid(ret: i64) -> (s: TestStatus)
    ensures
        s == outcome(ret >= 0, false, failure(0, ret, None, None)),
{
    decide(ret >= 0, false, 0, ret, None, None)
}

/// A child that exits with 0 should be reaped by `waitpid` with exit code 0.
/// A `fork` that fails is not implemented on ENOSYS and a test error
/// otherwise.
pub fn fork_wait(fork_pid: i32, fork_errno: i32, wait_ret: i32, wait_status: i32) -> (s:
    TestStatus)
    ensures
        fork_pid < 0 && fork_errno == ENOSYS ==> s == TestStatus::Unimplemented,
        fork_pid < 0 && fork_errno != ENOSYS ==> is_error(s, "fork failed"@),
        fork_pid >= 0 ==> s == outcome(
            wait_ret == fork_pid && reported_exit_code(wait_status) == 0,
            false,
            failure(0, reported_exit_code(wait_status) as i64, None, None),
        ),
{
    if fork_pid < 0 {
        if fork_errno == ENOSYS {
            return TestStatus::Unimplemented;
        }
        return error("fork failed");
    }
    let code = exit_code_of(wait_status);
    decide(wait_ret == fork_pid && code == 0, false, 0, code as i64, None, None)
}

/// `waitpid(-1, WNOHANG)` with no children should return 0 or fail with
/// ECHILD.
pub fn waitpid_nohang(ret: i64, errno: i32) -> (s: TestStatus)
    ensures
        s == outcome(
            ret == 0 || (ret == -1 && errno == ECHILD),
            errno == ENOSYS,
            failure(-1i64, ret, Some(ECHILD), Some(errno)),
        ),
{
    decide(ret == 0 || (ret == -1 && errno == ECHILD), errno == ENOSYS, -1, ret, Some(ECHILD), Some(errno))
}

/// A child that runs `/bin/true` should be reaped with exit code 0, and one
/// that runs `/bin/false` (`expect_success` false) with a code other than 0;
/// a failure reports the code, against 0 or 1. A `fork` that fails counts as
/// not implemented.
pub fn execve_exit(fork_pid: i32, expect_success: bool, wait_ret: i32, wait_status: i32) -> (s:
    TestStatus)
    ensures
        fork_pid < 0 ==> s == TestStatus::Unimplemented,
        fork_pid >= 0 && expect_success ==> s == outcome(
            wait_ret == fork_pid && reported_exit_code(wait_status) == 0,
            false,
            failure(0, reported_exit_code(wait_status) as i64, None, None),
        ),
        fork_pid >= 0 && !expect_success ==> s == outcome(
            wait_ret == fork_pid && reported_exit_code(wait_status) != 0,
            false,
            failure(1, reported_exit_code(wait_status) as i64, None, None),
        ),
{
    if fork_pid < 0 {
        return TestStatus::Unimplemented;
    }
    let code = exit_code_of(wait_status);
    if expect_success {
        decide(wait_ret == fork_pid && code == 0, false, 0, code as i64, None, None)
    } else {
        decide(wait_ret == fork_pid && code != 0, false, 1, code as i64, None, None)
    }
}

/// `getpriority(PRIO_PROCESS, 0)`, called with errno cleared, should leave
/// errno at 0; a failure reports errno as the value.
pub fn getpriority_errno(errno: i32) -> (s: TestStatus)
    ensures
        s == outcome(errno == 0, errno == ENOSYS, failure(0, errno as i64, None, Some(errno))),
{
    decide(errno == 0, errno == ENOSYS, 0, errno as i64, None, Some(errno))
}

} // verus!
