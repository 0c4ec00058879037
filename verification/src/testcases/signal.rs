use vstd::prelude::*;

use crate::linux::{EINVAL, ENOSYS};
use crate::runner::TestStatus;
use crate::verdict::{
    check_errno, check_ret, decide, error, expect_errno, expect_ret, failure, is_error, outcome,
};

verus! {

/// `kill(getpid(), 0)` should return 0.
pub fn kill_self_zero(ret: i64, errno: i32) -> (s: TestStatus)
    ensures
        s == expect_ret(ret, errno, 0),
{
    check_ret(ret, errno, 0)
}

/// `kill(getpid(), 999)` should fail with EINVAL.
pub fn kill_invalid_signal(ret: i64, errno: i32) -> (s: TestStatus)
    ensures
        s == expect_errno(ret, errno, EINVAL),
{
    check_errno(ret, errno, EINVAL)
}

/// A SIGUSR1 handler installed with `sigaction` should run when the process
/// signals itself. A `sigaction` that fails is unimplemented on ENOSYS and a
/// test error otherwise.
pub fn sigaction_basic(install_ret: i32, install_errno: i32, handled: bool) -> (s: TestStatus)
    ensures
        install_ret != 0 && install_errno == ENOSYS ==> s == TestStatus::Unimplemented,
        install_ret != 0 && install_errno != ENOSYS ==> is_error(s, "sigaction failed"@),
        install_ret == 0 && handled ==> s == TestStatus::Pass,
        install_ret == 0 && !handled ==> is_error(s, "handler was not called"@),
{
    if install_ret != 0 {
        if install_errno == ENOSYS {
            return TestStatus::Unimplemented;
        }
        return error("sigaction failed");
    }
    if handled {
        TestStatus::Pass
    } else {
        error("handler was not called")
    }
}

/// `sigprocmask(SIG_BLOCK)` should return 0.
pub fn sigprocmask_block(ret: i32, errno: i32) -> (s: TestStatus)
    ensures
        s == expect_ret(ret as i64, errno, 0),
{
    check_ret(ret as i64, errno, 0)
}

/// After blocking SIGUSR1 and sending it, `sigpending` should return 0 with
/// SIGUSR1 in the set.
pub fn sigpending_blocked(ret: i32, is_member: i32, errno: i32) -> (s: TestStatus)
    ensures
        s == outcome(
            ret == 0 && is_member == 1,
            ret == -1 && errno == ENOSYS,
            failure(1, is_member as i64, None, None),
        ),
{
    decide(ret == 0 && is_member == 1, ret == -1 && errno == ENOSYS, 1, is_member as i64, None, None)
}

/// `raise(SIGUSR1)` should return 0 and run the installed handler.
pub fn raise_sigusr1(ret: i64, handled: bool, errno: i32) -> (s: TestStatus)
    ensures
        s == outcome(ret == 0 && handled, ret == -1 && errno == ENOSYS, failure(0, ret, None, None)),
{
    decide(ret == 0 && handled, ret == -1 && errno == ENOSYS, 0, ret, None, None)
}

} // verus!
