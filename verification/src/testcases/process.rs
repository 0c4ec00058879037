use vstd::prelude::*;

use crate::linux::ENOSYS;
use crate::runner::TestStatus;
use crate::verdict::{decide, error, failure, is_error, outcome};

verus! {

/// `getpid` should return a positive process id.
pub fn getpid_positive(ret: i64) -> (s: TestStatus)
    ensures
        s == outcome(ret > 0, false, failure(1, ret, None, None)),
{
    decide(ret > 0, false, 1, ret, None, None)
}

/// `getppid` should return a non-negative process id.
pub fn getppid_nonnegative(ret: i64) -> (s: TestStatus)
    ensures
        s == outcome(ret >= 0, false, failure(1, ret, None, None)),
{
    decide(ret >= 0, false, 1, ret, None, None)
}

/// `getuid` should return a non-negative user id.
pub fn getuid_valid(ret: i64) -> (s: TestStatus)
    ensures
        s == outcome(ret >= 0, false, failure(0, ret, None, None)),
{
    decide(ret >= 0, false, 0, ret, None, None)
}

/// `getgid` should return a non-negative group id.
pub fn getgid_valid(ret: i64) -> (s: TestStatus)
    ensures
        s == outcome(ret >= 0, false, failure(0, ret, None, None)),
{
    decide(ret >= 0, false, 0, ret, None, None)
}

/// `umask(0o022)` should return a previous mask below 0o777.
pub fn umask_previous(previous: u32) -> (s: TestStatus)
    ensures
        s == outcome(previous < 0o777, false, failure(0o022, previous as i64, None, None)),
{
    decide(previous < 0o777u32, false, 0o022, previous as i64, None, None)
}

/// Whether a `waitpid` status reports a normal exit, as
/// `libc::WIFEXITED` computes it on Linux.
pub open spec fn exited_normally(status: i32) -> bool {
    (status & 0x7f) == 0
}

/// The exit code in a `waitpid` status, as `libc::WEXITSTATUS` computes it
/// on Linux.
pub open spec fn exit_status_code(status: i32) -> i32 {
    (status >> 8) & 0xff
}

/// Whether a `waitpid` status is that of a normal exit: the test of
/// `WIFEXITED` on Linux.
fn wifexited(status: i32) -> (r: bool)
    ensures
        r == exited_normally(status),
{
    (status & 0x7f) == 0
}

/// The exit code in a `waitpid` status: the value of `WEXITSTATUS` on
/// Linux.
fn wexitstatus(status: i32) -> (r: i32)
    ensures
        r == exit_status_code(status),
{
    (status >> 8) & 0xff
}

/// The exit code a `waitpid` status reports: the code of a normal exit, -1
/// otherwise.
pub open spec fn reported_exit_code(status: i32) -> i32 {
    if exited_normally(status) {
        exit_status_code(status)
    } else {
        -1i32
    }
}

/// A child that exited normally with code `c` (0 to 255) has the wait
/// status `c << 8`, which is reported as exit code `c`; a child killed by
/// signal `sig` (1 to 127) has the wait status `sig`, which is reported as
/// -1.
pub proof fn lemma_reported_exit_code(c: i32, sig: i32)
    ensures
        0 <= c < 256 ==> reported_exit_code(c << 8) == c,
        1 <= sig < 128 ==> reported_exit_code(sig) == -1,
{
    if 0 <= c < 256 {
        assert(((c << 8) & 0x7f) == 0 && (((c << 8) >> 8) & 0xff) == c) by (bit_vector)
            requires
                0 <= c < 256,
        ;
    }
    if 1 <= sig < 128 {
        assert((sig & 0x7f) != 0) by (bit_vector)
            requires
                1 <= sig < 128,
        ;
    }
}

/// The exit code a `waitpid` status reports (see `reported_exit_code`).
pub(crate) fn exit_code_of(status: i32) -> (code: i32)
    ensures
        code == reported_exit_code(status),
{
    if wifexited(status) {
        wexitstatus(status)
    } else {
        -1
    }
}

/// A child that calls `exit(42)` should be reaped by `waitpid` with exit
/// code 42. A `fork` that fails is unimplemented on ENOSYS and a test error
/// otherwise.
pub fn exit_code(fork_pid: i32, fork_errno: i32, wait_ret: i32, wait_status: i32) -> (s:
    TestStatus)
    ensures
        fork_pid < 0 && fork_errno == ENOSYS ==> s == TestStatus::Unimplemented,
        fork_pid < 0 && fork_errno != ENOSYS ==> is_error(s, "fork failed"@),
        fork_pid >= 0 ==> s == outcome(
            wait_ret == fork_pid && reported_exit_code(wait_status) == 42,
            false,
            failure(42, reported_exit_code(wait_status) as i64, None, None),
        ),
{
    if fork_pid < 0 {
        if fork_errno == ENOSYS {
            return TestStatus::Unimplemented;
        }
        return error("fork failed");
    }
    let code = exit_code_of(wait_status);
    decide(wait_ret == fork_pid && code == 42, false, 42, code as i64, None, None)
}

} // verus!
