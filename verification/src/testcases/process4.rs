use vstd::prelude::*;

use crate::linux::{EINTR, ENOSYS};
use crate::runner::TestStatus;
use crate::testcases::misc::str_equal;
use crate::text::{i32_text, signed_decimal};
use crate::verdict::{
    check_errno_strict, decide, error, failure, is_error, outcome, require_errno,
};

verus! {

/// A forked child should see the parent's process id as its parent
/// (`child_ppid`, sent back through a pipe).
pub fn fork_child_ppid(pipe_ok: bool, fork_pid: i32, parent: i32, child_ppid: i32) -> (s:
    TestStatus)
    ensures
        !pipe_ok ==> is_error(s, "pipe failed"@),
        pipe_ok && fork_pid < 0 ==> s == TestStatus::Unimplemented,
        pipe_ok && fork_pid >= 0 ==> s == outcome(
            child_ppid == parent,
            false,
            failure(parent as i64, child_ppid as i64, None, None),
        ),
{
    if !pipe_ok {
        return error("pipe failed");
    }
    if fork_pid < 0 {
        return TestStatus::Unimplemented;
    }
    decide(child_ppid == parent, false, parent as i64, child_ppid as i64, None, None)
}

/// `getenv("PATH")` should find the variable.
pub fn environ_path(found: bool) -> (s: TestStatus)
    ensures
        found ==> s == TestStatus::Pass,
        !found ==> is_error(s, "PATH not found in environ"@),
{
    if found {
        TestStatus::Pass
    } else {
        error("PATH not found in environ")
    }
}

/// The message of an environment test that failed: `label`, " ret=", the
/// call's result, " <name>=" and the value read back.
pub open spec fn env_message(label: Seq<char>, ret: i32, name: Seq<char>, value: Seq<char>) -> Seq<
    char,
> {
    label + " ret="@ + signed_decimal(ret as int) + " "@ + name + "="@ + value
}

fn env_error(label: &str, ret: i32, name: &str, value: &str) -> (s: TestStatus)
    ensures
        is_error(s, env_message(label@, ret, name@, value@)),
{
    let mut m = label.to_owned();
    m.append(" ret=");
    let r = i32_text(ret);
    m.append(r.as_str());
    m.append(" ");
    m.append(name);
    m.append("=");
    m.append(value);
    TestStatus::Error(m)
}

/// `putenv("SCT_PUTENV_VAR=42")` should return 0, after which `getenv` reads
/// "42" (`value`, "" for no value).
pub fn putenv_value(ret: i32, value: &str) -> (s: TestStatus)
    ensures
        ret == 0 && value@ == "42"@ ==> s == TestStatus::Pass,
        !(ret == 0 && value@ == "42"@) ==> is_error(s, env_message("putenv"@, ret, "val"@, value@)),
{
    if ret == 0 && str_equal(value, "42") {
        TestStatus::Pass
    } else {
        env_error("putenv", ret, "val", value)
    }
}

/// `clearenv` should return 0, after which a variable set to "yes" reads
/// back as "yes" (`value`, "" for no value).
pub fn clearenv_then_set(ret: i32, value: &str) -> (s: TestStatus)
    ensures
        ret == 0 && value@ == "yes"@ ==> s == TestStatus::Pass,
        !(ret == 0 && value@ == "yes"@) ==> is_error(s, env_message("clearenv"@, ret, "got"@, value@)),
{
    if ret == 0 && str_equal(value, "yes") {
        TestStatus::Pass
    } else {
        env_error("clearenv", ret, "got", value)
    }
}

/// A forked child that calls `setsid` should become the leader of the new
/// session: through a pipe it `reported` 1 when the session id is its own
/// process id, 0 otherwise.
pub fn setsid_child(pipe_ok: bool, fork_pid: i32, reported: i32) -> (s: TestStatus)
    ensures
        !pipe_ok ==> is_error(s, "pipe failed"@),
        pipe_ok && fork_pid < 0 ==> s == TestStatus::Unimplemented,
        pipe_ok && fork_pid >= 0 && reported == 1 ==> s == TestStatus::Pass,
        pipe_ok && fork_pid >= 0 && reported != 1 ==> is_error(s, "setsid() did not set sid == pid"@),
{
    if !pipe_ok {
        return error("pipe failed");
    }
    if fork_pid < 0 {
        return TestStatus::Unimplemented;
    }
    if reported == 1 {
        TestStatus::Pass
    } else {
        error("setsid() did not set sid == pid")
    }
}

/// `alarm(10)` should return 0 (no alarm before) and `alarm(0)` then 10;
/// a failure reports the second value.
pub fn alarm_cancel(first: u32, second: u32) -> (s: TestStatus)
    ensures
        s == outcome(first == 0 && second == 10, false, failure(10, second as i64, None, None)),
{
    decide(first == 0 && second == 10, false, 10, second as i64, None, None)
}

/// `pause`, interrupted by a signal a child sends, should fail with EINTR; a
/// `fork` that fails counts as not implemented.
pub fn pause_eintr(fork_pid: i32, ret: i32, errno: i32) -> (s: TestStatus)
    ensures
        fork_pid < 0 ==> s == TestStatus::Unimplemented,
        fork_pid >= 0 ==> s == require_errno(ret as i64, errno, EINTR),
{
    if fork_pid < 0 {
        return TestStatus::Unimplemented;
    }
    check_errno_strict(ret as i64, errno, EINTR)
}

/// `getpgid(0)` should return a positive process group id.
pub fn getpgid_self(ret: i64, errno: i32) -> (s: TestStatus)
    ensures
        s == outcome(ret > 0, errno == ENOSYS, failure(1, ret, None, Some(errno))),
{
    decide(ret > 0, errno == ENOSYS, 1, ret, None, Some(errno))
}

} // verus!
