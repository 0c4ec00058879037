use vstd::prelude::*;

use crate::runner::TestStatus;
use crate::testcases::sysinfo::{contains_bytes, find_bytes};
use crate::text::{i32_text, signed_decimal};
use crate::verdict::{check_success_with, decide, error, expect_success_with, failure, is_error, outcome};

verus! {

/// Reading `/proc/self/cmdline` should return some bytes; a file that cannot
/// be opened counts as not implemented.
pub fn proc_cmdline(open_fd: i32, read: i64) -> (s: TestStatus)
    ensures
        open_fd < 0 ==> s == TestStatus::Unimplemented,
        open_fd >= 0 && read > 0 ==> s == TestStatus::Pass,
        open_fd >= 0 && read <= 0 ==> is_error(s, "/proc/self/cmdline empty"@),
{
    if open_fd < 0 {
        TestStatus::Unimplemented
    } else if read > 0 {
        TestStatus::Pass
    } else {
        error("/proc/self/cmdline empty")
    }
}

/// Whether `text` begins with `prefix`.
pub open spec fn starts_with(text: Seq<char>, prefix: Seq<char>) -> bool {
    prefix.len() <= text.len() && text.subrange(0, prefix.len() as int) == prefix
}

fn str_starts_with(text: &str, prefix: &str) -> (r: bool)
    ensures
        r == starts_with(text@, prefix@),
{
    let n = prefix.unicode_len();
    if n > text.unicode_len() {
        return false;
    }
    let mut i: usize = 0;
    while i < n
        invariant
            n == prefix@.len(),
            n <= text@.len(),
            i <= n,
            forall|j: int| 0 <= j < i ==> text@[j] == prefix@[j],
        decreases n - i,
    {
        if text.get_char(i) != prefix.get_char(i) {
            assert(text@.subrange(0, n as int)[i as int] != prefix@[i as int]);
            return false;
        }
        i = i + 1;
    }
    assert(text@.subrange(0, n as int) =~= prefix@);
    true
}

/// The text of `/proc/self/stat` should begin with the caller's process id
/// in decimal; otherwise the error shows `head`, the beginning of the text
/// (its first 20 bytes). A file that cannot be opened counts as not
/// implemented.
pub fn proc_stat(open_fd: i32, text: &str, head: &str, pid: i32) -> (s: TestStatus)
    ensures
        open_fd < 0 ==> s == TestStatus::Unimplemented,
        open_fd >= 0 && starts_with(text@, signed_decimal(pid as int)) ==> s == TestStatus::Pass,
        open_fd >= 0 && !starts_with(text@, signed_decimal(pid as int)) ==> is_error(
            s,
            "stat starts with: "@ + head@,
        ),
{
    if open_fd < 0 {
        return TestStatus::Unimplemented;
    }
    let id = i32_text(pid);
    if str_starts_with(text, id.as_str()) {
        TestStatus::Pass
    } else {
        let mut m = "stat starts with: ".to_owned();
        m.append(head);
        TestStatus::Error(m)
    }
}

/// The text of a `/proc` file should hold `field`; otherwise the test error
/// is `missing`. A file that cannot be opened counts as not implemented.
pub fn proc_text_has(open_fd: i32, text: &[u8], field: &[u8], missing: &str) -> (s: TestStatus)
    ensures
        open_fd < 0 ==> s == TestStatus::Unimplemented,
        open_fd >= 0 && contains_bytes(text@, field@) ==> s == TestStatus::Pass,
        open_fd >= 0 && !contains_bytes(text@, field@) ==> is_error(s, missing@),
{
    if open_fd < 0 {
        TestStatus::Unimplemented
    } else if find_bytes(text, field) {
        TestStatus::Pass
    } else {
        error(missing)
    }
}

/// The first number of `/proc/uptime` should be positive (`positive`, as the
/// caller parsed and compared the floating-point value); otherwise the error
/// shows the text. A file that cannot be opened counts as not implemented.
pub fn proc_uptime(open_fd: i32, positive: bool, text: &str) -> (s: TestStatus)
    ensures
        open_fd < 0 ==> s == TestStatus::Unimplemented,
        open_fd >= 0 && positive ==> s == TestStatus::Pass,
        open_fd >= 0 && !positive ==> is_error(s, "unexpected uptime: "@ + text@),
{
    if open_fd < 0 {
        TestStatus::Unimplemented
    } else if positive {
        TestStatus::Pass
    } else {
        let mut m = "unexpected uptime: ".to_owned();
        m.append(text);
        TestStatus::Error(m)
    }
}

/// A `sysconf` value that should be at least `minimum`; a failure reports
/// `expected` as the value expected.
pub fn sysconf_at_least(ret: i64, minimum: i64, expected: i64) -> (s: TestStatus)
    ensures
        s == outcome(ret >= minimum, false, failure(expected, ret, None, None)),
{
    decide(ret >= minimum, false, expected, ret, None, None)
}

/// The `rlim_t` value that means "no limit".
pub const RLIM_INFINITY: u64 = 0xffff_ffff_ffff_ffff;

/// `getrlimit(RLIMIT_NPROC)` should return 0 with a positive or infinite
/// soft limit.
pub fn nproc_limit(ret: i32, soft_limit: u64, errno: i32) -> (s: TestStatus)
    ensures
        s == expect_success_with(ret as i64, soft_limit > 0 || soft_limit == RLIM_INFINITY, errno),
{
    check_success_with(ret as i64, soft_limit > 0 || soft_limit == RLIM_INFINITY, errno)
}

} // verus!
