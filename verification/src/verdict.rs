use vstd::prelude::*;

use crate::linux::ENOSYS;
use crate::runner::TestStatus;
use crate::text::{i32_text, signed_decimal};

verus! {

/// The failure status that records the expected and the actual return value
/// and errno.
pub open spec fn failure(
    expected_ret: i64,
    actual_ret: i64,
    expected_errno: Option<i32>,
    actual_errno: Option<i32>,
) -> TestStatus {
    TestStatus::Fail { expected_ret, actual_ret, expected_errno, actual_errno }
}

/// The status of a check: `Pass` when the expected behaviour was seen,
/// otherwise `Unimplemented` when the syscall reported ENOSYS, otherwise the
/// failure `fail`.
pub open spec fn outcome(passed: bool, unimplemented: bool, fail: TestStatus) -> TestStatus {
    if passed {
        TestStatus::Pass
    } else if unimplemented {
        TestStatus::Unimplemented
    } else {
        fail
    }
}

/// Whether `s` is a test error with the message `msg`.
pub open spec fn is_error(s: TestStatus, msg: Seq<char>) -> bool {
    match s {
        TestStatus::Error(m) => m@ == msg,
        _ => false,
    }
}

/// The status of a call that should return `expected`.
pub open spec fn expect_ret(ret: i64, errno: i32, expected: i64) -> TestStatus {
    outcome(ret == expected, errno == ENOSYS, failure(expected, ret, None, Some(errno)))
}

/// The status of a call that should fail with -1 and errno `expected_errno`.
pub open spec fn expect_errno(ret: i64, errno: i32, expected_errno: i32) -> TestStatus {
    outcome(
        ret == -1 && errno == expected_errno,
        errno == ENOSYS,
        failure(-1i64, ret, Some(expected_errno), Some(errno)),
    )
}

/// The status of a call that should fail with -1 and errno `expected_errno`,
/// where ENOSYS gets no special treatment.
pub open spec fn require_errno(ret: i64, errno: i32, expected_errno: i32) -> TestStatus {
    outcome(
        ret == -1 && errno == expected_errno,
        false,
        failure(-1i64, ret, Some(expected_errno), Some(errno)),
    )
}

/// The status of a call that should return `expected`, where ENOSYS gets no
/// special treatment.
pub open spec fn require_ret(ret: i64, errno: i32, expected: i64) -> TestStatus {
    outcome(ret == expected, false, failure(expected, ret, None, Some(errno)))
}

/// The status of a call that should fail with -1 and errno `first` or
/// `second`; a failure reports `first` as the errno expected.
pub open spec fn require_errno_either(ret: i64, errno: i32, first: i32, second: i32) -> TestStatus {
    outcome(
        ret == -1 && (errno == first || errno == second),
        false,
        failure(-1i64, ret, Some(first), Some(errno)),
    )
}

/// The status of a call that should return 0 and leave `effect` holding
/// afterwards.
pub open spec fn expect_success_with(ret: i64, effect: bool, errno: i32) -> TestStatus {
    outcome(ret == 0 && effect, errno == ENOSYS, failure(0, ret, None, Some(errno)))
}

/// The status of a call that should return a new descriptor; a failure
/// reports 3, the lowest descriptor a fresh process hands out, as expected.
pub open spec fn expect_new_fd(fd: i64, errno: i32) -> TestStatus {
    outcome(fd >= 0, errno == ENOSYS, failure(3, fd, None, Some(errno)))
}

/// The status of a call that should return a count or an id, that is a
/// value of at least 0.
pub open spec fn expect_nonnegative(ret: i64, errno: i32) -> TestStatus {
    outcome(ret >= 0, errno == ENOSYS, failure(0, ret, None, Some(errno)))
}

/// A call expected to return `expected` passes exactly when it returned
/// `expected`; otherwise ENOSYS makes it not implemented, and any other
/// errno a failure that records what was expected and what was seen.
pub proof fn lemma_expect_ret_rule(ret: i64, errno: i32, expected: i64)
    ensures
        expect_ret(ret, errno, expected) == TestStatus::Pass <==> ret == expected,
        expect_ret(ret, errno, expected) == TestStatus::Unimplemented <==> ret != expected && errno == 38,
        ret != expected && errno != 38 ==> expect_ret(ret, errno, expected) == (TestStatus::Fail {
            expected_ret: expected,
            actual_ret: ret,
            expected_errno: None,
            actual_errno: Some(errno),
        }),
{
}

/// A call expected to fail with errno `e` passes exactly when it returned
/// -1 with errno `e`; any other errno is not accepted (ENOSYS makes it not
/// implemented, the rest are failures that record both errnos).
pub proof fn lemma_expect_errno_rule(ret: i64, errno: i32, e: i32)
    ensures
        expect_errno(ret, errno, e) == TestStatus::Pass <==> ret == -1 && errno == e,
        expect_errno(ret, errno, e) == TestStatus::Unimplemented <==> !(ret == -1 && errno == e)
            && errno == 38,
        !(ret == -1 && errno == e) && errno != 38 ==> expect_errno(ret, errno, e) == (TestStatus::Fail {
            expected_ret: -1i64,
            actual_ret: ret,
            expected_errno: Some(e),
            actual_errno: Some(errno),
        }),
{
}

/// Under the strict rule, a call expected to fail with errno `e` passes
/// exactly when it returned -1 with errno `e`, and every other outcome,
/// ENOSYS included, is a failure that records both errnos.
pub proof fn lemma_require_errno_rule(ret: i64, errno: i32, e: i32)
    ensures
        require_errno(ret, errno, e) == TestStatus::Pass <==> ret == -1 && errno == e,
        !(ret == -1 && errno == e) ==> require_errno(ret, errno, e) == (TestStatus::Fail {
            expected_ret: -1i64,
            actual_ret: ret,
            expected_errno: Some(e),
            actual_errno: Some(errno),
        }),
{
}

/// Under the strict rule, a call expected to return `expected` passes
/// exactly when it did, and is a failure otherwise, ENOSYS included.
pub proof fn lemma_require_ret_rule(ret: i64, errno: i32, expected: i64)
    ensures
        require_ret(ret, errno, expected) == TestStatus::Pass <==> ret == expected,
        ret != expected ==> require_ret(ret, errno, expected) == (TestStatus::Fail {
            expected_ret: expected,
            actual_ret: ret,
            expected_errno: None,
            actual_errno: Some(errno),
        }),
{
}

/// A call expected to fail with one of two errnos passes exactly when it
/// returned -1 with one of them, and is a failure otherwise.
pub proof fn lemma_require_errno_either_rule(ret: i64, errno: i32, first: i32, second: i32)
    ensures
        require_errno_either(ret, errno, first, second) == TestStatus::Pass <==> ret == -1 && (
        errno == first || errno == second),
        !(ret == -1 && (errno == first || errno == second)) ==> require_errno_either(
            ret,
            errno,
            first,
            second,
        ) == (TestStatus::Fail {
            expected_ret: -1i64,
            actual_ret: ret,
            expected_errno: Some(first),
            actual_errno: Some(errno),
        }),
{
}

/// A call that should return 0 with a visible effect passes exactly when it
/// returned 0 and the effect was seen.
pub proof fn lemma_expect_success_with_rule(ret: i64, effect: bool, errno: i32)
    ensures
        expect_success_with(ret, effect, errno) == TestStatus::Pass <==> ret == 0 && effect,
        expect_success_with(ret, effect, errno) == TestStatus::Unimplemented <==> !(ret == 0 && effect)
            && errno == 38,
        !(ret == 0 && effect) && errno != 38 ==> expect_success_with(ret, effect, errno) == (
        TestStatus::Fail { expected_ret: 0, actual_ret: ret, expected_errno: None, actual_errno: Some(errno) }),
{
}

/// A call that should return a descriptor, a count or an id passes exactly
/// when it returned a value of at least 0.
pub proof fn lemma_expect_nonnegative_rules(ret: i64, errno: i32)
    ensures
        expect_new_fd(ret, errno) == TestStatus::Pass <==> ret >= 0,
        expect_nonnegative(ret, errno) == TestStatus::Pass <==> ret >= 0,
        expect_new_fd(ret, errno) == TestStatus::Unimplemented <==> ret < 0 && errno == 38,
        expect_nonnegative(ret, errno) == TestStatus::Unimplemented <==> ret < 0 && errno == 38,
        ret < 0 && errno != 38 ==> expect_new_fd(ret, errno) == (TestStatus::Fail {
            expected_ret: 3,
            actual_ret: ret,
            expected_errno: None,
            actual_errno: Some(errno),
        }),
        ret < 0 && errno != 38 ==> expect_nonnegative(ret, errno) == (TestStatus::Fail {
            expected_ret: 0,
            actual_ret: ret,
            expected_errno: None,
            actual_errno: Some(errno),
        }),
{
}

/// Builds the status of a check (see `outcome`).
pub fn decide(
    passed: bool,
    unimplemented: bool,
    expected_ret: i64,
    actual_ret: i64,
    expected_errno: Option<i32>,
    actual_errno: Option<i32>,
) -> (s: TestStatus)
    ensures
        s == outcome(
            passed,
            unimplemented,
            failure(expected_ret, actual_ret, expected_errno, actual_errno),
        ),
{
    if passed {
        TestStatus::Pass
    } else if unimplemented {
        TestStatus::Unimplemented
    } else {
        TestStatus::Fail { expected_ret, actual_ret, expected_errno, actual_errno }
    }
}

/// The status of a call that should return `expected`.
pub fn check_ret(ret: i64, errno: i32, expected: i64) -> (s: TestStatus)
    ensures
        s == expect_ret(ret, errno, expected),
{
    decide(ret == expected, errno == ENOSYS, expected, ret, None, Some(errno))
}

/// The status of a call that should fail with -1 and errno `expected_errno`.
pub fn check_errno(ret: i64, errno: i32, expected_errno: i32) -> (s: TestStatus)
    ensures
        s == expect_errno(ret, errno, expected_errno),
{
    decide(
        ret == -1 && errno == expected_errno,
        errno == ENOSYS,
        -1,
        ret,
        Some(expected_errno),
        Some(errno),
    )
}

/// The status of a call that should fail with -1 and errno `expected_errno`,
/// where ENOSYS gets no special treatment.
pub fn check_errno_strict(ret: i64, errno: i32, expected_errno: i32) -> (s: TestStatus)
    ensures
        s == require_errno(ret, errno, expected_errno),
{
    decide(ret == -1 && errno == expected_errno, false, -1, ret, Some(expected_errno), Some(errno))
}

/// The status of a call that should return `expected` (see `require_ret`).
pub fn check_ret_strict(ret: i64, errno: i32, expected: i64) -> (s: TestStatus)
    ensures
        s == require_ret(ret, errno, expected),
{
    decide(ret == expected, false, expected, ret, None, Some(errno))
}

/// The status of a call that should fail with -1 and errno `first` or
/// `second` (see `require_errno_either`).
pub fn check_errno_either(ret: i64, errno: i32, first: i32, second: i32) -> (s: TestStatus)
    ensures
        s == require_errno_either(ret, errno, first, second),
{
    decide(ret == -1 && (errno == first || errno == second), false, -1, ret, Some(first), Some(errno))
}

/// The status of a call that should return 0 and leave `effect` holding
/// (see `expect_success_with`).
pub fn check_success_with(ret: i64, effect: bool, errno: i32) -> (s: TestStatus)
    ensures
        s == expect_success_with(ret, effect, errno),
{
    decide(ret == 0 && effect, errno == ENOSYS, 0, ret, None, Some(errno))
}

/// The status of a call that should return a new descriptor (see
/// `expect_new_fd`).
pub fn check_new_fd(fd: i64, errno: i32) -> (s: TestStatus)
    ensures
        s == expect_new_fd(fd, errno),
{
    decide(fd >= 0, errno == ENOSYS, 3, fd, None, Some(errno))
}

/// The status of a call that should return a value of at least 0 (see
/// `expect_nonnegative`).
pub fn check_nonnegative(ret: i64, errno: i32) -> (s: TestStatus)
    ensures
        s == expect_nonnegative(ret, errno),
{
    decide(ret >= 0, errno == ENOSYS, 0, ret, None, Some(errno))
}

/// A test error with the message `msg`.
pub fn error(msg: &str) -> (s: TestStatus)
    ensures
        is_error(s, msg@),
{
    TestStatus::Error(msg.to_owned())
}

/// A test error whose message is `prefix` followed by `code` in decimal.
pub fn error_with_code(prefix: &str, code: i32) -> (s: TestStatus)
    ensures
        is_error(s, prefix@ + signed_decimal(code as int)),
{
    let mut m = prefix.to_owned();
    let t = i32_text(code);
    m.append(t.as_str());
    TestStatus::Error(m)
}

/// Whether two byte strings are equal.
pub fn bytes_equal(a: &[u8], b: &[u8]) -> (r: bool)
    ensures
        r == (a@ == b@),
{
    if a.len() != b.len() {
        return false;
    }
    let mut i: usize = 0;
    while i < a.len()
        invariant
            i <= a@.len(),
            a@.len() == b@.len(),
            forall|k: int| 0 <= k < i ==> a@[k] == b@[k],
        decreases a@.len() - i,
    {
        if a[i] != b[i] {
            return false;
        }
        i = i + 1;
    }
    assert(a@ =~= b@);
    true
}

} // verus!
