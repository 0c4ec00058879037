use vstd::prelude::*;

use crate::linux::ENOSYS;
use crate::runner::TestStatus;
use crate::verdict::{
    check_success_with, decide, error, expect_success_with, failure, is_error, outcome,
};

verus! {

/// Whether a NUL-terminated buffer holds a non-empty string: its first byte
/// is there and is not NUL.
pub open spec fn nonempty_c_string(buf: Seq<u8>) -> bool {
    buf.len() > 0 && buf[0] != 0
}

/// `uname` should return 0 with a non-empty `sysname`, and `gethostname` 0
/// with a non-empty name (`name` is the buffer the call filled).
pub fn name_reported(ret: i32, name: &[u8], errno: i32) -> (s: TestStatus)
    ensures
        s == expect_success_with(ret as i64, nonempty_c_string(name@), errno),
{
    let nonempty = name.len() > 0 && name[0] != 0;
    check_success_with(ret as i64, nonempty, errno)
}

/// `sysinfo` should return 0 with some RAM and a non-negative uptime.
pub fn sysinfo_basic(ret: i32, total_ram: u64, uptime: i64, errno: i32) -> (s: TestStatus)
    ensures
        s == expect_success_with(ret as i64, total_ram > 0 && uptime >= 0, errno),
{
    check_success_with(ret as i64, total_ram > 0 && uptime >= 0, errno)
}

/// `getrlimit` of `RLIMIT_NOFILE` or `RLIMIT_STACK` should return 0 with a
/// positive soft limit.
pub fn soft_limit_positive(ret: i32, soft_limit: u64, errno: i32) -> (s: TestStatus)
    ensures
        s == expect_success_with(ret as i64, soft_limit > 0, errno),
{
    check_success_with(ret as i64, soft_limit > 0, errno)
}

/// Setting the soft `RLIMIT_CORE` to 0 should return 0, after which
/// `getrlimit` reads 0 back; a failure reports `setrlimit`.
pub fn setrlimit_core(ret: i32, soft_after: u64, errno: i32) -> (s: TestStatus)
    ensures
        s == expect_success_with(ret as i64, soft_after == 0, errno),
{
    check_success_with(ret as i64, soft_after == 0, errno)
}

/// Whether `n` is a power of two.
pub open spec fn is_power_of_two(n: int) -> bool
    decreases n,
{
    if n <= 0 {
        false
    } else if n == 1 {
        true
    } else {
        n % 2 == 0 && is_power_of_two(n / 2)
    }
}

/// Every power of two, 2 to the `k`, passes the test.
proof fn lemma_pow2_is_power_of_two(k: nat)
    ensures
        is_power_of_two(vstd::arithmetic::power2::pow2(k) as int),
    decreases k,
{
    vstd::arithmetic::power2::lemma_pow2_pos(k);
    if k == 0 {
        vstd::arithmetic::power::lemma_pow0(2);
    } else {
        lemma_pow2_is_power_of_two((k - 1) as nat);
        vstd::arithmetic::power2::lemma_pow2_unfold(k);
        vstd::arithmetic::power2::lemma_pow2_pos((k - 1) as nat);
    }
}

/// Whatever passes the test is 2 to some power.
proof fn lemma_power_of_two_is_pow2(n: int)
    requires
        is_power_of_two(n),
    ensures
        exists|k: nat| vstd::arithmetic::power2::pow2(k) == n,
    decreases n,
{
    if n == 1 {
        vstd::arithmetic::power::lemma_pow0(2);
        assert(vstd::arithmetic::power2::pow2(0) == n);
    } else {
        lemma_power_of_two_is_pow2(n / 2);
        let k = choose|k: nat| vstd::arithmetic::power2::pow2(k) == n / 2;
        vstd::arithmetic::power2::lemma_pow2_unfold(k + 1);
        assert(vstd::arithmetic::power2::pow2(k + 1) == n);
    }
}

/// `n` passes the test exactly when it is 2 to some power: 1, 2, 4, 8, ...
pub proof fn lemma_power_of_two_rule(n: int)
    ensures
        is_power_of_two(n) <==> exists|k: nat| vstd::arithmetic::power2::pow2(k) == n,
{
    if is_power_of_two(n) {
        lemma_power_of_two_is_pow2(n);
    }
    if exists|k: nat| vstd::arithmetic::power2::pow2(k) == n {
        let k = choose|k: nat| vstd::arithmetic::power2::pow2(k) == n;
        lemma_pow2_is_power_of_two(k);
    }
}

fn power_of_two(n: i32) -> (r: bool)
    ensures
        r == is_power_of_two(n as int),
{
    if n <= 0 {
        return false;
    }
    let mut m: i32 = n;
    while m > 1 && m % 2 == 0
        invariant
            m > 0,
            is_power_of_two(m as int) == is_power_of_two(n as int),
        decreases m,
    {
        m = m / 2;
    }
    m == 1
}

/// The page size should be a power of two of at least 4096.
pub fn page_size(size: i32) -> (s: TestStatus)
    ensures
        s == outcome(
            size >= 4096 && is_power_of_two(size as int),
            false,
            failure(4096, size as i64, None, None),
        ),
{
    let pow = power_of_two(size);
    decide(size >= 4096 && pow, false, 4096, size as i64, None, None)
}

/// `sysconf(_SC_NPROCESSORS_ONLN)` should report at least one processor.
pub fn online_processors(ret: i64, errno: i32) -> (s: TestStatus)
    ensures
        s == outcome(ret >= 1, errno == ENOSYS, failure(1, ret, None, Some(errno))),
{
    decide(ret >= 1, errno == ENOSYS, 1, ret, None, Some(errno))
}

/// `sysconf(_SC_PAGE_SIZE)` should agree with the page size `getpagesize`
/// reports (`expected`).
pub fn page_size_agrees(ret: i64, expected: i64) -> (s: TestStatus)
    ensures
        s == outcome(ret == expected, false, failure(expected, ret, None, None)),
{
    decide(ret == expected, false, expected, ret, None, None)
}

/// Whether `needle` occurs in `hay` at position `i`.
pub open spec fn occurs_at(hay: Seq<u8>, needle: Seq<u8>, i: int) -> bool {
    0 <= i && i + needle.len() <= hay.len() && hay.subrange(i, i + needle.len()) == needle
}

/// Whether `needle` occurs anywhere in `hay`.
pub open spec fn contains_bytes(hay: Seq<u8>, needle: Seq<u8>) -> bool {
    exists|i: int| occurs_at(hay, needle, i)
}

fn matches_at(hay: &[u8], needle: &[u8], i: usize) -> (r: bool)
    requires
        i + needle@.len() <= hay@.len(),
    ensures
        r == occurs_at(hay@, needle@, i as int),
{
    let n = hay.len();
    let mut k: usize = 0;
    while k < needle.len()
        invariant
            n == hay@.len(),
            i + needle@.len() <= hay@.len(),
            k <= needle@.len(),
            forall|j: int| 0 <= j < k ==> hay@[i + j] == needle@[j],
        decreases needle@.len() - k,
    {
        if hay[i + k] != needle[k] {
            assert(hay@.subrange(i as int, i + needle@.len())[k as int] != needle@[k as int]);
            return false;
        }
        k = k + 1;
    }
    assert(hay@.subrange(i as int, i + needle@.len()) =~= needle@);
    true
}

/// Whether `needle` occurs in `hay`.
pub fn find_bytes(hay: &[u8], needle: &[u8]) -> (r: bool)
    ensures
        r == contains_bytes(hay@, needle@),
{
    if needle.len() > hay.len() {
        return false;
    }
    let last = hay.len() - needle.len();
    let mut i: usize = 0;
    loop
        invariant
            last + needle@.len() == hay@.len(),
            i <= last,
            forall|j: int| 0 <= j < i ==> !occurs_at(hay@, needle@, j),
        ensures
            forall|j: int| 0 <= j <= last ==> !occurs_at(hay@, needle@, j),
        decreases last - i,
    {
        if matches_at(hay, needle, i) {
            return true;
        }
        if i == last {
            break;
        }
        i = i + 1;
    }
    assert forall|j: int| !occurs_at(hay@, needle@, j) by {
        if 0 <= j && j + needle@.len() <= hay@.len() {
            assert(j <= last);
        }
    }
    false
}

/// The text of `/proc/self/status` (as read, decoded as UTF-8, empty where
/// it is not) should hold the field "Name:"; a status file that cannot be
/// opened counts as not implemented.
pub fn proc_self_status(open_fd: i32, text: &[u8]) -> (s: TestStatus)
    ensures
        open_fd < 0 ==> s == TestStatus::Unimplemented,
        open_fd >= 0 && contains_bytes(text@, seq![78u8, 97u8, 109u8, 101u8, 58u8]) ==> s
            == TestStatus::Pass,
        open_fd >= 0 && !contains_bytes(text@, seq![78u8, 97u8, 109u8, 101u8, 58u8]) ==> is_error(
            s,
            "/proc/self/status missing 'Name:' field"@,
        ),
{
    if open_fd < 0 {
        return TestStatus::Unimplemented;
    }
    let field: [u8; 5] = [78u8, 97u8, 109u8, 101u8, 58u8];
    assert(field@ =~= seq![78u8, 97u8, 109u8, 101u8, 58u8]);
    if find_bytes(text, field.as_slice()) {
        TestStatus::Pass
    } else {
        error("/proc/self/status missing 'Name:' field")
    }
}

} // verus!
