use vstd::prelude::*;

use crate::linux::{EAGAIN, ENOENT};
use crate::runner::TestStatus;
use crate::text::{i32_text, signed_decimal};
use crate::verdict::{decide, error, failure, is_error, outcome};

verus! {

/// After a failing `open` of a missing path errno should be ENOENT, and a
/// later successful `getpid` should leave it ENOENT (a successful call does
/// not clear errno).
pub fn errno_kept_after_success(errno_after_fail: i32, errno_after_success: i32) -> (s: TestStatus)
    ensures
        s == outcome(
            errno_after_fail == ENOENT && errno_after_success == ENOENT,
            false,
            failure(ENOENT as i64, errno_after_fail as i64, None, Some(errno_after_success)),
        ),
{
    decide(
        errno_after_fail == ENOENT && errno_after_success == ENOENT,
        false,
        ENOENT as i64,
        errno_after_fail as i64,
        None,
        Some(errno_after_success),
    )
}

/// A `write` of `requested` bytes to a regular file should write them all.
pub fn write_exact_count(open_fd: i32, written: i64, requested: i64) -> (s: TestStatus)
    ensures
        open_fd < 0 ==> is_error(s, "open failed"@),
        open_fd >= 0 ==> s == outcome(written == requested, false, failure(requested, written, None, None)),
{
    if open_fd < 0 {
        return error("open failed");
    }
    decide(written == requested, false, requested, written, None, None)
}

/// A `read` of a regular file opened with `O_NONBLOCK` should return data
/// and never EAGAIN.
pub fn read_no_eagain(open_fd: i32, read: i64, errno: i32) -> (s: TestStatus)
    ensures
        open_fd < 0 ==> is_error(s, "open failed"@),
        open_fd >= 0 ==> s == outcome(
            read > 0 && errno != EAGAIN,
            false,
            failure(4, read, None, Some(errno)),
        ),
{
    if open_fd < 0 {
        return error("open failed");
    }
    decide(read > 0 && errno != EAGAIN, false, 4, read, None, Some(errno))
}

/// The value 42 held by the parent must survive the forked child writing
/// 999 to its own copy and sending it back; a pipe or fork that fails counts
/// as unimplemented.
pub fn fork_cow_memory(pipe_ret: i32, fork_pid: i32, parent_value: i32, child_value: i32) -> (s:
    TestStatus)
    ensures
        (pipe_ret != 0 || fork_pid < 0) ==> s == TestStatus::Unimplemented,
        pipe_ret == 0 && fork_pid >= 0 && parent_value == 42 && child_value == 999 ==> s
            == TestStatus::Pass,
        pipe_ret == 0 && fork_pid >= 0 && !(parent_value == 42 && child_value == 999) ==> is_error(
            s,
            "parent val="@ + signed_decimal(parent_value as int) + ", child val="@
                + signed_decimal(child_value as int),
        ),
{
    if pipe_ret != 0 || fork_pid < 0 {
        return TestStatus::Unimplemented;
    }
    if parent_value == 42 && child_value == 999 {
        TestStatus::Pass
    } else {
        let mut m = "parent val=".to_owned();
        let t = i32_text(parent_value);
        m.append(t.as_str());
        m.append(", child val=");
        let t = i32_text(child_value);
        m.append(t.as_str());
        TestStatus::Error(m)
    }
}

/// A file created with mode 0o666 under umask 0o022 should get the
/// permission bits 0o644.
pub fn open_mode_umask(open_fd: i32, mode: u32) -> (s: TestStatus)
    ensures
        open_fd < 0 ==> is_error(s, "open failed"@),
        open_fd >= 0 ==> s == outcome(
            (mode & 0o777u32) == 0o644u32,
            false,
            failure(0o644, (mode & 0o777u32) as i64, None, None),
        ),
{
    if open_fd < 0 {
        return error("open failed");
    }
    let bits = mode & 0o777u32;
    decide(bits == 0o644u32, false, 0o644, bits as i64, None, None)
}

/// After writing `written` bytes to a new file the offset should be
/// `written`.
pub fn offset_advances(open_fd: i32, written: i64, offset: i64) -> (s: TestStatus)
    ensures
        open_fd < 0 ==> is_error(s, "open failed"@),
        open_fd >= 0 ==> s == outcome(offset == written, false, failure(written, offset, None, None)),
{
    if open_fd < 0 {
        return error("open failed");
    }
    decide(offset == written, false, written, offset, None, None)
}

/// Two `getpid` calls in one process should return the same positive id.
pub fn getpid_consistent(first: i32, second: i32) -> (s: TestStatus)
    ensures
        s == outcome(first == second && first > 0, false, failure(first as i64, second as i64, None, None)),
{
    decide(first == second && first > 0, false, first as i64, second as i64, None, None)
}

/// The nanosecond value of a clock reading.
pub open spec fn reading_nanos(r: (i64, i64)) -> int {
    r.0 * 1_000_000_000 + r.1
}

/// The time a reading must not fall below: the reading before it, or 0 for
/// the first.
pub open spec fn floor_at(readings: Seq<(i64, i64)>, i: int) -> int {
    if i == 0 {
        0
    } else {
        reading_nanos(readings[i - 1])
    }
}

/// Whether the readings, taken in order after a start value of 0, never go
/// down.
pub open spec fn never_decreases(readings: Seq<(i64, i64)>) -> bool {
    forall|i: int| 0 <= i < readings.len() ==> reading_nanos(readings[i]) >= #[trigger] floor_at(readings, i)
}

/// Each reading is at least the one before it, by `never_decreases`.
proof fn lemma_readings_chain(readings: Seq<(i64, i64)>, i: int, j: int)
    requires
        never_decreases(readings),
        0 <= i <= j < readings.len(),
    ensures
        reading_nanos(readings[i]) <= reading_nanos(readings[j]),
    decreases j - i,
{
    if i < j {
        lemma_readings_chain(readings, i, j - 1);
        assert(reading_nanos(readings[j]) >= floor_at(readings, j));
    }
}

/// The readings never go down exactly when they are sorted: every reading
/// is at most every later one, and the first is not below 0.
pub proof fn lemma_never_decreases_means_sorted(readings: Seq<(i64, i64)>)
    ensures
        never_decreases(readings) <==> ((forall|i: int, j: int|
            0 <= i <= j < readings.len() ==> reading_nanos(readings[i]) <= reading_nanos(readings[j]))
            && (readings.len() > 0 ==> reading_nanos(readings[0]) >= 0)),
{
    if never_decreases(readings) {
        assert forall|i: int, j: int| 0 <= i <= j < readings.len() implies reading_nanos(readings[i])
            <= reading_nanos(readings[j]) by {
            lemma_readings_chain(readings, i, j);
        }
        if readings.len() > 0 {
            assert(reading_nanos(readings[0]) >= floor_at(readings, 0));
        }
    }
    if (forall|i: int, j: int|
        0 <= i <= j < readings.len() ==> reading_nanos(readings[i]) <= reading_nanos(readings[j]))
        && (readings.len() > 0 ==> reading_nanos(readings[0]) >= 0) {
        assert forall|i: int| 0 <= i < readings.len() implies reading_nanos(readings[i])
            >= #[trigger] floor_at(readings, i) by {
            if i > 0 {
                assert(reading_nanos(readings[i - 1]) <= reading_nanos(readings[i]));
            }
        }
    }
}

pub(crate) proof fn lemma_nanos_fit(sec: i64, nsec: i64)
    ensures
        -10_000_000_000_000_000_000_000_000_000 < sec * 1_000_000_000
            < 10_000_000_000_000_000_000_000_000_000,
        -10_000_000_000_000_000_000_000_000_000 < sec * 1_000_000_000 + nsec
            < 10_000_000_000_000_000_000_000_000_000,
{
    assert(-10_000_000_000_000_000_000_000_000_000 < sec * 1_000_000_000
        < 10_000_000_000_000_000_000_000_000_000) by (nonlinear_arith)
        requires
            i64::MIN <= sec <= i64::MAX,
    ;
}

/// The nanosecond value of a clock reading (seconds, nanoseconds).
pub(crate) fn nanos(r: (i64, i64)) -> (ns: i128)
    ensures
        ns == reading_nanos(r),
{
    let (sec, nsec) = r;
    proof {
        lemma_nanos_fit(sec, nsec);
    }
    sec as i128 * 1_000_000_000i128 + nsec as i128
}

/// The nanosecond value of the reading at `i`.
fn nanos_at(readings: &[(i64, i64)], i: usize) -> (ns: i128)
    requires
        i < readings@.len(),
    ensures
        ns == reading_nanos(readings@[i as int]),
{
    nanos(readings[i])
}

/// Consecutive `CLOCK_MONOTONIC` readings (seconds, nanoseconds) should form
/// a non-decreasing sequence of non-negative times.
pub fn monotonic_only_increases(readings: &[(i64, i64)]) -> (s: TestStatus)
    ensures
        never_decreases(readings@) ==> s == TestStatus::Pass,
        !never_decreases(readings@) ==> is_error(s, "CLOCK_MONOTONIC went backwards"@),
{
    let mut prev: i128 = 0;
    let mut i: usize = 0;
    while i < readings.len()
        invariant
            i <= readings@.len(),
            prev == floor_at(readings@, i as int),
            forall|k: int| 0 <= k < i ==> reading_nanos(readings@[k]) >= #[trigger] floor_at(readings@, k),
        decreases readings@.len() - i,
    {
        let ns = nanos_at(readings, i);
        if ns < prev {
            assert(reading_nanos(readings@[i as int]) < floor_at(readings@, i as int));
            return error("CLOCK_MONOTONIC went backwards");
        }
        prev = ns;
        i = i + 1;
    }
    TestStatus::Pass
}

/// Every byte of `page` is zero.
pub open spec fn all_zero(page: Seq<u8>) -> bool {
    forall|i: int| 0 <= i < page.len() ==> page[i] == 0
}

/// An anonymous mapping should read back as all zero bytes.
pub fn mmap_zero_initialized(mapped: bool, page: &[u8]) -> (s: TestStatus)
    ensures
        !mapped ==> is_error(s, "mmap failed"@),
        mapped && all_zero(page@) ==> s == TestStatus::Pass,
        mapped && !all_zero(page@) ==> is_error(s, "mmap anonymous page not zero-initialized"@),
{
    if !mapped {
        return error("mmap failed");
    }
    let mut i: usize = 0;
    while i < page.len()
        invariant
            mapped,
            i <= page@.len(),
            forall|k: int| 0 <= k < i ==> page@[k] == 0,
        decreases page@.len() - i,
    {
        if page[i] != 0 {
            return error("mmap anonymous page not zero-initialized");
        }
        i = i + 1;
    }
    TestStatus::Pass
}

} // verus!
