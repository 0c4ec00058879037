use vstd::prelude::*;

use crate::runner::{category_label, SyscallCategory, TestResult, TestStatus};
use crate::text::{i64_text, lemma_signed_decimal_chars, lemma_signed_decimal_injective, signed_decimal};

verus! {

/// The order in which the console report lists categories: by label,
/// alphabetically ("File I/O", "Memory", "Network", "Other", "Process",
/// "Signal", "Time").
pub open spec fn report_order() -> Seq<SyscallCategory> {
    seq![
        SyscallCategory::FileIO,
        SyscallCategory::Memory,
        SyscallCategory::Network,
        SyscallCategory::Other,
        SyscallCategory::Process,
        SyscallCategory::Signal,
        SyscallCategory::Time,
    ]
}

/// The positions below `n` of the results whose category is `c`, in
/// increasing order.
pub open spec fn positions_below(results: Seq<TestResult>, c: SyscallCategory, n: nat) -> Seq<usize>
    decreases n,
{
    if n == 0 {
        Seq::empty()
    } else {
        let rest = positions_below(results, c, (n - 1) as nat);
        if results[n - 1].category == c {
            rest.push((n - 1) as usize)
        } else {
            rest
        }
    }
}

/// The positions of the results whose category is `c`, in increasing order.
pub open spec fn positions_of(results: Seq<TestResult>, c: SyscallCategory) -> Seq<usize> {
    positions_below(results, c, results.len())
}

/// The categories among the first `k` of `report_order()` that some result
/// has, in that order.
pub open spec fn present_in_order(results: Seq<TestResult>, k: nat) -> Seq<SyscallCategory>
    decreases k,
{
    if k == 0 {
        Seq::empty()
    } else {
        let rest = present_in_order(results, (k - 1) as nat);
        let c = report_order()[k - 1];
        if positions_of(results, c).len() > 0 {
            rest.push(c)
        } else {
            rest
        }
    }
}

/// The categories that some result has, in report order.
pub open spec fn present_categories(results: Seq<TestResult>) -> Seq<SyscallCategory> {
    present_in_order(results, 7)
}

/// The place of a category in `report_order()`.
pub open spec fn report_rank(c: SyscallCategory) -> int {
    match c {
        SyscallCategory::FileIO => 0,
        SyscallCategory::Memory => 1,
        SyscallCategory::Network => 2,
        SyscallCategory::Other => 3,
        SyscallCategory::Process => 4,
        SyscallCategory::Signal => 5,
        SyscallCategory::Time => 6,
    }
}

/// Whether text `a` sorts strictly before text `b` (lexicographic order on
/// code points, the order of `str`'s `Ord`).
pub open spec fn text_before(a: Seq<char>, b: Seq<char>) -> bool
    decreases a.len(),
{
    if a.len() == 0 {
        b.len() > 0
    } else if b.len() == 0 {
        false
    } else if a[0] != b[0] {
        (a[0] as u32) < (b[0] as u32)
    } else {
        text_before(a.drop_first(), b.drop_first())
    }
}

proof fn lemma_positions_below(results: Seq<TestResult>, c: SyscallCategory, n: nat)
    requires
        n <= results.len(),
        results.len() <= usize::MAX,
    ensures
        forall|i: int|
            0 <= i < results.len() ==> (positions_below(results, c, n).contains(i as usize) <==> (i
                < n && results[i].category == c)),
    decreases n,
{
    if n > 0 {
        lemma_positions_below(results, c, (n - 1) as nat);
        let rest = positions_below(results, c, (n - 1) as nat);
        broadcast use vstd::seq_lib::lemma_seq_contains_after_push;
    }
}

proof fn lemma_present_in_order(results: Seq<TestResult>, k: nat)
    requires
        k <= 7,
    ensures
        forall|c: SyscallCategory|
            present_in_order(results, k).contains(c) <==> (report_rank(c) < k && positions_of(
                results,
                c,
            ).len() > 0),
        forall|a: int, b: int|
            0 <= a < b < present_in_order(results, k).len() ==> report_rank(
                #[trigger] present_in_order(results, k)[a],
            ) < report_rank(#[trigger] present_in_order(results, k)[b]),
        forall|a: int|
            0 <= a < present_in_order(results, k).len() ==> report_rank(
                #[trigger] present_in_order(results, k)[a],
            ) < k,
    decreases k,
{
    if k > 0 {
        lemma_present_in_order(results, (k - 1) as nat);
        let rest = present_in_order(results, (k - 1) as nat);
        let c = report_order()[k - 1];
        assert(report_rank(c) == k - 1);
        broadcast use vstd::seq_lib::lemma_seq_contains_after_push;
        assert forall|d: SyscallCategory|
            present_in_order(results, k).contains(d) <==> (report_rank(d) < k && positions_of(
                results,
                d,
            ).len() > 0) by {
            if report_rank(d) == k - 1 {
                assert(d == c);
            }
        }
    }
}

/// Every result is listed in the console report exactly once: its position
/// is among the members of the group of its own category, which the report
/// has, and among those of no other group.
pub proof fn lemma_groups_partition_results(results: Seq<TestResult>, i: int, c: SyscallCategory)
    requires
        0 <= i < results.len(),
        results.len() <= usize::MAX,
    ensures
        positions_of(results, c).contains(i as usize) <==> results[i].category == c,
        present_categories(results).contains(results[i].category),
{
    lemma_positions_below(results, c, results.len());
    lemma_positions_below(results, results[i].category, results.len());
    lemma_present_in_order(results, 7);
    assert(positions_of(results, results[i].category).contains(i as usize));
}

proof fn lemma_labels_in_rank_order(a: SyscallCategory, b: SyscallCategory)
    requires
        report_rank(a) < report_rank(b),
    ensures
        text_before(category_label(a), category_label(b)),
{
    reveal_strlit("File I/O");
    reveal_strlit("Memory");
    reveal_strlit("Network");
    reveal_strlit("Other");
    reveal_strlit("Process");
    reveal_strlit("Signal");
    reveal_strlit("Time");
}

/// The console report lists its groups in strictly increasing order of
/// their category labels, with no category twice.
pub proof fn lemma_groups_sorted_by_label(results: Seq<TestResult>, j: int, k: int)
    requires
        0 <= j < k < present_categories(results).len(),
    ensures
        text_before(
            category_label(present_categories(results)[j]),
            category_label(present_categories(results)[k]),
        ),
{
    lemma_present_in_order(results, 7);
    lemma_labels_in_rank_order(present_categories(results)[j], present_categories(results)[k]);
}

/// The results of one category, as the console report lists them.
pub struct CategoryGroup {
    pub category: SyscallCategory,
    /// Positions in the result list, in increasing order.
    pub members: Vec<usize>,
}

/// The colour a console status is printed in.
#[derive(Debug, Clone, Copy, PartialEq, Eq, Structural)]
pub enum Tone {
    Green,
    Yellow,
    Red,
}

/// The text and colour of a status in the console report.
pub struct ConsoleStatus {
    pub text: String,
    pub tone: Tone,
}

/// The console text of a status.
pub open spec fn console_status_text(s: TestStatus) -> Seq<char> {
    match s {
        TestStatus::Pass => "PASS"@,
        TestStatus::Fail { expected_ret, actual_ret, .. } => "FAIL (ret: expected="@ + signed_decimal(
            expected_ret as int,
        ) + ", got="@ + signed_decimal(actual_ret as int) + ")"@,
        TestStatus::Unimplemented => "ENOSYS"@,
        TestStatus::Error(e) => "ERROR: "@ + e@,
    }
}

/// The console colour of a status.
pub open spec fn console_status_tone(s: TestStatus) -> Tone {
    match s {
        TestStatus::Pass => Tone::Green,
        TestStatus::Fail { .. } => Tone::Red,
        TestStatus::Unimplemented => Tone::Yellow,
        TestStatus::Error(_) => Tone::Red,
    }
}

/// The console text of a failure shows the expected return value, sign
/// included, right after "FAIL (ret: expected=": it starts with '-'
/// exactly when that value is negative.
pub proof fn lemma_fail_text_sign(s: TestStatus)
    requires
        s is Fail,
    ensures
        console_status_text(s).len() > 20,
        console_status_text(s)[20] == '-' <==> s->expected_ret < 0,
{
    reveal_strlit("FAIL (ret: expected=");
    let d = signed_decimal(s->expected_ret as int);
    lemma_signed_decimal_chars(s->expected_ret as int);
    assert(console_status_text(s)[20] == d[0]);
}

/// The console text of a failure gives back the two return values it
/// records: two failures shown with the same text expected the same return
/// value and got the same one.
pub proof fn lemma_fail_text_shows_return_values(s1: TestStatus, s2: TestStatus)
    requires
        s1 is Fail,
        s2 is Fail,
        console_status_text(s1) == console_status_text(s2),
    ensures
        s1->expected_ret == s2->expected_ret,
        s1->actual_ret == s2->actual_ret,
{
    reveal_strlit("FAIL (ret: expected=");
    reveal_strlit(", got=");
    reveal_strlit(")");
    let t = console_status_text(s1);
    let e1 = signed_decimal(s1->expected_ret as int);
    let e2 = signed_decimal(s2->expected_ret as int);
    let a1 = signed_decimal(s1->actual_ret as int);
    let a2 = signed_decimal(s2->actual_ret as int);
    lemma_signed_decimal_chars(s1->expected_ret as int);
    lemma_signed_decimal_chars(s2->expected_ret as int);
    let p = "FAIL (ret: expected="@;
    let q = ", got="@;
    let r = ")"@;
    assert(t == p + e1 + q + a1 + r);
    assert(t == p + e2 + q + a2 + r);
    assert(t[20 + e1.len() as int] == ',');
    assert(t[20 + e2.len() as int] == ',');
    if e1.len() < e2.len() {
        assert(t[20 + e1.len() as int] == e2[e1.len() as int]);
        assert(false);
    }
    if e2.len() < e1.len() {
        assert(t[20 + e2.len() as int] == e1[e2.len() as int]);
        assert(false);
    }
    assert(e1 =~= t.subrange(20, 20 + e1.len() as int));
    assert(e2 =~= t.subrange(20, 20 + e2.len() as int));
    lemma_signed_decimal_injective(s1->expected_ret as int, s2->expected_ret as int);
    let start: int = 26 + e1.len() as int;
    assert(a1 =~= t.subrange(start, t.len() as int - 1));
    assert(a2 =~= t.subrange(start, t.len() as int - 1));
    lemma_signed_decimal_injective(s1->actual_ret as int, s2->actual_ret as int);
}

/// Only a `Pass` is shown in green; failures and errors are shown in red,
/// `Unimplemented` in yellow.
pub proof fn lemma_status_tones(s: TestStatus)
    ensures
        console_status_tone(s) == Tone::Green <==> s is Pass,
        console_status_tone(s) == Tone::Yellow <==> s is Unimplemented,
        console_status_tone(s) == Tone::Red <==> (s is Fail || s is Error),
{
}

/// How a status is shown in the console report.
pub fn console_status(status: &TestStatus) -> (c: ConsoleStatus)
    ensures
        c.text@ == console_status_text(*status),
        c.tone == console_status_tone(*status),
{
    match status {
        TestStatus::Pass => ConsoleStatus { text: "PASS".to_owned(), tone: Tone::Green },
        TestStatus::Fail { expected_ret, actual_ret, .. } => {
            let mut text = "FAIL (ret: expected=".to_owned();
            let e = i64_text(*expected_ret);
            text.append(e.as_str());
            text.append(", got=");
            let a = i64_text(*actual_ret);
            text.append(a.as_str());
            text.append(")");
            ConsoleStatus { text, tone: Tone::Red }
        },
        TestStatus::Unimplemented => ConsoleStatus { text: "ENOSYS".to_owned(), tone: Tone::Yellow },
        TestStatus::Error(e) => {
            let mut text = "ERROR: ".to_owned();
            text.append(e.as_str());
            ConsoleStatus { text, tone: Tone::Red }
        },
    }
}

/// The categories in report order, as values.
fn category_at(k: usize) -> (c: SyscallCategory)
    requires
        k < 7,
    ensures
        c == report_order()[k as int],
{
    if k == 0 {
        SyscallCategory::FileIO
    } else if k == 1 {
        SyscallCategory::Memory
    } else if k == 2 {
        SyscallCategory::Network
    } else if k == 3 {
        SyscallCategory::Other
    } else if k == 4 {
        SyscallCategory::Process
    } else if k == 5 {
        SyscallCategory::Signal
    } else {
        SyscallCategory::Time
    }
}

/// The positions of the results of category `c`.
fn collect_positions(results: &[TestResult], c: SyscallCategory) -> (v: Vec<usize>)
    ensures
        v@ == positions_of(results@, c),
{
    let mut v: Vec<usize> = Vec::new();
    let mut i: usize = 0;
    while i < results.len()
        invariant
            i <= results@.len(),
            v@ == positions_below(results@, c, i as nat),
        decreases results@.len() - i,
    {
        if results[i].category == c {
            v.push(i);
        }
        i = i + 1;
    }
    v
}

/// The results grouped by category, as the console report lists them: one
/// group for each category that some result has, in report order (the
/// alphabetical order of the labels), each holding the positions of the
/// results of that category in the order they were run.
pub fn console_groups(results: &[TestResult]) -> (groups: Vec<CategoryGroup>)
    ensures
        groups@.len() == present_categories(results@).len(),
        forall|j: int|
            0 <= j < groups@.len() ==> {
                &&& #[trigger] groups@[j].category == present_categories(results@)[j]
                &&& groups@[j].members@ == positions_of(results@, groups@[j].category)
            },
{
    let mut groups: Vec<CategoryGroup> = Vec::new();
    let mut k: usize = 0;
    while k < 7
        invariant
            k <= 7,
            groups@.len() == present_in_order(results@, k as nat).len(),
            forall|j: int|
                0 <= j < groups@.len() ==> {
                    &&& #[trigger] groups@[j].category == present_in_order(results@, k as nat)[j]
                    &&& groups@[j].members@ == positions_of(results@, groups@[j].category)
                },
        decreases 7 - k,
    {
        let c = category_at(k);
        let members = collect_positions(results, c);
        if members.len() > 0 {
            groups.push(CategoryGroup { category: c, members });
        }
        k = k + 1;
    }
    groups
}

} // verus!
