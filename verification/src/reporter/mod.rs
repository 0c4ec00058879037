use vstd::prelude::*;

pub mod console;
pub mod markdown;

use crate::runner::{TestResult, TestStatus};

verus! {

/// The four outcomes a test result is counted under.
#[derive(Debug, Clone, Copy, PartialEq, Eq, Structural)]
pub enum StatusKind {
    Passed,
    Failed,
    Unimplemented,
    Errored,
}

/// The outcome a status is counted under.
pub open spec fn kind_of(s: TestStatus) -> StatusKind {
    match s {
        TestStatus::Pass => StatusKind::Passed,
        TestStatus::Fail { .. } => StatusKind::Failed,
        TestStatus::Unimplemented => StatusKind::Unimplemented,
        TestStatus::Error(_) => StatusKind::Errored,
    }
}

/// How many of `results` have an outcome of kind `k`.
pub open spec fn count_kind(results: Seq<TestResult>, k: StatusKind) -> nat
    decreases results.len(),
{
    if results.len() == 0 {
        0
    } else {
        count_kind(results.drop_last(), k) + if kind_of(results.last().status) == k {
            1nat
        } else {
            0nat
        }
    }
}

/// Summary statistics for a test run.
///
/// The pass rate, a percentage, is derived from `passed` and `total` where
/// the summary is shown.
#[derive(Debug)]
pub struct RunSummary {
    pub total: usize,
    pub passed: usize,
    pub failed: usize,
    pub unimplemented: usize,
    pub errors: usize,
    pub timestamp: String,
    pub target_os: String,
}

/// A status is counted as passed exactly when it is `Pass`, as failed
/// exactly when it is a `Fail` (whatever the values it records), as not
/// implemented exactly when it is `Unimplemented` and as errored exactly
/// when it is an `Error`.
pub proof fn lemma_status_kinds(s: TestStatus)
    ensures
        kind_of(s) == StatusKind::Passed <==> s is Pass,
        kind_of(s) == StatusKind::Failed <==> s is Fail,
        kind_of(s) == StatusKind::Unimplemented <==> s is Unimplemented,
        kind_of(s) == StatusKind::Errored <==> s is Error,
{
}

/// Each count of a run is the number of results with that status: the
/// passed count is the number of `Pass` results, the failed count the
/// number of `Fail` results, and so on.
pub proof fn lemma_counts_are_status_counts(results: Seq<TestResult>)
    ensures
        count_kind(results, StatusKind::Passed) == results.filter(|r: TestResult| r.status is Pass).len(),
        count_kind(results, StatusKind::Failed) == results.filter(|r: TestResult| r.status is Fail).len(),
        count_kind(results, StatusKind::Unimplemented) == results.filter(
            |r: TestResult| r.status is Unimplemented,
        ).len(),
        count_kind(results, StatusKind::Errored) == results.filter(|r: TestResult| r.status is Error).len(),
    decreases results.len(),
{
    reveal_with_fuel(Seq::filter, 1);
    if results.len() > 0 {
        lemma_counts_are_status_counts(results.drop_last());
        lemma_status_kinds(results.last().status);
    }
}

/// Every result is counted under exactly one outcome, so the four counts of
/// a run add up to the number of results.
pub proof fn lemma_counts_cover_results(results: Seq<TestResult>)
    ensures
        count_kind(results, StatusKind::Passed) + count_kind(results, StatusKind::Failed)
            + count_kind(results, StatusKind::Unimplemented) + count_kind(
            results,
            StatusKind::Errored,
        ) == results.len(),
        count_kind(results, StatusKind::Passed) <= results.len(),
        count_kind(results, StatusKind::Failed) <= results.len(),
        count_kind(results, StatusKind::Unimplemented) <= results.len(),
        count_kind(results, StatusKind::Errored) <= results.len(),
    decreases results.len(),
{
    if results.len() > 0 {
        lemma_counts_cover_results(results.drop_last());
    }
}

/// Taking out the result at position `i` takes it out of its outcome's
/// count only.
proof fn lemma_count_kind_remove(results: Seq<TestResult>, i: int, k: StatusKind)
    requires
        0 <= i < results.len(),
    ensures
        count_kind(results, k) == count_kind(results.remove(i), k) + if kind_of(results[i].status)
            == k {
            1nat
        } else {
            0nat
        },
    decreases results.len(),
{
    if i == results.len() - 1 {
        assert(results.remove(i) =~= results.drop_last());
    } else {
        lemma_count_kind_remove(results.drop_last(), i, k);
        assert(results.remove(i).drop_last() =~= results.drop_last().remove(i));
    }
}

/// The counts of a run do not depend on the order of its results: two runs
/// with the same results, in any order, have the same count of each
/// outcome.
pub proof fn lemma_counts_ignore_order(a: Seq<TestResult>, b: Seq<TestResult>, k: StatusKind)
    requires
        a.to_multiset() == b.to_multiset(),
    ensures
        count_kind(a, k) == count_kind(b, k),
    decreases a.len(),
{
    broadcast use vstd::seq_lib::group_to_multiset_ensures;

    if a.len() == 0 {
        assert(b.len() == a.len()) by {
            vstd::seq_lib::to_multiset_len(a);
            vstd::seq_lib::to_multiset_len(b);
        }
    } else {
        let x = a.last();
        assert(a.contains(x)) by {
            assert(a[a.len() - 1] == x);
        }
        assert(b.to_multiset().count(x) > 0);
        assert(b.contains(x));
        let i = choose|i: int| 0 <= i < b.len() && b[i] == x;
        assert(a.drop_last() =~= a.remove(a.len() - 1));
        assert(a.drop_last().to_multiset() == a.to_multiset().remove(x));
        assert(b.remove(i).to_multiset() == b.to_multiset().remove(x));
        lemma_counts_ignore_order(a.drop_last(), b.remove(i), k);
        lemma_count_kind_remove(b, i, k);
    }
}

impl RunSummary {
    /// The summary of `results` for the target `target_os`, stamped with
    /// `timestamp`.
    pub fn from_results_at(results: &[TestResult], target_os: &str, timestamp: String) -> (s: Self)
        ensures
            s.total == results@.len(),
            s.passed == count_kind(results@, StatusKind::Passed),
            s.failed == count_kind(results@, StatusKind::Failed),
            s.unimplemented == count_kind(results@, StatusKind::Unimplemented),
            s.errors == count_kind(results@, StatusKind::Errored),
            s.passed == results@.filter(|r: TestResult| r.status is Pass).len(),
            s.failed == results@.filter(|r: TestResult| r.status is Fail).len(),
            s.unimplemented == results@.filter(|r: TestResult| r.status is Unimplemented).len(),
            s.errors == results@.filter(|r: TestResult| r.status is Error).len(),
            s.timestamp@ == timestamp@,
            s.target_os@ == target_os@,
    {
        let mut passed: usize = 0;
        let mut failed: usize = 0;
        let mut unimplemented: usize = 0;
        let mut errors: usize = 0;
        let mut i: usize = 0;
        while i < results.len()
            invariant
                i <= results@.len(),
                passed == count_kind(results@.take(i as int), StatusKind::Passed),
                failed == count_kind(results@.take(i as int), StatusKind::Failed),
                unimplemented == count_kind(results@.take(i as int), StatusKind::Unimplemented),
                errors == count_kind(results@.take(i as int), StatusKind::Errored),
            decreases results@.len() - i,
        {
            proof {
                assert(results@.take(i + 1).drop_last() =~= results@.take(i as int));
                lemma_counts_cover_results(results@.take(i as int));
            }
            match &results[i].status {
                TestStatus::Pass => { passed = passed + 1; },
                TestStatus::Fail { .. } => { failed = failed + 1; },
                TestStatus::Unimplemented => { unimplemented = unimplemented + 1; },
                TestStatus::Error(_) => { errors = errors + 1; },
            }
            i = i + 1;
        }
        assert(results@.take(i as int) =~= results@);
        proof {
            lemma_counts_are_status_counts(results@);
        }
        RunSummary {
            total: results.len(),
            passed,
            failed,
            unimplemented,
            errors,
            timestamp,
            target_os: target_os.to_owned(),
        }
    }
}

} // verus!
