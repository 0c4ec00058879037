use vstd::prelude::*;

use crate::reporter::RunSummary;
use crate::runner::{category_label, TestResult, TestStatus};
use crate::text::{
    decimal, i64_text, lemma_signed_decimal_chars, lemma_signed_decimal_injective, option_debug,
    option_i32_debug, signed_decimal, u64_text,
};

verus! {

/// The icon of a status in the compatibility matrix.
pub open spec fn status_icon(s: TestStatus) -> Seq<char> {
    match s {
        TestStatus::Pass => "\u{2705}"@,
        TestStatus::Fail { .. } => "\u{274c}"@,
        TestStatus::Unimplemented => "\u{26a0}\u{fe0f}"@,
        TestStatus::Error(_) => "\u{1f4a5}"@,
    }
}

/// Each kind of status has its own icon: only a `Pass` is shown with the
/// check mark, every `Fail` (whatever values it records) with the cross,
/// `Unimplemented` with the warning sign and an `Error` with the collision
/// sign.
pub proof fn lemma_status_icons(s: TestStatus)
    ensures
        status_icon(s) == "\u{2705}"@ <==> s is Pass,
        status_icon(s) == "\u{274c}"@ <==> s is Fail,
        status_icon(s) == "\u{26a0}\u{fe0f}"@ <==> s is Unimplemented,
        status_icon(s) == "\u{1f4a5}"@ <==> s is Error,
{
    reveal_strlit("\u{2705}");
    reveal_strlit("\u{274c}");
    reveal_strlit("\u{26a0}\u{fe0f}");
    reveal_strlit("\u{1f4a5}");
    let pass = "\u{2705}"@;
    let fail = "\u{274c}"@;
    let unimpl = "\u{26a0}\u{fe0f}"@;
    let err = "\u{1f4a5}"@;
    assert(pass[0] != fail[0] && pass[0] != err[0] && fail[0] != err[0]);
    assert(pass.len() != unimpl.len() && fail.len() != unimpl.len() && err.len() != unimpl.len());
}

/// The notes column of a status in the compatibility matrix: the expected
/// and actual return value and errno of a failure, the message of an error,
/// nothing otherwise.
pub open spec fn status_notes(s: TestStatus) -> Seq<char> {
    match s {
        TestStatus::Fail { expected_ret, actual_ret, expected_errno, actual_errno } => "ret exp="@
            + signed_decimal(expected_ret as int) + " got="@ + signed_decimal(actual_ret as int)
            + ", errno exp="@ + option_debug(expected_errno) + " got="@ + option_debug(
            actual_errno,
        ),
        TestStatus::Error(e) => e@,
        _ => ""@,
    }
}

/// The notes of a failure show the expected return value, sign included,
/// right after "ret exp=": they start with '-' there exactly when that value
/// is negative.
pub proof fn lemma_fail_notes_sign(s: TestStatus)
    requires
        s is Fail,
    ensures
        status_notes(s).len() > 8,
        status_notes(s)[8] == '-' <==> s->expected_ret < 0,
{
    reveal_strlit("ret exp=");
    lemma_signed_decimal_chars(s->expected_ret as int);
    assert(status_notes(s)[8] == signed_decimal(s->expected_ret as int)[0]);
}

/// The notes of a failure give back the two return values it records: two
/// failures with the same notes expected the same return value and got the
/// same one.
pub proof fn lemma_fail_notes_show_return_values(s1: TestStatus, s2: TestStatus)
    requires
        s1 is Fail,
        s2 is Fail,
        status_notes(s1) == status_notes(s2),
    ensures
        s1->expected_ret == s2->expected_ret,
        s1->actual_ret == s2->actual_ret,
{
    reveal_strlit("ret exp=");
    reveal_strlit(" got=");
    reveal_strlit(", errno exp=");
    let t = status_notes(s1);
    let e1 = signed_decimal(s1->expected_ret as int);
    let e2 = signed_decimal(s2->expected_ret as int);
    let a1 = signed_decimal(s1->actual_ret as int);
    let a2 = signed_decimal(s2->actual_ret as int);
    lemma_signed_decimal_chars(s1->expected_ret as int);
    lemma_signed_decimal_chars(s2->expected_ret as int);
    lemma_signed_decimal_chars(s1->actual_ret as int);
    lemma_signed_decimal_chars(s2->actual_ret as int);
    let p = "ret exp="@;
    let q = " got="@;
    let r1 = ", errno exp="@ + option_debug(s1->expected_errno) + " got="@ + option_debug(
        s1->actual_errno,
    );
    let r2 = ", errno exp="@ + option_debug(s2->expected_errno) + " got="@ + option_debug(
        s2->actual_errno,
    );
    assert(t == p + e1 + q + a1 + r1);
    assert(t == p + e2 + q + a2 + r2);
    assert(t[8 + e1.len() as int] == ' ');
    assert(t[8 + e2.len() as int] == ' ');
    if e1.len() < e2.len() {
        assert(t[8 + e1.len() as int] == e2[e1.len() as int]);
        assert(false);
    }
    if e2.len() < e1.len() {
        assert(t[8 + e2.len() as int] == e1[e2.len() as int]);
        assert(false);
    }
    assert(e1 =~= t.subrange(8, 8 + e1.len() as int));
    assert(e2 =~= t.subrange(8, 8 + e2.len() as int));
    lemma_signed_decimal_injective(s1->expected_ret as int, s2->expected_ret as int);
    let start: int = 13 + e1.len() as int;
    assert(t[start + a1.len() as int] == ',');
    assert(t[start + a2.len() as int] == ',');
    if a1.len() < a2.len() {
        assert(t[start + a1.len() as int] == a2[a1.len() as int]);
        assert(false);
    }
    if a2.len() < a1.len() {
        assert(t[start + a2.len() as int] == a1[a2.len() as int]);
        assert(false);
    }
    assert(a1 =~= t.subrange(start, start + a1.len() as int));
    assert(a2 =~= t.subrange(start, start + a2.len() as int));
    lemma_signed_decimal_injective(s1->actual_ret as int, s2->actual_ret as int);
}

/// One row of the compatibility matrix.
pub open spec fn matrix_row(r: TestResult) -> Seq<char> {
    "| "@ + r.name@ + " | `"@ + r.syscall@ + "` | "@ + category_label(r.category) + " | "@
        + status_icon(r.status) + " | "@ + status_notes(r.status) + " |\n"@
}

/// The rows of the compatibility matrix, one per result, in order.
pub open spec fn matrix_rows(results: Seq<TestResult>) -> Seq<char>
    decreases results.len(),
{
    if results.len() == 0 {
        Seq::empty()
    } else {
        matrix_rows(results.drop_last()) + matrix_row(results.last())
    }
}

/// The title, the run details and the head of the compatibility matrix.
pub open spec fn report_head(
    target_os: Seq<char>,
    timestamp: Seq<char>,
    pass_rate_text: Seq<char>,
    passed: nat,
    total: nat,
) -> Seq<char> {
    "# syscall-compat-tests Report\n"@ + "\n"@ + "**Target OS:** "@ + target_os + "  \n"@
        + "**Date:** "@ + timestamp + "  \n"@ + "**Compatibility:** "@ + pass_rate_text + "% ("@
        + decimal(passed) + "/"@ + decimal(total) + " passed)  \n"@ + "\n"@
        + "## Compatibility Matrix\n"@ + "\n"@ + "| Test | Syscall | Category | "@ + target_os
        + " | Notes |\n"@ + "|------|---------|----------|:---:|-------|\n"@
}

/// The legend that closes the report.
pub open spec fn report_legend() -> Seq<char> {
    "\n"@ + "## Legend\n"@ + "\n"@ + "| Icon | Meaning |\n"@ + "|------|---------|\n"@
        + "| \u{2705} | Fully compatible |\n"@
        + "| \u{274c} | Incompatible (wrong return value or errno) |\n"@
        + "| \u{26a0}\u{fe0f} | Not implemented (ENOSYS) |\n"@ + "| \u{1f4a5} | Test error |\n"@
}

/// The whole Markdown report.
pub open spec fn markdown_text(
    results: Seq<TestResult>,
    target_os: Seq<char>,
    timestamp: Seq<char>,
    pass_rate_text: Seq<char>,
    passed: nat,
    total: nat,
) -> Seq<char> {
    report_head(target_os, timestamp, pass_rate_text, passed, total) + matrix_rows(results)
        + report_legend()
}

fn status_icon_text(status: &TestStatus) -> (s: &'static str)
    ensures
        s@ == status_icon(*status),
{
    match status {
        TestStatus::Pass => "\u{2705}",
        TestStatus::Fail { .. } => "\u{274c}",
        TestStatus::Unimplemented => "\u{26a0}\u{fe0f}",
        TestStatus::Error(_) => "\u{1f4a5}",
    }
}

fn status_notes_text(status: &TestStatus) -> (s: String)
    ensures
        s@ == status_notes(*status),
{
    match status {
        TestStatus::Fail { expected_ret, actual_ret, expected_errno, actual_errno } => {
            let mut s = "ret exp=".to_owned();
            let t = i64_text(*expected_ret);
            s.append(t.as_str());
            s.append(" got=");
            let t = i64_text(*actual_ret);
            s.append(t.as_str());
            s.append(", errno exp=");
            let t = option_i32_debug(*expected_errno);
            s.append(t.as_str());
            s.append(" got=");
            let t = option_i32_debug(*actual_errno);
            s.append(t.as_str());
            s
        },
        TestStatus::Error(e) => e.clone(),
        TestStatus::Pass => "".to_owned(),
        TestStatus::Unimplemented => "".to_owned(),
    }
}

fn matrix_row_text(r: &TestResult) -> (s: String)
    ensures
        s@ == matrix_row(*r),
{
    let mut s = "| ".to_owned();
    s.append(r.name.as_str());
    s.append(" | `");
    s.append(r.syscall.as_str());
    s.append("` | ");
    let c = r.category.to_string();
    s.append(c.as_str());
    s.append(" | ");
    s.append(status_icon_text(&r.status));
    s.append(" | ");
    let n = status_notes_text(&r.status);
    s.append(n.as_str());
    s.append(" |\n");
    s
}

fn report_head_text(summary: &RunSummary, pass_rate_text: &str) -> (s: String)
    ensures
        s@ == report_head(
            summary.target_os@,
            summary.timestamp@,
            pass_rate_text@,
            summary.passed as nat,
            summary.total as nat,
        ),
{
    let mut s = "# syscall-compat-tests Report\n".to_owned();
    s.append("\n");
    s.append("**Target OS:** ");
    s.append(summary.target_os.as_str());
    s.append("  \n");
    s.append("**Date:** ");
    s.append(summary.timestamp.as_str());
    s.append("  \n");
    s.append("**Compatibility:** ");
    s.append(pass_rate_text);
    s.append("% (");
    let t = u64_text(summary.passed as u64);
    s.append(t.as_str());
    s.append("/");
    let t = u64_text(summary.total as u64);
    s.append(t.as_str());
    s.append(" passed)  \n");
    s.append("\n");
    s.append("## Compatibility Matrix\n");
    s.append("\n");
    s.append("| Test | Syscall | Category | ");
    s.append(summary.target_os.as_str());
    s.append(" | Notes |\n");
    s.append("|------|---------|----------|:---:|-------|\n");
    s
}

fn report_legend_text() -> (s: String)
    ensures
        s@ == report_legend(),
{
    let mut s = "\n".to_owned();
    s.append("## Legend\n");
    s.append("\n");
    s.append("| Icon | Meaning |\n");
    s.append("|------|---------|\n");
    s.append("| \u{2705} | Fully compatible |\n");
    s.append("| \u{274c} | Incompatible (wrong return value or errno) |\n");
    s.append("| \u{26a0}\u{fe0f} | Not implemented (ENOSYS) |\n");
    s.append("| \u{1f4a5} | Test error |\n");
    s
}

/// The Markdown compatibility report of `results`: a title with the target,
/// the date and the pass rate of `summary` (the rate written as
/// `pass_rate_text`, a percentage with one decimal), a matrix with one row per
/// result in order, and a legend of the status icons.
pub fn markdown_report(results: &[TestResult], summary: &RunSummary, pass_rate_text: &str) -> (s:
    String)
    ensures
        s@ == markdown_text(
            results@,
            summary.target_os@,
            summary.timestamp@,
            pass_rate_text@,
            summary.passed as nat,
            summary.total as nat,
        ),
{
    let mut s = report_head_text(summary, pass_rate_text);
    let ghost head = s@;
    let mut i: usize = 0;
    while i < results.len()
        invariant
            i <= results@.len(),
            s@ == head + matrix_rows(results@.take(i as int)),
        decreases results@.len() - i,
    {
        let row = matrix_row_text(&results[i]);
        let ghost before = s@;
        s.append(row.as_str());
        proof {
            assert(results@.take(i + 1).drop_last() =~= results@.take(i as int));
            assert(results@.take(i + 1).last() == results@[i as int]);
            assert(s@ =~= head + matrix_rows(results@.take(i + 1)));
        }
        i = i + 1;
    }
    assert(results@.take(i as int) =~= results@);
    let legend = report_legend_text();
    s.append(legend.as_str());
    s
}

} // verus!
