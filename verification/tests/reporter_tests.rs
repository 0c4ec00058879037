use syscall_compat_tests::reporter::console::{console_groups, console_status, Tone};
use syscall_compat_tests::reporter::markdown::markdown_report;
use syscall_compat_tests::reporter::RunSummary;
use syscall_compat_tests::runner::{SyscallCategory, TestResult, TestStatus};

fn result(name: &str, syscall: &str, category: SyscallCategory, status: TestStatus) -> TestResult {
    TestResult {
        name: name.to_string(),
        syscall: syscall.to_string(),
        category,
        status,
        description: String::new(),
        duration_us: 1,
    }
}

fn sample() -> Vec<TestResult> {
    vec![
        result("t_open", "open", SyscallCategory::FileIO, TestStatus::Pass),
        result("t_kill", "kill", SyscallCategory::Signal, TestStatus::Fail {
            expected_ret: -1,
            actual_ret: 0,
            expected_errno: Some(22),
            actual_errno: None,
        }),
        result("t_mmap", "mmap", SyscallCategory::Memory, TestStatus::Unimplemented),
        result("t_stat", "stat", SyscallCategory::FileIO, TestStatus::Error("open failed".to_string())),
        result("t_pid", "getpid", SyscallCategory::Process, TestStatus::Pass),
    ]
}

#[test]
fn summary_counts_each_outcome() {
    let results = sample();
    let s = RunSummary::from_results_at(&results, "starry", "2024-01-02 03:04:05".to_string());
    assert_eq!(s.total, 5);
    assert_eq!(s.passed, 2);
    assert_eq!(s.failed, 1);
    assert_eq!(s.unimplemented, 1);
    assert_eq!(s.errors, 1);
    assert_eq!(s.passed + s.failed + s.unimplemented + s.errors, s.total);
    assert_eq!(s.target_os, "starry");
    assert_eq!(s.timestamp, "2024-01-02 03:04:05");
}

#[test]
fn summary_of_no_results() {
    let s = RunSummary::from_results_at(&[], "linux", String::new());
    assert_eq!((s.total, s.passed, s.failed, s.unimplemented, s.errors), (0, 0, 0, 0, 0));
}

#[test]
fn console_groups_sorted_by_label_and_in_order() {
    let results = sample();
    let groups = console_groups(&results);
    let cats: Vec<SyscallCategory> = groups.iter().map(|g| g.category).collect();
    assert_eq!(cats, vec![
        SyscallCategory::FileIO,
        SyscallCategory::Memory,
        SyscallCategory::Process,
        SyscallCategory::Signal,
    ]);
    assert_eq!(groups[0].members, vec![0, 3]);
    assert_eq!(groups[1].members, vec![2]);
    assert_eq!(groups[2].members, vec![4]);
    assert_eq!(groups[3].members, vec![1]);
    let mut labels: Vec<String> = groups.iter().map(|g| g.category.to_string()).collect();
    let shown = labels.clone();
    labels.sort();
    assert_eq!(labels, shown);
}

#[test]
fn console_groups_of_no_results() {
    assert!(console_groups(&[]).is_empty());
}

#[test]
fn console_status_texts() {
    let p = console_status(&TestStatus::Pass);
    assert_eq!((p.text.as_str(), p.tone), ("PASS", Tone::Green));
    let f = console_status(&TestStatus::Fail {
        expected_ret: 3,
        actual_ret: -1,
        expected_errno: None,
        actual_errno: Some(2),
    });
    assert_eq!((f.text.as_str(), f.tone), ("FAIL (ret: expected=3, got=-1)", Tone::Red));
    let u = console_status(&TestStatus::Unimplemented);
    assert_eq!((u.text.as_str(), u.tone), ("ENOSYS", Tone::Yellow));
    let e = console_status(&TestStatus::Error("pipe failed".to_string()));
    assert_eq!((e.text.as_str(), e.tone), ("ERROR: pipe failed", Tone::Red));
}

#[test]
fn markdown_report_text() {
    let results = sample();
    let s = RunSummary::from_results_at(&results, "starry", "2024-01-02 03:04:05".to_string());
    let text = markdown_report(&results, &s, "40.0");
    let expected = "\
# syscall-compat-tests Report

**Target OS:** starry  
**Date:** 2024-01-02 03:04:05  
**Compatibility:** 40.0% (2/5 passed)  

## Compatibility Matrix

| Test | Syscall | Category | starry | Notes |
|------|---------|----------|:---:|-------|
| t_open | `open` | File I/O | \u{2705} |  |
| t_kill | `kill` | Signal | \u{274c} | ret exp=-1 got=0, errno exp=Some(22) got=None |
| t_mmap | `mmap` | Memory | \u{26a0}\u{fe0f} |  |
| t_stat | `stat` | File I/O | \u{1f4a5} | open failed |
| t_pid | `getpid` | Process | \u{2705} |  |

## Legend

| Icon | Meaning |
|------|---------|
| \u{2705} | Fully compatible |
| \u{274c} | Incompatible (wrong return value or errno) |
| \u{26a0}\u{fe0f} | Not implemented (ENOSYS) |
| \u{1f4a5} | Test error |
";
    assert_eq!(text, expected);
}

#[test]
fn markdown_report_without_results_has_header_and_legend() {
    let s = RunSummary::from_results_at(&[], "linux", "now".to_string());
    let text = markdown_report(&[], &s, "0.0");
    assert!(text.starts_with("# syscall-compat-tests Report\n"));
    assert!(text.contains("**Compatibility:** 0.0% (0/0 passed)  \n"));
    assert!(text.contains("|------|---------|----------|:---:|-------|\n\n## Legend\n"));
}

#[test]
fn summary_counts_ignore_order() {
    let results = sample();
    let mut reversed = sample();
    reversed.reverse();
    let a = RunSummary::from_results_at(&results, "linux", String::new());
    let b = RunSummary::from_results_at(&reversed, "linux", String::new());
    assert_eq!((a.total, a.passed, a.failed, a.unimplemented, a.errors),
        (b.total, b.passed, b.failed, b.unimplemented, b.errors));
}
