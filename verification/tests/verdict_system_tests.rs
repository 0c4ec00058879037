use syscall_compat_tests::runner::TestStatus;
use syscall_compat_tests::testcases::{
    ipc, memory2, misc, misc2, process2, process4, resource, sched, sysinfo, sysinfo2, thread,
    time2, time3,
};
use syscall_compat_tests::verdict::check_nonnegative;

fn fail(expected_ret: i64, actual_ret: i64, expected_errno: Option<i32>, actual_errno: Option<i32>) -> TestStatus {
    TestStatus::Fail { expected_ret, actual_ret, expected_errno, actual_errno }
}

#[test]
fn time2_verdicts() {
    assert_eq!(time2::getres_realtime(0, 1, 0), TestStatus::Pass);
    assert_eq!(time2::getres_realtime(0, 1_000_000, 0), TestStatus::Pass);
    assert_eq!(time2::getres_realtime(0, 1_000_001, 0), fail(0, 0, None, Some(0)));
    assert_eq!(time2::getres_realtime(-1, 0, 38), TestStatus::Unimplemented);
    assert_eq!(time2::getres_monotonic(0, 0, 0), TestStatus::Pass);
    assert_eq!(time2::getres_monotonic(-1, 0, 22), fail(0, -1, None, Some(22)));
    assert_eq!(time2::monotonic_pair((5, 10), (5, 10)), TestStatus::Pass);
    assert_eq!(time2::monotonic_pair((5, 999_999_999), (6, 0)), TestStatus::Pass);
    assert_eq!(time2::monotonic_pair((6, 0), (5, 999_999_999)), fail(1, 0, None, None));
    assert_eq!(time2::setitimer_getitimer(0, 0, 9, 0), TestStatus::Pass);
    assert_eq!(time2::setitimer_getitimer(0, 0, 0, 0), fail(0, 0, None, Some(0)));
    assert_eq!(time2::setitimer_getitimer(-1, -1, 0, 38), TestStatus::Unimplemented);
    assert_eq!(time2::time_basic(1_700_000_000, 0), TestStatus::Pass);
    assert_eq!(time2::time_basic(1_577_836_800, 0), fail(1_577_836_800, 1_577_836_800, None, Some(0)));
}

#[test]
fn sched_verdicts() {
    assert_eq!(sched::getaffinity_self(0, 4, 0), TestStatus::Pass);
    assert_eq!(sched::getaffinity_self(0, 0, 0), fail(0, 0, None, None));
    assert_eq!(sched::getaffinity_self(-1, 0, 38), TestStatus::Unimplemented);
    assert_eq!(sched::getaffinity_self(-1, 0, 22), fail(0, -1, None, Some(22)));
    assert_eq!(sched::getaffinity_bad_pid(-1, 3), TestStatus::Pass);
    assert_eq!(sched::getaffinity_bad_pid(0, 0), fail(-1, 0, Some(3), Some(0)));
    for policy in 0..4 {
        assert_eq!(sched::getscheduler_self(policy, 0), TestStatus::Pass);
    }
    assert_eq!(sched::getscheduler_self(5, 0), fail(0, 5, None, Some(0)));
    assert_eq!(sched::getscheduler_self(-1, 38), TestStatus::Unimplemented);
}

#[test]
fn resource_verdicts() {
    assert_eq!(resource::getscheduler_nonnegative(0, 0), TestStatus::Pass);
    assert_eq!(resource::getscheduler_nonnegative(-1, 38), TestStatus::Unimplemented);
    assert_eq!(resource::getscheduler_nonnegative(-1, 1), fail(0, -1, None, Some(1)));
    assert_eq!(resource::getparam_priority(0, 0, 0), TestStatus::Pass);
    assert_eq!(resource::getparam_priority(0, -1, 0), fail(0, 0, None, Some(0)));
    assert_eq!(resource::priority_range(0, 0, 0), TestStatus::Pass);
    assert_eq!(resource::priority_range(99, 1, 0), fail(0, 99, None, Some(0)));
    assert_eq!(resource::setpriority_roundtrip(0, 0, 0, 0, 0), TestStatus::Pass);
    assert_eq!(resource::setpriority_roundtrip(5, 0, 0, 5, 0), TestStatus::Pass);
    assert_eq!(resource::setpriority_roundtrip(5, 0, 0, 6, 0), fail(5, 6, None, Some(0)));
    assert_eq!(resource::setpriority_roundtrip(0, 0, 0, -1, 3), fail(0, -1, None, Some(0)));
    assert_eq!(resource::setpriority_roundtrip(0, -1, 38, -1, 38), TestStatus::Unimplemented);
    assert_eq!(resource::prlimit_nofile(0, 1024, 0), TestStatus::Pass);
    assert_eq!(resource::prlimit_nofile(0, 0, 0), fail(0, 0, None, Some(0)));
    assert_eq!(resource::mincore_touched(false, 0, 0), TestStatus::Error("mmap failed".to_string()));
    assert_eq!(resource::mincore_touched(true, 0, 0), TestStatus::Pass);
    assert_eq!(resource::mincore_touched(true, -1, 12), fail(0, -1, None, Some(12)));
    assert_eq!(resource::getloadavg_three(3, true, 0), TestStatus::Pass);
    assert_eq!(resource::getloadavg_three(3, false, 0), fail(3, 3, None, Some(0)));
    assert_eq!(resource::getloadavg_three(-1, true, 38), TestStatus::Unimplemented);
}

#[test]
fn sysinfo_verdicts() {
    assert_eq!(sysinfo::name_reported(0, b"Linux\0\0", 0), TestStatus::Pass);
    assert_eq!(sysinfo::name_reported(0, b"\0Linux", 0), fail(0, 0, None, Some(0)));
    assert_eq!(sysinfo::name_reported(0, b"", 0), fail(0, 0, None, Some(0)));
    assert_eq!(sysinfo::name_reported(-1, b"", 38), TestStatus::Unimplemented);
    assert_eq!(sysinfo::sysinfo_basic(0, 1 << 30, 100, 0), TestStatus::Pass);
    assert_eq!(sysinfo::sysinfo_basic(0, 0, 100, 0), fail(0, 0, None, Some(0)));
    assert_eq!(sysinfo::sysinfo_basic(0, 1, -1, 0), fail(0, 0, None, Some(0)));
    assert_eq!(sysinfo::soft_limit_positive(0, 1024, 0), TestStatus::Pass);
    assert_eq!(sysinfo::soft_limit_positive(0, 0, 0), fail(0, 0, None, Some(0)));
    assert_eq!(sysinfo::setrlimit_core(0, 0, 0), TestStatus::Pass);
    assert_eq!(sysinfo::setrlimit_core(0, 1024, 0), fail(0, 0, None, Some(0)));
    assert_eq!(sysinfo::setrlimit_core(-1, 1024, 1), fail(0, -1, None, Some(1)));
    assert_eq!(sysinfo::page_size(4096), TestStatus::Pass);
    assert_eq!(sysinfo::page_size(65536), TestStatus::Pass);
    assert_eq!(sysinfo::page_size(2048), fail(4096, 2048, None, None));
    assert_eq!(sysinfo::page_size(6144), fail(4096, 6144, None, None));
    assert_eq!(sysinfo::page_size(-4096), fail(4096, -4096, None, None));
    assert_eq!(sysinfo::online_processors(8, 0), TestStatus::Pass);
    assert_eq!(sysinfo::online_processors(-1, 38), TestStatus::Unimplemented);
    assert_eq!(sysinfo::online_processors(0, 0), fail(1, 0, None, Some(0)));
    assert_eq!(sysinfo::page_size_agrees(4096, 4096), TestStatus::Pass);
    assert_eq!(sysinfo::page_size_agrees(4096, 16384), fail(16384, 4096, None, None));
    assert_eq!(check_nonnegative(0, 0), TestStatus::Pass);
    assert_eq!(check_nonnegative(-1, 22), fail(0, -1, None, Some(22)));
    assert_eq!(sysinfo::proc_self_status(-1, b""), TestStatus::Unimplemented);
    assert_eq!(sysinfo::proc_self_status(3, b"Name:\tcat\nUmask:\t0022\n"), TestStatus::Pass);
    assert_eq!(sysinfo::proc_self_status(3, b"xxName:"), TestStatus::Pass);
    assert_eq!(
        sysinfo::proc_self_status(3, b"Name"),
        TestStatus::Error("/proc/self/status missing 'Name:' field".to_string())
    );
    assert!(sysinfo::find_bytes(b"abcabd", b"abd"));
    assert!(sysinfo::find_bytes(b"abc", b""));
    assert!(!sysinfo::find_bytes(b"", b"a"));
    assert!(!sysinfo::find_bytes(b"abcab", b"abd"));
}

#[test]
fn memory2_verdicts() {
    let err = |m: &str| TestStatus::Error(m.to_string());
    let data = b"mmap file test data";
    assert_eq!(memory2::mmap_file(-1, false, 0, data, b""), err("open failed"));
    assert_eq!(memory2::mmap_file(3, false, 38, data, b""), TestStatus::Unimplemented);
    assert_eq!(memory2::mmap_file(3, false, 22, data, b""), fail(1, -1, None, Some(22)));
    assert_eq!(memory2::mmap_file(3, true, 0, data, data), TestStatus::Pass);
    assert_eq!(memory2::mmap_file(3, true, 0, data, b"mmap file test dat!"), err("mapped content mismatch"));
    assert_eq!(memory2::msync_shared(-1, false, 0, b"", b"", 0), err("open failed"));
    assert_eq!(memory2::msync_shared(3, false, 0, b"", b"", 0), TestStatus::Unimplemented);
    assert_eq!(memory2::msync_shared(3, true, 0, b"hello", b"hello", 0), TestStatus::Pass);
    assert_eq!(memory2::msync_shared(3, true, 0, b"hello", b"\0\0\0\0\0", 0), fail(0, 0, None, Some(0)));
    assert_eq!(memory2::madvise_normal(false, 0, 0), err("mmap failed"));
    assert_eq!(memory2::madvise_normal(true, 0, 0), TestStatus::Pass);
    assert_eq!(memory2::mlock_munlock(true, 0, 0, 0), TestStatus::Pass);
    assert_eq!(memory2::mlock_munlock(true, -1, 0, 1), TestStatus::Unimplemented);
    assert_eq!(memory2::mlock_munlock(true, -1, 0, 12), fail(0, -1, None, Some(12)));
    assert_eq!(memory2::mmap_offset(3, true, 0, b'B'), TestStatus::Pass);
    assert_eq!(memory2::mmap_offset(3, true, 0, b'A'), fail(66, 65, None, None));
    assert_eq!(memory2::mmap_offset(3, false, 38, 0), TestStatus::Unimplemented);
    assert_eq!(memory2::mremap_grow(false, false, 0, 0), err("mmap failed"));
    assert_eq!(memory2::mremap_grow(true, false, 12, 0), fail(1, -1, None, Some(12)));
    assert_eq!(memory2::mremap_grow(true, true, 0, 0xAB), TestStatus::Pass);
    assert_eq!(memory2::mremap_grow(true, true, 0, 0), fail(0xAB, 0, None, None));
}

#[test]
fn process2_verdicts() {
    assert_eq!(process2::getpgrp_positive(100), TestStatus::Pass);
    assert_eq!(process2::getpgrp_positive(0), fail(1, 0, None, None));
    assert_eq!(process2::effective_id_valid(0), TestStatus::Pass);
    assert_eq!(process2::effective_id_valid(-1), fail(0, -1, None, None));
    assert_eq!(process2::fork_wait(-1, 38, 0, 0), TestStatus::Unimplemented);
    assert_eq!(process2::fork_wait(-1, 11, 0, 0), TestStatus::Error("fork failed".to_string()));
    assert_eq!(process2::fork_wait(100, 0, 100, 0), TestStatus::Pass);
    assert_eq!(process2::fork_wait(100, 0, 100, 3 << 8), fail(0, 3, None, None));
    assert_eq!(process2::fork_wait(100, 0, 100, 9), fail(0, -1, None, None));
    assert_eq!(process2::fork_wait(100, 0, -1, 0), fail(0, 0, None, None));
    assert_eq!(process2::waitpid_nohang(0, 0), TestStatus::Pass);
    assert_eq!(process2::waitpid_nohang(-1, 10), TestStatus::Pass);
    assert_eq!(process2::waitpid_nohang(-1, 38), TestStatus::Unimplemented);
    assert_eq!(process2::waitpid_nohang(5, 0), fail(-1, 5, Some(10), Some(0)));
    assert_eq!(process2::execve_exit(-1, true, 0, 0), TestStatus::Unimplemented);
    assert_eq!(process2::execve_exit(7, true, 7, 0), TestStatus::Pass);
    assert_eq!(process2::execve_exit(7, true, 7, 1 << 8), fail(0, 1, None, None));
    assert_eq!(process2::execve_exit(7, false, 7, 1 << 8), TestStatus::Pass);
    assert_eq!(process2::execve_exit(7, false, 7, 0), fail(1, 0, None, None));
    assert_eq!(process2::getpriority_errno(0), TestStatus::Pass);
    assert_eq!(process2::getpriority_errno(38), TestStatus::Unimplemented);
    assert_eq!(process2::getpriority_errno(3), fail(0, 3, None, Some(3)));
}

#[test]
fn sysinfo2_verdicts() {
    let err = |m: &str| TestStatus::Error(m.to_string());
    assert_eq!(sysinfo2::proc_cmdline(-1, 0), TestStatus::Unimplemented);
    assert_eq!(sysinfo2::proc_cmdline(3, 10), TestStatus::Pass);
    assert_eq!(sysinfo2::proc_cmdline(3, 0), err("/proc/self/cmdline empty"));
    assert_eq!(sysinfo2::proc_stat(-1, "", "", 42), TestStatus::Unimplemented);
    assert_eq!(sysinfo2::proc_stat(3, "4242 (sct) R 1", "4242 (sct) R 1", 4242), TestStatus::Pass);
    assert_eq!(sysinfo2::proc_stat(3, "4243 (sct) R", "4243 (sct) R", 4242), err("stat starts with: 4243 (sct) R"));
    assert_eq!(sysinfo2::proc_stat(3, "42", "42", 4242), err("stat starts with: 42"));
    assert_eq!(sysinfo2::proc_text_has(-1, b"", b"MemTotal", "missing"), TestStatus::Unimplemented);
    assert_eq!(sysinfo2::proc_text_has(3, b"MemTotal: 1 kB", b"MemTotal", "missing"), TestStatus::Pass);
    assert_eq!(sysinfo2::proc_text_has(3, b"MemFree: 1 kB", b"MemTotal", "missing"), err("missing"));
    assert_eq!(sysinfo2::proc_uptime(-1, false, ""), TestStatus::Unimplemented);
    assert_eq!(sysinfo2::proc_uptime(3, true, "12.5 40.1\n"), TestStatus::Pass);
    assert_eq!(sysinfo2::proc_uptime(3, false, "0.00 0.00\n"), err("unexpected uptime: 0.00 0.00\n"));
    assert_eq!(sysinfo2::sysconf_at_least(100, 1, 100), TestStatus::Pass);
    assert_eq!(sysinfo2::sysconf_at_least(-1, 1, 100), fail(100, -1, None, None));
    assert_eq!(sysinfo2::sysconf_at_least(255, 256, 256), fail(256, 255, None, None));
    assert_eq!(sysinfo2::nproc_limit(0, 63000, 0), TestStatus::Pass);
    assert_eq!(sysinfo2::nproc_limit(0, u64::MAX, 0), TestStatus::Pass);
    assert_eq!(sysinfo2::nproc_limit(0, 0, 0), fail(0, 0, None, Some(0)));
    assert_eq!(sysinfo2::RLIM_INFINITY, libc::RLIM_INFINITY as u64);
}

#[test]
fn misc_verdicts() {
    let err = |m: &str| TestStatus::Error(m.to_string());
    let round = "setenv/getenv/unsetenv round-trip failed";
    assert_eq!(misc::setenv_roundtrip("hello123", Some("hello123"), true), TestStatus::Pass);
    assert_eq!(misc::setenv_roundtrip("hello123", Some("hello123"), false), err(round));
    assert_eq!(misc::setenv_roundtrip("hello123", Some("hello12"), true), err(round));
    assert_eq!(misc::setenv_roundtrip("hello123", None, true), err(round));
    assert_eq!(misc::random_bytes(32, 32, 0), TestStatus::Pass);
    assert_eq!(misc::random_bytes(-1, 32, 38), TestStatus::Unimplemented);
    assert_eq!(misc::random_bytes(8, 32, 0), fail(32, 8, None, Some(0)));
    assert_eq!(misc::getrandom_nonblock(16, 0), TestStatus::Pass);
    assert_eq!(misc::getrandom_nonblock(-1, 11), TestStatus::Unimplemented);
    assert_eq!(misc::getrandom_nonblock(-1, 14), fail(16, -1, None, Some(14)));
    assert_eq!(misc::dev_urandom(-1, 0, 0), TestStatus::Unimplemented);
    assert_eq!(misc::dev_urandom(3, 16, 0), TestStatus::Pass);
    assert_eq!(misc::dev_urandom(3, 4, 0), fail(16, 4, None, Some(0)));
    assert_eq!(misc::ioctl_fionread(false, 0, 0, 0), err("pipe failed"));
    assert_eq!(misc::ioctl_fionread(true, 0, 5, 0), TestStatus::Pass);
    assert_eq!(misc::ioctl_fionread(true, 0, 4, 0), fail(5, 4, None, Some(0)));
    assert_eq!(misc::login_name(None), TestStatus::Unimplemented);
    assert_eq!(misc::login_name(Some("")), TestStatus::Unimplemented);
    assert_eq!(misc::login_name(Some("root")), TestStatus::Pass);
    assert_eq!(misc::path_set(None), err("PATH not set"));
    assert_eq!(misc::path_set(Some("")), err("PATH is empty"));
    assert_eq!(misc::path_set(Some("/usr/bin")), TestStatus::Pass);
    let data = b"memfd test";
    assert_eq!(misc::memfd_roundtrip(-1, 38, data, 0, b""), TestStatus::Unimplemented);
    assert_eq!(misc::memfd_roundtrip(-1, 24, data, 0, b""), fail(3, -1, None, Some(24)));
    assert_eq!(misc::memfd_roundtrip(3, 0, data, 10, data), TestStatus::Pass);
    assert_eq!(misc::memfd_roundtrip(3, 0, data, 0, &[0; 10]), fail(10, 0, None, None));
    assert_eq!(misc::eventfd_value(3, 0, 8, 5), TestStatus::Pass);
    assert_eq!(misc::eventfd_value(3, 0, 8, 6), fail(5, 6, None, None));
    assert_eq!(misc::eventfd_value(-1, 38, 0, 0), TestStatus::Unimplemented);
    assert_eq!(misc::timerfd_expiry(3, 0, 8, 1), TestStatus::Pass);
    assert_eq!(misc::timerfd_expiry(3, 0, -1, 0), fail(1, 0, None, None));
}

#[test]
fn time3_verdicts() {
    assert_eq!(time3::timerfd_gettime(-1, 0, 0, 0), TestStatus::Unimplemented);
    assert_eq!(time3::timerfd_gettime(3, 0, 59, 0), TestStatus::Pass);
    assert_eq!(time3::timerfd_gettime(3, 0, 0, 0), fail(0, 0, None, Some(0)));
    assert_eq!(time3::nanosleep_accumulate(5200), TestStatus::Pass);
    assert_eq!(time3::nanosleep_accumulate(4500), TestStatus::Pass);
    assert_eq!(time3::nanosleep_accumulate(4499), fail(5000, 4499, None, None));
    assert_eq!(time3::clock_nanosleep_abstime(0, 1000, 0), TestStatus::Pass);
    assert_eq!(time3::clock_nanosleep_abstime(0, 100, 0), fail(0, 0, None, Some(0)));
    assert_eq!(time3::clock_nanosleep_abstime(22, 0, 0), fail(0, 22, None, Some(0)));
}

#[test]
fn misc2_verdicts() {
    assert_eq!(misc2::inotify_watch(-1, 38, 0, 0, 0), TestStatus::Unimplemented);
    assert_eq!(misc2::inotify_watch(-1, 24, 0, 0, 0), fail(3, -1, None, Some(24)));
    assert_eq!(misc2::inotify_watch(3, 0, 1, 0, 0), TestStatus::Pass);
    assert_eq!(misc2::inotify_watch(3, 0, -1, -1, 2), fail(0, -1, None, Some(2)));
    assert_eq!(misc2::inotify_watch(3, 0, 1, -1, 0), fail(0, 1, None, Some(0)));
    assert_eq!(misc2::inotify_detect_create(-1, 0, 0, 0), TestStatus::Unimplemented);
    assert_eq!(misc2::inotify_detect_create(3, -1, 0, 0), TestStatus::Unimplemented);
    assert_eq!(misc2::inotify_detect_create(3, 1, 32, 0), TestStatus::Pass);
    assert_eq!(misc2::inotify_detect_create(3, 1, -1, 11), TestStatus::Unimplemented);
    assert_eq!(misc2::inotify_detect_create(3, 1, 8, 0), fail(16, 8, None, Some(0)));
    assert_eq!(misc2::syslog_size(16384, 0), TestStatus::Pass);
    assert_eq!(misc2::syslog_size(-1, 1), TestStatus::Unimplemented);
    assert_eq!(misc2::syslog_size(-1, 22), fail(0, -1, None, Some(22)));
    assert_eq!(misc2::rseq_register(0, 0), TestStatus::Pass);
    assert_eq!(misc2::rseq_register(-1, 22), TestStatus::Pass);
    assert_eq!(misc2::rseq_register(-1, 14), TestStatus::Pass);
    assert_eq!(misc2::rseq_register(-1, 38), TestStatus::Unimplemented);
    assert_eq!(misc2::rseq_register(-1, 1), fail(0, -1, None, Some(1)));
}

#[test]
fn ipc_verdicts() {
    assert_eq!(ipc::ipc_id_created(0, 0), TestStatus::Pass);
    assert_eq!(ipc::ipc_id_created(-1, 38), TestStatus::Unimplemented);
    assert_eq!(ipc::ipc_id_created(-1, 28), fail(1, -1, None, Some(28)));
    assert_eq!(ipc::shm_reattach(-1, 38, false, 0), TestStatus::Unimplemented);
    assert_eq!(ipc::shm_reattach(-1, 28, false, 0), TestStatus::Error("shmget failed".to_string()));
    assert_eq!(ipc::shm_reattach(5, 0, false, 0), TestStatus::Unimplemented);
    assert_eq!(ipc::shm_reattach(5, 0, true, 0xDEADBEEF), TestStatus::Pass);
    assert_eq!(ipc::shm_reattach(5, 0, true, 0), fail(0xDEADBEEF, 0, None, None));
    assert_eq!(ipc::shmctl_stat(-1, 0, 0, 0), TestStatus::Unimplemented);
    assert_eq!(ipc::shmctl_stat(5, 0, 4096, 0), TestStatus::Pass);
    assert_eq!(ipc::shmctl_stat(5, 0, 0, 0), fail(0, 0, None, Some(0)));
    assert_eq!(ipc::msg_roundtrip(-1, 0, 0, b"", b""), TestStatus::Unimplemented);
    assert_eq!(ipc::msg_roundtrip(2, 0, 8, b"testdata", b"testdata"), TestStatus::Pass);
    assert_eq!(ipc::msg_roundtrip(2, 0, 8, b"testdata", b"testdatx"), fail(8, 8, None, None));
    assert_eq!(ipc::msg_roundtrip(2, -1, -1, b"testdata", &[0; 8]), fail(8, -1, None, None));
    assert_eq!(ipc::semop_decrement(-1, 0, 0, 0), TestStatus::Unimplemented);
    assert_eq!(ipc::semop_decrement(4, 0, 0, 0), TestStatus::Pass);
    assert_eq!(ipc::semop_decrement(4, 0, -1, 11), fail(0, -1, None, Some(11)));
}

#[test]
fn process4_verdicts() {
    let err = |m: &str| TestStatus::Error(m.to_string());
    assert_eq!(process4::fork_child_ppid(false, 0, 0, 0), err("pipe failed"));
    assert_eq!(process4::fork_child_ppid(true, -1, 10, 0), TestStatus::Unimplemented);
    assert_eq!(process4::fork_child_ppid(true, 11, 10, 10), TestStatus::Pass);
    assert_eq!(process4::fork_child_ppid(true, 11, 10, 1), fail(10, 1, None, None));
    assert_eq!(process4::environ_path(true), TestStatus::Pass);
    assert_eq!(process4::environ_path(false), err("PATH not found in environ"));
    assert_eq!(process4::putenv_value(0, "42"), TestStatus::Pass);
    assert_eq!(process4::putenv_value(0, ""), err("putenv ret=0 val="));
    assert_eq!(process4::putenv_value(-1, "4"), err("putenv ret=-1 val=4"));
    assert_eq!(process4::clearenv_then_set(0, "yes"), TestStatus::Pass);
    assert_eq!(process4::clearenv_then_set(0, "no"), err("clearenv ret=0 got=no"));
    assert_eq!(process4::setsid_child(false, 0, 0), err("pipe failed"));
    assert_eq!(process4::setsid_child(true, -1, 0), TestStatus::Unimplemented);
    assert_eq!(process4::setsid_child(true, 9, 1), TestStatus::Pass);
    assert_eq!(process4::setsid_child(true, 9, 0), err("setsid() did not set sid == pid"));
    assert_eq!(process4::alarm_cancel(0, 10), TestStatus::Pass);
    assert_eq!(process4::alarm_cancel(0, 9), fail(10, 9, None, None));
    assert_eq!(process4::alarm_cancel(3, 10), fail(10, 10, None, None));
    assert_eq!(process4::pause_eintr(-1, 0, 0), TestStatus::Unimplemented);
    assert_eq!(process4::pause_eintr(9, -1, 4), TestStatus::Pass);
    assert_eq!(process4::pause_eintr(9, -1, 38), fail(-1, -1, Some(4), Some(38)));
    assert_eq!(process4::getpgid_self(100, 0), TestStatus::Pass);
    assert_eq!(process4::getpgid_self(-1, 38), TestStatus::Unimplemented);
    assert_eq!(process4::getpgid_self(0, 0), fail(1, 0, None, Some(0)));
}

#[test]
fn thread_verdicts() {
    assert_eq!(thread::thread_value(false, 0, 42), TestStatus::Unimplemented);
    assert_eq!(thread::thread_value(true, 42, 42), TestStatus::Pass);
    assert_eq!(thread::thread_value(true, 1999, 2000), fail(2000, 1999, None, None));
    assert_eq!(thread::thread_value(true, 2, 1), fail(1, 2, None, None));
    assert_eq!(thread::gettid_positive(1234, 0), TestStatus::Pass);
    assert_eq!(thread::gettid_positive(-1, 38), TestStatus::Unimplemented);
    assert_eq!(thread::gettid_positive(0, 0), fail(1, 0, None, Some(0)));
    assert_eq!(thread::cond_signal(false, 0), TestStatus::Unimplemented);
    assert_eq!(thread::cond_signal(true, 1), TestStatus::Pass);
    assert_eq!(thread::cond_signal(true, 0), TestStatus::Error("cond_signal did not wake waiter".to_string()));
}
