use syscall_compat_tests::runner::TestStatus;
use syscall_compat_tests::testcases::{file_io2, fileops_ext};

fn fail(expected_ret: i64, actual_ret: i64, expected_errno: Option<i32>, actual_errno: Option<i32>) -> TestStatus {
    TestStatus::Fail { expected_ret, actual_ret, expected_errno, actual_errno }
}

fn err(m: &str) -> TestStatus {
    TestStatus::Error(m.to_string())
}

#[test]
fn file_io2_verdicts() {
    assert_eq!(file_io2::open_excl_exists(-1, 17), TestStatus::Pass);
    assert_eq!(file_io2::open_excl_exists(3, 0), fail(-1, 3, Some(17), Some(0)));
    assert_eq!(file_io2::wrong_access_mode(-1, 9), TestStatus::Pass);
    assert_eq!(file_io2::wrong_access_mode(1, 0), fail(-1, 1, Some(9), Some(0)));
    assert_eq!(file_io2::lseek_hole(-1, 0), err("open failed"));
    assert_eq!(file_io2::lseek_hole(3, 1003), TestStatus::Pass);
    assert_eq!(file_io2::lseek_hole(3, 3), fail(1003, 3, None, None));
    assert_eq!(file_io2::open_noent(-1, 2), TestStatus::Pass);
    assert_eq!(file_io2::open_noent(-1, 38), fail(-1, -1, Some(2), Some(38)));
    assert_eq!(file_io2::flock_exclusive(-1, 0, 0, 0), err("open failed"));
    assert_eq!(file_io2::flock_exclusive(3, 0, 0, 0), TestStatus::Pass);
    assert_eq!(file_io2::flock_exclusive(3, -1, 0, 38), TestStatus::Unimplemented);
    assert_eq!(file_io2::flock_exclusive(3, 0, -1, 9), fail(0, 0, None, Some(9)));
    assert_eq!(file_io2::fallocate_basic(-1, 0, 0, 0), err("open failed"));
    assert_eq!(file_io2::fallocate_basic(3, 0, 4096, 0), TestStatus::Pass);
    assert_eq!(file_io2::fallocate_basic(3, -1, 0, 95), TestStatus::Unimplemented);
    assert_eq!(file_io2::fallocate_basic(3, -1, 0, 38), TestStatus::Unimplemented);
    assert_eq!(file_io2::fallocate_basic(3, 0, 100, 0), fail(0, 0, None, Some(0)));
    let data = b"copy_file_range_data";
    assert_eq!(file_io2::copy_file_range(false, 0, data, b"", 0), err("open failed"));
    assert_eq!(file_io2::copy_file_range(true, 20, data, data, 0), TestStatus::Pass);
    assert_eq!(file_io2::copy_file_range(true, -1, data, &[0u8; 20], 18), TestStatus::Unimplemented);
    assert_eq!(file_io2::copy_file_range(true, 20, data, &[0u8; 20], 0), fail(20, 20, None, Some(0)));
    assert_eq!(file_io2::linkat_cwd(0, 2, 0), TestStatus::Pass);
    assert_eq!(file_io2::linkat_cwd(0, 1, 0), fail(0, 0, None, Some(0)));
    assert_eq!(file_io2::unlinkat_cwd(0, -1, 2, 0), TestStatus::Pass);
    assert_eq!(file_io2::unlinkat_cwd(0, 0, 0, 0), fail(0, 0, None, Some(0)));
    assert_eq!(file_io2::renameat_cwd(0, 0, 0), TestStatus::Pass);
    assert_eq!(file_io2::renameat_cwd(-1, -1, 38), TestStatus::Unimplemented);
    assert_eq!(file_io2::readahead_basic(-1, 0, 0), err("open failed"));
    assert_eq!(file_io2::readahead_basic(3, 0, 0), TestStatus::Pass);
    assert_eq!(file_io2::readahead_basic(3, -1, 22), fail(0, -1, None, Some(22)));
}

#[test]
fn fileops_ext_verdicts() {
    assert_eq!(fileops_ext::umask_get(0o022), TestStatus::Pass);
    assert_eq!(fileops_ext::umask_get(0o777), TestStatus::Pass);
    assert_eq!(fileops_ext::umask_get(0o1000), fail(0o022, 0o1000, None, None));
    assert_eq!(fileops_ext::umask_get(-1), fail(0o022, -1, None, None));
    assert_eq!(fileops_ext::umask_roundtrip(0o077), TestStatus::Pass);
    assert_eq!(fileops_ext::umask_roundtrip(0o022), fail(0o077, 0o022, None, None));
    assert_eq!(fileops_ext::dup3_basic(-1, 200, 0, 0), err("failed to create test file"));
    assert_eq!(fileops_ext::dup3_basic(3, 200, 200, 0), TestStatus::Pass);
    assert_eq!(fileops_ext::dup3_basic(3, 200, -1, 38), TestStatus::Unimplemented);
    assert_eq!(fileops_ext::dup3_basic(3, 200, -1, 9), fail(200, -1, None, Some(9)));
    assert_eq!(fileops_ext::dup3_cloexec(-1, 201, 0, 0, 0), err("failed to create test file"));
    assert_eq!(fileops_ext::dup3_cloexec(3, 201, 201, 0, 1), TestStatus::Pass);
    assert_eq!(fileops_ext::dup3_cloexec(3, 201, 201, 0, 0), fail(1, 0, None, None));
    assert_eq!(fileops_ext::dup3_cloexec(3, 201, 201, 0, -1), fail(1, 0, None, None));
    assert_eq!(fileops_ext::dup3_cloexec(3, 201, -1, 38, 0), TestStatus::Unimplemented);
    assert_eq!(fileops_ext::dup3_cloexec(3, 201, -1, 9, 0), fail(201, -1, None, Some(9)));
    assert_eq!(fileops_ext::dup3_same_fd(3, -1, 22), TestStatus::Pass);
    assert_eq!(fileops_ext::dup3_same_fd(3, 3, 0), fail(-1, 3, Some(22), Some(0)));
    assert_eq!(fileops_ext::chown_own_ids(-1, 0, 0), err("failed to create test file"));
    assert_eq!(fileops_ext::chown_own_ids(3, 0, 0), TestStatus::Pass);
    assert_eq!(fileops_ext::chown_own_ids(3, -1, 1), fail(0, -1, None, Some(1)));
    assert_eq!(fileops_ext::missing_path(-1, 2), TestStatus::Pass);
    assert_eq!(fileops_ext::missing_path(-1, 38), TestStatus::Unimplemented);
    assert_eq!(fileops_ext::missing_path(0, 0), fail(-1, 0, Some(2), Some(0)));
    assert_eq!(fileops_ext::fstatat_basic(0, 4, 0), TestStatus::Pass);
    assert_eq!(fileops_ext::fstatat_basic(0, 0, 0), fail(0, 0, None, Some(0)));
}
