use syscall_compat_tests::linux;
use syscall_compat_tests::runner::TestStatus;
use syscall_compat_tests::testcases::{file_io, filestat, memory, network, pipe, process, signal, time};
use syscall_compat_tests::verdict::{bytes_equal, check_errno, check_ret, error, error_with_code};

fn fail(expected_ret: i64, actual_ret: i64, expected_errno: Option<i32>, actual_errno: Option<i32>) -> TestStatus {
    TestStatus::Fail { expected_ret, actual_ret, expected_errno, actual_errno }
}

#[test]
fn linux_numbers_match_libc() {
    assert_eq!(linux::ENOENT, libc::ENOENT);
    assert_eq!(linux::EBADF, libc::EBADF);
    assert_eq!(linux::EAGAIN, libc::EAGAIN);
    assert_eq!(linux::EWOULDBLOCK, libc::EWOULDBLOCK);
    assert_eq!(linux::EINVAL, libc::EINVAL);
    assert_eq!(linux::ENOSYS, libc::ENOSYS);
    assert_eq!(linux::EAFNOSUPPORT, libc::EAFNOSUPPORT);
    assert_eq!(linux::S_IFMT, libc::S_IFMT as u32);
    assert_eq!(linux::S_IFLNK, libc::S_IFLNK as u32);
    assert_eq!(linux::FD_CLOEXEC, libc::FD_CLOEXEC);
    assert_eq!(linux::O_NONBLOCK, libc::O_NONBLOCK);
    assert_eq!(linux::AF_INET, libc::AF_INET as u16);
    assert_eq!(linux::EEXIST, libc::EEXIST);
    assert_eq!(linux::ENOTTY, libc::ENOTTY);
    assert_eq!(linux::S_IFDIR, libc::S_IFDIR as u32);
    assert_eq!(linux::O_ACCMODE, libc::O_ACCMODE);
    assert_eq!(linux::O_RDONLY, libc::O_RDONLY);
    assert_eq!(linux::EACCES, libc::EACCES);
    assert_eq!(linux::ENOTDIR, libc::ENOTDIR);
    assert_eq!(linux::EISDIR, libc::EISDIR);
    assert_eq!(linux::EPIPE, libc::EPIPE);
    assert_eq!(linux::ENAMETOOLONG, libc::ENAMETOOLONG);
    assert_eq!(linux::ENOTEMPTY, libc::ENOTEMPTY);
    assert_eq!(linux::ELOOP, libc::ELOOP);
    assert_eq!(linux::S_IFREG, libc::S_IFREG as u32);
    assert_eq!(linux::EPOLLIN, libc::EPOLLIN as u32);
    assert_eq!(linux::EPOLLOUT, libc::EPOLLOUT as u32);
}

#[test]
fn generic_checks() {
    assert_eq!(check_ret(0, 0, 0), TestStatus::Pass);
    assert_eq!(check_ret(-1, 38, 0), TestStatus::Unimplemented);
    assert_eq!(check_ret(-1, 9, 0), fail(0, -1, None, Some(9)));
    assert_eq!(check_errno(-1, 2, 2), TestStatus::Pass);
    assert_eq!(check_errno(0, 2, 2), fail(-1, 0, Some(2), Some(2)));
    assert_eq!(check_errno(-1, 38, 2), TestStatus::Unimplemented);
    assert_eq!(error("open failed"), TestStatus::Error("open failed".to_string()));
    assert_eq!(error_with_code("open failed: errno=", 13), TestStatus::Error("open failed: errno=13".to_string()));
    assert!(bytes_equal(b"abc", b"abc"));
    assert!(!bytes_equal(b"abc", b"abd"));
    assert!(!bytes_equal(b"abc", b"ab"));
}

#[test]
fn open_basic_verdicts() {
    assert_eq!(file_io::open_basic(3, 0), TestStatus::Pass);
    assert_eq!(file_io::open_basic(-1, 38), TestStatus::Unimplemented);
    assert_eq!(file_io::open_basic(-1, 13), fail(3, -1, None, Some(13)));
}

#[test]
fn read_write_stages() {
    let data = b"hello syscall-compat-tests\n";
    assert_eq!(file_io::read_write(-1, 38, 0, 0, data, &[]), TestStatus::Unimplemented);
    assert_eq!(file_io::read_write(-1, 13, 0, 0, data, &[]),
        TestStatus::Error("open failed: errno=13".to_string()));
    assert_eq!(file_io::read_write(3, 0, 5, 0, data, &[]), fail(27, 5, None, None));
    assert_eq!(file_io::read_write(3, 0, 27, 27, data, data), TestStatus::Pass);
    let mut other = data.to_vec();
    other[0] = b'H';
    assert_eq!(file_io::read_write(3, 0, 27, 27, data, &other), fail(27, 27, None, None));
    assert_eq!(file_io::read_write(3, 0, 27, 10, data, &data[..10]), fail(27, 10, None, None));
}

#[test]
fn file_io_verdicts() {
    assert_eq!(file_io::open_nonexistent(-1, 2), TestStatus::Pass);
    assert_eq!(file_io::read_zero(-1, 0, 0), TestStatus::Error("open failed".to_string()));
    assert_eq!(file_io::read_zero(3, 0, 0), TestStatus::Pass);
    assert_eq!(file_io::write_append(-1, 0, 0, 0), TestStatus::Error("initial open failed".to_string()));
    assert_eq!(file_io::write_append(3, -1, 0, 0), TestStatus::Unimplemented);
    assert_eq!(file_io::write_append(3, 4, 0, 12), TestStatus::Pass);
    assert_eq!(file_io::write_append(3, 4, -1, 0), fail(12, -1, None, None));
    assert_eq!(file_io::write_append(3, 4, 0, 6), fail(12, 6, None, None));
    assert_eq!(file_io::close_invalid_fd(-1, 9), TestStatus::Pass);
    assert_eq!(file_io::stat_basic(3, 0, 14, 0, 14), TestStatus::Pass);
    assert_eq!(file_io::stat_basic(3, -1, 0, 38, 14), TestStatus::Unimplemented);
    assert_eq!(file_io::stat_basic(3, -1, 0, 2, 14), fail(14, -1, None, None));
    assert_eq!(file_io::stat_nonexistent(-1, 2), TestStatus::Pass);
    assert_eq!(file_io::lseek_basic(3, 0, 0), TestStatus::Pass);
    assert_eq!(file_io::lseek_invalid_whence(3, -1, 22), TestStatus::Pass);
    assert_eq!(file_io::lseek_invalid_whence(3, 0, 0), fail(-1, 0, Some(22), Some(0)));
    assert_eq!(file_io::unlink_basic(3, 0, 0, -1, 2), TestStatus::Pass);
    assert_eq!(file_io::unlink_basic(3, 0, 0, 0, 0),
        TestStatus::Error("file still exists after unlink".to_string()));
    assert_eq!(file_io::unlink_basic(3, -1, 1, 0, 0), fail(0, -1, None, Some(1)));
    assert_eq!(file_io::rename_basic(3, 0, 0), TestStatus::Pass);
    assert_eq!(file_io::mkdir_rmdir(0, 0, 0, 0), TestStatus::Pass);
    assert_eq!(file_io::mkdir_rmdir(-1, 17, 0, 0), fail(0, -1, None, Some(17)));
    assert_eq!(file_io::mkdir_rmdir(0, 0, -1, 39), fail(0, -1, None, Some(39)));
    assert_eq!(file_io::mkdir_rmdir(-1, 38, -1, 2), TestStatus::Unimplemented);
    assert_eq!(file_io::getcwd_basic(1234, b'/', 0), TestStatus::Pass);
    assert_eq!(file_io::getcwd_basic(0, 0, 34), fail(1, 0, None, Some(34)));
    assert_eq!(file_io::dup_basic(3, 4, 0), TestStatus::Pass);
    assert_eq!(file_io::dup_basic(3, 3, 0), fail(4, 3, None, Some(0)));
    assert_eq!(file_io::dup2_basic(3, 50, 50, 0), TestStatus::Pass);
    assert_eq!(file_io::dup2_basic(3, 50, -1, 9), fail(50, -1, None, Some(9)));
}

#[test]
fn filestat_verdicts() {
    assert_eq!(filestat::chmod_basic(3, 0, 0o100600, 0), TestStatus::Pass);
    assert_eq!(filestat::chmod_basic(3, 0, 0o100644, 0), fail(0, 0, None, Some(0)));
    assert_eq!(filestat::chmod_basic(-1, 0, 0, 0), TestStatus::Error("open failed".to_string()));
    assert_eq!(filestat::truncate_basic(3, 0, 5, 0), TestStatus::Pass);
    assert_eq!(filestat::truncate_basic(3, 0, 12, 0), fail(5, 12, None, Some(0)));
    assert_eq!(filestat::ftruncate_basic(3, 0, 4, 0), TestStatus::Pass);
    assert_eq!(filestat::fstat_basic(3, 0, 10, 0, 10), TestStatus::Pass);
    assert_eq!(filestat::fstat_basic(3, -1, 0, 38, 10), TestStatus::Unimplemented);
    assert_eq!(filestat::access_readable(3, 0, 0), TestStatus::Pass);
    assert_eq!(filestat::access_nonexistent(-1, 2), TestStatus::Pass);
    assert_eq!(filestat::symlink_basic(3, 0, 0, 0o120777, 0), TestStatus::Pass);
    assert_eq!(filestat::symlink_basic(3, 0, 0, 0o100644, 0), fail(0, 0, None, Some(0)));
    let target = b"/tmp/sct_rl_target.txt";
    assert_eq!(filestat::readlink_basic(3, 22, target, target, 0), TestStatus::Pass);
    assert_eq!(filestat::readlink_basic(3, 4, target, b"/tmp", 0), fail(22, 4, None, Some(0)));
    assert_eq!(filestat::link_hardlink(3, 0, 2, 0), TestStatus::Pass);
    assert_eq!(filestat::link_hardlink(3, 0, 1, 0), fail(0, 0, None, Some(0)));
    assert_eq!(filestat::statfs_tmp(0, 4096, 0), TestStatus::Pass);
    assert_eq!(filestat::statfs_tmp(0, 0, 0), fail(0, 0, None, Some(0)));
}

#[test]
fn process_verdicts() {
    assert_eq!(process::getpid_positive(1), TestStatus::Pass);
    assert_eq!(process::getpid_positive(0), fail(1, 0, None, None));
    assert_eq!(process::getppid_nonnegative(0), TestStatus::Pass);
    assert_eq!(process::getuid_valid(1000), TestStatus::Pass);
    assert_eq!(process::getgid_valid(-1), fail(0, -1, None, None));
    assert_eq!(process::umask_previous(0o022), TestStatus::Pass);
    assert_eq!(process::umask_previous(0o777), fail(0o022, 0o777, None, None));
}

#[test]
fn exit_code_reads_the_wait_status() {
    // A normal exit with code 42 is reported as 42 << 8.
    assert_eq!(process::exit_code(100, 0, 100, 42 << 8), TestStatus::Pass);
    assert_eq!(process::exit_code(100, 0, 100, 1 << 8), fail(42, 1, None, None));
    // Killed by signal 9: not a normal exit.
    assert_eq!(process::exit_code(100, 0, 100, 9), fail(42, -1, None, None));
    assert_eq!(process::exit_code(100, 0, -1, 42 << 8), fail(42, 42, None, None));
    assert_eq!(process::exit_code(-1, 38, 0, 0), TestStatus::Unimplemented);
    assert_eq!(process::exit_code(-1, 11, 0, 0), TestStatus::Error("fork failed".to_string()));
}

#[test]
fn memory_verdicts() {
    assert_eq!(memory::brk_basic(0), TestStatus::Pass);
    assert_eq!(memory::brk_basic(-12), fail(1, -12, None, None));
    assert_eq!(memory::mmap_anon(true, 0), TestStatus::Pass);
    assert_eq!(memory::mmap_anon(false, 12), fail(1, -1, None, Some(12)));
    assert_eq!(memory::mmap_read_write(false, 38, false), TestStatus::Unimplemented);
    assert_eq!(memory::mmap_read_write(false, 12, false),
        TestStatus::Error("mmap failed errno=12".to_string()));
    assert_eq!(memory::mmap_read_write(true, 0, true), TestStatus::Pass);
    assert_eq!(memory::mmap_read_write(true, 0, false),
        TestStatus::Error("read-back mismatch after write".to_string()));
    assert_eq!(memory::munmap_basic(false, 0, 0), TestStatus::Error("mmap failed".to_string()));
    assert_eq!(memory::munmap_basic(true, 0, 0), TestStatus::Pass);
    assert_eq!(memory::mprotect_basic(true, -1, 38), TestStatus::Unimplemented);
}

#[test]
fn time_verdicts() {
    assert_eq!(time::clock_gettime_realtime(0, 1_700_000_000, 0), TestStatus::Pass);
    assert_eq!(time::clock_gettime_realtime(0, 1_577_836_800, 0), fail(0, 0, None, Some(0)));
    assert_eq!(time::clock_gettime_monotonic(0, 0, 0), TestStatus::Pass);
    assert_eq!(time::gettimeofday_after_2020(-1, 0, 38), TestStatus::Unimplemented);
    assert_eq!(time::nanosleep_basic(0, 1000, 0), TestStatus::Pass);
    assert_eq!(time::nanosleep_basic(0, 899, 0), fail(0, 0, None, Some(0)));
    assert_eq!(time::nanosleep_invalid(-1, 22), TestStatus::Pass);
}

#[test]
fn signal_verdicts() {
    assert_eq!(signal::kill_self_zero(0, 0), TestStatus::Pass);
    assert_eq!(signal::kill_invalid_signal(-1, 22), TestStatus::Pass);
    assert_eq!(signal::sigaction_basic(-1, 38, false), TestStatus::Unimplemented);
    assert_eq!(signal::sigaction_basic(-1, 22, false), TestStatus::Error("sigaction failed".to_string()));
    assert_eq!(signal::sigaction_basic(0, 0, true), TestStatus::Pass);
    assert_eq!(signal::sigaction_basic(0, 0, false), TestStatus::Error("handler was not called".to_string()));
    assert_eq!(signal::sigprocmask_block(0, 0), TestStatus::Pass);
    assert_eq!(signal::sigpending_blocked(0, 1, 0), TestStatus::Pass);
    assert_eq!(signal::sigpending_blocked(0, 0, 0), fail(1, 0, None, None));
    assert_eq!(signal::sigpending_blocked(-1, 0, 38), TestStatus::Unimplemented);
    assert_eq!(signal::raise_sigusr1(0, true, 0), TestStatus::Pass);
    assert_eq!(signal::raise_sigusr1(0, false, 0), fail(0, 0, None, None));
}

#[test]
fn pipe_verdicts() {
    let msg = b"hello pipe";
    assert_eq!(pipe::pipe_basic(0, 0, 10, 10, msg, msg), TestStatus::Pass);
    assert_eq!(pipe::pipe_basic(0, 0, 10, 5, msg, &msg[..5]), fail(10, 5, None, None));
    assert_eq!(pipe::pipe_basic(-1, 38, 0, 0, msg, &[]), TestStatus::Unimplemented);
    assert_eq!(pipe::pipe_basic(-1, 24, 0, 0, msg, &[]), fail(0, -1, None, Some(24)));
    assert_eq!(pipe::pipe_read_eof(0, 0), TestStatus::Pass);
    assert_eq!(pipe::pipe_read_eof(-1, 0), TestStatus::Error("pipe failed".to_string()));
    assert_eq!(pipe::pipe2_cloexec(0, 0, 1, 1), TestStatus::Pass);
    assert_eq!(pipe::pipe2_cloexec(0, 0, 0, 1), fail(1, 0, None, None));
    assert_eq!(pipe::pipe2_cloexec(0, 0, -1, -1), fail(1, -1, None, None));
    assert_eq!(pipe::fcntl_get_fd_flags(0, 0), TestStatus::Pass);
    assert_eq!(pipe::fcntl_set_nonblock(0, 0, 0, 0o4002), TestStatus::Pass);
    assert_eq!(pipe::fcntl_set_nonblock(0, 0, 0, 2), fail(0, 0, None, Some(0)));
    assert_eq!(pipe::read_nonblock_eagain(0, -1, 11), TestStatus::Pass);
    assert_eq!(pipe::read_nonblock_eagain(0, 0, 0), fail(-1, 0, Some(11), Some(0)));
}

#[test]
fn network_verdicts() {
    assert_eq!(network::socket_created(3, 0), TestStatus::Pass);
    assert_eq!(network::socket_created(-1, 97), fail(3, -1, None, Some(97)));
    assert_eq!(network::socket_invalid_domain(-1, 22), TestStatus::Pass);
    assert_eq!(network::socket_invalid_domain(-1, 97), TestStatus::Pass);
    assert_eq!(network::socket_invalid_domain(3, 0), fail(-1, 3, Some(97), Some(0)));
    assert_eq!(network::socket_call_succeeds(-1, 0, 0), TestStatus::Error("socket failed".to_string()));
    assert_eq!(network::socket_call_succeeds(3, 0, 0), TestStatus::Pass);
    assert_eq!(network::getsockname_bound(3, 0, 2, 0), TestStatus::Pass);
    assert_eq!(network::getsockname_bound(3, 0, 10, 0), fail(0, 0, None, Some(0)));
    let m = b"hi\0";
    assert_eq!(network::loopback_connect_accept(3, 0, 0, 100, 3, m, m), TestStatus::Pass);
    assert_eq!(network::loopback_connect_accept(3, 0, 0, 100, 2, b"hi", m), fail(3, 2, None, None));
    assert_eq!(network::loopback_connect_accept(3, 0, 0, -1, 0, &[], m), TestStatus::Unimplemented);
    assert_eq!(network::loopback_connect_accept(3, -1, 0, 0, 0, &[], m), TestStatus::Error("bind failed".to_string()));
    assert_eq!(network::loopback_connect_accept(3, 0, -1, 0, 0, &[], m), TestStatus::Error("listen failed".to_string()));
    assert_eq!(network::loopback_connect_accept(-1, 0, 0, 0, 0, &[], m), TestStatus::Error("socket failed".to_string()));
}
