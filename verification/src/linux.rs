use vstd::prelude::*;

verus! {

// Numbers of the Linux kernel ABI that the verdicts compare against, as the
// generic Linux headers define them (x86_64, riscv64, aarch64).

/// Operation not permitted.
pub const EPERM: i32 = 1;

/// No such file or directory.
pub const ENOENT: i32 = 2;

/// Interrupted system call.
pub const EINTR: i32 = 4;

/// No such process.
pub const ESRCH: i32 = 3;

/// No child processes.
pub const ECHILD: i32 = 10;

/// Bad address.
pub const EFAULT: i32 = 14;

/// Permission denied.
pub const EACCES: i32 = 13;

/// Bad file descriptor.
pub const EBADF: i32 = 9;

/// Resource temporarily unavailable.
pub const EAGAIN: i32 = 11;

/// Operation would block (the same number as `EAGAIN`).
pub const EWOULDBLOCK: i32 = 11;

/// File exists.
pub const EEXIST: i32 = 17;

/// Not a directory.
pub const ENOTDIR: i32 = 20;

/// Is a directory.
pub const EISDIR: i32 = 21;

/// Invalid cross-device link.
pub const EXDEV: i32 = 18;

/// Invalid argument.
pub const EINVAL: i32 = 22;

/// Not a typewriter (inappropriate ioctl for the device).
pub const ENOTTY: i32 = 25;

/// Broken pipe.
pub const EPIPE: i32 = 32;

/// File name too long.
pub const ENAMETOOLONG: i32 = 36;

/// Function not implemented.
pub const ENOSYS: i32 = 38;

/// Directory not empty.
pub const ENOTEMPTY: i32 = 39;

/// Too many levels of symbolic links.
pub const ELOOP: i32 = 40;

/// Operation not supported.
pub const EOPNOTSUPP: i32 = 95;

/// Address family not supported by protocol.
pub const EAFNOSUPPORT: i32 = 97;

/// The bits of `st_mode` that hold the file type.
pub const S_IFMT: u32 = 0o170000;

/// The file type of a symbolic link.
pub const S_IFLNK: u32 = 0o120000;

/// The file type of a regular file.
pub const S_IFREG: u32 = 0o100000;

/// The file type of a directory.
pub const S_IFDIR: u32 = 0o040000;

/// The close-on-exec bit of the descriptor flags (`F_GETFD`).
pub const FD_CLOEXEC: i32 = 1;

/// The non-blocking bit of the file status flags (`F_GETFL`).
pub const O_NONBLOCK: i32 = 0o4000;

/// The bits of the file status flags that hold the access mode.
pub const O_ACCMODE: i32 = 3;

/// The read-only access mode.
pub const O_RDONLY: i32 = 0;

/// The epoll event of a descriptor ready for reading.
pub const EPOLLIN: u32 = 1;

/// The epoll event of a descriptor ready for writing.
pub const EPOLLOUT: u32 = 4;

/// The lock type of a read (shared) record lock.
pub const F_RDLCK: i32 = 0;

/// The lock type of a write (exclusive) record lock.
pub const F_WRLCK: i32 = 1;

/// The IPv4 address family.
pub const AF_INET: u16 = 2;

/// The default time-sharing scheduling policy.
pub const SCHED_OTHER: i64 = 0;

/// The first-in first-out real-time policy.
pub const SCHED_FIFO: i64 = 1;

/// The round-robin real-time policy.
pub const SCHED_RR: i64 = 2;

/// The batch scheduling policy.
pub const SCHED_BATCH: i64 = 3;

} // verus!
