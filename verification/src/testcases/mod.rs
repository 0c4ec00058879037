//! The verdicts of the test cases: for each test, the status that follows
//! from what its syscalls returned. Each function takes the values the test
//! observed, in the order it observed them; where an early step decides the
//! outcome, the values of the later steps are not read.

pub mod file_io;
pub mod filestat;
pub mod process;
pub mod memory;
pub mod time;
pub mod signal;
pub mod pipe;
pub mod network;
pub mod epoll;
pub mod dirent;
pub mod fcntl2;
pub mod compat_check;
pub mod errno_edge;
pub mod errno_edge2;
pub mod dirent2;
pub mod file_io2;
pub mod fileops_ext;
pub mod io_uring;
pub mod pipe2;
pub mod time2;
pub mod sched;
pub mod resource;
pub mod sysinfo;
pub mod memory2;
pub mod process2;
pub mod sysinfo2;
pub mod misc;
pub mod time3;
pub mod poll_select;
pub mod misc2;
pub mod ipc;
pub mod process4;
pub mod thread;
pub mod socket2;
pub mod network3;
