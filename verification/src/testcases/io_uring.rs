use vstd::prelude::*;

use crate::linux::{EINVAL, ENOSYS, EPERM};
use crate::runner::TestStatus;
use crate::verdict::{check_errno, decide, expect_errno, failure, outcome};

verus! {

/// `io_uring_setup(8, params)` should return a ring descriptor; ENOSYS and
/// EPERM (io_uring disabled) count as not implemented.
pub fn setup_basic(fd: i64, errno: i32) -> (s: TestStatus)
    ensures
        s == outcome(fd >= 0, errno == ENOSYS || errno == EPERM, failure(3, fd, None, Some(errno))),
{
    decide(fd >= 0, errno == ENOSYS || errno == EPERM, 3, fd, None, Some(errno))
}

/// `io_uring_setup(0, params)` should fail with EINVAL.
pub fn setup_zero_entries(fd: i64, errno: i32) -> (s: TestStatus)
    ensures
        s == expect_errno(fd, errno, EINVAL),
{
    check_errno(fd, errno, EINVAL)
}

} // verus!
