use vstd::prelude::*;

use crate::linux::{EAGAIN, EFAULT, EINVAL, ENOSYS, EPERM};
use crate::runner::TestStatus;
use crate::verdict::{check_new_fd, decide, expect_new_fd, failure, outcome};

verus! {

/// On a new inotify instance, `inotify_add_watch("/tmp", IN_CREATE)` should
/// return a watch and `inotify_rm_watch` of it 0; a failure reports the
/// watch. An instance that cannot be created fails as in `expect_new_fd`.
pub fn inotify_watch(fd: i32, errno: i32, wd: i32, rm_ret: i32, watch_errno: i32) -> (s:
    TestStatus)
    ensures
        fd < 0 ==> s == expect_new_fd(fd as i64, errno),
        fd >= 0 ==> s == outcome(
            wd >= 0 && rm_ret == 0,
            watch_errno == ENOSYS,
            failure(0, wd as i64, None, Some(watch_errno)),
        ),
{
    if fd < 0 {
        return check_new_fd(fd as i64, errno);
    }
    decide(wd >= 0 && rm_ret == 0, watch_errno == ENOSYS, 0, wd as i64, None, Some(watch_errno))
}

/// Creating a file in a directory that a non-blocking inotify instance
/// watches for `IN_CREATE` should make a read return at least one event (16
/// bytes); no event yet (EAGAIN) counts as not implemented, and so does an
/// instance or watch that cannot be made.
pub fn inotify_detect_create(fd: i32, wd: i32, read: i64, errno: i32) -> (s: TestStatus)
    ensures
        fd < 0 || wd < 0 ==> s == TestStatus::Unimplemented,
        fd >= 0 && wd >= 0 ==> s == outcome(read >= 16, errno == EAGAIN, failure(16, read, None, Some(errno))),
{
    if fd < 0 || wd < 0 {
        return TestStatus::Unimplemented;
    }
    decide(read >= 16, errno == EAGAIN, 16, read, None, Some(errno))
}

/// `syslog(SYSLOG_ACTION_SIZE_BUFFER)` should return a size of at least 0;
/// ENOSYS and EPERM count as not implemented.
pub fn syslog_size(ret: i64, errno: i32) -> (s: TestStatus)
    ensures
        s == outcome(ret >= 0, errno == ENOSYS || errno == EPERM, failure(0, ret, None, Some(errno))),
{
    decide(ret >= 0, errno == ENOSYS || errno == EPERM, 0, ret, None, Some(errno))
}

/// `rseq` with a null area should return 0 or fail with EINVAL or EFAULT.
pub fn rseq_register(ret: i64, errno: i32) -> (s: TestStatus)
    ensures
        s == outcome(
            ret == 0 || errno == EINVAL || errno == EFAULT,
            errno == ENOSYS,
            failure(0, ret, None, Some(errno)),
        ),
{
    decide(ret == 0 || errno == EINVAL || errno == EFAULT, errno == ENOSYS, 0, ret, None, Some(errno))
}

} // verus!
