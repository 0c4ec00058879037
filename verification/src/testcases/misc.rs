use vstd::prelude::*;

use crate::linux::{EAGAIN, ENOSYS};
use crate::runner::TestStatus;
use crate::verdict::{
    bytes_equal, check_new_fd, decide, error, expect_new_fd, failure, is_error, outcome,
};

verus! {

pub(crate) fn str_equal(a: &str, b: &str) -> (r: bool)
    ensures
        r == (a@ == b@),
{
    let n = a.unicode_len();
    if n != b.unicode_len() {
        return false;
    }
    let mut i: usize = 0;
    while i < n
        invariant
            n == a@.len(),
            n == b@.len(),
            i <= n,
            forall|j: int| 0 <= j < i ==> a@[j] == b@[j],
        decreases n - i,
    {
        if a.get_char(i) != b.get_char(i) {
            return false;
        }
        i = i + 1;
    }
    assert(a@ =~= b@);
    true
}

/// After `setenv(key, value)`, `getenv(key)` should read `value` back
/// (`read_back`, `None` for a null pointer), and after `unsetenv(key)` the
/// key should be gone (`removed`).
pub fn setenv_roundtrip(value: &str, read_back: Option<&str>, removed: bool) -> (s: TestStatus)
    ensures
        (read_back matches Some(v) && v@ == value@) && removed ==> s == TestStatus::Pass,
        !((read_back matches Some(v) && v@ == value@) && removed) ==> is_error(
            s,
            "setenv/getenv/unsetenv round-trip failed"@,
        ),
{
    let matches = match read_back {
        Some(v) => str_equal(v, value),
        None => false,
    };
    if matches && removed {
        TestStatus::Pass
    } else {
        error("setenv/getenv/unsetenv round-trip failed")
    }
}

/// A read of `count` random bytes (`getrandom`, or a read of
/// `/dev/urandom`) should return `count`.
pub fn random_bytes(ret: i64, count: i64, errno: i32) -> (s: TestStatus)
    ensures
        s == outcome(ret == count, errno == ENOSYS, failure(count, ret, None, Some(errno))),
{
    decide(ret == count, errno == ENOSYS, count, ret, None, Some(errno))
}

/// `getrandom(GRND_NONBLOCK)` of 16 bytes should return 16; EAGAIN (no
/// entropy yet) and ENOSYS count as not implemented.
pub fn getrandom_nonblock(ret: i64, errno: i32) -> (s: TestStatus)
    ensures
        s == outcome(ret == 16, errno == ENOSYS || errno == EAGAIN, failure(16, ret, None, Some(errno))),
{
    decide(ret == 16, errno == ENOSYS || errno == EAGAIN, 16, ret, None, Some(errno))
}

/// A read of 16 bytes of `/dev/urandom` should return 16; a device that
/// cannot be opened counts as not implemented.
pub fn dev_urandom(open_fd: i32, read: i64, errno: i32) -> (s: TestStatus)
    ensures
        open_fd < 0 ==> s == TestStatus::Unimplemented,
        open_fd >= 0 ==> s == outcome(read == 16, errno == ENOSYS, failure(16, read, None, Some(errno))),
{
    if open_fd < 0 {
        return TestStatus::Unimplemented;
    }
    random_bytes(read, 16, errno)
}

/// `ioctl(FIONREAD)` on a pipe holding 5 bytes should return 0 and report 5
/// bytes available; a failure reports the count.
pub fn ioctl_fionread(pipe_ok: bool, ret: i32, available: i32, errno: i32) -> (s: TestStatus)
    ensures
        !pipe_ok ==> is_error(s, "pipe failed"@),
        pipe_ok ==> s == outcome(
            ret == 0 && available == 5,
            errno == ENOSYS,
            failure(5, available as i64, None, Some(errno)),
        ),
{
    if !pipe_ok {
        return error("pipe failed");
    }
    decide(ret == 0 && available == 5, errno == ENOSYS, 5, available as i64, None, Some(errno))
}

/// `getlogin` should return a non-empty name; no name (no controlling
/// terminal) or an empty one counts as not implemented.
pub fn login_name(name: Option<&str>) -> (s: TestStatus)
    ensures
        s == (match name {
            Some(n) if n@.len() > 0 => TestStatus::Pass,
            _ => TestStatus::Unimplemented,
        }),
{
    match name {
        Some(n) => if n.unicode_len() > 0 {
            TestStatus::Pass
        } else {
            TestStatus::Unimplemented
        },
        None => TestStatus::Unimplemented,
    }
}

/// `getenv("PATH")` should return a non-empty value.
pub fn path_set(value: Option<&str>) -> (s: TestStatus)
    ensures
        value is None ==> is_error(s, "PATH not set"@),
        value matches Some(v) && v@.len() == 0 ==> is_error(s, "PATH is empty"@),
        value matches Some(v) && v@.len() > 0 ==> s == TestStatus::Pass,
{
    match value {
        Some(v) => if v.unicode_len() > 0 {
            TestStatus::Pass
        } else {
            error("PATH is empty")
        },
        None => error("PATH not set"),
    }
}

/// Writing `data` to a new `memfd_create` descriptor and reading it back from
/// the start should return the same bytes; a failure reports the count read.
/// A descriptor that cannot be created fails as in `expect_new_fd`.
pub fn memfd_roundtrip(fd: i32, errno: i32, data: &[u8], read: i64, buf: &[u8]) -> (s: TestStatus)
    requires
        data@.len() <= i64::MAX,
    ensures
        fd < 0 ==> s == expect_new_fd(fd as i64, errno),
        fd >= 0 ==> s == outcome(
            read == data@.len() && buf@ == data@,
            false,
            failure(data@.len() as i64, read, None, None),
        ),
{
    if fd < 0 {
        return check_new_fd(fd as i64, errno);
    }
    let n = data.len() as i64;
    let same = bytes_equal(buf, data);
    decide(read == n && same, false, n, read, None, None)
}

/// Writing 5 to a new `eventfd` should make an 8-byte read return 5; a
/// failure reports the value read.
pub fn eventfd_value(fd: i32, errno: i32, read: i64, value: u64) -> (s: TestStatus)
    ensures
        fd < 0 ==> s == expect_new_fd(fd as i64, errno),
        fd >= 0 ==> s == outcome(read == 8 && value == 5, false, failure(5, value as i64, None, None)),
{
    if fd < 0 {
        return check_new_fd(fd as i64, errno);
    }
    decide(read == 8 && value == 5, false, 5, value as i64, None, None)
}

/// A `timerfd` armed for 1 ms should make an 8-byte read return at least one
/// expiry; a failure reports the count.
pub fn timerfd_expiry(fd: i32, errno: i32, read: i64, expirations: u64) -> (s: TestStatus)
    ensures
        fd < 0 ==> s == expect_new_fd(fd as i64, errno),
        fd >= 0 ==> s == outcome(
            read == 8 && expirations >= 1,
            false,
            failure(1, expirations as i64, None, None),
        ),
{
    if fd < 0 {
        return check_new_fd(fd as i64, errno);
    }
    decide(read == 8 && expirations >= 1, false, 1, expirations as i64, None, None)
}

} // verus!
