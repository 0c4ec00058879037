use vstd::prelude::*;

use crate::linux::ENOSYS;
use crate::runner::TestStatus;
use crate::verdict::{
    bytes_equal, check_success_with, decide, error, expect_success_with, failure, is_error, outcome,
};

verus! {

/// `shmget`, `msgget` or `semget` with `IPC_PRIVATE | IPC_CREAT` should
/// return an id of at least 0.
pub fn ipc_id_created(id: i32, errno: i32) -> (s: TestStatus)
    ensures
        s == outcome(id >= 0, errno == ENOSYS, failure(1, id as i64, None, Some(errno))),
{
    decide(id >= 0, errno == ENOSYS, 1, id as i64, None, Some(errno))
}

/// A value 0xDEADBEEF written to a shared memory segment should be read
/// back after detaching and attaching it again. A segment that cannot be
/// created is not implemented on ENOSYS and a test error otherwise; one that
/// cannot be attached counts as not implemented.
pub fn shm_reattach(shmid: i32, errno: i32, attached: bool, value: u32) -> (s: TestStatus)
    ensures
        shmid < 0 && errno == ENOSYS ==> s == TestStatus::Unimplemented,
        shmid < 0 && errno != ENOSYS ==> is_error(s, "shmget failed"@),
        shmid >= 0 && !attached ==> s == TestStatus::Unimplemented,
        shmid >= 0 && attached ==> s == outcome(
            value == 0xDEADBEEF,
            false,
            failure(0xDEADBEEF, value as i64, None, None),
        ),
{
    if shmid < 0 {
        if errno == ENOSYS {
            return TestStatus::Unimplemented;
        }
        return error("shmget failed");
    }
    if !attached {
        return TestStatus::Unimplemented;
    }
    decide(value == 0xDEADBEEF, false, 0xDEADBEEF, value as i64, None, None)
}

/// `shmctl(IPC_STAT)` of a 4096-byte segment should return 0 with a size of
/// at least 4096; a segment that cannot be created counts as not
/// implemented.
pub fn shmctl_stat(shmid: i32, ret: i32, size: u64, errno: i32) -> (s: TestStatus)
    ensures
        shmid < 0 ==> s == TestStatus::Unimplemented,
        shmid >= 0 ==> s == expect_success_with(ret as i64, size >= 4096, errno),
{
    if shmid < 0 {
        return TestStatus::Unimplemented;
    }
    check_success_with(ret as i64, size >= 4096, errno)
}

/// `msgsnd` of the text `sent` should return 0, and `msgrcv` should return
/// its length with the same text; a failure reports the `msgrcv` result. A
/// queue that cannot be created counts as not implemented.
pub fn msg_roundtrip(msqid: i32, send_ret: i32, recv_ret: i64, sent: &[u8], received: &[u8]) -> (s:
    TestStatus)
    requires
        sent@.len() <= i64::MAX,
    ensures
        msqid < 0 ==> s == TestStatus::Unimplemented,
        msqid >= 0 ==> s == outcome(
            send_ret == 0 && recv_ret == sent@.len() && received@ == sent@,
            false,
            failure(sent@.len() as i64, recv_ret, None, None),
        ),
{
    if msqid < 0 {
        return TestStatus::Unimplemented;
    }
    let n = sent.len() as i64;
    let same = bytes_equal(received, sent);
    decide(send_ret == 0 && recv_ret == n && same, false, n, recv_ret, None, None)
}

/// Setting a semaphore to 1 and decrementing it without waiting should both
/// return 0; a failure reports `semop`. A set that cannot be created counts
/// as not implemented.
pub fn semop_decrement(semid: i32, set_ret: i32, op_ret: i32, errno: i32) -> (s: TestStatus)
    ensures
        semid < 0 ==> s == TestStatus::Unimplemented,
        semid >= 0 ==> s == outcome(
            set_ret == 0 && op_ret == 0,
            errno == ENOSYS,
            failure(0, op_ret as i64, None, Some(errno)),
        ),
{
    if semid < 0 {
        return TestStatus::Unimplemented;
    }
    decide(set_ret == 0 && op_ret == 0, errno == ENOSYS, 0, op_ret as i64, None, Some(errno))
}

} // verus!
