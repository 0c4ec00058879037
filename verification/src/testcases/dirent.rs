use vstd::prelude::*;

use crate::linux::{ENOSYS, S_IFDIR, S_IFMT};
use crate::runner::TestStatus;
use crate::verdict::{bytes_equal, decide, error, failure, is_error, outcome};

verus! {

/// Whether a directory entry name is "." or "..".
pub open spec fn is_dot_entry(name: Seq<u8>) -> bool {
    name == seq![46u8] || name == seq![46u8, 46u8]
}

/// How many of `names` are neither "." nor "..".
pub open spec fn other_entries(names: Seq<Seq<u8>>) -> nat
    decreases names.len(),
{
    if names.len() == 0 {
        0
    } else {
        other_entries(names.drop_last()) + if is_dot_entry(names.last()) {
            0nat
        } else {
            1nat
        }
    }
}

/// The count of other entries is the number of names that are neither
/// "." nor "..".
pub proof fn lemma_other_entries_count(names: Seq<Seq<u8>>)
    ensures
        other_entries(names) == names.filter(|n: Seq<u8>| n != seq![46u8] && n != seq![46u8, 46u8]).len(),
    decreases names.len(),
{
    reveal_with_fuel(Seq::filter, 1);
    if names.len() > 0 {
        lemma_other_entries_count(names.drop_last());
    }
}

/// The names of a list of directory entries, as byte strings.
pub open spec fn entry_names(names: Seq<Vec<u8>>) -> Seq<Seq<u8>> {
    names.map_values(|n: Vec<u8>| n@)
}

fn is_dot_name(name: &Vec<u8>) -> (r: bool)
    ensures
        r == is_dot_entry(name@),
{
    if name.len() == 1 {
        let r = name[0] == 46u8;
        assert(r ==> name@ =~= seq![46u8]);
        r
    } else if name.len() == 2 {
        let r = name[0] == 46u8 && name[1] == 46u8;
        assert(r ==> name@ =~= seq![46u8, 46u8]);
        r
    } else {
        false
    }
}

/// The number of entries in `names` that are neither "." nor "..".
pub fn count_other_entries(names: &Vec<Vec<u8>>) -> (n: usize)
    ensures
        n == other_entries(entry_names(names@)),
{
    let mut n: usize = 0;
    let mut i: usize = 0;
    while i < names.len()
        invariant
            i <= names@.len(),
            n == other_entries(entry_names(names@).take(i as int)),
            n <= i,
        decreases names@.len() - i,
    {
        proof {
            assert(entry_names(names@).take(i + 1).drop_last() =~= entry_names(names@).take(i as int));
        }
        if !is_dot_name(&names[i]) {
            n = n + 1;
        }
        i = i + 1;
    }
    assert(entry_names(names@).take(i as int) =~= entry_names(names@));
    n
}

/// `opendir("/tmp")` should return a directory stream.
pub fn opendir_tmp(opened: bool, errno: i32) -> (s: TestStatus)
    ensures
        s == outcome(opened, errno == ENOSYS, failure(1, 0, None, Some(errno))),
{
    decide(opened, errno == ENOSYS, 1, 0, None, Some(errno))
}

/// Reading "/tmp" should yield both "." and ".." among `names`.
pub fn readdir_dot_entries(opened: bool, names: &Vec<Vec<u8>>) -> (s: TestStatus)
    ensures
        !opened ==> is_error(s, "opendir failed"@),
        opened && entry_names(names@).contains(seq![46u8]) && entry_names(names@).contains(
            seq![46u8, 46u8],
        ) ==> s == TestStatus::Pass,
        opened && !(entry_names(names@).contains(seq![46u8]) && entry_names(names@).contains(
            seq![46u8, 46u8],
        )) ==> is_error(s, "missing . or .. entries"@),
{
    if !opened {
        return error("opendir failed");
    }
    let mut found_dot = false;
    let mut found_dotdot = false;
    let mut i: usize = 0;
    while i < names.len()
        invariant
            i <= names@.len(),
            found_dot <==> exists|k: int| 0 <= k < i && names@[k]@ == seq![46u8],
            found_dotdot <==> exists|k: int| 0 <= k < i && names@[k]@ == seq![46u8, 46u8],
        decreases names@.len() - i,
    {
        let n = &names[i];
        if n.len() == 1 && n[0] == 46u8 {
            assert(names@[i as int]@ =~= seq![46u8]);
            found_dot = true;
        }
        if n.len() == 2 && n[0] == 46u8 && n[1] == 46u8 {
            assert(names@[i as int]@ =~= seq![46u8, 46u8]);
            found_dotdot = true;
        }
        i = i + 1;
    }
    proof {
        let en = entry_names(names@);
        if found_dot {
            let k = choose|k: int| 0 <= k < i && names@[k]@ == seq![46u8];
            assert(en[k] == seq![46u8]);
        }
        if found_dotdot {
            let k = choose|k: int| 0 <= k < i && names@[k]@ == seq![46u8, 46u8];
            assert(en[k] == seq![46u8, 46u8]);
        }
        if en.contains(seq![46u8]) {
            let k = choose|k: int| 0 <= k < en.len() && en[k] == seq![46u8];
            assert(names@[k]@ == seq![46u8]);
        }
        if en.contains(seq![46u8, 46u8]) {
            let k = choose|k: int| 0 <= k < en.len() && en[k] == seq![46u8, 46u8];
            assert(names@[k]@ == seq![46u8, 46u8]);
        }
    }
    if found_dot && found_dotdot {
        TestStatus::Pass
    } else {
        error("missing . or .. entries")
    }
}

/// A directory holding three created files should list exactly three
/// entries besides "." and "..".
pub fn readdir_created_files(names: &Vec<Vec<u8>>) -> (s: TestStatus)
    ensures
        s == outcome(
            other_entries(entry_names(names@)) == 3,
            false,
            failure(3, other_entries(entry_names(names@)) as i64, None, None),
        ),
{
    let count = count_other_entries(names);
    decide(count == 3, false, 3, count as i64, None, None)
}

/// After `rewinddir`, a second pass over "/tmp" should yield as many entries
/// as the first, and at least one.
pub fn rewinddir_same_count(opened: bool, first: u64, second: u64) -> (s: TestStatus)
    requires
        first <= i64::MAX,
        second <= i64::MAX,
    ensures
        !opened ==> is_error(s, "opendir failed"@),
        opened ==> s == outcome(
            first == second && first > 0,
            false,
            failure(first as i64, second as i64, None, None),
        ),
{
    if !opened {
        return error("opendir failed");
    }
    decide(first == second && first > 0, false, first as i64, second as i64, None, None)
}

/// `getdents64` on a descriptor of "/tmp" should return a positive number of
/// bytes.
pub fn getdents64_tmp(open_fd: i32, ret: i64, errno: i32) -> (s: TestStatus)
    ensures
        open_fd < 0 ==> is_error(s, "open dir failed"@),
        open_fd >= 0 ==> s == outcome(ret > 0, errno == ENOSYS, failure(1, ret, None, Some(errno))),
{
    if open_fd < 0 {
        return error("open dir failed");
    }
    decide(ret > 0, errno == ENOSYS, 1, ret, None, Some(errno))
}

/// `chdir("/tmp")` should return 0, after which `getcwd` reads "/tmp".
pub fn chdir_getcwd(ret: i32, cwd: &[u8], errno: i32) -> (s: TestStatus)
    ensures
        s == outcome(
            ret == 0 && cwd@ == seq![47u8, 116u8, 109u8, 112u8],
            errno == ENOSYS,
            failure(0, ret as i64, None, Some(errno)),
        ),
{
    let tmp: [u8; 4] = [47u8, 116u8, 109u8, 112u8];
    let same = bytes_equal(cwd, tmp.as_slice());
    assert(tmp@ =~= seq![47u8, 116u8, 109u8, 112u8]);
    decide(ret == 0 && same, errno == ENOSYS, 0, ret as i64, None, Some(errno))
}

/// `openat(AT_FDCWD, path, O_CREAT)` should return a descriptor.
pub fn openat_cwd(fd: i32, errno: i32) -> (s: TestStatus)
    ensures
        s == outcome(fd >= 0, errno == ENOSYS, failure(3, fd as i64, None, Some(errno))),
{
    decide(fd >= 0, errno == ENOSYS, 3, fd as i64, None, Some(errno))
}

/// `mkdirat(AT_FDCWD, path, 0o755)` should return 0, and `stat` should find
/// a directory there.
pub fn mkdirat_cwd(ret: i32, stat_ret: i32, mode: u32, errno: i32) -> (s: TestStatus)
    ensures
        s == outcome(
            ret == 0 && stat_ret == 0 && (mode & S_IFMT) == S_IFDIR,
            errno == ENOSYS,
            failure(0, ret as i64, None, Some(errno)),
        ),
{
    decide(
        ret == 0 && stat_ret == 0 && (mode & S_IFMT) == S_IFDIR,
        errno == ENOSYS,
        0,
        ret as i64,
        None,
        Some(errno),
    )
}

} // verus!
