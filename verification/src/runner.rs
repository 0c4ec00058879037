use vstd::prelude::*;

verus! {

/// The result of running a single syscall test case.
#[derive(Debug, Clone, PartialEq)]
pub enum TestStatus {
    /// Syscall behaved as expected (return value and errno matched).
    Pass,
    /// Return value or errno did not match expected values.
    Fail {
        expected_ret: i64,
        actual_ret: i64,
        expected_errno: Option<i32>,
        actual_errno: Option<i32>,
    },
    /// Syscall is not implemented (returned ENOSYS).
    Unimplemented,
    /// The test itself encountered an internal error.
    Error(String),
}

/// Categorizes syscalls for reporting.
#[derive(Debug, Clone, Copy, PartialEq, Eq, Hash, Structural)]
pub enum SyscallCategory {
    FileIO,
    Process,
    Memory,
    Signal,
    Network,
    Time,
    Other,
}

/// The name under which a category is shown in reports.
pub open spec fn category_label(c: SyscallCategory) -> Seq<char> {
    match c {
        SyscallCategory::FileIO => "File I/O"@,
        SyscallCategory::Process => "Process"@,
        SyscallCategory::Memory => "Memory"@,
        SyscallCategory::Signal => "Signal"@,
        SyscallCategory::Network => "Network"@,
        SyscallCategory::Time => "Time"@,
        SyscallCategory::Other => "Other"@,
    }
}

impl SyscallCategory {
    /// The report label of the category, e.g. "File I/O".
    pub fn to_string(&self) -> (s: String)
        ensures
            s@ == category_label(*self),
    {
        let label: &str = match self {
            SyscallCategory::FileIO => "File I/O",
            SyscallCategory::Process => "Process",
            SyscallCategory::Memory => "Memory",
            SyscallCategory::Signal => "Signal",
            SyscallCategory::Network => "Network",
            SyscallCategory::Time => "Time",
            SyscallCategory::Other => "Other",
        };
        label.to_owned()
    }
}

/// A single test case result.
#[derive(Debug, Clone)]
pub struct TestResult {
    pub name: String,
    pub syscall: String,
    pub category: SyscallCategory,
    pub status: TestStatus,
    pub description: String,
    pub duration_us: u64,
}

/// Trait that every test case must implement.
pub trait SyscallTest: Send + Sync {
    /// Short unique identifier, e.g. "file_open_basic"
    fn name(&self) -> &str;

    /// The primary syscall being tested, e.g. "open"
    fn syscall(&self) -> &str;

    /// Category for grouping in reports.
    fn category(&self) -> SyscallCategory;

    /// Human-readable description of what this test verifies.
    fn description(&self) -> &str;

    /// Execute the test and return a result.
    fn run(&self) -> TestResult;
}

/// Whether a test of category `c` is run under the category filter `filter`.
pub open spec fn passes_filter(filter: Option<SyscallCategory>, c: SyscallCategory) -> bool {
    match filter {
        Some(f) => f == c,
        None => true,
    }
}

/// The positions, in registration order, of the categories in `cats` that
/// pass `filter`.
pub open spec fn selected_positions(cats: Seq<SyscallCategory>, filter: Option<SyscallCategory>) -> Seq<int>
    decreases cats.len(),
{
    if cats.len() == 0 {
        Seq::empty()
    } else {
        let rest = selected_positions(cats.drop_last(), filter);
        if passes_filter(filter, cats.last()) {
            rest.push(cats.len() - 1)
        } else {
            rest
        }
    }
}

/// A boxed test case is a test case: its methods are those of the test it holds.
impl<T: SyscallTest + ?Sized> SyscallTest for Box<T> {
    fn name(&self) -> (r: &str)
        ensures
            call_ensures(T::name, (&**self,), r),
    {
        (**self).name()
    }

    fn syscall(&self) -> (r: &str)
        ensures
            call_ensures(T::syscall, (&**self,), r),
    {
        (**self).syscall()
    }

    fn category(&self) -> (r: SyscallCategory)
        ensures
            call_ensures(T::category, (&**self,), r),
    {
        (**self).category()
    }

    fn description(&self) -> (r: &str)
        ensures
            call_ensures(T::description, (&**self,), r),
    {
        (**self).description()
    }

    fn run(&self) -> (r: TestResult)
        ensures
            call_ensures(T::run, (&**self,), r),
    {
        (**self).run()
    }
}

/// Without a category filter every registered test is run, in registration
/// order.
pub proof fn lemma_no_filter_runs_every_test(cats: Seq<SyscallCategory>)
    ensures
        selected_positions(cats, None) == Seq::new(cats.len(), |i: int| i),
    decreases cats.len(),
{
    if cats.len() > 0 {
        lemma_no_filter_runs_every_test(cats.drop_last());
        assert(selected_positions(cats, None) =~= Seq::new(cats.len(), |i: int| i));
    }
}

/// The runs filtered on each category, taken together, run as many tests
/// as the unfiltered run: every registered test belongs to exactly one
/// category.
pub proof fn lemma_categories_split_the_run(cats: Seq<SyscallCategory>)
    ensures
        selected_positions(cats, Some(SyscallCategory::FileIO)).len()
            + selected_positions(cats, Some(SyscallCategory::Process)).len()
            + selected_positions(cats, Some(SyscallCategory::Memory)).len()
            + selected_positions(cats, Some(SyscallCategory::Signal)).len()
            + selected_positions(cats, Some(SyscallCategory::Network)).len()
            + selected_positions(cats, Some(SyscallCategory::Time)).len()
            + selected_positions(cats, Some(SyscallCategory::Other)).len()
            == selected_positions(cats, None).len(),
        selected_positions(cats, None).len() == cats.len(),
    decreases cats.len(),
{
    if cats.len() > 0 {
        lemma_categories_split_the_run(cats.drop_last());
    }
}

/// With a category filter exactly the tests of that category are run, each
/// once, in registration order.
pub proof fn lemma_filter_runs_exactly_its_category(cats: Seq<SyscallCategory>, c: SyscallCategory)
    ensures
        forall|i: int|
            0 <= i < cats.len() ==> (selected_positions(cats, Some(c)).contains(i) <==> cats[i]
                == c),
        forall|j: int|
            0 <= j < selected_positions(cats, Some(c)).len() ==> {
                let p = #[trigger] selected_positions(cats, Some(c))[j];
                0 <= p < cats.len() && cats[p] == c
            },
        forall|j: int, k: int|
            0 <= j < k < selected_positions(cats, Some(c)).len() ==> #[trigger] selected_positions(
                cats,
                Some(c),
            )[j] < #[trigger] selected_positions(cats, Some(c))[k],
    decreases cats.len(),
{
    broadcast use vstd::seq_lib::lemma_seq_contains_after_push;

    if cats.len() > 0 {
        let rest = cats.drop_last();
        lemma_filter_runs_exactly_its_category(rest, c);
        let sel = selected_positions(cats, Some(c));
        let sel_rest = selected_positions(rest, Some(c));
        assert forall|i: int| 0 <= i < cats.len() implies (sel.contains(i) <==> cats[i] == c) by {
            if i < cats.len() - 1 {
                assert(rest[i] == cats[i]);
                if sel_rest.contains(i) {
                    assert(i < cats.len() - 1);
                }
            } else {
                if !(cats[i] == c) {
                    if sel_rest.contains(i) {
                        let j = choose|j: int| 0 <= j < sel_rest.len() && sel_rest[j] == i;
                        assert(0 <= sel_rest[j] < rest.len());
                    }
                }
            }
        }
        assert forall|j: int| 0 <= j < sel.len() implies {
            let p = #[trigger] sel[j];
            0 <= p < cats.len() && cats[p] == c
        } by {
            if j < sel_rest.len() {
                assert(sel[j] == sel_rest[j]);
                assert(rest[sel_rest[j]] == cats[sel_rest[j]]);
            }
        }
        assert forall|j: int, k: int| 0 <= j < k < sel.len() implies #[trigger] sel[j]
            < #[trigger] sel[k] by {
            if k < sel_rest.len() {
                assert(sel[j] == sel_rest[j] && sel[k] == sel_rest[k]);
            } else {
                assert(sel[j] == sel_rest[j]);
                assert(0 <= sel_rest[j] < rest.len());
            }
        }
    }
}

/// Whether `results` is what a run of `tests` under `filter` returns when
/// the tests' `category()` calls report `cats`: under a filter each test's
/// category is asked for (`cats`), and the tests that pass the filter are
/// run, each once, in registration order, each result being what that
/// test's `run()` returned. Without a filter no category is asked for and
/// every test is run.
pub open spec fn runs_as<T: SyscallTest>(
    tests: Seq<T>,
    filter: Option<SyscallCategory>,
    cats: Seq<SyscallCategory>,
    results: Seq<TestResult>,
) -> bool {
    &&& cats.len() == tests.len()
    &&& filter is Some ==> forall|i: int|
        0 <= i < tests.len() ==> call_ensures(T::category, (&tests[i],), #[trigger] cats[i])
    &&& results.len() == selected_positions(cats, filter).len()
    &&& forall|j: int|
        0 <= j < results.len() ==> call_ensures(
            T::run,
            (&tests[selected_positions(cats, filter)[j]],),
            #[trigger] results[j],
        )
}

/// Collects and runs all registered test cases.
pub struct TestRunner<T = Box<dyn SyscallTest>> {
    tests: Vec<T>,
    filter: Option<SyscallCategory>,
}

impl<T: SyscallTest> TestRunner<T> {
    /// The registered tests, in registration order.
    pub closed spec fn tests(&self) -> Seq<T> {
        self.tests@
    }

    /// The category filter in force, if any.
    pub closed spec fn filter(&self) -> Option<SyscallCategory> {
        self.filter
    }

    pub fn new() -> (r: Self)
        ensures
            r.tests() == Seq::<T>::empty(),
            r.filter() == None::<SyscallCategory>,
    {
        Self { tests: Vec::new(), filter: None }
    }

    /// Register a test case: it is appended after the tests registered
    /// before it.
    pub fn register(&mut self, test: T)
        ensures
            final(self).tests() == old(self).tests().push(test),
            final(self).filter() == old(self).filter(),
    {
        self.tests.push(test);
    }

    /// Only run tests in a specific category.
    pub fn filter_category(&mut self, category: SyscallCategory)
        ensures
            final(self).filter() == Some(category),
            final(self).tests() == old(self).tests(),
    {
        self.filter = Some(category);
    }

    /// Run all registered (or filtered) tests and return results. Under a
    /// filter each test's `category()` is asked for at this call, and the
    /// tests whose category equals the filter are run; without a filter
    /// every test is run. The results are what the `run()` of the tests run
    /// returned, in registration order.
    pub fn run_all(&self) -> (results: Vec<TestResult>)
        ensures
            exists|cats: Seq<SyscallCategory>| runs_as(self.tests(), self.filter(), cats, results@),
            self.filter() is None ==> results.len() == self.tests().len(),
            self.filter() is None ==> forall|j: int|
                0 <= j < results.len() ==> call_ensures(
                    T::run,
                    (&self.tests()[j],),
                    #[trigger] results@[j],
                ),
    {
        let mut results: Vec<TestResult> = Vec::new();
        let ghost mut cats: Seq<SyscallCategory> = Seq::empty();
        let mut i: usize = 0;
        while i < self.tests.len()
            invariant
                i <= self.tests.len(),
                runs_as(self.tests@.take(i as int), self.filter, cats, results@),
            decreases self.tests.len() - i,
        {
            let ghost before = cats;
            let keep = match self.filter {
                Some(f) => {
                    let c = self.tests[i].category();
                    proof {
                        cats = cats.push(c);
                    }
                    f == c
                },
                None => {
                    proof {
                        cats = cats.push(SyscallCategory::Other);
                    }
                    true
                },
            };
            assert(cats.drop_last() =~= before);
            proof {
                lemma_selected_positions_below(before, self.filter);
            }
            let ghost prefix = self.tests@.take(i as int);
            let ghost next = self.tests@.take(i + 1);
            if keep {
                let r = self.tests[i].run();
                results.push(r);
            }
            assert forall|k: int| 0 <= k < i + 1 implies #[trigger] next[k] == self.tests@[k] by {}
            assert forall|j: int| 0 <= j < results.len() implies call_ensures(
                T::run,
                (&next[selected_positions(cats, self.filter)[j]],),
                #[trigger] results@[j],
            ) by {
                if j < selected_positions(before, self.filter).len() {
                    assert(selected_positions(cats, self.filter)[j] == selected_positions(before, self.filter)[j]);
                    assert(prefix[selected_positions(before, self.filter)[j]] == next[selected_positions(before, self.filter)[j]]);
                }
            }
            assert(self.filter is Some ==> forall|k: int|
                0 <= k < next.len() ==> call_ensures(T::category, (&next[k],), #[trigger] cats[k])) by {
                if self.filter is Some {
                    assert forall|k: int| 0 <= k < next.len() implies call_ensures(
                        T::category,
                        (&next[k],),
                        #[trigger] cats[k],
                    ) by {
                        if k < i {
                            assert(prefix[k] == next[k]);
                            assert(before[k] == cats[k]);
                        }
                    }
                }
            }
            i = i + 1;
        }
        assert(self.tests@.take(i as int) =~= self.tests@);
        proof {
            lemma_no_filter_runs_every_test(cats);
        }
        assert(runs_as(self.tests(), self.filter(), cats, results@));
        results
    }

    pub fn test_count(&self) -> (n: usize)
        ensures
            n == self.tests().len(),
    {
        self.tests.len()
    }
}

/// Every position that `selected_positions` gives lies within the sequence.
proof fn lemma_selected_positions_below(cats: Seq<SyscallCategory>, filter: Option<SyscallCategory>)
    ensures
        forall|j: int|
            0 <= j < selected_positions(cats, filter).len() ==> 0 <= #[trigger] selected_positions(cats, filter)[j]
                < cats.len(),
    decreases cats.len(),
{
    if cats.len() > 0 {
        let rest = selected_positions(cats.drop_last(), filter);
        lemma_selected_positions_below(cats.drop_last(), filter);
        assert forall|j: int| 0 <= j < selected_positions(cats, filter).len() implies 0
            <= #[trigger] selected_positions(cats, filter)[j] < cats.len() by {
            if j < rest.len() {
                assert(selected_positions(cats, filter)[j] == rest[j]);
            }
        }
    }
}

impl<T: SyscallTest> Default for TestRunner<T> {
    fn default() -> (r: Self)
        ensures
            r.tests() == Seq::<T>::empty(),
            r.filter() == None::<SyscallCategory>,
    {
        Self::new()
    }
}

} // verus!
