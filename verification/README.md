# syscall-compat-tests

A Linux syscall compatibility test suite. Each test case performs a few
syscalls and judges what they returned: `Pass`, `Fail` (with the expected and
actual return value and errno), `Unimplemented` (the kernel answered ENOSYS,
or the facility is missing) or `Error` (the test could not set itself up).
A run is summarised on the console, as JSON or as a Markdown matrix.

## Layout

- `src/` is the library, verified with Verus:
  - `runner`: the result model (`TestStatus`, `TestResult`,
    `SyscallCategory`), the `SyscallTest` trait and the `TestRunner` that
    registers tests and runs them, optionally restricted to one category;
  - `verdict`: the shared judging rules (a call that should return a value,
    fail with an errno, return a new descriptor, ...);
  - `testcases`: the verdict of every test case, one module per group of
    tests, as a function from the values the test observed to its status;
  - `reporter`: the run summary, the grouping and labels of the console
    report, and the Markdown report;
  - `text`, `linux`: decimal and octal text, and the kernel ABI numbers the
    verdicts compare against.
- `app/` is the `sct-run` program: command-line handling, the syscalls of
  each test case, colored console output and the JSON and Markdown files.
- `tests/` holds the tests of the library.

## Coverage

`sct-run` registers 293 test cases. Of the second socket group it runs
UDP `sendto`/`recvfrom`, the Unix stream round trip and `getpeername`; of
the third network group `sendmsg`/`recvmsg` and `accept4(SOCK_NONBLOCK)`.
The other 67 planned test cases are not part of the suite: the rest of
those two groups and the groups network4, memory3, process3, signal2,
io_advanced and final_tests (72 cases in all, 5 of them included).
