//! A Linux syscall compatibility test suite: the test-result model, the
//! runner that selects and runs registered tests, the verdicts that turn
//! what a syscall did into a test status, and the report builders.

pub mod linux;
pub mod runner;
pub mod text;
pub mod verdict;
pub mod reporter;
pub mod testcases;
