//! A parallel test runner for an embedded scripting runtime, as a verified library.
//!
//! Each test runs in an isolated sub-interpreter. The host performs the interpreter work;
//! this library holds the decisions: which tests a module declares ([`discovery`]), how
//! skip and expected-failure annotations read ([`markers`]), how one test is driven to
//! its outcome ([`run`]), how outcomes, fail-fast cancellation and coverage are combined
//! ([`summary`], [`coverage`]), how a test file's packages are made importable
//! ([`package`]), the interpreter lock protocol ([`lifecycle`]), settings ([`config`]) and
//! the report records ([`output`]).

pub mod config;
pub mod coverage;
pub mod discovery;
pub mod lifecycle;
pub mod markers;
pub mod output;
pub mod package;
pub mod run;
pub mod summary;
pub mod text;
