//! Runs a compiled Cairo program's entry point, or its discovered test
//! suite, and turns what the execution backend observed into classified,
//! human-readable results.
//!
//! The language front end and the Sierra-to-CASM execution backend are
//! external collaborators. The logic owned and verified here is everything
//! downstream of them: locating the unique entry point, classifying each
//! test's outcome against its expectation, accumulating a suite summary with
//! its ordered log, and formatting raw panic payloads, which distinguishes
//! short-string-encoded values from numeric ones.

pub mod felt;
pub mod strutil;
pub mod format;
pub mod outcome;
pub mod classify;
pub mod backend;
pub mod sierra;
pub mod runner;
pub mod api;
pub mod project;
pub mod test_runner;
