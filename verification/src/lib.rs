//! Benchmark orchestration for sort queries under a bounded memory budget.
//!
//! The library expands a query catalog into a matrix of benchmark cases,
//! models the bounded-memory resource context and dataset binding for each
//! case, tracks the iterations of a running case, and accumulates the
//! per-iteration results into a run report.

pub mod binder;
pub mod cases;
pub mod catalog;
pub mod labels;
pub mod policy;
pub mod report;
pub mod run;
pub mod runner;
pub mod strutil;
