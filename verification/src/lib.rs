//! Benchmark orchestration for pairwise sequence-alignment algorithms.
//!
//! The crate expands a declarative experiment into a flat batch of jobs,
//! reconciles the batch against a persistent result corpus, decides which
//! jobs a worker should run or skip, classifies child-process exits, and
//! cross-validates approximate alignment costs against exact references.

pub mod aligners;
pub mod cigar;
pub mod cores;
pub mod crosscheck;
pub mod executor;
pub mod expand;
pub mod numfmt;
pub mod plan;
pub mod results;
pub mod session;
pub mod types;
pub mod worker;
