//! Scanning: verdicts, jobs and what becomes of each file.

pub mod verdict;
pub mod perf;
pub mod job;
pub mod board;
pub mod start;
pub mod startup;
pub mod worker;
pub mod pipeline;
