//! A single-flight, restart-on-change job supervisor.
//!
//! The crate models the decision core of a tool that watches one script on
//! disk and re-runs it whenever it changes: at most one invocation of the
//! watched script runs at a time, a newer change always preempts the run in
//! flight, an interrupt signal shuts the supervisor down, and a successful
//! (non-preempted) run may chain one follow-up script.
//!
//! The surrounding process plumbing (the filesystem watcher, process spawning,
//! the console) lives outside this crate; the supervisor here consumes plain
//! trigger batches and completion events and answers with directives for that
//! plumbing to carry out.

pub mod job;
pub mod laws;
pub mod payload;
pub mod plan;
pub mod report;
pub mod supervisor;
