//! Runs shell commands concurrently: command descriptions, their outcomes,
//! and the bookkeeping that tells when every command of a batch has finished.

pub mod batch;
pub mod options;
pub mod outcome;
pub mod proc;

pub use batch::{plan_batch, Batch};
pub use options::{OnError, Wait};
pub use outcome::{ProcFailure, ProcFinished, ProcOutput};
pub use proc::{BuildError, Proc, ProcBuilder, ProcBuilderSpec, ProcSpec};
