//! A verified repository-synchronization engine.
//!
//! The engine records a batch of uploaded files as a chain of commits and
//! pushes the chain to a remote repository, creating the remote history on
//! first use and extending it thereafter.  The commit-sequencing rules, the
//! fast-forward push policy and the failure taxonomy are stated as contracts
//! and proved; the version-control backend itself (libgit2) is reached
//! through a small set of trusted wrappers.

pub mod engine;
pub mod errors;
pub mod git;
pub mod laws;
pub mod model;
pub mod pipeline;
pub mod remote;
pub mod sequencer;
