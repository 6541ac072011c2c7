//! A repository-synchronization agent's decision core.
//!
//! The agent receives notifications that a remote repository changed,
//! brings a local working copy to the tip of a tracked branch, and runs a
//! configured post-update command only when new commits arrived. Every
//! subprocess invocation and every piece of I/O is performed by the caller;
//! this crate decides, step by step, which command to run next and how to
//! classify each outcome.

pub mod command;
pub mod conf;
pub mod error;
pub mod executor;
pub mod update;
