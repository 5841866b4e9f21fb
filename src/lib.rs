//! Write-once cells: containers that start empty, take a value at most once,
//! and afterwards only hand out access to that value.
//!
//! `unsync::OnceCell` is for a single thread of control, and its contracts are
//! stated over `slot`, the model of one write attempt. `sync::OnceCell` may be
//! shared between threads; which of several racing writes wins is decided at
//! run time, so its contracts state what holds of every outcome.

pub mod slot;
pub mod sync;
pub mod unsync;
