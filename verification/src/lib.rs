//! Lifecycle control for a mounted filesystem session that runs on a thread of
//! its own.
//!
//! A blocking session loop is driven by one worker. The handle that stands for
//! the running worker owns the mount token, whose release unmounts the
//! filesystem, and the consuming end of a one-shot completion signal. The
//! handle is consumed by exactly one of joining the worker, waiting for the
//! unmount, or being dropped.
pub mod diagnostic;
pub mod error;
pub mod signal;
pub mod worker;
pub mod handle;
pub mod invariants;
pub mod lifecycle;
