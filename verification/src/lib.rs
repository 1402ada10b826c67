//! Synchronous, race-free signal handling primitives for process
//! supervisors on POSIX systems.
//!
//! Two independent components:
//!
//! * [`trap`]: a scoped guard that blocks a set of signals at the mask
//!   level, makes them deliverable, and exposes a synchronous
//!   wait/iterate interface over pending signals; the prior mask and
//!   dispositions are restored on release.
//! * [`exec_handler`]: process-wide configuration of a command line to
//!   `exec` into when a fatal signal arrives, replacing the process
//!   image in place instead of crashing silently.

pub mod exec_handler;
pub mod os;
pub mod sig;
pub mod sigset;
pub mod trap;

pub use sig::Sig;
