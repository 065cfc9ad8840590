//! The self-pipe bridge that carries interrupt requests (Ctrl-C, and on
//! request termination and hangup) out of signal-handler context.
//!
//! The library holds the decisions of that bridge: in which order the pipe
//! and the signal dispositions are set up, when an installation has to be
//! undone and in which order, and what a read from the pipe means to a
//! waiting thread. The system calls themselves are made by the caller, who
//! performs each [`install::Action`] and reports what the system answered.
//!
//! - [`error`]: errors of the operating system.
//! - [`signal`]: the target signals and their dispositions.
//! - [`pipe`]: the calls that make the pipe.
//! - [`install`]: the installer.
//! - [`process`]: what the installer's calls do to a process.
//! - [`guarantees`]: what an installation leaves behind.
//! - [`wait`]: the waiter, and the pipe between handler and waiter.

pub mod error;
pub mod guarantees;
pub mod install;
pub mod pipe;
pub mod process;
pub mod signal;
pub mod wait;
