//! Failure outcomes of running a shell command through the POSIX pipe
//! primitives, and the rendering of kernel-level failures (`errno` plus its
//! `strerror` text) into one diagnostic line.

pub mod error;
pub mod text;
pub mod wrapper;
