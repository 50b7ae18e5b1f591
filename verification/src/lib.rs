//! Filesystem sandboxing for a launched command: which paths a command may
//! touch, how that allowlist is handed to the kernel, and which exit code the
//! launcher reports afterwards.

pub mod launcher;
pub mod pipeline;
pub mod policy;
pub mod rights;
pub mod sandbox;
