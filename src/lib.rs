//! A supervisor that bridges a plugin host to a formatter worker process:
//! it reads its command line, watches the process that launched it,
//! bootstraps the worker's pinned dependency on request, and starts the
//! worker with its standard streams joined to its own.
pub mod args;
pub mod monitor;
pub mod bootstrap;
pub mod launcher;
pub mod supervisor;
