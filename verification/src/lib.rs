//! Startup policy of a desktop shell that runs a backend worker beside its
//! user interface.
//!
//! The shell picks the local port on which the backend listens, starts the
//! backend as a child process in production builds, lets the user interface
//! ask for the port, and looks once for a newer release. This crate holds the
//! decisions; the binding of sockets, the spawning of processes and the
//! network call are left to the program that drives it.

pub mod decimal;
pub mod error;
pub mod launcher;
pub mod laws;
pub mod mode;
pub mod port;
pub mod sidecar;
pub mod update;
