//! Start-up decisions of a desktop application shell.
//!
//! The window host, its plugins and its run loop live outside this crate.
//! What is decided here is which of them the shell asks for, in which order,
//! and what becomes of a failure: `setup` holds the one-shot setup sequence
//! as a state machine, and `launch` what follows from building the host.
pub mod launch;
pub mod setup;
