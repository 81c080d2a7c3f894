//! Decision logic of a sandboxed code-execution service.
//!
//! Every submission runs in a fresh, single-use virtual machine. This crate
//! holds the rules of that service as functions from plain values to plain
//! values: which files and which command line make up a machine, what the
//! guest does with a request, how the control channel is opened, and how many
//! machines may live at once. Performing the resulting actions is left to the
//! program around it.

pub mod admission;
pub mod client;
pub mod config;
pub mod language;
pub mod layout;
pub mod paths;
pub mod run;
pub mod service;
pub mod span;
pub mod text;
pub mod transport;
pub mod vm;
