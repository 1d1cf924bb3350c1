//! Isolation engine of a minimal container runtime.
//!
//! The library holds the decisions of the runtime: the order of the setup
//! steps on both sides of the parent/child handshake, the error each failing
//! step maps to, the syscall-filter policy and how it judges a call, the
//! user-namespace id mapping, and the platform check. The system calls
//! themselves are made by the program around it, which performs the action
//! each state machine asks for and hands the outcome back.

pub mod errors;
pub mod syscalls;
pub mod ipc;
pub mod namespaces;
pub mod mounts;
pub mod container;
pub mod child;
