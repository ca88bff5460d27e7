//! User-space boundary layer of a microkernel-style operating system.
//!
//! This crate defines the contract by which unprivileged processes request
//! kernel services and exchange bounded messages with other processes: the
//! service catalog of syscall identifiers, the trap gateway that marshals up
//! to five scalar arguments through a single mode transition, the fixed-layout
//! IPC message envelope, and the device/capability vocabulary used to name
//! kernel-managed resources in syscall arguments.
//!
//! The kernel itself is an external collaborator.  To make the gateway's
//! contract checkable, the gateway here is instrumented: it counts mode
//! transitions and dispatches into a simulated kernel whose per-service result
//! contract is stated as a specification function.

pub mod catalog;
pub mod channel;
pub mod device;
pub mod gateway;
pub mod message;
