//! Graceful restarts: the decisions behind replacing a running network service by a new
//! generation of itself, without dropping what it is serving.
//!
//! The crate holds what can be decided without touching the operating system. Sockets, pipes,
//! processes, signals and clocks belong to the caller, who performs the actions that are decided
//! here and reports back what happened.

pub mod executioner;
pub mod fd_flags;
pub mod handover;
pub mod inheriter;
pub mod supervisor;
pub mod systemd_notify;
pub mod systemd_sockets;
pub mod text;
pub mod trigger;
