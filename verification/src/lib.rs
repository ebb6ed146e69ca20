//! Control plane of a self-updating background daemon.
//!
//! The daemon is controlled by a command-line client over a local TCP
//! channel. This crate holds the verified logic of that control plane:
//! liveness detection through a PID record, the fixed-frame command
//! protocol, the subscriber broadcast registry, the shutdown/restart
//! coordinator, the self-update orchestrator, and the persisted work
//! state. All I/O (sockets, files, process management) lives in the
//! unverified driver around this library, which performs the actions
//! these state machines decide on.

pub mod client_ops;
pub mod coordinator;
pub mod frame;
pub mod ident;
pub mod liveness;
pub mod numbers;
pub mod registry;
pub mod save;
pub mod text;
pub mod update;
