//! A distributed mutual-exclusion lock on top of an etcd-like coordination
//! service, written as state machines that never touch the network.
//!
//! A driver owns the connection. It asks a handle what to do next, does it,
//! and tells the handle what came of it. Every decision is taken here.

pub mod error;
pub mod keep_alive;
pub mod laws;
pub mod lock;
pub mod manager;
pub mod pem;
pub mod protocol;
pub mod service;
pub mod signal;

pub use error::{Fault, LockError, Material, SetupError};
pub use keep_alive::{KeepAlive, KeepAliveAction, KeepAliveEvent, Stage, StopReason};
pub use lock::Lock;
pub use manager::LockManager;
pub use pem::check_pem;
pub use protocol::{
    AcquireEvent, Awaiting, LockAction, LockEvent, UnlockAction, DEFAULT_TTL, RETRY_INTERVAL_SECS,
};
