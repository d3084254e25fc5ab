//! Distributed locks over a set of independent Redis servers.
//!
//! A lock is a key with a random value and a time to live, stored on a majority of the servers.
//! This crate decides what to send to the servers, what their replies mean, and when a lock is
//! held, lost or given up; it opens no connection and never waits. A caller carries the requests
//! to the servers, hands the replies back, and waits where it is told to.
//!
//! - `lock` and `attempt`: the lock manager, and the rounds in which a lock is taken or prolonged
//! - `redlock`: a lock manager for blocking callers
//! - `connection`: the requests to one server and its replies
//! - `resource`: what a lock can be named by
//! - `drift`: the allowance for clocks that run at different speeds
//! - `server` and `laws`: what a server does with the requests, and what holds of locks as a whole
//! - the modules whose names end in `_laws`: what holds of the results of calls
//! - `backend`, `clock`, `random`, `format`: what is relied on of other crates

pub mod attempt;
pub mod backend;
pub mod clock;
pub mod connection;
pub mod connection_laws;
pub mod drift;
pub mod drift_laws;
pub mod error;
pub mod format;
pub mod laws;
pub mod lock;
pub mod lock_laws;
pub mod manager_laws;
mod random;
pub mod redlock;
pub mod redlock_laws;
pub mod resource;
pub mod resource_laws;
pub mod server;
pub mod uri;

pub use error::LockError;
pub use lock::{Lock, LockGuard, LockManager};
