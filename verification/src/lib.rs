//! An asynchronous bridge to a callback-driven content-decryption module.
//!
//! The module completes requests out of band, through callbacks that carry a
//! numeric promise id. This library holds the state on the host's side of that
//! boundary: the table that correlates completions with waiters, the allocator
//! of promise ids, the dispatch surface that turns each callback into a
//! completion or a session event, the buffers the module borrows from the
//! host, and the timers the host runs on the module's behalf.
pub mod api;
pub mod decryption;
pub mod host;
pub mod promise_set;
pub mod remote_buffer;
pub mod timer;
pub mod types;

pub use api::{CreateSessionError, InitializeCDMError, ModuleCall, WidevineAPI};
