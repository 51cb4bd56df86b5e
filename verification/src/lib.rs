//! Sync orchestration for a light-client daemon: the shared trust state, the
//! freshness gate that status queries pass through, the coordinator's state
//! machine with its backoff and halt policy, and the fork-detection round.
//!
//! Everything here is plain data and decisions. Network calls, timers and
//! waiting are left to the caller, which feeds their outcomes back in.

pub mod api;
pub mod cli;
pub mod detect;
pub mod state;
pub mod sync;
pub mod system;
pub mod text;
