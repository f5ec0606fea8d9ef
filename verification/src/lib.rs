//! Coordination core of a window-switching daemon for a tiling compositor.
//!
//! While a transient overlay is shown, short-lived command-line invocations
//! deliver `init`, `switch` and `close` commands to a long-lived daemon. This
//! crate holds the verified heart of that daemon: the selection state, the
//! state transitions each command performs, and the decisions handed back to
//! the unverified shell (which owns the lock, the channels to the overlay
//! actor, and the compositor IPC).

pub mod config;
pub mod coordinator;
pub mod state;
pub mod text;
