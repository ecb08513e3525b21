//! Error taxonomy of the control core.
//!
//! `ConfigError` is fatal at startup: a manager is never built from a bad
//! configuration. `DispatchError` and `SpawnError` are recovered locally by
//! the event loop; no error here may terminate event processing.

use vstd::prelude::*;

verus! {

/// A configuration mistake; the manager refuses to start.
#[derive(Clone, Copy, Debug, PartialEq, Eq, Structural)]
pub enum ConfigError {
    /// Two actions were registered under the same key combination.
    DuplicateBinding,
    /// A workspace was configured with an empty layout list.
    NoLayouts,
    /// No workspace name was configured; the manager needs at least one.
    NoWorkspaces,
    /// A ratio parameter lay outside the unit interval.
    InvalidRatio,
}

/// A key event could not be carried out; logged and the event loop goes on.
#[derive(Clone, Copy, Debug, PartialEq, Eq, Structural)]
pub enum DispatchError {
    /// The pressed combination is not in the binding table.
    UnboundKey,
    /// An action named a workspace index outside the configured list.
    NoSuchWorkspace,
    /// An action needed a focused client but the workspace is empty.
    NoFocusedClient,
}

/// Launching an external process failed; surfaced to the caller of the
/// action, never fatal.
#[derive(Clone, Copy, Debug, PartialEq, Eq, Structural)]
pub enum SpawnError {
    /// The scratchpad's backing client could not be spawned.
    ScratchpadSpawnFailed,
    /// An external command bound to a key could not be spawned.
    ProcessSpawnFailed,
}

} // verus!
