//! Actions a key can be bound to, and the effects the core asks its
//! embedding to carry out.
//!
//! An [`Action`] is either internal (a built-in manager operation, possibly
//! with a direction or magnitude parameter) or external (spawn an OS
//! process). Carrying an action out yields [`Effect`] values: requests to the
//! display layer or the OS that the core itself cannot perform.

use vstd::prelude::*;
use crate::geometry::Region;

verus! {

/// A cycling direction through an ordered list.
#[derive(Clone, Copy, Debug, PartialEq, Eq, Structural)]
pub enum Direction {
    Forward,
    Backward,
}

/// The sense of a parameter update.
#[derive(Clone, Copy, Debug, PartialEq, Eq, Structural)]
pub enum Change {
    More,
    Less,
}

/// An operation a key combination can be bound to.
#[derive(Debug)]
pub enum Action {
    /// Shut the manager down.
    Exit,
    /// Move focus to the next or previous client of the focused workspace.
    CycleClient(Direction),
    /// Swap the focused client with its neighbour in the stack.
    DragClient(Direction),
    /// Toggle the focused client between fullscreen and tiled.
    ToggleClientFullscreen,
    /// Ask the focused client's window to close.
    KillClient,
    /// Jump back to the previously focused workspace.
    ToggleWorkspace,
    /// Focus the next or previous workspace in the configured order.
    CycleWorkspace(Direction),
    /// Focus the workspace with the given index.
    FocusWorkspace(usize),
    /// Move the focused client to the workspace with the given index.
    ClientToWorkspace(usize),
    /// Advance or retreat the focused workspace's layout cursor.
    CycleLayout(Direction),
    /// Grow or shrink the number of clients in the main column.
    UpdateMaxMain(Change),
    /// Grow or shrink the main column's share of the screen.
    UpdateMainRatio(Change),
    /// Focus the next or previous screen; identity on a single screen.
    CycleScreen(Direction),
    /// Move the focused workspace to another screen; identity on a single
    /// screen.
    DragWorkspace(Direction),
    /// Toggle the scratchpad client.
    ToggleScratchpad,
    /// Launch an external program, fire-and-forget.
    Spawn(String),
}

/// A request the core hands to the display layer or the OS.
#[derive(Debug)]
pub enum Effect {
    /// Spawn an OS process, fire-and-forget.
    SpawnProcess { program: String, args: Vec<String> },
    /// Set the root window's name.
    SetRootName(String),
    /// Move and resize a client window.
    ApplyRegion { client: u32, region: Region },
    /// Make a client window visible.
    MapClient(u32),
    /// Hide a client window without destroying it.
    UnmapClient(u32),
    /// Ask a client window to close.
    KillWindow(u32),
    /// Give input focus to a client window.
    FocusClient(u32),
    /// Put a client window into or out of fullscreen.
    SetFullscreen { client: u32, on: bool },
    /// Shut the window manager down.
    Exit,
}

} // verus!
