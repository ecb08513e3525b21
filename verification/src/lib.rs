//! A verified control core for a tiling window manager.
//!
//! The core covers the control surface that a window-manager configuration
//! programs against: a keybinding dispatch table mapping key combinations to
//! parametrized actions, an integer layout model with per-workspace cycling,
//! a scratchpad toggle state machine, and a hook lifecycle that runs
//! registered hooks in order while tolerating individual failures.
//!
//! Everything here is pure state and arithmetic. Talking to a display server
//! and launching processes are left to the embedding program: the core hands
//! it [`actions::Effect`] values to carry out and takes notifications
//! (a spawn failed, a client window appeared or was destroyed) back as plain
//! calls.

pub mod actions;
pub mod bindings;
pub mod errors;
pub mod geometry;
pub mod hooks;
pub mod keys;
pub mod layout;
pub mod manager;
pub mod scratchpad;
pub mod workspace;
