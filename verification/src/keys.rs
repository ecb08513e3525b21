//! Key combinations: an unordered set of modifier flags plus one key symbol.
//!
//! Modifiers are a bit mask, so the set is unordered by construction; the key
//! symbol is the numeric code the display layer reports for the key.

use vstd::prelude::*;

verus! {

/// Modifier flag: the meta (super) key.
pub const MOD_META: u8 = 1;

/// Modifier flag: the shift key.
pub const MOD_SHIFT: u8 = 2;

/// Modifier flag: the alt key.
pub const MOD_ALT: u8 = 4;

/// Modifier flag: the control key.
pub const MOD_CTRL: u8 = 8;

/// A modifier set together with one base key symbol; the key of the binding
/// table.
#[derive(Clone, Copy, Debug, PartialEq, Eq, Structural)]
pub struct KeyCombo {
    /// Bit mask of `MOD_*` flags.
    pub modifiers: u8,
    /// Numeric key symbol reported by the display layer.
    pub key: u32,
}

impl KeyCombo {
    /// Builds the combination of the given modifier mask and key symbol.
    pub fn new(modifiers: u8, key: u32) -> (r: KeyCombo)
        ensures
            r.modifiers == modifiers,
            r.key == key,
    {
        KeyCombo { modifiers, key }
    }
}

} // verus!
