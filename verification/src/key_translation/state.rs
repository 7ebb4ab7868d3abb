//! The modifier bits IBus packs into a key event's `state`.

use vstd::prelude::*;

verus! {

pub const SHIFT: u32 = 1;

pub const LOCK: u32 = 2;

pub const CONTROL: u32 = 4;

/// Mod1 — Alt on every common layout.
pub const MOD1: u32 = 8;

/// Mod4 — the Super / Windows key on every common layout.
pub const MOD4: u32 = 64;

pub const SUPER: u32 = 0x0400_0000;

pub const RELEASE: u32 = 0x4000_0000;

} // verus!
