//! Hot-corner zones for a desktop: the decision core of a tool that runs a
//! command when the pointer enters, lingers in, leaves, or flicks through a
//! configured screen region.
//!
//! Everything here is deterministic and verified. `config` holds the
//! per-zone settings, their defaults, the hex color notation and the
//! validation rule; `corner` the dual-mode per-zone state machine (the
//! debounced latch and the immediate dispatcher with flick detection) with
//! its laws; `router` the mapping of raw pointer samples to zones;
//! `matcher` the output-selector predicate; `layout` the overlay geometry
//! and pixel buffer; `action` the splitting of a configured command into a
//! program and its arguments. Waiting on inboxes, spawning processes, and
//! talking to the compositor are the embedding program's business: it
//! feeds events in and runs the commands these machines name.

use vstd::prelude::*;

pub mod action;
pub mod config;
pub mod corner;
pub mod layout;
pub mod matcher;
pub mod router;

verus! {

/// Fully transparent overlay color (all channels zero).
pub const COLOR_TRANSPARENT: u32 = 0x00_00_00_00;

/// Opaque red, the default preview color.
pub const COLOR_RED: u32 = 0xFF_FF_00_00;

} // verus!
