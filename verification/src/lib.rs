//! Core of a terminal file browser: a scrolling viewport over a list of
//! entries, a double-buffered cell-grid renderer that emits only the writes
//! for cells that changed since the previous frame, panels that map local
//! coordinates onto the shared grid, and a two-mode key dispatcher.
//!
//! Everything here works on plain values; the thin binary around this crate
//! owns the real terminal, feeds input events in, and carries the emitted
//! cell writes out.

pub mod explorer;
pub mod file_info;
pub mod key_bindings;
pub mod scrolling;
pub mod text;
pub mod vec2;
pub mod vterm;

use vstd::prelude::*;

verus! {

} // verus!
