//! Multi-deck live-visual controller core.
//!
//! Four fixed deck slots each drive one out-of-process renderer over a
//! line-delimited command/event protocol.  This crate holds the verified
//! core: the supervision state machine for each renderer process, the
//! audio capture engine's delivery queue, the crossfader and compositor
//! mixing arithmetic, the per-deck playlists, and the periodic pump cycle
//! that fans captured audio out to every live deck.
//!
//! All signal levels (volumes, crossfader position, audio samples, VU
//! levels) are fixed-point integers scaled by [`units::UNIT`]; the process
//! and device I/O that feeds these functions lives outside the library and
//! hands plain values in.

#![allow(unused_imports)]

use vstd::prelude::*;

pub mod capture;
pub mod catalog;
pub mod commands;
pub mod compositor;
pub mod crossfader;
pub mod deck;
pub mod health;
pub mod info;
pub mod jsonfmt;
pub mod levels;
pub mod midi;
pub mod monitors;
pub mod paths;
pub mod pipewire;
pub mod playlist;
pub mod presets;
pub mod protocol;
pub mod pump;
pub mod state;
pub mod strutil;
pub mod supervisor;
pub mod units;
pub mod video;

verus! {

/// Number of deck slots the controller manages.
pub const MAX_DECKS: u8 = 4;

/// Identifier of one deck slot, always below [`MAX_DECKS`].
pub type DeckId = u8;

} // verus!
