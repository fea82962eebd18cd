//! Deck state: the four fixed slots the controller manages.
//!
//! Every deck exists for the lifetime of the application; only its
//! supervised renderer process comes and goes.  A deck carries its
//! current preset, fixed-point volume and beat sensitivity, a playlist,
//! and the timestamp of its last automatic playlist advance.

use vstd::prelude::*;

use crate::playlist::Playlist;
use crate::supervisor::RendererProcess;
use crate::units::UNIT;

verus! {

/// Errors of deck initialisation.
#[derive(Debug)]
pub enum DeckError {
    /// The deck could not be initialised.
    InitError(String),
}

impl DeckError {
    /// Human-readable description of the error.
    pub fn message(&self) -> (r: String)
        ensures
            (self matches DeckError::InitError(s) ==> r@ == "Failed to initialize deck: "@ + s@),
    {
        match self {
            DeckError::InitError(s) => {
                let mut r = String::from_str("Failed to initialize deck: ");
                r.append(s.as_str());
                r
            },
        }
    }
}

/// A minimal deck handle: identity, volume and an active flag.
#[derive(Debug)]
pub struct Deck {
    id: usize,
    volume: u32,
    active: bool,
}

impl Deck {
    /// Spec view of the identifier.
    pub closed spec fn spec_id(self) -> usize {
        self.id
    }

    /// Spec view of the volume.
    pub closed spec fn spec_volume(self) -> u32 {
        self.volume
    }

    /// Spec view of the active flag.
    pub closed spec fn spec_active(self) -> bool {
        self.active
    }

    /// The volume never leaves `[0, UNIT]`.
    pub open spec fn wf(self) -> bool {
        self.spec_volume() <= UNIT
    }

    /// A fresh deck: full volume, inactive.
    pub fn new(id: usize) -> (r: Self)
        ensures
            r.wf(),
            r.spec_id() == id,
            r.spec_volume() == UNIT,
            !r.spec_active(),
    {
        Deck { id, volume: UNIT, active: false }
    }

    /// The deck's identifier.
    pub fn id(&self) -> (r: usize)
        ensures
            r == self.spec_id(),
    {
        self.id
    }

    /// Set the volume, clamped to `[0, UNIT]`.
    pub fn set_volume(&mut self, volume: u32)
        ensures
            final(self).wf(),
            final(self).spec_volume() == (if volume <= UNIT {
                volume
            } else {
                UNIT
            }),
            final(self).spec_id() == old(self).spec_id(),
            final(self).spec_active() == old(self).spec_active(),
    {
        self.volume = if volume <= UNIT {
            volume
        } else {
            UNIT
        };
    }

    /// The current volume.
    pub fn volume(&self) -> (r: u32)
        ensures
            r == self.spec_volume(),
    {
        self.volume
    }

    /// Whether the deck is active.
    pub fn is_active(&self) -> (r: bool)
        ensures
            r == self.spec_active(),
    {
        self.active
    }
}

/// Full state of one controller deck slot.
#[derive(Debug)]
pub struct DeckState {
    /// Slot identifier, 0 to 3.
    pub id: u8,
    /// Supervision record of the live renderer, if one was started.
    pub renderer: Option<RendererProcess>,
    /// Path of the preset last loaded on this deck.
    pub preset_path: Option<String>,
    /// Deck volume in `[0, UNIT]`.
    pub volume: u32,
    /// Beat sensitivity, fixed-point at `UNIT`.
    pub beat_sensitivity: u32,
    /// Whether the deck was started and not yet stopped.
    pub active: bool,
    /// The deck's playlist.
    pub playlist: Playlist,
    /// Clock reading of the last automatic playlist advance.
    pub last_cycle_millis: Option<u64>,
}

impl DeckState {
    /// Volume in range, a well-formed playlist, and a well-formed
    /// supervision record where one exists.
    pub open spec fn wf(self) -> bool {
        &&& self.volume <= UNIT
        &&& self.playlist.wf()
        &&& (self.renderer matches Some(r) ==> r.wf())
    }

    /// A fresh slot: no process, no preset, full volume, unit beat
    /// sensitivity, inactive, an empty playlist, no cycle timestamp.
    pub fn new(id: u8) -> (r: Self)
        ensures
            r.wf(),
            r.id == id,
            r.renderer is None,
            r.preset_path is None,
            r.volume == UNIT,
            r.beat_sensitivity == UNIT,
            !r.active,
            r.playlist.items@.len() == 0,
            r.playlist.current_index == 0,
            !r.playlist.shuffle,
            !r.playlist.auto_cycle,
            r.playlist.cycle_duration_secs == 30,
            r.last_cycle_millis is None,
    {
        DeckState {
            id,
            renderer: None,
            preset_path: None,
            volume: UNIT,
            beat_sensitivity: UNIT,
            active: false,
            playlist: Playlist::new(),
            last_cycle_millis: None,
        }
    }
}

} // verus!
