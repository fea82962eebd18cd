//! MIDI messages and the actions they can drive.
//!
//! The MIDI transport lives outside the library; raw bytes come in and
//! the decoded (action, value) pairs drive the same operations as the
//! rest of the control surface.  Values are fixed-point at `UNIT`.

use vstd::prelude::*;

use crate::units::UNIT;
use crate::units::isqrt;
use crate::units::lemma_isqrt_le;
use crate::units::spec_isqrt;

verus! {

/// Kind of MIDI message a mapping listens for.
#[derive(Debug, Clone, Copy, PartialEq, Eq, Structural)]
pub enum MidiMessageType {
    /// Note On for one note on one channel.
    NoteOn { channel: u8, note: u8 },
    /// Note Off for one note on one channel.
    NoteOff { channel: u8, note: u8 },
    /// Control Change for one controller on one channel.
    ControlChange { channel: u8, controller: u8 },
    /// Pitch bend on one channel.
    PitchBend { channel: u8 },
    /// Program change on one channel.
    ProgramChange { channel: u8 },
    /// Any message on one channel, for learn mode.
    AnyOnChannel { channel: u8 },
}

/// One decoded MIDI message.
#[derive(Debug, Clone, Copy, PartialEq, Eq, Structural)]
pub enum MidiMessage {
    NoteOn { note: u8, velocity: u8 },
    NoteOff { note: u8, velocity: u8 },
    ControlChange { controller: u8, value: u8 },
    PitchBend { value: u16 },
    ProgramChange { program: u8 },
    Unknown,
}

impl MidiMessageType {
    /// Whether this type matches a message that arrived on `channel`.
    pub fn matches(&self, channel: u8, message: &MidiMessage) -> (r: bool)
        ensures
            r == spec_type_matches(*self, channel, *message),
    {
        match (self, message) {
            (
                MidiMessageType::NoteOn { channel: c, note: n },
                MidiMessage::NoteOn { note, .. },
            ) => *c == channel && *n == *note,
            (
                MidiMessageType::NoteOff { channel: c, note: n },
                MidiMessage::NoteOff { note, .. },
            ) => *c == channel && *n == *note,
            (
                MidiMessageType::ControlChange { channel: c, controller: ctrl },
                MidiMessage::ControlChange { controller, .. },
            ) => *c == channel && *ctrl == *controller,
            (MidiMessageType::PitchBend { channel: c }, MidiMessage::PitchBend { .. }) => *c
                == channel,
            (MidiMessageType::ProgramChange { channel: c }, MidiMessage::ProgramChange { .. }) => *c
                == channel,
            (MidiMessageType::AnyOnChannel { channel: c }, _) => *c == channel,
            _ => false,
        }
    }
}

/// The matching relation between a listener type and an arrived message.
pub open spec fn spec_type_matches(t: MidiMessageType, channel: u8, m: MidiMessage) -> bool {
    match t {
        MidiMessageType::NoteOn { channel: c, note: n } => c == channel && (
        m matches MidiMessage::NoteOn { note, .. } && note == n),
        MidiMessageType::NoteOff { channel: c, note: n } => c == channel && (
        m matches MidiMessage::NoteOff { note, .. } && note == n),
        MidiMessageType::ControlChange { channel: c, controller: k } => c == channel && (
        m matches MidiMessage::ControlChange { controller, .. } && controller == k),
        MidiMessageType::PitchBend { channel: c } => c == channel && m is PitchBend,
        MidiMessageType::ProgramChange { channel: c } => c == channel && m is ProgramChange,
        MidiMessageType::AnyOnChannel { channel: c } => c == channel,
    }
}

/// The message a raw byte sequence decodes to, beside its channel.
pub open spec fn spec_parse(data: Seq<u8>) -> (u8, MidiMessage) {
    if data.len() == 0 {
        (0u8, MidiMessage::Unknown)
    } else {
        let channel = (data[0] & 0x0f) as u8;
        let kind = (data[0] & 0xf0) as u8;
        let m = if kind == 0x90 && data.len() >= 3 {
            if data[2] == 0 {
                MidiMessage::NoteOff { note: data[1], velocity: 0 }
            } else {
                MidiMessage::NoteOn { note: data[1], velocity: data[2] }
            }
        } else if kind == 0x80 && data.len() >= 3 {
            MidiMessage::NoteOff { note: data[1], velocity: data[2] }
        } else if kind == 0xb0 && data.len() >= 3 {
            MidiMessage::ControlChange { controller: data[1], value: data[2] }
        } else if kind == 0xe0 && data.len() >= 3 {
            MidiMessage::PitchBend {
                value: (((data[2] as u16) << 7) | (data[1] as u16)) as u16,
            }
        } else if kind == 0xc0 && data.len() >= 2 {
            MidiMessage::ProgramChange { program: data[1] }
        } else {
            MidiMessage::Unknown
        };
        (channel, m)
    }
}

impl MidiMessage {
    /// Decode raw MIDI bytes into (channel, message).  A Note On with
    /// velocity zero decodes as a Note Off; anything unrecognised
    /// decodes as `Unknown`.
    pub fn parse(data: &[u8]) -> (r: (u8, Self))
        ensures
            r == spec_parse(data@),
    {
        if data.len() == 0 {
            return (0, MidiMessage::Unknown);
        }
        let status = data[0];
        let channel = status & 0x0f;
        let kind = status & 0xf0;
        let m = if kind == 0x90 && data.len() >= 3 {
            if data[2] == 0 {
                MidiMessage::NoteOff { note: data[1], velocity: 0 }
            } else {
                MidiMessage::NoteOn { note: data[1], velocity: data[2] }
            }
        } else if kind == 0x80 && data.len() >= 3 {
            MidiMessage::NoteOff { note: data[1], velocity: data[2] }
        } else if kind == 0xb0 && data.len() >= 3 {
            MidiMessage::ControlChange { controller: data[1], value: data[2] }
        } else if kind == 0xe0 && data.len() >= 3 {
            let value: u16 = ((data[2] as u16) << 7) | (data[1] as u16);
            MidiMessage::PitchBend { value }
        } else if kind == 0xc0 && data.len() >= 2 {
            MidiMessage::ProgramChange { program: data[1] }
        } else {
            MidiMessage::Unknown
        };
        (channel, m)
    }

    /// The message's control value, fixed-point in `[0, UNIT]`: velocity
    /// or controller value out of 127, pitch bend out of 16383 (each
    /// clamped at full scale), full for a program change, zero for a
    /// note off and for `Unknown`.
    pub fn value(&self) -> (r: u32)
        ensures
            r == spec_value(*self),
            r <= UNIT,
    {
        match self {
            MidiMessage::NoteOn { velocity, .. } => clamp_unit(((*velocity as u32) * UNIT) / 127),
            MidiMessage::NoteOff { .. } => 0,
            MidiMessage::ControlChange { value, .. } => clamp_unit(((*value as u32) * UNIT) / 127),
            MidiMessage::PitchBend { value } => {
                proof {
                    assert((value as u64) * 10000u64 < 0x8000_0000u64) by (nonlinear_arith)
                        requires
                            value <= 0xffffu64,
                    {}
                }
                clamp_unit((((*value as u64) * (UNIT as u64)) / 16383) as u32)
            },
            MidiMessage::ProgramChange { .. } => UNIT,
            MidiMessage::Unknown => 0,
        }
    }
}

/// `v` clamped to at most `UNIT`.
pub open spec fn spec_clamp_unit(v: nat) -> nat {
    if v > UNIT {
        UNIT as nat
    } else {
        v
    }
}

/// Clamp a fixed-point value to full scale.
fn clamp_unit(v: u32) -> (r: u32)
    ensures
        r == spec_clamp_unit(v as nat),
        r <= UNIT,
{
    if v > UNIT {
        UNIT
    } else {
        v
    }
}

/// The fixed-point control value of a message.
pub open spec fn spec_value(m: MidiMessage) -> nat {
    match m {
        MidiMessage::NoteOn { velocity, .. } => spec_clamp_unit(((velocity * UNIT) as nat) / 127),
        MidiMessage::NoteOff { .. } => 0,
        MidiMessage::ControlChange { value, .. } => spec_clamp_unit(
            ((value * UNIT) as nat) / 127,
        ),
        MidiMessage::PitchBend { value } => spec_clamp_unit(((value * UNIT) as nat) / 16383),
        MidiMessage::ProgramChange { .. } => UNIT as nat,
        MidiMessage::Unknown => 0,
    }
}

/// An action a MIDI control can drive.
#[derive(Debug, Clone, Copy, PartialEq, Eq, Structural)]
pub enum MidiAction {
    DeckStart(u8),
    DeckStop(u8),
    DeckToggle(u8),
    DeckVolume(u8),
    DeckBeatSensitivity(u8),
    NextPreset(u8),
    PreviousPreset(u8),
    RandomPreset(u8),
    LoadPresetByIndex { deck: u8, index: usize },
    PlaylistNext(u8),
    PlaylistPrevious(u8),
    PlaylistToggleShuffle(u8),
    PlaylistToggleAutoCycle(u8),
    CrossfaderPosition,
    CrossfaderCurve,
    CrossfaderToggle,
    MasterVolume,
    ToggleFullscreen(u8),
    VideoOutputToggle(u8),
}

/// The deck an action targets, if it targets one.
pub open spec fn spec_action_deck(a: MidiAction) -> Option<u8> {
    match a {
        MidiAction::DeckStart(d) => Some(d),
        MidiAction::DeckStop(d) => Some(d),
        MidiAction::DeckToggle(d) => Some(d),
        MidiAction::DeckVolume(d) => Some(d),
        MidiAction::DeckBeatSensitivity(d) => Some(d),
        MidiAction::NextPreset(d) => Some(d),
        MidiAction::PreviousPreset(d) => Some(d),
        MidiAction::RandomPreset(d) => Some(d),
        MidiAction::LoadPresetByIndex { deck, .. } => Some(deck),
        MidiAction::PlaylistNext(d) => Some(d),
        MidiAction::PlaylistPrevious(d) => Some(d),
        MidiAction::PlaylistToggleShuffle(d) => Some(d),
        MidiAction::PlaylistToggleAutoCycle(d) => Some(d),
        MidiAction::ToggleFullscreen(d) => Some(d),
        MidiAction::VideoOutputToggle(d) => Some(d),
        _ => None,
    }
}

impl MidiAction {
    /// The deck this action targets, if it targets one.
    pub fn deck_id(&self) -> (r: Option<u8>)
        ensures
            r == spec_action_deck(*self),
    {
        match self {
            MidiAction::DeckStart(d) => Some(*d),
            MidiAction::DeckStop(d) => Some(*d),
            MidiAction::DeckToggle(d) => Some(*d),
            MidiAction::DeckVolume(d) => Some(*d),
            MidiAction::DeckBeatSensitivity(d) => Some(*d),
            MidiAction::NextPreset(d) => Some(*d),
            MidiAction::PreviousPreset(d) => Some(*d),
            MidiAction::RandomPreset(d) => Some(*d),
            MidiAction::LoadPresetByIndex { deck, .. } => Some(*deck),
            MidiAction::PlaylistNext(d) => Some(*d),
            MidiAction::PlaylistPrevious(d) => Some(*d),
            MidiAction::PlaylistToggleShuffle(d) => Some(*d),
            MidiAction::PlaylistToggleAutoCycle(d) => Some(*d),
            MidiAction::ToggleFullscreen(d) => Some(*d),
            MidiAction::VideoOutputToggle(d) => Some(*d),
            _ => None,
        }
    }

    /// Whether the action consumes a continuous value rather than acting
    /// as a trigger.
    pub fn is_continuous(&self) -> (r: bool)
        ensures
            r == (*self matches MidiAction::DeckVolume(_)
                || *self matches MidiAction::DeckBeatSensitivity(_) || *self
                == MidiAction::CrossfaderPosition || *self == MidiAction::MasterVolume),
    {
        match self {
            MidiAction::DeckVolume(_) => true,
            MidiAction::DeckBeatSensitivity(_) => true,
            MidiAction::CrossfaderPosition => true,
            MidiAction::MasterVolume => true,
            _ => false,
        }
    }
}

/// Shape of a continuous-value transformation.
#[derive(Debug, Clone, Copy, PartialEq, Eq, Structural)]
pub enum TransformCurve {
    /// The value passes straight through.
    Linear,
    /// The square root, boosting low values.
    Logarithmic,
    /// The square, compressing low values.
    Exponential,
}

impl Default for TransformCurve {
    fn default() -> (r: Self)
        ensures
            r == TransformCurve::Linear,
    {
        TransformCurve::Linear
    }
}

/// Transformation applied to a continuous control value, fixed-point at
/// `UNIT` throughout.
#[derive(Debug, Clone, Copy, PartialEq, Eq, Structural)]
pub struct ValueTransform {
    /// Output at control value zero.
    pub min: u32,
    /// Output at full control value.
    pub max: u32,
    /// Curve between them.
    pub curve: TransformCurve,
    /// Whether the control value is flipped first.
    pub invert: bool,
}

impl Default for ValueTransform {
    fn default() -> (r: Self)
        ensures
            r == (ValueTransform {
                min: 0,
                max: UNIT,
                curve: TransformCurve::Linear,
                invert: false,
            }),
    {
        ValueTransform { min: 0, max: UNIT, curve: TransformCurve::Linear, invert: false }
    }
}

/// The curved value: identity, integer square root at scale, or square
/// at scale.
pub open spec fn spec_curved(curve: TransformCurve, v: nat) -> nat {
    match curve {
        TransformCurve::Linear => v,
        TransformCurve::Logarithmic => spec_isqrt(v * (UNIT as nat)),
        TransformCurve::Exponential => (v * v) / (UNIT as nat),
    }
}

/// The transformed value: optionally inverted, curved, then mapped onto
/// `[min, max]`.
pub open spec fn spec_transform(t: ValueTransform, v: nat) -> int {
    let base = if t.invert {
        (UNIT as nat - v) as nat
    } else {
        v
    };
    let curved = spec_curved(t.curve, base);
    t.min + (curved * (t.max - t.min)) / (UNIT as int)
}

impl ValueTransform {
    /// Apply the transformation to a control value in `[0, UNIT]`.
    pub fn apply(&self, value: u32) -> (r: u32)
        requires
            value <= UNIT,
            self.min <= self.max,
            self.max <= UNIT,
        ensures
            r == spec_transform(*self, value as nat),
            r <= self.max,
    {
        let base: u32 = if self.invert {
            UNIT - value
        } else {
            value
        };
        let curved: u32 = match self.curve {
            TransformCurve::Linear => base,
            TransformCurve::Logarithmic => {
                proof {
                    assert(base * UNIT <= 10000u32 * 10000u32) by (nonlinear_arith)
                        requires
                            base <= 10000u32,
                            UNIT == 10000,
                    {}
                }
                let r64 = isqrt((base as u64) * (UNIT as u64));
                proof {
                    assert((base as u64) * (UNIT as u64) <= (UNIT as u64) * (UNIT as u64))
                        by (nonlinear_arith)
                        requires
                            base <= UNIT,
                    {}
                    lemma_isqrt_le(((base as u64) * (UNIT as u64)) as nat, UNIT as nat);
                }
                r64 as u32
            },
            TransformCurve::Exponential => {
                proof {
                    assert(base * base <= 10000u32 * 10000u32) by (nonlinear_arith)
                        requires
                            base <= 10000u32,
                    {}
                    assert((base * base) / 10000 <= 10000u32) by (nonlinear_arith)
                        requires
                            base <= 10000u32,
                    {}
                }
                (base * base) / UNIT
            },
        };
        proof {
            assert(curved <= UNIT);
            assert(curved * (self.max - self.min) <= 10000 * (self.max - self.min))
                by (nonlinear_arith)
                requires
                    curved <= 10000u32,
                    self.min <= self.max,
            {}
            assert(10000 * (self.max - self.min) <= 10000 * 10000) by (nonlinear_arith)
                requires
                    self.max - self.min <= 10000,
            {}
            assert((curved * (self.max - self.min)) / 10000 <= self.max - self.min)
                by (nonlinear_arith)
                requires
                    curved <= 10000u32,
                    self.min <= self.max,
            {}
        }
        let span: u32 = self.max - self.min;
        let scaled: u32 = ((curved as u64 * span as u64) / (UNIT as u64)) as u32;
        self.min + scaled
    }
}

} // verus!
