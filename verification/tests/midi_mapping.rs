//! MIDI decoding, actions and value transforms.

use opendrop::midi::MidiAction;
use opendrop::midi::MidiMessage;
use opendrop::midi::MidiMessageType;
use opendrop::midi::TransformCurve;
use opendrop::midi::ValueTransform;

#[test]
fn test_parse_note_on() {
    let data = [0x90, 60, 100];
    let (channel, msg) = MidiMessage::parse(&data);
    assert_eq!(channel, 0);
    assert!(matches!(msg, MidiMessage::NoteOn { note: 60, velocity: 100 }));
}

#[test]
fn test_parse_note_on_velocity_zero_is_note_off() {
    let data = [0x91, 64, 0];
    let (channel, msg) = MidiMessage::parse(&data);
    assert_eq!(channel, 1);
    assert!(matches!(msg, MidiMessage::NoteOff { note: 64, .. }));
}

#[test]
fn test_parse_note_off() {
    let data = [0x82, 48, 64];
    let (channel, msg) = MidiMessage::parse(&data);
    assert_eq!(channel, 2);
    assert!(matches!(msg, MidiMessage::NoteOff { note: 48, .. }));
}

#[test]
fn test_parse_control_change() {
    let data = [0xB3, 7, 100];
    let (channel, msg) = MidiMessage::parse(&data);
    assert_eq!(channel, 3);
    assert!(matches!(msg, MidiMessage::ControlChange { controller: 7, value: 100 }));
}

#[test]
fn test_parse_pitch_bend() {
    let data = [0xE0, 0, 64];
    let (channel, msg) = MidiMessage::parse(&data);
    assert_eq!(channel, 0);
    if let MidiMessage::PitchBend { value } = msg {
        assert_eq!(value, 8192);
    } else {
        panic!("Expected PitchBend");
    }
}

#[test]
fn test_action_deck_id() {
    assert_eq!(MidiAction::DeckStart(2).deck_id(), Some(2));
    assert_eq!(MidiAction::CrossfaderPosition.deck_id(), None);
    assert_eq!(MidiAction::MasterVolume.deck_id(), None);
}

#[test]
fn test_action_is_continuous() {
    assert!(MidiAction::DeckVolume(0).is_continuous());
    assert!(MidiAction::CrossfaderPosition.is_continuous());
    assert!(!MidiAction::DeckStart(0).is_continuous());
    assert!(!MidiAction::NextPreset(0).is_continuous());
}

#[test]
fn test_parse_empty_and_unknown() {
    let (channel, msg) = MidiMessage::parse(&[]);
    assert_eq!(channel, 0);
    assert!(matches!(msg, MidiMessage::Unknown));

    let (channel, msg) = MidiMessage::parse(&[0xF0, 1, 2]);
    assert_eq!(channel, 0);
    assert!(matches!(msg, MidiMessage::Unknown));
}

#[test]
fn test_type_matches() {
    let t = MidiMessageType::ControlChange { channel: 0, controller: 1 };
    assert!(t.matches(0, &MidiMessage::ControlChange { controller: 1, value: 64 }));
    assert!(!t.matches(0, &MidiMessage::ControlChange { controller: 2, value: 64 }));
    assert!(!t.matches(1, &MidiMessage::ControlChange { controller: 1, value: 64 }));

    let any = MidiMessageType::AnyOnChannel { channel: 3 };
    assert!(any.matches(3, &MidiMessage::Unknown));
    assert!(!any.matches(2, &MidiMessage::Unknown));
}

#[test]
fn test_message_value_fixed_point() {
    // Full velocity is full scale; a note off is silent.
    assert_eq!(MidiMessage::NoteOn { note: 60, velocity: 127 }.value(), 10000);
    assert_eq!(MidiMessage::NoteOff { note: 60, velocity: 64 }.value(), 0);
    // 64 of 127 is 0.5039...; fixed point truncates.
    assert_eq!(MidiMessage::ControlChange { controller: 1, value: 64 }.value(), 5039);
    // Centre pitch bend: 8192 of 16383.
    assert_eq!(MidiMessage::PitchBend { value: 8192 }.value(), 5000);
    assert_eq!(MidiMessage::ProgramChange { program: 1 }.value(), 10000);
}

#[test]
fn test_value_transform_linear() {
    let t = ValueTransform { min: 0, max: 10000, curve: TransformCurve::Linear, invert: false };
    assert_eq!(t.apply(0), 0);
    assert_eq!(t.apply(5000), 5000);
    assert_eq!(t.apply(10000), 10000);
}

#[test]
fn test_value_transform_invert() {
    let t = ValueTransform { min: 0, max: 10000, curve: TransformCurve::Linear, invert: true };
    assert_eq!(t.apply(0), 10000);
    assert_eq!(t.apply(10000), 0);
}

#[test]
fn test_value_transform_curves() {
    let log = ValueTransform {
        min: 0,
        max: 10000,
        curve: TransformCurve::Logarithmic,
        invert: false,
    };
    // sqrt(0.25) = 0.5 exactly in fixed point.
    assert_eq!(log.apply(2500), 5000);

    let exp = ValueTransform {
        min: 0,
        max: 10000,
        curve: TransformCurve::Exponential,
        invert: false,
    };
    // 0.5 squared is 0.25.
    assert_eq!(exp.apply(5000), 2500);
}
