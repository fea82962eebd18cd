//! Crossfader multipliers and side assignment.

use opendrop::crossfader::CrossfaderConfig;
use opendrop::crossfader::CrossfaderCurve;
use opendrop::crossfader::Side;
use opendrop::crossfader::curve_from_str;
use opendrop::crossfader::side_from_str;
use opendrop::units::UNIT;

#[test]
fn disabled_crossfader_is_unity_for_every_deck() {
    let mut cfg = CrossfaderConfig::new();
    cfg.enabled = false;
    for position in [0u32, 2500, 5000, 7500, 10000] {
        cfg.position = position;
        for deck in 0u8..4 {
            assert_eq!(cfg.volume_for_deck(deck), UNIT);
        }
    }
}

#[test]
fn unassigned_deck_is_unity_while_enabled() {
    let mut cfg = CrossfaderConfig::new();
    cfg.enabled = true;
    cfg.assign_deck(0, Side::Neither);
    assert_eq!(cfg.volume_for_deck(0), UNIT);
}

#[test]
fn equal_power_sums_stay_near_unity() {
    let mut cfg = CrossfaderConfig::new();
    cfg.enabled = true;
    cfg.curve = CrossfaderCurve::EqualPower;
    // Deck 0 on side A, deck 2 on side B, as the defaults have it.
    for position in [0u32, 1, 137, 2500, 5000, 7499, 9999, 10000] {
        cfg.position = position;
        let va = cfg.volume_for_deck(0) as u64;
        let vb = cfg.volume_for_deck(2) as u64;
        let sum = va * va + vb * vb;
        let unity = (UNIT as u64) * (UNIT as u64);
        assert!(sum <= unity);
        assert!(sum >= unity - 4 * (UNIT as u64) - 2);
    }
}

#[test]
fn equal_power_midpoint() {
    let mut cfg = CrossfaderConfig::new();
    cfg.enabled = true;
    cfg.position = 5000;
    // sqrt(0.5) in fixed point, rounded down.
    assert_eq!(cfg.volume_for_deck(0), 7071);
    assert_eq!(cfg.volume_for_deck(2), 7071);
}

#[test]
fn linear_curve_splits_exactly() {
    let mut cfg = CrossfaderConfig::new();
    cfg.enabled = true;
    cfg.curve = CrossfaderCurve::Linear;
    cfg.position = 2500;
    assert_eq!(cfg.volume_for_deck(0), 7500);
    assert_eq!(cfg.volume_for_deck(2), 2500);
}

#[test]
fn assignment_is_exclusive() {
    let mut cfg = CrossfaderConfig::new();
    cfg.assign_deck(0, Side::B);
    assert!(!cfg.side_a.contains(&0));
    assert!(cfg.side_b.contains(&0));
    cfg.assign_deck(0, Side::A);
    assert!(cfg.side_a.contains(&0));
    assert!(!cfg.side_b.contains(&0));
    cfg.assign_deck(0, Side::Neither);
    assert!(!cfg.side_a.contains(&0));
    assert!(!cfg.side_b.contains(&0));
}

#[test]
fn position_is_clamped() {
    let mut cfg = CrossfaderConfig::new();
    cfg.set_position(20000);
    assert_eq!(cfg.position, UNIT);
    cfg.set_position(123);
    assert_eq!(cfg.position, 123);
}

#[test]
fn curve_and_side_words() {
    assert_eq!(curve_from_str("linear"), Some(CrossfaderCurve::Linear));
    assert_eq!(curve_from_str("equal_power"), Some(CrossfaderCurve::EqualPower));
    assert_eq!(curve_from_str("equalPower"), Some(CrossfaderCurve::EqualPower));
    assert_eq!(curve_from_str("bogus"), None);
    assert_eq!(side_from_str("A"), Some(Side::A));
    assert_eq!(side_from_str("b"), Some(Side::B));
    assert_eq!(side_from_str("None"), Some(Side::Neither));
    assert_eq!(side_from_str("left"), None);
}
