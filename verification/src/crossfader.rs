//! Crossfader mixing engine.
//!
//! A position in `[0, UNIT]` weighs two groups of decks (side A and side B)
//! against each other.  `volume_for_deck` is the pure multiplier lookup the
//! pump cycle reads on every tick; assignment always removes a deck from
//! both sides before re-adding it, so the two sides stay disjoint through
//! the supported calls.

use vstd::prelude::*;

use crate::strutil::lower_matches;
use crate::strutil::eq_ascii_lower;
use crate::strutil::str_eq;
use crate::units::UNIT;
use crate::units::lemma_isqrt_le;
use crate::units::lemma_spec_isqrt;
use crate::units::isqrt;
use crate::units::spec_isqrt;

verus! {

/// Shape of the crossfade: a straight blend, or one that keeps the summed
/// power of the two sides near unity.
#[derive(Debug, Clone, Copy, PartialEq, Eq, Structural)]
pub enum CrossfaderCurve {
    Linear,
    EqualPower,
}

impl Default for CrossfaderCurve {
    fn default() -> (r: Self)
        ensures
            r == CrossfaderCurve::EqualPower,
    {
        CrossfaderCurve::EqualPower
    }
}

/// Parse a curve selector word; `None` for anything unknown.
pub fn curve_from_str(s: &str) -> (r: Option<CrossfaderCurve>)
    ensures
        s@ == "linear"@ ==> r == Some(CrossfaderCurve::Linear),
        s@ == "equal_power"@ || s@ == "equalPower"@ ==> r == Some(CrossfaderCurve::EqualPower),
        s@ != "linear"@ && s@ != "equal_power"@ && s@ != "equalPower"@ ==> r is None,
{
    proof {
        reveal_strlit("linear");
        reveal_strlit("equal_power");
        reveal_strlit("equalPower");
        assert("linear"@.len() == 6);
        assert("equal_power"@.len() == 11);
        assert("equalPower"@.len() == 10);
    }
    if str_eq(s, "linear") {
        Some(CrossfaderCurve::Linear)
    } else if str_eq(s, "equal_power") || str_eq(s, "equalPower") {
        Some(CrossfaderCurve::EqualPower)
    } else {
        None
    }
}

/// Crossfader state: position, the two deck-ID sides, curve and on/off flag.
#[derive(Debug, Clone)]
pub struct CrossfaderConfig {
    /// Position in `[0, UNIT]`: 0 is fully side A, `UNIT` fully side B.
    pub position: u32,
    /// Deck IDs assigned to side A.
    pub side_a: Vec<u8>,
    /// Deck IDs assigned to side B.
    pub side_b: Vec<u8>,
    /// Curve the multipliers follow while enabled.
    pub curve: CrossfaderCurve,
    /// Whether the crossfader weighs decks at all.
    pub enabled: bool,
}

/// Volume multiplier the configuration assigns to one deck.
pub open spec fn spec_volume_for(cfg: CrossfaderConfig, deck_id: u8) -> nat {
    if !cfg.enabled {
        UNIT as nat
    } else if cfg.side_a@.contains(deck_id) {
        match cfg.curve {
            CrossfaderCurve::Linear => (UNIT - cfg.position) as nat,
            CrossfaderCurve::EqualPower => spec_isqrt(((UNIT - cfg.position) * UNIT) as nat),
        }
    } else if cfg.side_b@.contains(deck_id) {
        match cfg.curve {
            CrossfaderCurve::Linear => cfg.position as nat,
            CrossfaderCurve::EqualPower => spec_isqrt((cfg.position * UNIT) as nat),
        }
    } else {
        UNIT as nat
    }
}

/// Does the ID list hold `id`?
fn contains_id(v: &Vec<u8>, id: u8) -> (r: bool)
    ensures
        r == v@.contains(id),
{
    let mut i: usize = 0;
    while i < v.len()
        invariant
            i <= v@.len(),
            forall|j: int| 0 <= j < i ==> v@[j] != id,
        decreases v@.len() - i,
    {
        if v[i] == id {
            return true;
        }
        i += 1;
    }
    proof {
        assert(!v@.contains(id));
    }
    false
}

/// Remove every occurrence of `id` from the list, keeping the order.
fn remove_id(v: &mut Vec<u8>, id: u8)
    ensures
        final(v)@ == old(v)@.filter(|x: u8| x != id),
{
    let ghost orig = v@;
    let mut out: Vec<u8> = Vec::new();
    let mut i: usize = 0;
    while i < v.len()
        invariant
            i <= orig.len(),
            v@ == orig,
            out@ == orig.subrange(0, i as int).filter(|x: u8| x != id),
        decreases orig.len() - i,
    {
        proof {
            assert(orig.subrange(0, i + 1 as int).drop_last() =~= orig.subrange(0, i as int));
            reveal_with_fuel(Seq::filter, 2);
        }
        let x = v[i];
        if x != id {
            out.push(x);
        }
        i += 1;
        proof {
            assert(out@ =~= orig.subrange(0, i as int).filter(|x: u8| x != id));
        }
    }
    proof {
        assert(orig.subrange(0, orig.len() as int) =~= orig);
    }
    *v = out;
}

impl CrossfaderConfig {
    /// The position never leaves `[0, UNIT]`.
    pub open spec fn wf(self) -> bool {
        self.position <= UNIT
    }

    /// Fresh configuration: centred, decks 0 and 1 against decks 2 and 3,
    /// equal-power curve, disabled.
    pub fn new() -> (r: Self)
        ensures
            r.wf(),
            r.position == UNIT / 2,
            r.side_a@ == seq![0u8, 1u8],
            r.side_b@ == seq![2u8, 3u8],
            r.curve == CrossfaderCurve::EqualPower,
            !r.enabled,
    {
        let mut side_a: Vec<u8> = Vec::new();
        side_a.push(0);
        side_a.push(1);
        let mut side_b: Vec<u8> = Vec::new();
        side_b.push(2);
        side_b.push(3);
        proof {
            assert(side_a@ =~= seq![0u8, 1u8]);
            assert(side_b@ =~= seq![2u8, 3u8]);
        }
        CrossfaderConfig {
            position: UNIT / 2,
            side_a,
            side_b,
            curve: CrossfaderCurve::EqualPower,
            enabled: false,
        }
    }

    /// Volume multiplier for one deck under the current settings.
    ///
    /// Always exactly `UNIT` (that is, 1.0) while the crossfader is
    /// disabled, and for a deck assigned to neither side.
    pub fn volume_for_deck(&self, deck_id: u8) -> (r: u32)
        requires
            self.wf(),
        ensures
            r == spec_volume_for(*self, deck_id),
            r <= UNIT,
            !self.enabled ==> r == UNIT,
    {
        if !self.enabled {
            return UNIT;
        }
        let is_side_a = contains_id(&self.side_a, deck_id);
        let is_side_b = contains_id(&self.side_b, deck_id);
        if !is_side_a && !is_side_b {
            return UNIT;
        }
        match self.curve {
            CrossfaderCurve::Linear => {
                if is_side_a {
                    UNIT - self.position
                } else {
                    self.position
                }
            },
            CrossfaderCurve::EqualPower => {
                let away: u64 = if is_side_a {
                    (UNIT - self.position) as u64
                } else {
                    self.position as u64
                };
                assert(away * (UNIT as u64) <= 0x4000_0000_0000_0000u64) by (nonlinear_arith)
                    requires
                        away <= 10000u64,
                        UNIT == 10000,
                {}
                let r = isqrt(away * (UNIT as u64));
                proof {
                    assert(away * (UNIT as u64) <= (UNIT as u64) * (UNIT as u64)) by (nonlinear_arith)
                        requires
                            away <= UNIT as u64,
                    {}
                    lemma_isqrt_le((away * (UNIT as u64)) as nat, UNIT as nat);
                }
                r as u32
            },
        }
    }

    /// Clamp and store a new position.
    pub fn set_position(&mut self, position: u32)
        ensures
            final(self).position == if position <= UNIT { position } else { UNIT },
            final(self).side_a == old(self).side_a,
            final(self).side_b == old(self).side_b,
            final(self).curve == old(self).curve,
            final(self).enabled == old(self).enabled,
            final(self).wf(),
    {
        self.position = if position <= UNIT {
            position
        } else {
            UNIT
        };
    }

    /// Switch the crossfader on or off.
    pub fn set_enabled(&mut self, enabled: bool)
        ensures
            *final(self) == (CrossfaderConfig { enabled, ..*old(self) }),
    {
        self.enabled = enabled;
    }

    /// Change the curve.
    pub fn set_curve(&mut self, curve: CrossfaderCurve)
        ensures
            *final(self) == (CrossfaderConfig { curve, ..*old(self) }),
    {
        self.curve = curve;
    }

    /// Put `deck_id` on side A, side B, or neither; the deck leaves both
    /// sides first, so it never stands on the two sides at once.
    pub fn assign_deck(&mut self, deck_id: u8, side: Side)
        ensures
            final(self).position == old(self).position,
            final(self).curve == old(self).curve,
            final(self).enabled == old(self).enabled,
            side == Side::A ==> final(self).side_a@ == old(self).side_a@.filter(
                |x: u8| x != deck_id,
            ).push(deck_id) && final(self).side_b@ == old(self).side_b@.filter(
                |x: u8| x != deck_id,
            ),
            side == Side::B ==> final(self).side_b@ == old(self).side_b@.filter(
                |x: u8| x != deck_id,
            ).push(deck_id) && final(self).side_a@ == old(self).side_a@.filter(
                |x: u8| x != deck_id,
            ),
            side == Side::Neither ==> final(self).side_a@ == old(self).side_a@.filter(
                |x: u8| x != deck_id,
            ) && final(self).side_b@ == old(self).side_b@.filter(|x: u8| x != deck_id),
            !(final(self).side_a@.contains(deck_id) && final(self).side_b@.contains(deck_id)),
    {
        remove_id(&mut self.side_a, deck_id);
        remove_id(&mut self.side_b, deck_id);
        proof {
            lemma_filter_removes(old(self).side_a@, deck_id);
            lemma_filter_removes(old(self).side_b@, deck_id);
        }
        match side {
            Side::A => self.side_a.push(deck_id),
            Side::B => self.side_b.push(deck_id),
            Side::Neither => {},
        }
    }
}

/// Where a deck is to stand relative to the crossfader.
#[derive(Debug, Clone, Copy, PartialEq, Eq, Structural)]
pub enum Side {
    A,
    B,
    Neither,
}

/// Parse a side selector word, case-insensitively; `None` for an unknown word.
pub fn side_from_str(s: &str) -> (r: Option<Side>)
    ensures
        lower_matches(s@, "a"@) ==> r == Some(Side::A),
        lower_matches(s@, "b"@) ==> r == Some(Side::B),
        lower_matches(s@, "none"@) ==> r == Some(Side::Neither),
        !lower_matches(s@, "a"@) && !lower_matches(s@, "b"@) && !lower_matches(s@, "none"@)
            ==> r is None,
{
    proof {
        reveal_strlit("a");
        reveal_strlit("b");
        reveal_strlit("none");
        assert("a"@.len() == 1 && "a"@[0] == 'a');
        assert("b"@.len() == 1 && "b"@[0] == 'b');
        assert("none"@.len() == 4);
    }
    if eq_ascii_lower(s, "a") {
        Some(Side::A)
    } else if eq_ascii_lower(s, "b") {
        Some(Side::B)
    } else if eq_ascii_lower(s, "none") {
        Some(Side::Neither)
    } else {
        None
    }
}

/// A sequence filtered on `x != id` no longer holds `id`.
pub proof fn lemma_filter_removes(s: Seq<u8>, id: u8)
    ensures
        !s.filter(|x: u8| x != id).contains(id),
    decreases s.len(),
{
    reveal_with_fuel(Seq::filter, 2);
    if s.len() > 0 {
        lemma_filter_removes(s.drop_last(), id);
        let f = s.filter(|x: u8| x != id);
        let g = s.drop_last().filter(|x: u8| x != id);
        if s.last() != id {
            assert(f == g.push(s.last()));
            assert forall|i: int| 0 <= i < f.len() implies f[i] != id by {
                if i < g.len() {
                    assert(f[i] == g[i]);
                    assert(g.contains(g[i]) == (exists|j: int| 0 <= j < g.len() && g[j] == g[i]));
                } else {
                    assert(f[i] == s.last());
                }
            }
        } else {
            assert(f == g);
        }
        if f.contains(id) {
            let i = choose|i: int| 0 <= i < f.len() && f[i] == id;
            if i < g.len() {
                assert(g.contains(g[i]));
            }
        }
    }
}

/// Equal-power law: while the crossfader is enabled with the equal-power
/// curve, and decks `a` and `b` stand on opposite sides, the two volume
/// multipliers squared sum to within `4 * UNIT + 2` of `UNIT * UNIT` —
/// the summed power stays within a small tolerance of 1.0 at every
/// position.
pub proof fn lemma_equal_power_constant(cfg: CrossfaderConfig, a: u8, b: u8)
    requires
        cfg.wf(),
        cfg.enabled,
        cfg.curve == CrossfaderCurve::EqualPower,
        cfg.side_a@.contains(a),
        !cfg.side_b@.contains(a),
        cfg.side_b@.contains(b),
        !cfg.side_a@.contains(b),
    ensures
        ({
            let va = spec_volume_for(cfg, a);
            let vb = spec_volume_for(cfg, b);
            UNIT * UNIT - 4 * UNIT - 2 <= va * va + vb * vb <= UNIT * UNIT
        }),
{
    let p = cfg.position as nat;
    let u = UNIT as nat;
    let na = ((u - p) * u) as nat;
    let nb = (p * u) as nat;
    let va = spec_volume_for(cfg, a);
    let vb = spec_volume_for(cfg, b);
    assert(va == spec_isqrt(na));
    assert(vb == spec_isqrt(nb));
    lemma_spec_isqrt(na);
    lemma_spec_isqrt(nb);
    assert(na <= u * u && nb <= u * u) by (nonlinear_arith)
        requires
            p <= u,
            na == (u - p) * u,
            nb == p * u,
    {}
    lemma_isqrt_le(na, u);
    lemma_isqrt_le(nb, u);
    assert(na + nb == u * u) by (nonlinear_arith)
        requires
            p <= u,
            na == (u - p) * u,
            nb == p * u,
    {}
    assert(va * va + vb * vb <= na + nb);
    assert(na < (va + 1) * (va + 1) && va <= u ==> na <= va * va + 2 * u) by (nonlinear_arith) {}
    assert(nb < (vb + 1) * (vb + 1) && vb <= u ==> nb <= vb * vb + 2 * u) by (nonlinear_arith) {}
    assert(va * va + vb * vb >= na + nb - 4 * u - 2);
}

} // verus!
