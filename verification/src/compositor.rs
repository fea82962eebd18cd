//! Compositor configuration.
//!
//! The compositor itself lives outside this core; the library stores and
//! validates its settings: an output resolution, and one record per deck
//! holding opacity, blend mode, layer order and an enable flag.  The
//! record of deck `i` sits at index `i`, and the default layer order
//! equals the deck ID.

use vstd::prelude::*;

use crate::strutil::eq_ascii_lower;
use crate::strutil::lower_code;
use crate::strutil::lower_matches;
use crate::units::UNIT;

verus! {

/// How a deck's output blends into the composite.
#[derive(Debug, Clone, Copy, PartialEq, Eq, Structural)]
pub enum BlendMode {
    /// Standard alpha blend.
    Normal,
    /// Additive blend, brightening.
    Add,
    /// Darkening blend.
    Multiply,
    /// Lightening blend.
    Screen,
    /// Contrast blend.
    Overlay,
}

impl Default for BlendMode {
    fn default() -> (r: Self)
        ensures
            r == BlendMode::Normal,
    {
        BlendMode::Normal
    }
}

/// Parse a blend-mode word, case-insensitively; `None` for an unknown one.
pub fn blend_mode_from_str(s: &str) -> (r: Option<BlendMode>)
    ensures
        lower_matches(s@, "normal"@) ==> r == Some(BlendMode::Normal),
        lower_matches(s@, "add"@) || lower_matches(s@, "additive"@) ==> r == Some(BlendMode::Add),
        lower_matches(s@, "multiply"@) ==> r == Some(BlendMode::Multiply),
        lower_matches(s@, "screen"@) ==> r == Some(BlendMode::Screen),
        lower_matches(s@, "overlay"@) ==> r == Some(BlendMode::Overlay),
        !lower_matches(s@, "normal"@) && !lower_matches(s@, "add"@) && !lower_matches(
            s@,
            "additive"@,
        ) && !lower_matches(s@, "multiply"@) && !lower_matches(s@, "screen"@) && !lower_matches(
            s@,
            "overlay"@,
        ) ==> r is None,
{
    proof {
        reveal_strlit("normal");
        reveal_strlit("add");
        reveal_strlit("additive");
        reveal_strlit("multiply");
        reveal_strlit("screen");
        reveal_strlit("overlay");
        assert(lower_matches(s@, "normal"@) ==> lower_code(s@[0]) == 'n' as u32);
        assert(lower_matches(s@, "screen"@) ==> lower_code(s@[0]) == 's' as u32);
        assert(lower_matches(s@, "additive"@) ==> lower_code(s@[0]) == 'a' as u32);
        assert(lower_matches(s@, "multiply"@) ==> lower_code(s@[0]) == 'm' as u32);
    }
    if eq_ascii_lower(s, "normal") {
        Some(BlendMode::Normal)
    } else if eq_ascii_lower(s, "add") || eq_ascii_lower(s, "additive") {
        Some(BlendMode::Add)
    } else if eq_ascii_lower(s, "multiply") {
        Some(BlendMode::Multiply)
    } else if eq_ascii_lower(s, "screen") {
        Some(BlendMode::Screen)
    } else if eq_ascii_lower(s, "overlay") {
        Some(BlendMode::Overlay)
    } else {
        None
    }
}

impl BlendMode {
    /// Lower-case label of the mode.
    pub fn label(&self) -> (r: &'static str)
        ensures
            self == BlendMode::Normal ==> r@ == "normal"@,
            self == BlendMode::Add ==> r@ == "add"@,
            self == BlendMode::Multiply ==> r@ == "multiply"@,
            self == BlendMode::Screen ==> r@ == "screen"@,
            self == BlendMode::Overlay ==> r@ == "overlay"@,
    {
        match self {
            BlendMode::Normal => "normal",
            BlendMode::Add => "add",
            BlendMode::Multiply => "multiply",
            BlendMode::Screen => "screen",
            BlendMode::Overlay => "overlay",
        }
    }
}

/// Compositor settings of one deck.
#[derive(Debug, Clone, Copy)]
pub struct DeckCompositorSettings {
    /// Opacity in `[0, UNIT]`.
    pub opacity: u32,
    /// Blend mode.
    pub blend_mode: BlendMode,
    /// Stacking position; higher lies on top.
    pub layer_order: i32,
    /// Whether the deck takes part in the composite.
    pub enabled: bool,
}

impl Default for DeckCompositorSettings {
    /// Fully opaque, normal blend, bottom layer, enabled.
    fn default() -> (r: Self)
        ensures
            r.opacity == UNIT,
            r.blend_mode == BlendMode::Normal,
            r.layer_order == 0,
            r.enabled,
    {
        DeckCompositorSettings {
            opacity: UNIT,
            blend_mode: BlendMode::Normal,
            layer_order: 0,
            enabled: true,
        }
    }
}

/// Compositor configuration for combining the four deck outputs.
#[derive(Debug, Clone)]
pub struct CompositorConfig {
    /// Whether compositor output is enabled at all.
    pub enabled: bool,
    /// Output width in pixels.
    pub output_width: u32,
    /// Output height in pixels.
    pub output_height: u32,
    /// One record per deck, indexed by deck ID.
    pub deck_settings: Vec<DeckCompositorSettings>,
    /// Whether deck opacity follows the crossfader position.
    pub link_to_crossfader: bool,
}

impl CompositorConfig {
    /// One record per deck, each with a valid opacity.
    pub open spec fn wf(self) -> bool {
        &&& self.deck_settings@.len() == 4
        &&& forall|i: int| 0 <= i < 4 ==> #[trigger] self.deck_settings@[i].opacity <= UNIT
    }

    /// Fresh configuration: disabled, 1920 by 1080, defaults per deck with
    /// the layer order equal to the deck ID, linked to the crossfader.
    pub fn new() -> (r: Self)
        ensures
            r.wf(),
            !r.enabled,
            r.output_width == 1920,
            r.output_height == 1080,
            r.link_to_crossfader,
            forall|i: int|
                0 <= i < 4 ==> #[trigger] r.deck_settings@[i] == (DeckCompositorSettings {
                    opacity: UNIT,
                    blend_mode: BlendMode::Normal,
                    layer_order: i as i32,
                    enabled: true,
                }),
    {
        let mut deck_settings: Vec<DeckCompositorSettings> = Vec::new();
        let mut id: u32 = 0;
        while id < 4
            invariant
                id <= 4,
                deck_settings@.len() == id,
                forall|i: int|
                    0 <= i < id ==> #[trigger] deck_settings@[i] == (DeckCompositorSettings {
                        opacity: UNIT,
                        blend_mode: BlendMode::Normal,
                        layer_order: i as i32,
                        enabled: true,
                    }),
            decreases 4 - id,
        {
            deck_settings.push(
                DeckCompositorSettings {
                    opacity: UNIT,
                    blend_mode: BlendMode::Normal,
                    layer_order: id as i32,
                    enabled: true,
                },
            );
            id = id + 1;
        }
        CompositorConfig {
            enabled: false,
            output_width: 1920,
            output_height: 1080,
            deck_settings,
            link_to_crossfader: true,
        }
    }

    /// Set one deck's opacity, clamped to `[0, UNIT]`.
    pub fn set_deck_opacity(&mut self, deck_id: u8, opacity: u32)
        requires
            old(self).wf(),
            deck_id < 4,
        ensures
            final(self).wf(),
            final(self).deck_settings@[deck_id as int].opacity == (if opacity <= UNIT {
                opacity
            } else {
                UNIT
            }),
            final(self).deck_settings@[deck_id as int].blend_mode == old(self).deck_settings@[deck_id as int].blend_mode,
            final(self).deck_settings@[deck_id as int].layer_order == old(self).deck_settings@[deck_id as int].layer_order,
            final(self).deck_settings@[deck_id as int].enabled == old(self).deck_settings@[deck_id as int].enabled,
            forall|i: int|
                0 <= i < 4 && i != deck_id as int ==> #[trigger] final(self).deck_settings@[i]
                    == old(self).deck_settings@[i],
            final(self).enabled == old(self).enabled,
            final(self).output_width == old(self).output_width,
            final(self).output_height == old(self).output_height,
            final(self).link_to_crossfader == old(self).link_to_crossfader,
    {
        let clamped = if opacity <= UNIT {
            opacity
        } else {
            UNIT
        };
        let mut s = self.deck_settings[deck_id as usize];
        s.opacity = clamped;
        self.deck_settings.set(deck_id as usize, s);
    }

    /// Set one deck's blend mode.
    pub fn set_deck_blend_mode(&mut self, deck_id: u8, mode: BlendMode)
        requires
            old(self).wf(),
            deck_id < 4,
        ensures
            final(self).wf(),
            final(self).deck_settings@[deck_id as int] == (DeckCompositorSettings {
                blend_mode: mode,
                ..old(self).deck_settings@[deck_id as int]
            }),
            forall|i: int|
                0 <= i < 4 && i != deck_id as int ==> #[trigger] final(self).deck_settings@[i]
                    == old(self).deck_settings@[i],
            final(self).enabled == old(self).enabled,
            final(self).output_width == old(self).output_width,
            final(self).output_height == old(self).output_height,
            final(self).link_to_crossfader == old(self).link_to_crossfader,
    {
        let mut s = self.deck_settings[deck_id as usize];
        s.blend_mode = mode;
        self.deck_settings.set(deck_id as usize, s);
    }

    /// Set one deck's layer order.
    pub fn set_deck_layer(&mut self, deck_id: u8, layer_order: i32)
        requires
            old(self).wf(),
            deck_id < 4,
        ensures
            final(self).wf(),
            final(self).deck_settings@[deck_id as int] == (DeckCompositorSettings {
                layer_order,
                ..old(self).deck_settings@[deck_id as int]
            }),
            forall|i: int|
                0 <= i < 4 && i != deck_id as int ==> #[trigger] final(self).deck_settings@[i]
                    == old(self).deck_settings@[i],
            final(self).enabled == old(self).enabled,
            final(self).output_width == old(self).output_width,
            final(self).output_height == old(self).output_height,
            final(self).link_to_crossfader == old(self).link_to_crossfader,
    {
        let mut s = self.deck_settings[deck_id as usize];
        s.layer_order = layer_order;
        self.deck_settings.set(deck_id as usize, s);
    }

    /// Enable or disable one deck in the composite.
    pub fn set_deck_enabled(&mut self, deck_id: u8, enabled: bool)
        requires
            old(self).wf(),
            deck_id < 4,
        ensures
            final(self).wf(),
            final(self).deck_settings@[deck_id as int] == (DeckCompositorSettings {
                enabled,
                ..old(self).deck_settings@[deck_id as int]
            }),
            forall|i: int|
                0 <= i < 4 && i != deck_id as int ==> #[trigger] final(self).deck_settings@[i]
                    == old(self).deck_settings@[i],
            final(self).enabled == old(self).enabled,
            final(self).output_width == old(self).output_width,
            final(self).output_height == old(self).output_height,
            final(self).link_to_crossfader == old(self).link_to_crossfader,
    {
        let mut s = self.deck_settings[deck_id as usize];
        s.enabled = enabled;
        self.deck_settings.set(deck_id as usize, s);
    }
}

} // verus!
