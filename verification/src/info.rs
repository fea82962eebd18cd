//! Status records for the control surfaces.
//!
//! Plain snapshots of the controller state, in the shape the surfaces
//! display: selector words instead of enums, and one record per deck.

use vstd::prelude::*;

use crate::capture::DeviceInfo;
use crate::capture::DeviceType;
use crate::compositor::BlendMode;
use crate::compositor::CompositorConfig;
use crate::compositor::DeckCompositorSettings;
use crate::crossfader::CrossfaderConfig;
use crate::crossfader::CrossfaderCurve;
use crate::health::RendererHealth;
use crate::playlist::Playlist;
use crate::playlist::PlaylistItem;
use crate::playlist::clone_item;
use crate::playlist::item_like;

verus! {

/// Status of the single default deck, for the simple surface.
#[derive(Debug)]
pub struct VisualizerStatus {
    pub running: bool,
    pub audio_running: bool,
    pub current_preset: Option<String>,
    pub preset_dir: String,
}

/// A capture device as the selection surface shows it.
#[derive(Debug)]
pub struct AudioDeviceInfo {
    pub name: String,
    pub description: String,
    pub is_default: bool,
    pub is_monitor: bool,
    pub device_type: String,
}

/// Turn a capture device descriptor into its display record.
pub fn audio_device_info(d: &DeviceInfo) -> (r: AudioDeviceInfo)
    ensures
        r.name@ == d.name@,
        r.description@ == d.description@,
        r.is_default == d.is_default,
        r.is_monitor == d.is_monitor,
        d.device_type == DeviceType::Input ==> r.device_type@ == "input"@,
        d.device_type == DeviceType::Output ==> r.device_type@ == "output"@,
        d.device_type == DeviceType::Monitor ==> r.device_type@ == "monitor"@,
{
    let device_type = match d.device_type {
        DeviceType::Input => String::from_str("input"),
        DeviceType::Output => String::from_str("output"),
        DeviceType::Monitor => String::from_str("monitor"),
    };
    AudioDeviceInfo {
        name: d.name.clone(),
        description: d.description.clone(),
        is_default: d.is_default,
        is_monitor: d.is_monitor,
        device_type,
    }
}

/// A playlist as the surfaces show it.
#[derive(Debug)]
pub struct PlaylistInfo {
    pub name: String,
    pub items: Vec<PlaylistItem>,
    pub current_index: usize,
    pub shuffle: bool,
    pub auto_cycle: bool,
    pub cycle_duration_secs: u32,
}

impl Playlist {
    /// Snapshot of this playlist.
    pub fn to_info(&self) -> (r: PlaylistInfo)
        ensures
            r.name@ == self.name@,
            r.items@.len() == self.items@.len(),
            forall|i: int|
                0 <= i < r.items@.len() ==> item_like(#[trigger] r.items@[i], self.items@[i]),
            r.current_index == self.current_index,
            r.shuffle == self.shuffle,
            r.auto_cycle == self.auto_cycle,
            r.cycle_duration_secs == self.cycle_duration_secs,
    {
        let mut items: Vec<PlaylistItem> = Vec::new();
        let mut i: usize = 0;
        while i < self.items.len()
            invariant
                i <= self.items@.len(),
                items@.len() == i,
                forall|j: int|
                    0 <= j < i ==> item_like(#[trigger] items@[j], self.items@[j]),
            decreases self.items@.len() - i,
        {
            items.push(clone_item(&self.items[i]));
            i = i + 1;
        }
        PlaylistInfo {
            name: self.name.clone(),
            items,
            current_index: self.current_index,
            shuffle: self.shuffle,
            auto_cycle: self.auto_cycle,
            cycle_duration_secs: self.cycle_duration_secs,
        }
    }
}

/// Outcome of copying presets from a folder.
#[derive(Debug)]
pub struct ImportResult {
    pub imported: usize,
    pub skipped: usize,
    pub errors: Vec<String>,
    pub target_dir: String,
}

/// One display monitor.
#[derive(Debug)]
pub struct MonitorInfo {
    /// Zero-based index.
    pub index: usize,
    /// Monitor name or identifier.
    pub name: String,
    /// Width in pixels.
    pub width: u32,
    /// Height in pixels.
    pub height: u32,
    /// Whether this is the primary monitor.
    pub is_primary: bool,
}

/// MIDI connection status.
#[derive(Debug)]
pub struct MidiStatus {
    pub connected: bool,
    pub learning: bool,
    pub port_name: Option<String>,
    pub mapping_count: usize,
}

/// One MIDI mapping as the surfaces show it.
#[derive(Debug)]
pub struct MidiMappingInfo {
    pub id: String,
    pub name: String,
    pub midi_type: String,
    pub action: String,
    pub enabled: bool,
}

/// One built-in MIDI preset as the chooser shows it.
#[derive(Debug)]
pub struct MidiPresetInfo {
    pub name: String,
    pub description: String,
    pub controller: String,
    pub mapping_count: usize,
}

/// The built-in MIDI presets on offer.
pub fn midi_list_builtin_presets() -> (r: Vec<MidiPresetInfo>)
    ensures
        r@.len() == 4,
        r@[0].name@ == "Generic DJ Controller"@ && r@[0].mapping_count == 11,
        r@[1].name@ == "Akai APC Mini"@ && r@[1].mapping_count == 21,
        r@[2].name@ == "Novation Launchpad"@ && r@[2].mapping_count == 16,
        r@[3].name@ == "Korg nanoKONTROL2"@ && r@[3].mapping_count == 21,
{
    let mut r: Vec<MidiPresetInfo> = Vec::new();
    r.push(
        MidiPresetInfo {
            name: String::from_str("Generic DJ Controller"),
            description: String::from_str("Basic mapping for 2-deck DJ controllers"),
            controller: String::from_str("Generic"),
            mapping_count: 11,
        },
    );
    r.push(
        MidiPresetInfo {
            name: String::from_str("Akai APC Mini"),
            description: String::from_str("Mapping for Akai APC Mini controller"),
            controller: String::from_str("Akai APC Mini"),
            mapping_count: 21,
        },
    );
    r.push(
        MidiPresetInfo {
            name: String::from_str("Novation Launchpad"),
            description: String::from_str("Mapping for Novation Launchpad"),
            controller: String::from_str("Novation Launchpad"),
            mapping_count: 16,
        },
    );
    r.push(
        MidiPresetInfo {
            name: String::from_str("Korg nanoKONTROL2"),
            description: String::from_str("Mapping for Korg nanoKONTROL2"),
            controller: String::from_str("Korg nanoKONTROL2"),
            mapping_count: 21,
        },
    );
    r
}

/// Crossfader settings as the surfaces show them.
#[derive(Debug)]
pub struct CrossfaderInfo {
    /// Position, fixed-point at `UNIT`.
    pub position: u32,
    pub side_a: Vec<u8>,
    pub side_b: Vec<u8>,
    /// Curve selector word.
    pub curve: String,
    pub enabled: bool,
}

/// Copy a list of deck IDs.
fn copy_ids(v: &Vec<u8>) -> (r: Vec<u8>)
    ensures
        r@ == v@,
{
    let mut r: Vec<u8> = Vec::new();
    let mut i: usize = 0;
    while i < v.len()
        invariant
            i <= v@.len(),
            r@ == v@.take(i as int),
        decreases v@.len() - i,
    {
        r.push(v[i]);
        proof {
            assert(r@ =~= v@.take(i as int + 1));
        }
        i = i + 1;
    }
    proof {
        assert(v@.take(v@.len() as int) =~= v@);
    }
    r
}

impl CrossfaderConfig {
    /// Snapshot of this configuration.
    pub fn to_info(&self) -> (r: CrossfaderInfo)
        ensures
            r.position == self.position,
            r.side_a@ == self.side_a@,
            r.side_b@ == self.side_b@,
            self.curve == CrossfaderCurve::Linear ==> r.curve@ == "linear"@,
            self.curve == CrossfaderCurve::EqualPower ==> r.curve@ == "equal_power"@,
            r.enabled == self.enabled,
    {
        CrossfaderInfo {
            position: self.position,
            side_a: copy_ids(&self.side_a),
            side_b: copy_ids(&self.side_b),
            curve: match self.curve {
                CrossfaderCurve::Linear => String::from_str("linear"),
                CrossfaderCurve::EqualPower => String::from_str("equal_power"),
            },
            enabled: self.enabled,
        }
    }
}

/// One deck's compositor settings as the surfaces show them.
#[derive(Debug)]
pub struct DeckCompositorInfo {
    /// Opacity, fixed-point at `UNIT`.
    pub opacity: u32,
    /// Blend-mode selector word.
    pub blend_mode: String,
    pub layer_order: i32,
    pub enabled: bool,
}

/// Turn one deck's compositor settings into their display record.
pub fn deck_compositor_info(s: &DeckCompositorSettings) -> (r: DeckCompositorInfo)
    ensures
        r.opacity == s.opacity,
        s.blend_mode == BlendMode::Normal ==> r.blend_mode@ == "normal"@,
        s.blend_mode == BlendMode::Add ==> r.blend_mode@ == "add"@,
        s.blend_mode == BlendMode::Multiply ==> r.blend_mode@ == "multiply"@,
        s.blend_mode == BlendMode::Screen ==> r.blend_mode@ == "screen"@,
        s.blend_mode == BlendMode::Overlay ==> r.blend_mode@ == "overlay"@,
        r.layer_order == s.layer_order,
        r.enabled == s.enabled,
{
    DeckCompositorInfo {
        opacity: s.opacity,
        blend_mode: String::from_str(s.blend_mode.label()),
        layer_order: s.layer_order,
        enabled: s.enabled,
    }
}

/// Compositor settings as the surfaces show them.
#[derive(Debug)]
pub struct CompositorInfo {
    pub enabled: bool,
    pub output_width: u32,
    pub output_height: u32,
    pub link_to_crossfader: bool,
    pub deck_settings: Vec<DeckCompositorInfo>,
}

impl CompositorConfig {
    /// Snapshot of this configuration, one record per deck in ID order.
    pub fn to_info(&self) -> (r: CompositorInfo)
        requires
            self.wf(),
        ensures
            r.enabled == self.enabled,
            r.output_width == self.output_width,
            r.output_height == self.output_height,
            r.link_to_crossfader == self.link_to_crossfader,
            r.deck_settings@.len() == 4,
            forall|i: int|
                0 <= i < 4 ==> (#[trigger] r.deck_settings@[i]).opacity
                    == self.deck_settings@[i].opacity && r.deck_settings@[i].layer_order
                    == self.deck_settings@[i].layer_order && r.deck_settings@[i].enabled
                    == self.deck_settings@[i].enabled,
    {
        let mut deck_settings: Vec<DeckCompositorInfo> = Vec::new();
        let mut i: usize = 0;
        while i < 4
            invariant
                self.wf(),
                i <= 4,
                deck_settings@.len() == i,
                forall|j: int|
                    0 <= j < i ==> (#[trigger] deck_settings@[j]).opacity
                        == self.deck_settings@[j].opacity && deck_settings@[j].layer_order
                        == self.deck_settings@[j].layer_order && deck_settings@[j].enabled
                        == self.deck_settings@[j].enabled,
            decreases 4 - i,
        {
            deck_settings.push(deck_compositor_info(&self.deck_settings[i]));
            i = i + 1;
        }
        CompositorInfo {
            enabled: self.enabled,
            output_width: self.output_width,
            output_height: self.output_height,
            link_to_crossfader: self.link_to_crossfader,
            deck_settings,
        }
    }
}

/// One deck's status as the surfaces show it.
#[derive(Debug)]
pub struct DeckInfo {
    pub id: u8,
    pub running: bool,
    pub preset: Option<String>,
    /// Volume, fixed-point at `UNIT`.
    pub volume: u32,
    /// Beat sensitivity, fixed-point at `UNIT`.
    pub beat_sensitivity: u32,
    pub playlist: PlaylistInfo,
    pub health: Option<RendererHealth>,
    pub uptime_secs: Option<u64>,
    pub crash_count: Option<u32>,
}

/// Status of all four decks together.
#[derive(Debug)]
pub struct MultiDeckStatus {
    pub decks: Vec<DeckInfo>,
    pub audio_running: bool,
    pub preset_dir: String,
    pub crossfader: CrossfaderInfo,
    pub compositor: CompositorInfo,
}

} // verus!
