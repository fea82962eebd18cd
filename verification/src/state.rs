//! Shared application state and the orchestration entry points.
//!
//! One `AppState` holds the four decks, the audio capture engine, the
//! crossfader and compositor configurations, and the last VU levels.  The
//! process and file I/O around it happens outside the library: a start is
//! prepared here (validated, with the exact renderer configuration text),
//! the caller spawns the process, and only a successful spawn is attached
//! — a failed start leaves the state exactly as it was.

use vstd::prelude::*;

use crate::capture::AudioEngine;
use crate::compositor::CompositorConfig;
use crate::crossfader::CrossfaderConfig;
use crate::crossfader::spec_volume_for;
use crate::deck::DeckState;
use crate::health::RendererHealth;
use crate::info::DeckInfo;
use crate::info::MultiDeckStatus;
use crate::jsonfmt::append_u64;
use crate::jsonfmt::dec_digits;
use crate::levels::batch_frames;
use crate::levels::batch_sum_left;
use crate::levels::batch_sum_right;
use crate::levels::compute_levels;
use crate::levels::spec_level;
use crate::protocol::RendererConfig;
use crate::protocol::encode_config;
use crate::protocol::spec_encode_config;
use crate::pump::DeckPlan;
use crate::pump::deck_alive;
use crate::pump::deck_pump_step;
use crate::pump::deck_step_ok;
use crate::pump::spec_polled;
use crate::supervisor::PollResult;
use crate::supervisor::RendererProcess;
use crate::supervisor::StopStep;
use crate::supervisor::spec_stop_plan;
use crate::units::UNIT;

verus! {

/// Build `prefix`, the decimal of `id`, and `suffix` into one message.
pub fn deck_msg(prefix: &str, id: u8, suffix: &str) -> (r: String)
    ensures
        r@ == prefix@ + dec_digits(id as nat) + suffix@,
{
    let mut s = String::from_str(prefix);
    append_u64(&mut s, id as u64);
    s.append(suffix);
    proof {
        assert(s@ =~= prefix@ + dec_digits(id as nat) + suffix@);
    }
    s
}

/// Equal option-of-string contents, compared by view.
pub open spec fn opt_str_like(a: Option<String>, b: Option<String>) -> bool {
    match (a, b) {
        (Some(x), Some(y)) => x@ == y@,
        (None, None) => true,
        _ => false,
    }
}

/// Copy an optional string.
pub fn clone_opt_str(o: &Option<String>) -> (r: Option<String>)
    ensures
        opt_str_like(r, *o),
{
    match o {
        Some(s) => Some(s.clone()),
        None => None,
    }
}

/// The error for a deck ID outside `0..4`.
pub fn invalid_deck_msg(id: u8) -> (r: String)
    ensures
        r@ == "Invalid deck ID: "@ + dec_digits(id as nat),
{
    let mut s = String::from_str("Invalid deck ID: ");
    append_u64(&mut s, id as u64);
    proof {
        assert(s@ =~= "Invalid deck ID: "@ + dec_digits(id as nat));
    }
    s
}

/// What the caller must spawn to start a deck: the renderer executable
/// and its single configuration argument.
#[derive(Debug)]
pub struct StartPlan {
    /// Path of the renderer executable to spawn.
    pub exe: String,
    /// The configuration text to pass as the one argument.
    pub config_text: String,
}

/// The renderer configuration a start request resolves to, defaults
/// filled in.
pub open spec fn spec_start_config(
    deck_id: u8,
    width: Option<u32>,
    height: Option<u32>,
    fullscreen: Option<bool>,
    preset_path: Option<String>,
    monitor_index: Option<usize>,
    texture_paths: Vec<String>,
) -> RendererConfig {
    RendererConfig {
        width: match width {
            Some(w) => w,
            None => 1280,
        },
        height: match height {
            Some(h) => h,
            None => 720,
        },
        preset_path,
        fullscreen: match fullscreen {
            Some(f) => f,
            None => false,
        },
        deck_id,
        monitor_index,
        texture_paths,
    }
}

/// Shared state of the whole controller.
#[derive(Debug)]
pub struct AppState {
    /// The four deck slots; the deck with ID `i` sits at index `i`.
    pub decks: Vec<DeckState>,
    /// The audio capture engine.
    pub audio_engine: AudioEngine,
    /// Crossfader settings.
    pub crossfader: CrossfaderConfig,
    /// Compositor settings.
    pub compositor: CompositorConfig,
    /// Last computed VU levels (left, right), fixed-point at `UNIT`.
    pub audio_levels: (u32, u32),
}

impl AppState {
    /// Four well-formed decks in slot order, well-formed engine and
    /// configurations, and levels within `[0, UNIT]`.
    pub open spec fn wf(self) -> bool {
        &&& self.decks@.len() == 4
        &&& (forall|i: int| 0 <= i < 4 ==> (#[trigger] self.decks@[i]).wf())
        &&& (forall|i: int| 0 <= i < 4 ==> (#[trigger] self.decks@[i]).id == i)
        &&& self.audio_engine.wf()
        &&& self.crossfader.wf()
        &&& self.compositor.wf()
        &&& self.audio_levels.0 <= UNIT
        &&& self.audio_levels.1 <= UNIT
    }

    /// Fresh state: four inactive decks, a stopped engine, default
    /// crossfader and compositor, zero levels.
    pub fn new() -> (r: Self)
        ensures
            r.wf(),
            forall|i: int|
                0 <= i < 4 ==> (#[trigger] r.decks@[i]).renderer is None && !r.decks@[i].active,
            !r.audio_engine.running,
            r.audio_engine.queue@.len() == 0,
            !r.crossfader.enabled,
            !r.compositor.enabled,
            r.audio_levels == (0u32, 0u32),
    {
        let mut decks: Vec<DeckState> = Vec::new();
        let mut id: u8 = 0;
        while id < 4
            invariant
                id <= 4,
                decks@.len() == id,
                forall|i: int|
                    0 <= i < id ==> (#[trigger] decks@[i]).wf() && decks@[i].id == i
                        && decks@[i].renderer is None && !decks@[i].active,
            decreases 4 - id,
        {
            decks.push(DeckState::new(id));
            id = id + 1;
        }
        AppState {
            decks,
            audio_engine: AudioEngine::new(),
            crossfader: CrossfaderConfig::new(),
            compositor: CompositorConfig::new(),
            audio_levels: (0, 0),
        }
    }

    /// Validate a start request and prepare what to spawn.  Refused when
    /// the deck ID is out of range, and when the deck still has a live
    /// process after this tick's poll — starting never doubles a deck's
    /// process.  Nothing changes on refusal beyond the poll's own effect,
    /// and nothing is attached until the spawn has succeeded.
    pub fn start_deck(
        &mut self,
        deck_id: u8,
        poll: PollResult,
        now_millis: u64,
        width: Option<u32>,
        height: Option<u32>,
        fullscreen: Option<bool>,
        preset_path: Option<String>,
        monitor_index: Option<usize>,
        renderer_path: String,
        texture_paths: Vec<String>,
    ) -> (r: Result<StartPlan, String>)
        requires
            old(self).wf(),
        ensures
            final(self).wf(),
            final(self).audio_engine == old(self).audio_engine,
            final(self).crossfader == old(self).crossfader,
            final(self).compositor == old(self).compositor,
            final(self).audio_levels == old(self).audio_levels,
            deck_id >= 4 ==> *final(self) == *old(self) && (r matches Err(e) && e@
                == "Invalid deck ID: "@ + dec_digits(deck_id as nat) + ". Must be 0-3"@),
            deck_id < 4 ==> {
                &&& final(self).decks@.len() == 4
                &&& (forall|i: int|
                    0 <= i < 4 && i != deck_id as int ==> #[trigger] final(self).decks@[i] == old(self).decks@[i])
                &&& final(self).decks@[deck_id as int] == (DeckState {
                    renderer: spec_polled(
                        old(self).decks@[deck_id as int].renderer,
                        poll,
                        now_millis,
                    ),
                    ..old(self).decks@[deck_id as int]
                })
                &&& (deck_alive(old(self).decks@[deck_id as int], poll, now_millis) ==> (
                r matches Err(e) && e@ == "Deck "@ + dec_digits(deck_id as nat)
                    + " already running"@))
                &&& (!deck_alive(old(self).decks@[deck_id as int], poll, now_millis) ==> (
                r matches Ok(plan) && plan.exe == renderer_path && plan.config_text@
                    == spec_encode_config(
                    spec_start_config(
                        deck_id,
                        width,
                        height,
                        fullscreen,
                        preset_path,
                        monitor_index,
                        texture_paths,
                    ),
                )))
            },
    {
        if deck_id >= 4 {
            return Err(deck_msg("Invalid deck ID: ", deck_id, ". Must be 0-3"));
        }
        let mut d = self.decks.remove(deck_id as usize);
        let alive = match &mut d.renderer {
            Some(rp) => rp.poll(poll, now_millis),
            None => false,
        };
        self.decks.insert(deck_id as usize, d);
        proof {
            assert(self.decks@ =~= old(self).decks@.update(
                deck_id as int,
                self.decks@[deck_id as int],
            ));
        }
        if alive {
            return Err(deck_msg("Deck ", deck_id, " already running"));
        }
        let config = RendererConfig {
            width: match width {
                Some(w) => w,
                None => 1280,
            },
            height: match height {
                Some(h) => h,
                None => 720,
            },
            preset_path,
            fullscreen: match fullscreen {
                Some(f) => f,
                None => false,
            },
            deck_id,
            monitor_index,
            texture_paths,
        };
        let config_text = encode_config(&config);
        Ok(StartPlan { exe: renderer_path, config_text })
    }

    /// Attach a successfully spawned renderer process to its deck and
    /// record the preset it was started with.
    pub fn attach_deck(&mut self, deck_id: u8, preset: Option<String>, now_millis: u64) -> (r:
        String)
        requires
            old(self).wf(),
            deck_id < 4,
        ensures
            final(self).wf(),
            final(self).audio_engine == old(self).audio_engine,
            final(self).crossfader == old(self).crossfader,
            final(self).compositor == old(self).compositor,
            final(self).audio_levels == old(self).audio_levels,
            forall|i: int|
                0 <= i < 4 && i != deck_id as int ==> #[trigger] final(self).decks@[i] == old(self).decks@[i],
            final(self).decks@[deck_id as int] == (DeckState {
                renderer: Some(
                    RendererProcess {
                        running: true,
                        health: RendererHealth::Starting,
                        started_at_millis: now_millis,
                        crash_count: 0,
                    },
                ),
                preset_path: preset,
                active: true,
                ..old(self).decks@[deck_id as int]
            }),
            r@ == "Deck "@ + dec_digits(deck_id as nat) + " started"@,
    {
        let mut d = self.decks.remove(deck_id as usize);
        d.renderer = Some(RendererProcess::new(now_millis));
        d.preset_path = preset;
        d.active = true;
        self.decks.insert(deck_id as usize, d);
        proof {
            assert(self.decks@ =~= old(self).decks@.update(
                deck_id as int,
                self.decks@[deck_id as int],
            ));
        }
        deck_msg("Deck ", deck_id, " started")
    }

    /// Stop a deck: hand back the stop procedure for its process, if any,
    /// and clear the slot.  Refused only for an out-of-range ID.
    pub fn stop_deck(&mut self, deck_id: u8) -> (r: Result<(String, Vec<StopStep>), String>)
        requires
            old(self).wf(),
        ensures
            final(self).wf(),
            final(self).audio_engine == old(self).audio_engine,
            final(self).crossfader == old(self).crossfader,
            final(self).compositor == old(self).compositor,
            final(self).audio_levels == old(self).audio_levels,
            deck_id >= 4 ==> *final(self) == *old(self) && (r matches Err(e) && e@
                == "Invalid deck ID: "@ + dec_digits(deck_id as nat)),
            deck_id < 4 ==> {
                &&& (forall|i: int|
                    0 <= i < 4 && i != deck_id as int ==> #[trigger] final(self).decks@[i] == old(self).decks@[i])
                &&& final(self).decks@[deck_id as int] == (DeckState {
                    renderer: None,
                    active: false,
                    ..old(self).decks@[deck_id as int]
                })
                &&& (r matches Ok(ok) && ok.0@ == "Deck "@ + dec_digits(deck_id as nat)
                    + " stopped"@ && ok.1@ == (match old(self).decks@[deck_id as int].renderer {
                    Some(p) => spec_stop_plan(p),
                    None => Seq::<StopStep>::empty(),
                }))
            },
    {
        if deck_id >= 4 {
            return Err(invalid_deck_msg(deck_id));
        }
        let mut d = self.decks.remove(deck_id as usize);
        let plan: Vec<StopStep> = match &d.renderer {
            Some(p) => p.stop_plan(),
            None => Vec::new(),
        };
        d.renderer = None;
        d.active = false;
        self.decks.insert(deck_id as usize, d);
        proof {
            assert(self.decks@ =~= old(self).decks@.update(
                deck_id as int,
                self.decks@[deck_id as int],
            ));
        }
        Ok((deck_msg("Deck ", deck_id, " stopped"), plan))
    }

    /// Set a deck's volume, clamped to `[0, UNIT]`.
    pub fn set_deck_volume(&mut self, deck_id: u8, volume: u32) -> (r: Result<String, String>)
        requires
            old(self).wf(),
        ensures
            final(self).wf(),
            final(self).audio_engine == old(self).audio_engine,
            final(self).crossfader == old(self).crossfader,
            final(self).compositor == old(self).compositor,
            final(self).audio_levels == old(self).audio_levels,
            deck_id >= 4 ==> *final(self) == *old(self) && (r matches Err(e) && e@
                == "Invalid deck ID: "@ + dec_digits(deck_id as nat)),
            deck_id < 4 ==> {
                &&& (forall|i: int|
                    0 <= i < 4 && i != deck_id as int ==> #[trigger] final(self).decks@[i] == old(self).decks@[i])
                &&& final(self).decks@[deck_id as int] == (DeckState {
                    volume: if volume <= UNIT {
                        volume
                    } else {
                        UNIT
                    },
                    ..old(self).decks@[deck_id as int]
                })
                &&& r is Ok
            },
    {
        if deck_id >= 4 {
            return Err(invalid_deck_msg(deck_id));
        }
        let mut d = self.decks.remove(deck_id as usize);
        d.volume = if volume <= UNIT {
            volume
        } else {
            UNIT
        };
        self.decks.insert(deck_id as usize, d);
        proof {
            assert(self.decks@ =~= old(self).decks@.update(
                deck_id as int,
                self.decks@[deck_id as int],
            ));
        }
        Ok(deck_msg("Deck ", deck_id, " volume set"))
    }

    /// Snapshot of every deck and the mixing settings, for the status
    /// surface.  The health, uptime and crash figures are read before
    /// this tick's poll is applied; the running flags reflect the
    /// poll.  `preset_dir` is the preset
    /// directory the caller resolved on the file system.
    pub fn multi_deck_status(
        &mut self,
        polls: &Vec<PollResult>,
        now_millis: u64,
        preset_dir: String,
    ) -> (r: MultiDeckStatus)
        requires
            old(self).wf(),
            polls@.len() == 4,
        ensures
            final(self).wf(),
            final(self).audio_engine == old(self).audio_engine,
            final(self).crossfader == old(self).crossfader,
            final(self).compositor == old(self).compositor,
            final(self).audio_levels == old(self).audio_levels,
            final(self).decks@.len() == 4,
            forall|i: int|
                0 <= i < 4 ==> #[trigger] final(self).decks@[i] == (DeckState {
                    renderer: spec_polled(old(self).decks@[i].renderer, polls@[i], now_millis),
                    ..old(self).decks@[i]
                }),
            r.decks@.len() == 4,
            forall|i: int|
                0 <= i < 4 ==> {
                    let pre = old(self).decks@[i];
                    let rd = #[trigger] r.decks@[i];
                    &&& rd.id == pre.id
                    &&& rd.running == deck_alive(pre, polls@[i], now_millis)
                    &&& opt_str_like(rd.preset, pre.preset_path)
                    &&& rd.volume == pre.volume
                    &&& rd.beat_sensitivity == pre.beat_sensitivity
                    &&& (rd.health == match pre.renderer {
                        Some(p) => Some(p.health),
                        None => None,
                    })
                    &&& (rd.crash_count == match pre.renderer {
                        Some(p) => Some(p.crash_count),
                        None => None,
                    })
                    &&& (pre.renderer is None ==> rd.uptime_secs is None)
                    &&& (pre.renderer is Some ==> rd.uptime_secs is Some)
                },
            r.audio_running == old(self).audio_engine.running,
            r.preset_dir@ == preset_dir@,
            r.crossfader.position == old(self).crossfader.position,
            r.crossfader.enabled == old(self).crossfader.enabled,
            r.compositor.enabled == old(self).compositor.enabled,
            r.compositor.deck_settings@.len() == 4,
    {
        let mut infos: Vec<DeckInfo> = Vec::new();
        let mut id: u8 = 0;
        let ghost eng = self.audio_engine;
        let ghost lv = self.audio_levels;
        #[verifier::loop_isolation(false)]
        while id < 4
            invariant
                id <= 4,
                self.decks@.len() == 4,
                self.audio_engine == eng,
                self.crossfader == old(self).crossfader,
                self.compositor == old(self).compositor,
                self.audio_levels == lv,
                infos@.len() == id,
                forall|i: int| id <= i < 4 ==> #[trigger] self.decks@[i] == old(self).decks@[i],
                forall|i: int|
                    0 <= i < id ==> #[trigger] self.decks@[i] == (DeckState {
                        renderer: spec_polled(
                            old(self).decks@[i].renderer,
                            polls@[i],
                            now_millis,
                        ),
                        ..old(self).decks@[i]
                    }),
                forall|i: int|
                    0 <= i < id ==> {
                        let pre = old(self).decks@[i];
                        let rd = #[trigger] infos@[i];
                        &&& rd.id == pre.id
                        &&& rd.running == deck_alive(pre, polls@[i], now_millis)
                        &&& opt_str_like(rd.preset, pre.preset_path)
                        &&& rd.volume == pre.volume
                        &&& rd.beat_sensitivity == pre.beat_sensitivity
                        &&& (rd.health == match pre.renderer {
                            Some(p) => Some(p.health),
                            None => None,
                        })
                        &&& (rd.crash_count == match pre.renderer {
                            Some(p) => Some(p.crash_count),
                            None => None,
                        })
                        &&& (pre.renderer is None ==> rd.uptime_secs is None)
                        &&& (pre.renderer is Some ==> rd.uptime_secs is Some)
                    },
            decreases 4 - id,
        {
            let ghost before = self.decks@;
            let mut d = self.decks.remove(id as usize);
            let (health, uptime, crashes) = match &d.renderer {
                Some(p) => (Some(p.get_health()), Some(p.uptime_secs(now_millis)), Some(
                    p.crash_count,
                )),
                None => (None, None, None),
            };
            let playlist = d.playlist.to_info();
            let preset = clone_opt_str(&d.preset_path);
            let running = match &mut d.renderer {
                Some(rp) => rp.poll(polls[id as usize], now_millis),
                None => false,
            };
            let info = DeckInfo {
                id: d.id,
                running,
                preset,
                volume: d.volume,
                beat_sensitivity: d.beat_sensitivity,
                playlist,
                health,
                uptime_secs: uptime,
                crash_count: crashes,
            };
            self.decks.insert(id as usize, d);
            proof {
                assert(self.decks@ =~= before.update(id as int, self.decks@[id as int]));
            }
            infos.push(info);
            id = id + 1;
        }
        MultiDeckStatus {
            decks: infos,
            audio_running: self.audio_engine.is_running(),
            preset_dir,
            crossfader: self.crossfader.to_info(),
            compositor: self.compositor.to_info(),
        }
    }

    /// Current VU levels for the meters.
    pub fn get_audio_levels(&self) -> (r: (u32, u32))
        ensures
            r == self.audio_levels,
    {
        self.audio_levels
    }

    /// One pump tick: drain the capture engine, refresh the VU levels
    /// when the batch holds any complete frame (an empty batch leaves
    /// them standing), then visit every deck in ascending ID order,
    /// advancing due playlists and scaling the batch by each deck's
    /// effective volume.  The commands to write come back as one plan
    /// per deck.
    #[verifier::loop_isolation(false)]
    pub fn pump_cycle(&mut self, polls: &Vec<PollResult>, now_millis: u64) -> (plan: Vec<DeckPlan>)
        requires
            old(self).wf(),
            polls@.len() == 4,
            batch_frames(old(self).audio_engine.queue.deep_view()) < 0x8000_0000_0000_0000,
        ensures
            final(self).wf(),
            final(self).crossfader == old(self).crossfader,
            final(self).compositor == old(self).compositor,
            final(self).audio_engine.running == old(self).audio_engine.running,
            final(self).audio_engine.queue@.len() == 0,
            batch_frames(old(self).audio_engine.queue.deep_view()) == 0 ==> final(self).audio_levels
                == old(self).audio_levels,
            batch_frames(old(self).audio_engine.queue.deep_view()) > 0 ==> final(self).audio_levels.0
                == spec_level(
                batch_sum_left(old(self).audio_engine.queue.deep_view()),
                batch_frames(old(self).audio_engine.queue.deep_view()),
            ) && final(self).audio_levels.1 == spec_level(
                batch_sum_right(old(self).audio_engine.queue.deep_view()),
                batch_frames(old(self).audio_engine.queue.deep_view()),
            ),
            plan@.len() == 4,
            forall|i: int|
                0 <= i < 4 ==> deck_step_ok(
                    old(self).decks@[i],
                    #[trigger] final(self).decks@[i],
                    plan@[i],
                    polls@[i],
                    now_millis,
                    old(self).audio_engine.queue.deep_view(),
                    spec_volume_for(old(self).crossfader, i as u8),
                ),
    {
        let ghost q = self.audio_engine.queue.deep_view();
        let batch = self.audio_engine.drain();
        proof {
            assert(batch.deep_view() =~= q);
        }
        match compute_levels(&batch) {
            Some(l) => {
                self.audio_levels = l;
            },
            None => {},
        }
        let mut plan: Vec<DeckPlan> = Vec::new();
        let ghost eng = self.audio_engine;
        let ghost lv = self.audio_levels;
        let mut id: u8 = 0;
        while id < 4
            invariant
                id <= 4,
                self.decks@.len() == 4,
                self.audio_engine == eng,
                self.crossfader == old(self).crossfader,
                self.compositor == old(self).compositor,
                self.audio_levels == lv,
                plan@.len() == id,
                forall|i: int| id <= i < 4 ==> #[trigger] self.decks@[i] == old(self).decks@[i],
                forall|i: int|
                    0 <= i < id ==> (#[trigger] self.decks@[i]).wf() && self.decks@[i].id == i,
                forall|i: int|
                    0 <= i < id ==> deck_step_ok(
                        old(self).decks@[i],
                        #[trigger] self.decks@[i],
                        plan@[i],
                        polls@[i],
                        now_millis,
                        q,
                        spec_volume_for(old(self).crossfader, i as u8),
                    ),
            decreases 4 - id,
        {
            let xvol = self.crossfader.volume_for_deck(id);
            let ghost before = self.decks@;
            let mut d = self.decks.remove(id as usize);
            let p = deck_pump_step(&mut d, polls[id as usize], now_millis, &batch, xvol);
            self.decks.insert(id as usize, d);
            proof {
                assert(self.decks@ =~= before.update(id as int, self.decks@[id as int]));
            }
            plan.push(p);
            id = id + 1;
        }
        plan
    }
}

} // verus!
