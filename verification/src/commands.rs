//! Control commands: the operations every control surface drives.
//!
//! UI calls, MIDI actions and remote commands all funnel into these
//! operations on the shared state.  Each validates its inputs first and
//! changes nothing when it refuses; commands that must reach a renderer
//! return the line to write; where a change is recorded only once its
//! command has reached the renderer, recording is a separate step taken
//! after the write succeeded.

use vstd::prelude::*;

use crate::compositor::BlendMode;
use crate::compositor::blend_mode_from_str;
use crate::crossfader::CrossfaderCurve;
use crate::crossfader::Side;
use crate::crossfader::curve_from_str;
use crate::crossfader::side_from_str;
use crate::deck::DeckState;
use crate::jsonfmt::dec_digits;
use crate::jsonfmt::dec_fixed;
use crate::jsonfmt::spec_quoted;
use crate::playlist::Playlist;
use crate::presets::spec_extension;
use crate::presets::extension_of;
use crate::protocol::RendererCommand;
use crate::protocol::encode_command;
use crate::pump::advance_index;
use crate::pump::deck_alive;
use crate::pump::spec_polled;
use crate::state::AppState;
use crate::state::deck_msg;
use crate::state::invalid_deck_msg;
use crate::strutil::eq_ascii_lower;
use crate::strutil::lower_matches;
use crate::supervisor::PollResult;
use crate::units::UNIT;

verus! {

/// An error message built as `prefix + detail`.
fn prefixed_msg(prefix: &str, detail: &str) -> (r: String)
    ensures
        r@ == prefix@ + detail@,
{
    let mut s = String::from_str(prefix);
    s.append(detail);
    s
}

/// Everything except the deck at `deck_id` stands as it was.
pub open spec fn frame_except_deck(pre: AppState, post: AppState, deck_id: u8) -> bool {
    &&& post.audio_engine == pre.audio_engine
    &&& post.crossfader == pre.crossfader
    &&& post.compositor == pre.compositor
    &&& post.audio_levels == pre.audio_levels
    &&& post.decks@.len() == 4
    &&& (forall|i: int|
        0 <= i < 4 && i != deck_id as int ==> #[trigger] post.decks@[i] == pre.decks@[i])
}

/// Everything except the crossfader stands as it was.
pub open spec fn frame_except_crossfader(pre: AppState, post: AppState) -> bool {
    &&& post.audio_engine == pre.audio_engine
    &&& post.decks == pre.decks
    &&& post.compositor == pre.compositor
    &&& post.audio_levels == pre.audio_levels
}

/// Everything except the compositor stands as it was.
pub open spec fn frame_except_compositor(pre: AppState, post: AppState) -> bool {
    &&& post.audio_engine == pre.audio_engine
    &&& post.decks == pre.decks
    &&& post.crossfader == pre.crossfader
    &&& post.audio_levels == pre.audio_levels
}

impl AppState {
    /// Validate a preset load and produce the line to send.  Refused for
    /// a bad deck ID, a missing or non-file path (the caller checks the
    /// file system and passes what it found), a wrong extension, and a
    /// deck that is not running after this tick's poll.  Only the poll's
    /// own effect touches the state; the preset is recorded separately
    /// once the write has succeeded.
    pub fn load_preset_prepare(
        &mut self,
        deck_id: u8,
        path: &str,
        file_exists: bool,
        file_is_file: bool,
        poll: PollResult,
        now_millis: u64,
    ) -> (r: Result<String, String>)
        requires
            old(self).wf(),
        ensures
            final(self).wf(),
            deck_id >= 4 ==> *final(self) == *old(self) && (r matches Err(e) && e@
                == "Invalid deck ID: "@ + dec_digits(deck_id as nat)),
            deck_id < 4 && !file_exists ==> *final(self) == *old(self) && (r matches Err(e) && e@
                == "Preset file not found: "@ + path@),
            deck_id < 4 && file_exists && !file_is_file ==> *final(self) == *old(self) && (
            r matches Err(e) && e@ == "Preset path is not a file: "@ + path@),
            deck_id < 4 && file_exists && file_is_file && !ext_ok(path@) ==> *final(self) == *old(self) && (r matches Err(e) && e@
                == "Invalid preset extension (expected .milk or .prjm): "@ + path@),
            deck_id < 4 && file_exists && file_is_file && ext_ok(path@) ==> {
                &&& frame_except_deck(*old(self), *final(self), deck_id)
                &&& final(self).decks@[deck_id as int] == (DeckState {
                    renderer: spec_polled(
                        old(self).decks@[deck_id as int].renderer,
                        poll,
                        now_millis,
                    ),
                    ..old(self).decks@[deck_id as int]
                })
                &&& (deck_alive(old(self).decks@[deck_id as int], poll, now_millis) ==> (
                r matches Ok(line) && line@ == "{\"type\":\"load_preset\",\"path\":"@
                    + spec_quoted(path@) + "}"@))
                &&& (!deck_alive(old(self).decks@[deck_id as int], poll, now_millis) ==> (
                r matches Err(e) && e@ == "Deck "@ + dec_digits(deck_id as nat) + " not running"@))
            },
    {
        if deck_id >= 4 {
            return Err(invalid_deck_msg(deck_id));
        }
        if !file_exists {
            return Err(prefixed_msg("Preset file not found: ", path));
        }
        if !file_is_file {
            return Err(prefixed_msg("Preset path is not a file: ", path));
        }
        let ext_valid = match extension_of(path) {
            Some(e) => eq_ascii_lower(e, "milk") || eq_ascii_lower(e, "prjm"),
            None => false,
        };
        if !ext_valid {
            return Err(prefixed_msg("Invalid preset extension (expected .milk or .prjm): ", path));
        }
        let mut d = self.decks.remove(deck_id as usize);
        let alive = match &mut d.renderer {
            Some(rp) => rp.poll(poll, now_millis),
            None => false,
        };
        self.decks.insert(deck_id as usize, d);
        proof {
            assert(self.decks@ =~= old(self).decks@.update(
                deck_id as int,
                self.decks@[deck_id as int],
            ));
        }
        if !alive {
            return Err(deck_msg("Deck ", deck_id, " not running"));
        }
        Ok(encode_command(&RendererCommand::LoadPreset { path: String::from_str(path) }))
    }

    /// Record a preset after its load command was written successfully.
    pub fn note_preset_loaded(&mut self, deck_id: u8, path: String) -> (r: String)
        requires
            old(self).wf(),
            deck_id < 4,
        ensures
            final(self).wf(),
            frame_except_deck(*old(self), *final(self), deck_id),
            final(self).decks@[deck_id as int] == (DeckState {
                preset_path: Some(path),
                ..old(self).decks@[deck_id as int]
            }),
            r@ == "Loaded preset on deck "@ + dec_digits(deck_id as nat) + ": "@ + path@,
    {
        let msg = {
            let mut m = deck_msg("Loaded preset on deck ", deck_id, ": ");
            m.append(path.as_str());
            proof {
                assert(m@ =~= "Loaded preset on deck "@ + dec_digits(deck_id as nat) + ": "@
                    + path@);
            }
            m
        };
        let mut d = self.decks.remove(deck_id as usize);
        d.preset_path = Some(path);
        self.decks.insert(deck_id as usize, d);
        proof {
            assert(self.decks@ =~= old(self).decks@.update(
                deck_id as int,
                self.decks@[deck_id as int],
            ));
        }
        msg
    }

    /// Validate a beat-sensitivity change and produce the line to send.
    pub fn set_beat_sensitivity_prepare(
        &mut self,
        deck_id: u8,
        value: u32,
        poll: PollResult,
        now_millis: u64,
    ) -> (r: Result<String, String>)
        requires
            old(self).wf(),
        ensures
            final(self).wf(),
            deck_id >= 4 ==> *final(self) == *old(self) && (r matches Err(e) && e@
                == "Invalid deck ID: "@ + dec_digits(deck_id as nat)),
            deck_id < 4 ==> {
                &&& frame_except_deck(*old(self), *final(self), deck_id)
                &&& final(self).decks@[deck_id as int] == (DeckState {
                    renderer: spec_polled(
                        old(self).decks@[deck_id as int].renderer,
                        poll,
                        now_millis,
                    ),
                    ..old(self).decks@[deck_id as int]
                })
                &&& (deck_alive(old(self).decks@[deck_id as int], poll, now_millis) ==> (
                r matches Ok(line) && line@ == "{\"type\":\"set_beat_sensitivity\",\"value\":"@
                    + dec_fixed(value as int) + "}"@))
                &&& (!deck_alive(old(self).decks@[deck_id as int], poll, now_millis) ==> (
                r matches Err(e) && e@ == "Deck "@ + dec_digits(deck_id as nat) + " not running"@))
            },
    {
        if deck_id >= 4 {
            return Err(invalid_deck_msg(deck_id));
        }
        let mut d = self.decks.remove(deck_id as usize);
        let alive = match &mut d.renderer {
            Some(rp) => rp.poll(poll, now_millis),
            None => false,
        };
        self.decks.insert(deck_id as usize, d);
        proof {
            assert(self.decks@ =~= old(self).decks@.update(
                deck_id as int,
                self.decks@[deck_id as int],
            ));
        }
        if !alive {
            return Err(deck_msg("Deck ", deck_id, " not running"));
        }
        Ok(encode_command(&RendererCommand::SetBeatSensitivity { value }))
    }

    /// Record a beat sensitivity after its command was written.
    pub fn note_beat_sensitivity(&mut self, deck_id: u8, value: u32) -> (r: String)
        requires
            old(self).wf(),
            deck_id < 4,
        ensures
            final(self).wf(),
            frame_except_deck(*old(self), *final(self), deck_id),
            final(self).decks@[deck_id as int] == (DeckState {
                beat_sensitivity: value,
                ..old(self).decks@[deck_id as int]
            }),
    {
        let mut d = self.decks.remove(deck_id as usize);
        d.beat_sensitivity = value;
        self.decks.insert(deck_id as usize, d);
        proof {
            assert(self.decks@ =~= old(self).decks@.update(
                deck_id as int,
                self.decks@[deck_id as int],
            ));
        }
        deck_msg("Deck ", deck_id, " beat sensitivity set")
    }

    /// Validate a fullscreen toggle and produce the line to send.
    pub fn toggle_fullscreen_prepare(
        &mut self,
        deck_id: u8,
        poll: PollResult,
        now_millis: u64,
    ) -> (r: Result<String, String>)
        requires
            old(self).wf(),
        ensures
            final(self).wf(),
            deck_id >= 4 ==> *final(self) == *old(self) && (r matches Err(e) && e@
                == "Invalid deck ID: "@ + dec_digits(deck_id as nat)),
            deck_id < 4 ==> {
                &&& frame_except_deck(*old(self), *final(self), deck_id)
                &&& final(self).decks@[deck_id as int] == (DeckState {
                    renderer: spec_polled(
                        old(self).decks@[deck_id as int].renderer,
                        poll,
                        now_millis,
                    ),
                    ..old(self).decks@[deck_id as int]
                })
                &&& (deck_alive(old(self).decks@[deck_id as int], poll, now_millis) ==> (
                r matches Ok(line) && line@ == "{\"type\":\"toggle_fullscreen\"}"@))
                &&& (!deck_alive(old(self).decks@[deck_id as int], poll, now_millis) ==> (
                r matches Err(e) && e@ == "Deck "@ + dec_digits(deck_id as nat) + " not running"@))
            },
    {
        if deck_id >= 4 {
            return Err(invalid_deck_msg(deck_id));
        }
        let mut d = self.decks.remove(deck_id as usize);
        let alive = match &mut d.renderer {
            Some(rp) => rp.poll(poll, now_millis),
            None => false,
        };
        self.decks.insert(deck_id as usize, d);
        proof {
            assert(self.decks@ =~= old(self).decks@.update(
                deck_id as int,
                self.decks@[deck_id as int],
            ));
        }
        if !alive {
            return Err(deck_msg("Deck ", deck_id, " not running"));
        }
        Ok(encode_command(&RendererCommand::ToggleFullscreen))
    }

    /// Validate a video-output change and produce the line to send.
    pub fn set_deck_video_output_prepare(
        &mut self,
        deck_id: u8,
        enabled: bool,
        device_path: Option<String>,
        poll: PollResult,
        now_millis: u64,
    ) -> (r: Result<String, String>)
        requires
            old(self).wf(),
        ensures
            final(self).wf(),
            deck_id >= 4 ==> *final(self) == *old(self) && (r matches Err(e) && e@
                == "Invalid deck ID: "@ + dec_digits(deck_id as nat)),
            deck_id < 4 ==> {
                &&& frame_except_deck(*old(self), *final(self), deck_id)
                &&& final(self).decks@[deck_id as int] == (DeckState {
                    renderer: spec_polled(
                        old(self).decks@[deck_id as int].renderer,
                        poll,
                        now_millis,
                    ),
                    ..old(self).decks@[deck_id as int]
                })
                &&& (deck_alive(old(self).decks@[deck_id as int], poll, now_millis) ==> (
                r matches Ok(line) && line@ == "{\"type\":\"set_video_output\",\"enabled\":"@
                    + crate::protocol::bool_chars(enabled) + ",\"device_path\":"@
                    + crate::protocol::opt_quoted(
                    match device_path {
                        Some(p) => Some(p@),
                        None => None,
                    },
                ) + "}"@))
                &&& (!deck_alive(old(self).decks@[deck_id as int], poll, now_millis) ==> (
                r matches Err(e) && e@ == "Deck "@ + dec_digits(deck_id as nat) + " not running"@))
            },
    {
        if deck_id >= 4 {
            return Err(invalid_deck_msg(deck_id));
        }
        let mut d = self.decks.remove(deck_id as usize);
        let alive = match &mut d.renderer {
            Some(rp) => rp.poll(poll, now_millis),
            None => false,
        };
        self.decks.insert(deck_id as usize, d);
        proof {
            assert(self.decks@ =~= old(self).decks@.update(
                deck_id as int,
                self.decks@[deck_id as int],
            ));
        }
        if !alive {
            return Err(deck_msg("Deck ", deck_id, " not running"));
        }
        Ok(encode_command(&RendererCommand::SetVideoOutput { enabled, device_path }))
    }

    /// Validate a network-video-output change and produce the line to
    /// send.
    pub fn set_deck_ndi_output_prepare(
        &mut self,
        deck_id: u8,
        enabled: bool,
        name: Option<String>,
        poll: PollResult,
        now_millis: u64,
    ) -> (r: Result<String, String>)
        requires
            old(self).wf(),
        ensures
            final(self).wf(),
            deck_id >= 4 ==> *final(self) == *old(self) && (r matches Err(e) && e@
                == "Invalid deck ID: "@ + dec_digits(deck_id as nat)),
            deck_id < 4 ==> {
                &&& frame_except_deck(*old(self), *final(self), deck_id)
                &&& final(self).decks@[deck_id as int] == (DeckState {
                    renderer: spec_polled(
                        old(self).decks@[deck_id as int].renderer,
                        poll,
                        now_millis,
                    ),
                    ..old(self).decks@[deck_id as int]
                })
                &&& (deck_alive(old(self).decks@[deck_id as int], poll, now_millis) ==> (
                r matches Ok(line) && line@ == "{\"type\":\"set_ndi_output\",\"enabled\":"@
                    + crate::protocol::bool_chars(enabled) + ",\"name\":"@
                    + crate::protocol::opt_quoted(
                    match name {
                        Some(p) => Some(p@),
                        None => None,
                    },
                ) + "}"@))
                &&& (!deck_alive(old(self).decks@[deck_id as int], poll, now_millis) ==> (
                r matches Err(e) && e@ == "Deck "@ + dec_digits(deck_id as nat) + " not running"@))
            },
    {
        if deck_id >= 4 {
            return Err(invalid_deck_msg(deck_id));
        }
        let mut d = self.decks.remove(deck_id as usize);
        let alive = match &mut d.renderer {
            Some(rp) => rp.poll(poll, now_millis),
            None => false,
        };
        self.decks.insert(deck_id as usize, d);
        proof {
            assert(self.decks@ =~= old(self).decks@.update(
                deck_id as int,
                self.decks@[deck_id as int],
            ));
        }
        if !alive {
            return Err(deck_msg("Deck ", deck_id, " not running"));
        }
        Ok(encode_command(&RendererCommand::SetNdiOutput { enabled, name }))
    }

    /// Validate a texture-path change for one deck and produce the line
    /// to send.
    pub fn set_deck_texture_paths_prepare(
        &mut self,
        deck_id: u8,
        paths: Vec<String>,
        poll: PollResult,
        now_millis: u64,
    ) -> (r: Result<String, String>)
        requires
            old(self).wf(),
        ensures
            final(self).wf(),
            deck_id >= 4 ==> *final(self) == *old(self) && (r matches Err(e) && e@
                == "Invalid deck ID: "@ + dec_digits(deck_id as nat)),
            deck_id < 4 ==> {
                &&& frame_except_deck(*old(self), *final(self), deck_id)
                &&& final(self).decks@[deck_id as int] == (DeckState {
                    renderer: spec_polled(
                        old(self).decks@[deck_id as int].renderer,
                        poll,
                        now_millis,
                    ),
                    ..old(self).decks@[deck_id as int]
                })
                &&& (deck_alive(old(self).decks@[deck_id as int], poll, now_millis) ==> (
                r matches Ok(line) && line@ == "{\"type\":\"set_texture_paths\",\"paths\":["@
                    + crate::protocol::strings_body(paths.deep_view()) + "]}"@))
                &&& (!deck_alive(old(self).decks@[deck_id as int], poll, now_millis) ==> (
                r matches Err(e) && e@ == "Deck "@ + dec_digits(deck_id as nat) + " not running"@))
            },
    {
        if deck_id >= 4 {
            return Err(invalid_deck_msg(deck_id));
        }
        let mut d = self.decks.remove(deck_id as usize);
        let alive = match &mut d.renderer {
            Some(rp) => rp.poll(poll, now_millis),
            None => false,
        };
        self.decks.insert(deck_id as usize, d);
        proof {
            assert(self.decks@ =~= old(self).decks@.update(
                deck_id as int,
                self.decks@[deck_id as int],
            ));
        }
        if !alive {
            return Err(deck_msg("Deck ", deck_id, " not running"));
        }
        Ok(encode_command(&RendererCommand::SetTexturePaths { paths }))
    }

    /// The texture-path line for every running deck at once: one entry
    /// per deck, nothing for decks without a live process.  The caller
    /// counts the writes that succeed.
    pub fn set_all_decks_texture_paths(
        &mut self,
        paths: Vec<String>,
        polls: &Vec<PollResult>,
        now_millis: u64,
    ) -> (r: Vec<Option<String>>)
        requires
            old(self).wf(),
            polls@.len() == 4,
        ensures
            final(self).wf(),
            final(self).audio_engine == old(self).audio_engine,
            final(self).crossfader == old(self).crossfader,
            final(self).compositor == old(self).compositor,
            final(self).audio_levels == old(self).audio_levels,
            r@.len() == 4,
            forall|i: int|
                0 <= i < 4 ==> #[trigger] final(self).decks@[i] == (DeckState {
                    renderer: spec_polled(old(self).decks@[i].renderer, polls@[i], now_millis),
                    ..old(self).decks@[i]
                }),
            forall|i: int|
                0 <= i < 4 ==> ((deck_alive(old(self).decks@[i], polls@[i], now_millis) ==> (
                #[trigger] r@[i] matches Some(line) && line@
                    == "{\"type\":\"set_texture_paths\",\"paths\":["@
                    + crate::protocol::strings_body(paths.deep_view()) + "]}"@)) && (!deck_alive(
                    old(self).decks@[i],
                    polls@[i],
                    now_millis,
                ) ==> r@[i] is None)),
    {
        let line = encode_command(&RendererCommand::SetTexturePaths { paths });
        let mut r: Vec<Option<String>> = Vec::new();
        let ghost eng = self.audio_engine;
        let ghost lv = self.audio_levels;
        let mut id: u8 = 0;
        #[verifier::loop_isolation(false)]
        while id < 4
            invariant
                id <= 4,
                self.decks@.len() == 4,
                self.audio_engine == eng,
                self.crossfader == old(self).crossfader,
                self.compositor == old(self).compositor,
                self.audio_levels == lv,
                r@.len() == id,
                forall|i: int| id <= i < 4 ==> #[trigger] self.decks@[i] == old(self).decks@[i],
                forall|i: int|
                    0 <= i < id ==> #[trigger] self.decks@[i] == (DeckState {
                        renderer: spec_polled(
                            old(self).decks@[i].renderer,
                            polls@[i],
                            now_millis,
                        ),
                        ..old(self).decks@[i]
                    }),
                forall|i: int|
                    0 <= i < id ==> ((deck_alive(old(self).decks@[i], polls@[i], now_millis)
                        ==> (#[trigger] r@[i] matches Some(l) && l@
                        == "{\"type\":\"set_texture_paths\",\"paths\":["@
                        + crate::protocol::strings_body(paths.deep_view()) + "]}"@)) && (
                    !deck_alive(old(self).decks@[i], polls@[i], now_millis) ==> r@[i] is None)),
            decreases 4 - id,
        {
            let ghost before = self.decks@;
            let mut d = self.decks.remove(id as usize);
            let alive = match &mut d.renderer {
                Some(rp) => rp.poll(polls[id as usize], now_millis),
                None => false,
            };
            self.decks.insert(id as usize, d);
            proof {
                assert(self.decks@ =~= before.update(id as int, self.decks@[id as int]));
            }
            if alive {
                r.push(Some(line.clone()));
            } else {
                r.push(None);
            }
            id = id + 1;
        }
        r
    }

    /// Status of the default deck, for the simple surface: whether deck
    /// zero runs after this tick's poll, whether audio capture runs, the
    /// deck's preset, and the preset directory the caller resolved.
    pub fn get_status(&mut self, poll: PollResult, now_millis: u64, preset_dir: String) -> (r:
        crate::info::VisualizerStatus)
        requires
            old(self).wf(),
        ensures
            final(self).wf(),
            frame_except_deck(*old(self), *final(self), 0),
            final(self).decks@[0] == (DeckState {
                renderer: spec_polled(old(self).decks@[0].renderer, poll, now_millis),
                ..old(self).decks@[0]
            }),
            r.running == deck_alive(old(self).decks@[0], poll, now_millis),
            r.audio_running == old(self).audio_engine.running,
            crate::state::opt_str_like(r.current_preset, old(self).decks@[0].preset_path),
            r.preset_dir@ == preset_dir@,
    {
        let mut d = self.decks.remove(0);
        let running = match &mut d.renderer {
            Some(rp) => rp.poll(poll, now_millis),
            None => false,
        };
        let current_preset = crate::state::clone_opt_str(&d.preset_path);
        self.decks.insert(0, d);
        proof {
            assert(self.decks@ =~= old(self).decks@.update(0, self.decks@[0]));
        }
        crate::info::VisualizerStatus {
            running,
            audio_running: self.audio_engine.is_running(),
            current_preset,
            preset_dir,
        }
    }

    /// Append one preset to a deck's playlist.
    pub fn playlist_add(&mut self, deck_id: u8, name: String, path: String) -> (r: Result<
        String,
        String,
    >)
        requires
            old(self).wf(),
        ensures
            final(self).wf(),
            deck_id >= 4 ==> *final(self) == *old(self) && (r matches Err(e) && e@
                == "Invalid deck ID: "@ + dec_digits(deck_id as nat)),
            deck_id < 4 ==> {
                &&& frame_except_deck(*old(self), *final(self), deck_id)
                &&& final(self).decks@[deck_id as int] == (DeckState {
                    playlist: Playlist {
                        items: final(self).decks@[deck_id as int].playlist.items,
                        ..old(self).decks@[deck_id as int].playlist
                    },
                    ..old(self).decks@[deck_id as int]
                })
                &&& final(self).decks@[deck_id as int].playlist.items@ == old(self).decks@[deck_id as int].playlist.items@.push(
                    crate::playlist::PlaylistItem { name, path },
                )
                &&& r is Ok
            },
    {
        if deck_id >= 4 {
            return Err(invalid_deck_msg(deck_id));
        }
        let mut d = self.decks.remove(deck_id as usize);
        d.playlist.add(name, path);
        self.decks.insert(deck_id as usize, d);
        proof {
            assert(self.decks@ =~= old(self).decks@.update(
                deck_id as int,
                self.decks@[deck_id as int],
            ));
        }
        Ok(deck_msg("Added to deck ", deck_id, " playlist"))
    }

    /// Remove one playlist entry; the selection keeps following its item.
    pub fn playlist_remove(&mut self, deck_id: u8, index: usize) -> (r: Result<String, String>)
        requires
            old(self).wf(),
        ensures
            final(self).wf(),
            deck_id >= 4 ==> *final(self) == *old(self) && (r matches Err(e) && e@
                == "Invalid deck ID: "@ + dec_digits(deck_id as nat)),
            deck_id < 4 && index >= old(self).decks@[deck_id as int].playlist.items@.len() ==> (
            *final(self) == *old(self) && (r matches Err(e) && e@ == "Index out of bounds"@)),
            deck_id < 4 && index < old(self).decks@[deck_id as int].playlist.items@.len() ==> {
                &&& frame_except_deck(*old(self), *final(self), deck_id)
                &&& final(self).decks@[deck_id as int].playlist.items@ == old(self).decks@[deck_id as int].playlist.items@.remove(index as int)
                &&& final(self).decks@[deck_id as int].playlist.current_index
                    == Playlist::index_after_remove(
                    old(self).decks@[deck_id as int].playlist.current_index as int,
                    index as int,
                    old(self).decks@[deck_id as int].playlist.items@.len() - 1,
                )
                &&& r is Ok
            },
    {
        if deck_id >= 4 {
            return Err(invalid_deck_msg(deck_id));
        }
        if index >= self.decks[deck_id as usize].playlist.items.len() {
            return Err(String::from_str("Index out of bounds"));
        }
        let mut d = self.decks.remove(deck_id as usize);
        d.playlist.remove(index);
        self.decks.insert(deck_id as usize, d);
        proof {
            assert(self.decks@ =~= old(self).decks@.update(
                deck_id as int,
                self.decks@[deck_id as int],
            ));
        }
        Ok(deck_msg("Removed from deck ", deck_id, " playlist"))
    }

    /// Clear a deck's playlist and reset its selection.
    pub fn playlist_clear(&mut self, deck_id: u8) -> (r: Result<String, String>)
        requires
            old(self).wf(),
        ensures
            final(self).wf(),
            deck_id >= 4 ==> *final(self) == *old(self) && (r matches Err(e) && e@
                == "Invalid deck ID: "@ + dec_digits(deck_id as nat)),
            deck_id < 4 ==> {
                &&& frame_except_deck(*old(self), *final(self), deck_id)
                &&& final(self).decks@[deck_id as int].playlist.items@.len() == 0
                &&& final(self).decks@[deck_id as int].playlist.current_index == 0
                &&& r is Ok
            },
    {
        if deck_id >= 4 {
            return Err(invalid_deck_msg(deck_id));
        }
        let mut d = self.decks.remove(deck_id as usize);
        d.playlist.clear();
        self.decks.insert(deck_id as usize, d);
        proof {
            assert(self.decks@ =~= old(self).decks@.update(
                deck_id as int,
                self.decks@[deck_id as int],
            ));
        }
        Ok(deck_msg("Deck ", deck_id, " playlist cleared"))
    }

    /// Step a deck's playlist forward (shuffle-aware, with the given
    /// entropy) and, when the deck is running, produce the load line to
    /// send; a failed write is not retried and does not undo the step.
    /// Yields the new path, or nothing on an empty playlist.
    pub fn playlist_next(
        &mut self,
        deck_id: u8,
        entropy: u64,
        poll: PollResult,
        now_millis: u64,
    ) -> (r: Result<(Option<String>, Option<String>), String>)
        requires
            old(self).wf(),
        ensures
            final(self).wf(),
            deck_id >= 4 ==> *final(self) == *old(self) && (r matches Err(e) && e@
                == "Invalid deck ID: "@ + dec_digits(deck_id as nat)),
            deck_id < 4 ==> frame_except_deck(*old(self), *final(self), deck_id),
            deck_id < 4 && old(self).decks@[deck_id as int].playlist.items@.len() == 0 ==> (
            r matches Ok(ok) && ok.0 is None && ok.1 is None && final(self).decks@[deck_id as int]
                == old(self).decks@[deck_id as int]),
            deck_id < 4 && old(self).decks@[deck_id as int].playlist.items@.len() > 0 ==> {
                let pre = old(self).decks@[deck_id as int];
                let post = final(self).decks@[deck_id as int];
                let ni = advance_index(pre.playlist, entropy);
                &&& post.playlist.current_index == ni
                &&& post.playlist.items == pre.playlist.items
                &&& post.renderer == spec_polled(pre.renderer, poll, now_millis)
                &&& (post.preset_path matches Some(pp) && pp@ == pre.playlist.items@[ni].path@)
                &&& (r matches Ok(ok) && (ok.0 matches Some(p) && p@
                    == pre.playlist.items@[ni].path@) && (deck_alive(pre, poll, now_millis) ==> (
                ok.1 matches Some(line) && line@ == "{\"type\":\"load_preset\",\"path\":"@
                    + spec_quoted(pre.playlist.items@[ni].path@) + "}"@)) && (!deck_alive(
                    pre,
                    poll,
                    now_millis,
                ) ==> ok.1 is None))
            },
    {
        if deck_id >= 4 {
            return Err(invalid_deck_msg(deck_id));
        }
        let mut d = self.decks.remove(deck_id as usize);
        let adv = d.playlist.advance(entropy);
        let mut out: (Option<String>, Option<String>) = (None, None);
        match adv {
            Some(item) => {
                let path = item.path;
                d.preset_path = Some(path.clone());
                let alive = match &mut d.renderer {
                    Some(rp) => rp.poll(poll, now_millis),
                    None => false,
                };
                let line: Option<String> = if alive {
                    Some(
                        encode_command(
                            &RendererCommand::LoadPreset { path: path.clone() },
                        ),
                    )
                } else {
                    None
                };
                out = (Some(path), line);
            },
            None => {},
        }
        self.decks.insert(deck_id as usize, d);
        proof {
            assert(self.decks@ =~= old(self).decks@.update(
                deck_id as int,
                self.decks@[deck_id as int],
            ));
        }
        Ok(out)
    }

    /// Step a deck's playlist backward — always circular, never shuffled
    /// — and, when the deck is running, produce the load line to send.
    pub fn playlist_previous(&mut self, deck_id: u8, poll: PollResult, now_millis: u64) -> (r:
        Result<(Option<String>, Option<String>), String>)
        requires
            old(self).wf(),
        ensures
            final(self).wf(),
            deck_id >= 4 ==> *final(self) == *old(self) && (r matches Err(e) && e@
                == "Invalid deck ID: "@ + dec_digits(deck_id as nat)),
            deck_id < 4 ==> frame_except_deck(*old(self), *final(self), deck_id),
            deck_id < 4 && old(self).decks@[deck_id as int].playlist.items@.len() == 0 ==> (
            r matches Ok(ok) && ok.0 is None && ok.1 is None && final(self).decks@[deck_id as int]
                == old(self).decks@[deck_id as int]),
            deck_id < 4 && old(self).decks@[deck_id as int].playlist.items@.len() > 0 ==> {
                let pre = old(self).decks@[deck_id as int];
                let post = final(self).decks@[deck_id as int];
                let ni = if pre.playlist.current_index == 0 {
                    pre.playlist.items@.len() - 1
                } else {
                    pre.playlist.current_index - 1
                };
                &&& post.playlist.current_index == ni
                &&& post.playlist.items == pre.playlist.items
                &&& post.renderer == spec_polled(pre.renderer, poll, now_millis)
                &&& (post.preset_path matches Some(pp) && pp@ == pre.playlist.items@[ni].path@)
                &&& (r matches Ok(ok) && (ok.0 matches Some(p) && p@
                    == pre.playlist.items@[ni].path@) && (deck_alive(pre, poll, now_millis) ==> (
                ok.1 matches Some(line) && line@ == "{\"type\":\"load_preset\",\"path\":"@
                    + spec_quoted(pre.playlist.items@[ni].path@) + "}"@)) && (!deck_alive(
                    pre,
                    poll,
                    now_millis,
                ) ==> ok.1 is None))
            },
    {
        if deck_id >= 4 {
            return Err(invalid_deck_msg(deck_id));
        }
        let mut d = self.decks.remove(deck_id as usize);
        let adv = d.playlist.previous();
        let mut out: (Option<String>, Option<String>) = (None, None);
        match adv {
            Some(item) => {
                let path = item.path;
                d.preset_path = Some(path.clone());
                let alive = match &mut d.renderer {
                    Some(rp) => rp.poll(poll, now_millis),
                    None => false,
                };
                let line: Option<String> = if alive {
                    Some(
                        encode_command(
                            &RendererCommand::LoadPreset { path: path.clone() },
                        ),
                    )
                } else {
                    None
                };
                out = (Some(path), line);
            },
            None => {},
        }
        self.decks.insert(deck_id as usize, d);
        proof {
            assert(self.decks@ =~= old(self).decks@.update(
                deck_id as int,
                self.decks@[deck_id as int],
            ));
        }
        Ok(out)
    }

    /// Update a deck's playlist settings.  A freshly enabled auto-cycle
    /// starts its timer now; the cycle duration has a floor of five
    /// seconds.
    pub fn playlist_set_settings(
        &mut self,
        deck_id: u8,
        shuffle: Option<bool>,
        auto_cycle: Option<bool>,
        cycle_duration_secs: Option<u32>,
        now_millis: u64,
    ) -> (r: Result<String, String>)
        requires
            old(self).wf(),
        ensures
            final(self).wf(),
            deck_id >= 4 ==> *final(self) == *old(self) && (r matches Err(e) && e@
                == "Invalid deck ID: "@ + dec_digits(deck_id as nat)),
            deck_id < 4 ==> {
                let pre = old(self).decks@[deck_id as int];
                let post = final(self).decks@[deck_id as int];
                &&& frame_except_deck(*old(self), *final(self), deck_id)
                &&& post.playlist.shuffle == (match shuffle {
                    Some(s) => s,
                    None => pre.playlist.shuffle,
                })
                &&& post.playlist.auto_cycle == (match auto_cycle {
                    Some(a) => a,
                    None => pre.playlist.auto_cycle,
                })
                &&& post.playlist.cycle_duration_secs == (match cycle_duration_secs {
                    Some(c) => if c >= 5 {
                        c
                    } else {
                        5
                    },
                    None => pre.playlist.cycle_duration_secs,
                })
                &&& post.last_cycle_millis == (if auto_cycle == Some(true) {
                    Some(now_millis)
                } else {
                    pre.last_cycle_millis
                })
                &&& post.playlist.items == pre.playlist.items
                &&& post.playlist.current_index == pre.playlist.current_index
                &&& post.renderer == pre.renderer
                &&& post.preset_path == pre.preset_path
                &&& post.volume == pre.volume
                &&& (r matches Ok(m) && m@ == "Playlist settings updated"@)
            },
    {
        if deck_id >= 4 {
            return Err(invalid_deck_msg(deck_id));
        }
        let mut d = self.decks.remove(deck_id as usize);
        match shuffle {
            Some(s) => {
                d.playlist.shuffle = s;
            },
            None => {},
        }
        match auto_cycle {
            Some(a) => {
                d.playlist.auto_cycle = a;
                if a {
                    d.last_cycle_millis = Some(now_millis);
                }
            },
            None => {},
        }
        match cycle_duration_secs {
            Some(c) => {
                d.playlist.cycle_duration_secs = if c >= 5 {
                    c
                } else {
                    5
                };
            },
            None => {},
        }
        self.decks.insert(deck_id as usize, d);
        proof {
            assert(self.decks@ =~= old(self).decks@.update(
                deck_id as int,
                self.decks@[deck_id as int],
            ));
        }
        Ok(String::from_str("Playlist settings updated"))
    }

    /// Jump a deck's playlist to `index` and, when the deck is running,
    /// produce the load line to send.
    pub fn playlist_jump_to(
        &mut self,
        deck_id: u8,
        index: usize,
        poll: PollResult,
        now_millis: u64,
    ) -> (r: Result<(Option<String>, Option<String>), String>)
        requires
            old(self).wf(),
        ensures
            final(self).wf(),
            deck_id >= 4 ==> *final(self) == *old(self) && (r matches Err(e) && e@
                == "Invalid deck ID: "@ + dec_digits(deck_id as nat)),
            deck_id < 4 && index >= old(self).decks@[deck_id as int].playlist.items@.len() ==> (
            *final(self) == *old(self) && (r matches Err(e) && e@ == "Index out of bounds"@)),
            deck_id < 4 && index < old(self).decks@[deck_id as int].playlist.items@.len() ==> {
                let pre = old(self).decks@[deck_id as int];
                let post = final(self).decks@[deck_id as int];
                &&& frame_except_deck(*old(self), *final(self), deck_id)
                &&& post.playlist.current_index == index
                &&& post.playlist.items == pre.playlist.items
                &&& post.renderer == spec_polled(pre.renderer, poll, now_millis)
                &&& (post.preset_path matches Some(pp) && pp@
                    == pre.playlist.items@[index as int].path@)
                &&& (r matches Ok(ok) && (ok.0 matches Some(p) && p@
                    == pre.playlist.items@[index as int].path@) && (deck_alive(
                    pre,
                    poll,
                    now_millis,
                ) ==> (ok.1 matches Some(line) && line@ == "{\"type\":\"load_preset\",\"path\":"@
                    + spec_quoted(pre.playlist.items@[index as int].path@) + "}"@)) && (
                !deck_alive(pre, poll, now_millis) ==> ok.1 is None))
            },
    {
        if deck_id >= 4 {
            return Err(invalid_deck_msg(deck_id));
        }
        if index >= self.decks[deck_id as usize].playlist.items.len() {
            return Err(String::from_str("Index out of bounds"));
        }
        let mut d = self.decks.remove(deck_id as usize);
        d.playlist.jump_to(index);
        let item = crate::playlist::clone_item(&d.playlist.items[index]);
        let path = item.path;
        d.preset_path = Some(path.clone());
        let alive = match &mut d.renderer {
            Some(rp) => rp.poll(poll, now_millis),
            None => false,
        };
        let line: Option<String> = if alive {
            Some(encode_command(&RendererCommand::LoadPreset { path: path.clone() }))
        } else {
            None
        };
        self.decks.insert(deck_id as usize, d);
        proof {
            assert(self.decks@ =~= old(self).decks@.update(
                deck_id as int,
                self.decks@[deck_id as int],
            ));
        }
        Ok((Some(path), line))
    }

    /// Move one playlist entry to a new position; the selection keeps
    /// following the item it referenced.
    pub fn playlist_reorder(&mut self, deck_id: u8, from_index: usize, to_index: usize) -> (r:
        Result<String, String>)
        requires
            old(self).wf(),
        ensures
            final(self).wf(),
            deck_id >= 4 ==> *final(self) == *old(self) && (r matches Err(e) && e@
                == "Invalid deck ID: "@ + dec_digits(deck_id as nat)),
            deck_id < 4 && !(from_index < old(self).decks@[deck_id as int].playlist.items@.len()
                && to_index < old(self).decks@[deck_id as int].playlist.items@.len()) ==> (
            *final(self) == *old(self) && (r matches Err(e) && e@ == "Index out of bounds"@)),
            deck_id < 4 && from_index < old(self).decks@[deck_id as int].playlist.items@.len()
                && to_index < old(self).decks@[deck_id as int].playlist.items@.len() ==> {
                let pre = old(self).decks@[deck_id as int];
                let post = final(self).decks@[deck_id as int];
                &&& frame_except_deck(*old(self), *final(self), deck_id)
                &&& post.playlist.items@ == pre.playlist.items@.remove(from_index as int).insert(
                    to_index as int,
                    pre.playlist.items@[from_index as int],
                )
                &&& post.playlist.current_index == Playlist::index_after_reorder(
                    pre.playlist.current_index as int,
                    from_index as int,
                    to_index as int,
                )
                &&& (r matches Ok(m) && m@ == "Playlist reordered"@)
            },
    {
        if deck_id >= 4 {
            return Err(invalid_deck_msg(deck_id));
        }
        let len = self.decks[deck_id as usize].playlist.items.len();
        if from_index >= len || to_index >= len {
            return Err(String::from_str("Index out of bounds"));
        }
        let mut d = self.decks.remove(deck_id as usize);
        d.playlist.reorder(from_index, to_index);
        self.decks.insert(deck_id as usize, d);
        proof {
            assert(self.decks@ =~= old(self).decks@.update(
                deck_id as int,
                self.decks@[deck_id as int],
            ));
        }
        Ok(String::from_str("Playlist reordered"))
    }

    /// Set the crossfader position, clamped to `[0, UNIT]`.
    pub fn crossfader_set_position(&mut self, position: u32) -> (r: String)
        requires
            old(self).wf(),
        ensures
            final(self).wf(),
            frame_except_crossfader(*old(self), *final(self)),
            final(self).crossfader.position == (if position <= UNIT {
                position
            } else {
                UNIT
            }),
            final(self).crossfader.side_a == old(self).crossfader.side_a,
            final(self).crossfader.side_b == old(self).crossfader.side_b,
            final(self).crossfader.curve == old(self).crossfader.curve,
            final(self).crossfader.enabled == old(self).crossfader.enabled,
            r@ == "Crossfader position set"@,
    {
        self.crossfader.set_position(position);
        String::from_str("Crossfader position set")
    }

    /// Enable or disable the crossfader.
    pub fn crossfader_set_enabled(&mut self, enabled: bool) -> (r: String)
        requires
            old(self).wf(),
        ensures
            final(self).wf(),
            frame_except_crossfader(*old(self), *final(self)),
            final(self).crossfader == (crate::crossfader::CrossfaderConfig {
                enabled,
                ..old(self).crossfader
            }),
            enabled ==> r@ == "Crossfader enabled"@,
            !enabled ==> r@ == "Crossfader disabled"@,
    {
        self.crossfader.set_enabled(enabled);
        if enabled {
            String::from_str("Crossfader enabled")
        } else {
            String::from_str("Crossfader disabled")
        }
    }

    /// Set the crossfader curve from its selector word.
    pub fn crossfader_set_curve(&mut self, curve: &str) -> (r: Result<String, String>)
        requires
            old(self).wf(),
        ensures
            final(self).wf(),
            frame_except_crossfader(*old(self), *final(self)),
            curve@ == "linear"@ ==> final(self).crossfader == (crate::crossfader::CrossfaderConfig {
                curve: CrossfaderCurve::Linear,
                ..old(self).crossfader
            }) && r is Ok,
            curve@ == "equal_power"@ || curve@ == "equalPower"@ ==> final(self).crossfader == (
            crate::crossfader::CrossfaderConfig {
                curve: CrossfaderCurve::EqualPower,
                ..old(self).crossfader
            }) && r is Ok,
            curve@ != "linear"@ && curve@ != "equal_power"@ && curve@ != "equalPower"@ ==> *final(self) == *old(self) && (r matches Err(e) && e@ == "Unknown curve type: "@ + curve@
                + ". Use 'linear' or 'equal_power'"@),
    {
        match curve_from_str(curve) {
            Some(c) => {
                self.crossfader.set_curve(c);
                Ok(String::from_str("Crossfader curve set"))
            },
            None => {
                let mut e = String::from_str("Unknown curve type: ");
                e.append(curve);
                e.append(". Use 'linear' or 'equal_power'");
                proof {
                    assert(e@ =~= "Unknown curve type: "@ + curve@
                        + ". Use 'linear' or 'equal_power'"@);
                }
                Err(e)
            },
        }
    }

    /// Assign a deck to a crossfader side from its selector word; the
    /// deck always leaves both sides first.
    pub fn crossfader_assign_deck(&mut self, deck_id: u8, side: &str) -> (r: Result<
        String,
        String,
    >)
        requires
            old(self).wf(),
        ensures
            final(self).wf(),
            deck_id >= 4 ==> *final(self) == *old(self) && (r matches Err(e) && e@
                == "Invalid deck ID: "@ + dec_digits(deck_id as nat)),
            deck_id < 4 ==> frame_except_crossfader(*old(self), *final(self)),
            deck_id < 4 && !lower_matches(side@, "a"@) && !lower_matches(side@, "b"@)
                && !lower_matches(side@, "none"@) ==> *final(self) == *old(self) && (
            r matches Err(e) && e@ == "Invalid side: "@ + side@ + ". Use 'a', 'b', or 'none'"@),
            deck_id < 4 && lower_matches(side@, "a"@) ==> final(self).crossfader.side_a@ == old(self).crossfader.side_a@.filter(|x: u8| x != deck_id).push(deck_id) && final(self).crossfader.side_b@ == old(self).crossfader.side_b@.filter(|x: u8| x != deck_id) && final(self).crossfader.side_a@.contains(deck_id) && !final(self).crossfader.side_b@.contains(deck_id) && r is Ok,
            deck_id < 4 && lower_matches(side@, "b"@) ==> final(self).crossfader.side_b@ == old(self).crossfader.side_b@.filter(|x: u8| x != deck_id).push(deck_id) && final(self).crossfader.side_a@ == old(self).crossfader.side_a@.filter(|x: u8| x != deck_id) && final(self).crossfader.side_b@.contains(deck_id) && !final(self).crossfader.side_a@.contains(deck_id) && r is Ok,
            deck_id < 4 && lower_matches(side@, "none"@) ==> final(self).crossfader.side_a@ == old(self).crossfader.side_a@.filter(|x: u8| x != deck_id) && final(self).crossfader.side_b@ == old(self).crossfader.side_b@.filter(|x: u8| x != deck_id) && !final(self).crossfader.side_a@.contains(deck_id) && !final(self).crossfader.side_b@.contains(deck_id) && r is Ok,
            deck_id < 4 && (lower_matches(side@, "a"@) || lower_matches(side@, "b"@) || lower_matches(side@, "none"@)) ==> final(self).crossfader.position == old(self).crossfader.position && final(self).crossfader.curve == old(self).crossfader.curve && final(self).crossfader.enabled == old(self).crossfader.enabled,
    {
        if deck_id >= 4 {
            return Err(invalid_deck_msg(deck_id));
        }
        match side_from_str(side) {
            Some(s) => {
                self.crossfader.assign_deck(deck_id, s);
                proof {
                    crate::crossfader::lemma_filter_removes(
                        old(self).crossfader.side_a@,
                        deck_id,
                    );
                    crate::crossfader::lemma_filter_removes(
                        old(self).crossfader.side_b@,
                        deck_id,
                    );
                    if s == Side::A {
                        assert(self.crossfader.side_a@.last() == deck_id);
                        assert(self.crossfader.side_a@.contains(deck_id));
                    }
                    if s == Side::B {
                        assert(self.crossfader.side_b@.last() == deck_id);
                        assert(self.crossfader.side_b@.contains(deck_id));
                    }
                }
                Ok(deck_msg("Deck ", deck_id, " assigned"))
            },
            None => {
                let mut e = String::from_str("Invalid side: ");
                e.append(side);
                e.append(". Use 'a', 'b', or 'none'");
                proof {
                    assert(e@ =~= "Invalid side: "@ + side@ + ". Use 'a', 'b', or 'none'"@);
                }
                Err(e)
            },
        }
    }

    /// Enable or disable the compositor.
    pub fn compositor_set_enabled(&mut self, enabled: bool) -> (r: String)
        requires
            old(self).wf(),
        ensures
            final(self).wf(),
            frame_except_compositor(*old(self), *final(self)),
            final(self).compositor == (crate::compositor::CompositorConfig {
                enabled,
                ..old(self).compositor
            }),
    {
        self.compositor.enabled = enabled;
        if enabled {
            String::from_str("Compositor enabled")
        } else {
            String::from_str("Compositor disabled")
        }
    }

    /// Set the compositor output resolution.
    pub fn compositor_set_resolution(&mut self, width: u32, height: u32) -> (r: String)
        requires
            old(self).wf(),
        ensures
            final(self).wf(),
            frame_except_compositor(*old(self), *final(self)),
            final(self).compositor == (crate::compositor::CompositorConfig {
                output_width: width,
                output_height: height,
                ..old(self).compositor
            }),
    {
        self.compositor.output_width = width;
        self.compositor.output_height = height;
        String::from_str("Compositor resolution set")
    }

    /// Set one deck's compositor opacity, clamped to `[0, UNIT]`.
    pub fn compositor_set_deck_opacity(&mut self, deck_id: u8, opacity: u32) -> (r: Result<
        String,
        String,
    >)
        requires
            old(self).wf(),
        ensures
            final(self).wf(),
            deck_id >= 4 ==> *final(self) == *old(self) && (r matches Err(e) && e@
                == "Invalid deck ID: "@ + dec_digits(deck_id as nat)),
            deck_id < 4 ==> frame_except_compositor(*old(self), *final(self)) && final(self).compositor.deck_settings@[deck_id as int].opacity == (if opacity <= UNIT {
                opacity
            } else {
                UNIT
            }) && r is Ok,
    {
        if deck_id >= 4 {
            return Err(invalid_deck_msg(deck_id));
        }
        self.compositor.set_deck_opacity(deck_id, opacity);
        Ok(deck_msg("Deck ", deck_id, " opacity set"))
    }

    /// Set one deck's compositor blend mode from its selector word.
    pub fn compositor_set_deck_blend_mode(&mut self, deck_id: u8, blend_mode: &str) -> (r: Result<
        String,
        String,
    >)
        requires
            old(self).wf(),
        ensures
            final(self).wf(),
            deck_id >= 4 ==> *final(self) == *old(self) && (r matches Err(e) && e@
                == "Invalid deck ID: "@ + dec_digits(deck_id as nat)),
            deck_id < 4 && lower_matches(blend_mode@, "normal"@) ==> final(self).compositor.deck_settings@[deck_id as int].blend_mode == BlendMode::Normal && r is Ok,
            deck_id < 4 && (lower_matches(blend_mode@, "add"@) || lower_matches(
                blend_mode@,
                "additive"@,
            )) ==> final(self).compositor.deck_settings@[deck_id as int].blend_mode
                == BlendMode::Add && r is Ok,
            deck_id < 4 && lower_matches(blend_mode@, "multiply"@) ==> final(self).compositor.deck_settings@[deck_id as int].blend_mode == BlendMode::Multiply && r
                is Ok,
            deck_id < 4 && lower_matches(blend_mode@, "screen"@) ==> final(self).compositor.deck_settings@[deck_id as int].blend_mode == BlendMode::Screen && r is Ok,
            deck_id < 4 && lower_matches(blend_mode@, "overlay"@) ==> final(self).compositor.deck_settings@[deck_id as int].blend_mode == BlendMode::Overlay && r
                is Ok,
            deck_id < 4 ==> (r is Ok ==> frame_except_compositor(*old(self), *final(self))),
            deck_id < 4 && !lower_matches(blend_mode@, "normal"@) && !lower_matches(
                blend_mode@,
                "add"@,
            ) && !lower_matches(blend_mode@, "additive"@) && !lower_matches(
                blend_mode@,
                "multiply"@,
            ) && !lower_matches(blend_mode@, "screen"@) && !lower_matches(blend_mode@, "overlay"@)
                ==> *final(self) == *old(self) && (r matches Err(e) && e@
                == "Unknown blend mode: "@ + blend_mode@
                + ". Use: normal, add, multiply, screen, overlay"@),
            deck_id < 4 ==> (r is Err ==> *final(self) == *old(self)),
    {
        if deck_id >= 4 {
            return Err(invalid_deck_msg(deck_id));
        }
        match blend_mode_from_str(blend_mode) {
            Some(m) => {
                self.compositor.set_deck_blend_mode(deck_id, m);
                Ok(deck_msg("Deck ", deck_id, " blend mode set"))
            },
            None => {
                let mut e = String::from_str("Unknown blend mode: ");
                e.append(blend_mode);
                e.append(". Use: normal, add, multiply, screen, overlay");
                proof {
                    assert(e@ =~= "Unknown blend mode: "@ + blend_mode@
                        + ". Use: normal, add, multiply, screen, overlay"@);
                }
                Err(e)
            },
        }
    }

    /// Set one deck's compositor layer order.
    pub fn compositor_set_deck_layer(&mut self, deck_id: u8, layer_order: i32) -> (r: Result<
        String,
        String,
    >)
        requires
            old(self).wf(),
        ensures
            final(self).wf(),
            deck_id >= 4 ==> *final(self) == *old(self) && (r matches Err(e) && e@
                == "Invalid deck ID: "@ + dec_digits(deck_id as nat)),
            deck_id < 4 ==> frame_except_compositor(*old(self), *final(self)) && final(self).compositor.deck_settings@[deck_id as int].layer_order == layer_order && r is Ok,
    {
        if deck_id >= 4 {
            return Err(invalid_deck_msg(deck_id));
        }
        self.compositor.set_deck_layer(deck_id, layer_order);
        Ok(deck_msg("Deck ", deck_id, " layer order set"))
    }

    /// Enable or disable one deck in the compositor.
    pub fn compositor_set_deck_enabled(&mut self, deck_id: u8, enabled: bool) -> (r: Result<
        String,
        String,
    >)
        requires
            old(self).wf(),
        ensures
            final(self).wf(),
            deck_id >= 4 ==> *final(self) == *old(self) && (r matches Err(e) && e@
                == "Invalid deck ID: "@ + dec_digits(deck_id as nat)),
            deck_id < 4 ==> frame_except_compositor(*old(self), *final(self)) && final(self).compositor.deck_settings@[deck_id as int].enabled == enabled && r is Ok,
    {
        if deck_id >= 4 {
            return Err(invalid_deck_msg(deck_id));
        }
        self.compositor.set_deck_enabled(deck_id, enabled);
        Ok(deck_msg("Deck ", deck_id, " compositor flag set"))
    }

    /// Link or unlink deck opacity from the crossfader position.
    pub fn compositor_link_crossfader(&mut self, linked: bool) -> (r: String)
        requires
            old(self).wf(),
        ensures
            final(self).wf(),
            frame_except_compositor(*old(self), *final(self)),
            final(self).compositor == (crate::compositor::CompositorConfig {
                link_to_crossfader: linked,
                ..old(self).compositor
            }),
    {
        self.compositor.link_to_crossfader = linked;
        String::from_str("Compositor crossfader link set")
    }

    /// Start audio capture.  Refused while already running; the engine
    /// itself is idempotent, but the control surface reports the
    /// conflict.
    pub fn start_audio(&mut self) -> (r: Result<String, String>)
        requires
            old(self).wf(),
        ensures
            final(self).wf(),
            old(self).audio_engine.running ==> *final(self) == *old(self) && (r matches Err(e)
                && e@ == "Audio already running"@),
            !old(self).audio_engine.running ==> final(self).audio_engine.running && final(self).audio_engine.queue@.len() == 0 && final(self).decks == old(self).decks && final(self).crossfader == old(self).crossfader && final(self).compositor == old(self).compositor
                && final(self).audio_levels == old(self).audio_levels && (r matches Ok(m) && m@
                == "Audio capture started"@),
    {
        if self.audio_engine.is_running() {
            return Err(String::from_str("Audio already running"));
        }
        match self.audio_engine.start() {
            Ok(()) => {},
            Err(_) => {},
        }
        Ok(String::from_str("Audio capture started"))
    }

    /// Stop audio capture and drop whatever it had delivered.
    pub fn stop_audio(&mut self) -> (r: String)
        requires
            old(self).wf(),
        ensures
            final(self).wf(),
            !final(self).audio_engine.running,
            final(self).audio_engine.queue@.len() == 0,
            final(self).decks == old(self).decks,
            final(self).crossfader == old(self).crossfader,
            final(self).compositor == old(self).compositor,
            final(self).audio_levels == old(self).audio_levels,
            r@ == "Audio capture stopped"@,
    {
        self.audio_engine.stop();
        String::from_str("Audio capture stopped")
    }
}

/// The extension of `path` is `milk` or `prjm`, ignoring ASCII case.
pub open spec fn ext_ok(path: Seq<char>) -> bool {
    match spec_extension(path) {
        Some(e) => lower_matches(e, "milk"@) || lower_matches(e, "prjm"@),
        None => false,
    }
}

} // verus!
