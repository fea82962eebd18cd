//! The shared controller state: deck lifecycle, commands, the pump cycle.

use opendrop::health::RendererHealth;
use opendrop::state::AppState;
use opendrop::supervisor::PollResult;
use opendrop::supervisor::StopStep;

fn start_deck_zero(state: &mut AppState) {
    let plan = state
        .start_deck(
            0,
            PollResult::StillRunning,
            1000,
            None,
            None,
            None,
            Some(String::from("/p/a.milk")),
            None,
            String::from("/usr/bin/renderer"),
            Vec::new(),
        )
        .expect("idle deck must accept a start");
    assert_eq!(plan.exe, "/usr/bin/renderer");
    let msg = state.attach_deck(0, Some(String::from("/p/a.milk")), 1000);
    assert_eq!(msg, "Deck 0 started");
}

#[test]
fn starting_a_running_deck_is_refused() {
    let mut state = AppState::new();
    start_deck_zero(&mut state);

    // The deck still has a live process: a second start must fail and
    // leave exactly the one process in place.
    let again = state.start_deck(
        0,
        PollResult::StillRunning,
        2000,
        None,
        None,
        None,
        None,
        None,
        String::from("/usr/bin/renderer"),
        Vec::new(),
    );
    assert_eq!(again.unwrap_err(), "Deck 0 already running");
    assert!(state.decks[0].renderer.is_some());
    assert!(state.decks[0].active);
    // The other decks are untouched.
    for i in 1..4 {
        assert!(state.decks[i].renderer.is_none());
    }
}

#[test]
fn starting_a_crashed_deck_is_allowed_again() {
    let mut state = AppState::new();
    start_deck_zero(&mut state);
    // The process died; the next start may proceed.
    let plan = state.start_deck(
        0,
        PollResult::Exited { success: false },
        3000,
        None,
        None,
        None,
        None,
        None,
        String::from("/usr/bin/renderer"),
        Vec::new(),
    );
    assert!(plan.is_ok());
    assert_eq!(
        state.decks[0].renderer.as_ref().unwrap().get_health(),
        RendererHealth::Crashed
    );
}

#[test]
fn invalid_deck_ids_are_refused() {
    let mut state = AppState::new();
    let r = state.start_deck(
        9,
        PollResult::StillRunning,
        0,
        None,
        None,
        None,
        None,
        None,
        String::from("/x"),
        Vec::new(),
    );
    assert_eq!(r.unwrap_err(), "Invalid deck ID: 9. Must be 0-3");
    assert_eq!(state.stop_deck(4).unwrap_err(), "Invalid deck ID: 4");
    assert_eq!(state.set_deck_volume(4, 5000).unwrap_err(), "Invalid deck ID: 4");
}

#[test]
fn stop_deck_hands_back_the_full_stop_procedure() {
    let mut state = AppState::new();
    start_deck_zero(&mut state);
    let (msg, plan) = state.stop_deck(0).unwrap();
    assert_eq!(msg, "Deck 0 stopped");
    assert_eq!(
        plan,
        vec![
            StopStep::SendStop,
            StopStep::WaitMillis(100),
            StopStep::Kill,
            StopStep::Reap,
            StopStep::JoinReader,
        ]
    );
    assert!(state.decks[0].renderer.is_none());
    assert!(!state.decks[0].active);

    // Stopping an idle deck still succeeds, with nothing to kill.
    let (_, plan) = state.stop_deck(0).unwrap();
    assert_eq!(plan, vec![]);
}

#[test]
fn deck_volume_is_clamped() {
    let mut state = AppState::new();
    state.set_deck_volume(1, 25000).unwrap();
    assert_eq!(state.decks[1].volume, 10000);
    state.set_deck_volume(1, 2500).unwrap();
    assert_eq!(state.decks[1].volume, 2500);
}

#[test]
fn pump_updates_levels_and_scales_audio() {
    let mut state = AppState::new();
    start_deck_zero(&mut state);
    state.set_deck_volume(0, 5000).unwrap();
    state.start_audio().unwrap();
    state.audio_engine.push_chunk(vec![10000, -10000, 10000, -10000]);

    let polls = vec![PollResult::StillRunning; 4];
    let plan = state.pump_cycle(&polls, 2000);
    assert_eq!(plan.len(), 4);

    // Levels are the RMS of the batch.
    assert_eq!(state.get_audio_levels(), (10000, 10000));

    // Deck 0 is running: one audio command, scaled by its half volume.
    assert_eq!(plan[0].audio.len(), 1);
    assert_eq!(
        plan[0].audio[0],
        "{\"type\":\"audio\",\"samples\":[0.5000,-0.5000,0.5000,-0.5000]}"
    );
    // The other decks are not running and get nothing.
    for i in 1..4 {
        assert!(plan[i].audio.is_empty());
        assert!(plan[i].load.is_none());
    }

    // The engine was drained: an empty follow-up tick leaves the levels.
    let plan2 = state.pump_cycle(&polls, 3000);
    assert!(plan2[0].audio.is_empty());
    assert_eq!(state.get_audio_levels(), (10000, 10000));
}

#[test]
fn pump_advances_due_playlists() {
    let mut state = AppState::new();
    start_deck_zero(&mut state);
    state.playlist_add(0, String::from("one"), String::from("/p/one.milk")).unwrap();
    state.playlist_add(0, String::from("two"), String::from("/p/two.milk")).unwrap();
    state
        .playlist_set_settings(0, Some(false), Some(true), Some(5), 1000)
        .unwrap();

    let polls = vec![PollResult::StillRunning; 4];
    // Before the cycle duration has passed nothing advances.
    let plan = state.pump_cycle(&polls, 4000);
    assert!(plan[0].load.is_none());

    // Once five seconds have passed the playlist advances and the load
    // command goes out.
    let plan = state.pump_cycle(&polls, 6001);
    assert_eq!(
        plan[0].load.as_deref(),
        Some("{\"type\":\"load_preset\",\"path\":\"/p/two.milk\"}")
    );
    assert_eq!(state.decks[0].playlist.current_index, 1);
    assert_eq!(state.decks[0].preset_path.as_deref(), Some("/p/two.milk"));
}

#[test]
fn pump_skips_dead_decks_entirely() {
    let mut state = AppState::new();
    start_deck_zero(&mut state);
    state.playlist_add(0, String::from("one"), String::from("/p/one.milk")).unwrap();
    state
        .playlist_set_settings(0, None, Some(true), Some(5), 0)
        .unwrap();
    state.start_audio().unwrap();
    state.audio_engine.push_chunk(vec![100, 200]);

    // The deck's process has exited: no audio, no advance, no commands.
    let mut polls = vec![PollResult::StillRunning; 4];
    polls[0] = PollResult::Exited { success: true };
    let plan = state.pump_cycle(&polls, 60000);
    assert!(plan[0].load.is_none());
    assert!(plan[0].audio.is_empty());
    assert_eq!(state.decks[0].playlist.current_index, 0);
}

#[test]
fn audio_engine_commands() {
    let mut state = AppState::new();
    assert_eq!(state.start_audio().unwrap(), "Audio capture started");
    assert_eq!(state.start_audio().unwrap_err(), "Audio already running");
    assert_eq!(state.stop_audio(), "Audio capture stopped");
    assert!(!state.audio_engine.running);
}

#[test]
fn load_preset_validates_in_order() {
    let mut state = AppState::new();
    let e = state
        .load_preset_prepare(0, "/p/a.milk", false, false, PollResult::StillRunning, 0)
        .unwrap_err();
    assert_eq!(e, "Preset file not found: /p/a.milk");
    let e = state
        .load_preset_prepare(0, "/p/a.milk", true, false, PollResult::StillRunning, 0)
        .unwrap_err();
    assert_eq!(e, "Preset path is not a file: /p/a.milk");
    let e = state
        .load_preset_prepare(0, "/p/a.txt", true, true, PollResult::StillRunning, 0)
        .unwrap_err();
    assert_eq!(e, "Invalid preset extension (expected .milk or .prjm): /p/a.txt");
    let e = state
        .load_preset_prepare(0, "/p/a.milk", true, true, PollResult::StillRunning, 0)
        .unwrap_err();
    assert_eq!(e, "Deck 0 not running");

    start_deck_zero(&mut state);
    let line = state
        .load_preset_prepare(0, "/p/b.MILK", true, true, PollResult::StillRunning, 0)
        .unwrap();
    assert_eq!(line, "{\"type\":\"load_preset\",\"path\":\"/p/b.MILK\"}");
    let msg = state.note_preset_loaded(0, String::from("/p/b.MILK"));
    assert_eq!(msg, "Loaded preset on deck 0: /p/b.MILK");
    assert_eq!(state.decks[0].preset_path.as_deref(), Some("/p/b.MILK"));
}

#[test]
fn crossfader_commands() {
    let mut state = AppState::new();
    state.crossfader_set_position(7500);
    assert_eq!(state.crossfader.position, 7500);
    state.crossfader_set_enabled(true);
    assert!(state.crossfader.enabled);
    state.crossfader_set_curve("linear").unwrap();
    let e = state.crossfader_set_curve("wavy").unwrap_err();
    assert_eq!(e, "Unknown curve type: wavy. Use 'linear' or 'equal_power'");
    state.crossfader_assign_deck(1, "b").unwrap();
    assert!(state.crossfader.side_b.contains(&1));
    let e = state.crossfader_assign_deck(1, "c").unwrap_err();
    assert_eq!(e, "Invalid side: c. Use 'a', 'b', or 'none'");
}

#[test]
fn compositor_commands() {
    let mut state = AppState::new();
    // Default layer order follows the deck ID.
    for i in 0..4 {
        assert_eq!(state.compositor.deck_settings[i].layer_order, i as i32);
    }
    state.compositor_set_enabled(true);
    assert!(state.compositor.enabled);
    state.compositor_set_resolution(1280, 720);
    assert_eq!(state.compositor.output_width, 1280);
    state.compositor_set_deck_opacity(2, 30000).unwrap();
    assert_eq!(state.compositor.deck_settings[2].opacity, 10000);
    state.compositor_set_deck_blend_mode(2, "Screen").unwrap();
    state.compositor_set_deck_layer(2, -5).unwrap();
    assert_eq!(state.compositor.deck_settings[2].layer_order, -5);
    state.compositor_set_deck_enabled(2, false).unwrap();
    assert!(!state.compositor.deck_settings[2].enabled);
    state.compositor_link_crossfader(false);
    assert!(!state.compositor.link_to_crossfader);
}

#[test]
fn playlist_commands_drive_running_deck() {
    let mut state = AppState::new();
    start_deck_zero(&mut state);
    state.playlist_add(0, String::from("one"), String::from("/p/one.milk")).unwrap();
    state.playlist_add(0, String::from("two"), String::from("/p/two.milk")).unwrap();

    let (path, line) = state
        .playlist_next(0, 0, PollResult::StillRunning, 0)
        .unwrap();
    assert_eq!(path.as_deref(), Some("/p/two.milk"));
    assert_eq!(
        line.as_deref(),
        Some("{\"type\":\"load_preset\",\"path\":\"/p/two.milk\"}")
    );

    let (path, _) = state.playlist_previous(0, PollResult::StillRunning, 0).unwrap();
    assert_eq!(path.as_deref(), Some("/p/one.milk"));

    let (path, _) = state
        .playlist_jump_to(0, 1, PollResult::StillRunning, 0)
        .unwrap();
    assert_eq!(path.as_deref(), Some("/p/two.milk"));
    let e = state
        .playlist_jump_to(0, 5, PollResult::StillRunning, 0)
        .unwrap_err();
    assert_eq!(e, "Index out of bounds");

    state.playlist_reorder(0, 0, 1).unwrap();
    assert_eq!(state.decks[0].playlist.items[1].path, "/p/one.milk");

    state.playlist_remove(0, 0).unwrap();
    assert_eq!(state.decks[0].playlist.items.len(), 1);
    state.playlist_clear(0).unwrap();
    assert_eq!(state.decks[0].playlist.items.len(), 0);
}

#[test]
fn output_commands_need_a_running_deck() {
    let mut state = AppState::new();
    let e = state
        .set_deck_video_output_prepare(
            0,
            true,
            Some(String::from("/dev/video10")),
            PollResult::StillRunning,
            0,
        )
        .unwrap_err();
    assert_eq!(e, "Deck 0 not running");

    start_deck_zero(&mut state);
    let line = state
        .set_deck_video_output_prepare(
            0,
            true,
            Some(String::from("/dev/video10")),
            PollResult::StillRunning,
            0,
        )
        .unwrap();
    assert_eq!(
        line,
        "{\"type\":\"set_video_output\",\"enabled\":true,\"device_path\":\"/dev/video10\"}"
    );
    let line = state
        .set_deck_ndi_output_prepare(0, false, None, PollResult::StillRunning, 0)
        .unwrap();
    assert_eq!(line, "{\"type\":\"set_ndi_output\",\"enabled\":false,\"name\":null}");
    let line = state
        .set_deck_texture_paths_prepare(
            0,
            vec![String::from("/t1"), String::from("/t2")],
            PollResult::StillRunning,
            0,
        )
        .unwrap();
    assert_eq!(
        line,
        "{\"type\":\"set_texture_paths\",\"paths\":[\"/t1\",\"/t2\"]}"
    );
}

#[test]
fn all_decks_texture_paths_reach_running_decks_only() {
    let mut state = AppState::new();
    start_deck_zero(&mut state);
    let polls = vec![PollResult::StillRunning; 4];
    let lines = state.set_all_decks_texture_paths(vec![String::from("/t")], &polls, 0);
    assert_eq!(lines.len(), 4);
    assert!(lines[0].is_some());
    assert!(lines[1].is_none());
    assert!(lines[2].is_none());
    assert!(lines[3].is_none());
}

#[test]
fn default_deck_status() {
    let mut state = AppState::new();
    let status = state.get_status(PollResult::StillRunning, 0, String::from("/presets"));
    assert!(!status.running);
    assert!(!status.audio_running);
    assert!(status.current_preset.is_none());
    assert_eq!(status.preset_dir, "/presets");

    start_deck_zero(&mut state);
    let status = state.get_status(PollResult::StillRunning, 0, String::from("/presets"));
    assert!(status.running);
    assert_eq!(status.current_preset.as_deref(), Some("/p/a.milk"));
}

#[test]
fn multi_deck_status_snapshot() {
    let mut state = AppState::new();
    start_deck_zero(&mut state);
    state.playlist_add(0, String::from("one"), String::from("/p/one.milk")).unwrap();
    let polls = vec![PollResult::StillRunning; 4];
    let status = state.multi_deck_status(&polls, 500, String::from("/presets"));
    assert_eq!(status.decks.len(), 4);
    assert!(status.decks[0].running);
    assert_eq!(status.decks[0].playlist.items.len(), 1);
    assert_eq!(
        status.decks[0].health,
        Some(opendrop::health::RendererHealth::Starting)
    );
    assert_eq!(status.decks[0].crash_count, Some(0));
    assert!(!status.decks[1].running);
    assert_eq!(status.decks[1].health, None);
    assert_eq!(status.crossfader.curve, "equal_power");
    assert_eq!(status.compositor.deck_settings.len(), 4);
}
