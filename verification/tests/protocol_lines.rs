//! The renderer line protocol: canonical encodings and event parsing.

use opendrop::protocol::RendererCommand;
use opendrop::protocol::RendererConfig;
use opendrop::protocol::RendererEvent;
use opendrop::protocol::encode_command;
use opendrop::protocol::encode_config;
use opendrop::protocol::encode_event;
use opendrop::protocol::parse_event;

#[test]
fn encode_simple_commands() {
    assert_eq!(encode_command(&RendererCommand::Stop), "{\"type\":\"stop\"}");
    assert_eq!(
        encode_command(&RendererCommand::ToggleFullscreen),
        "{\"type\":\"toggle_fullscreen\"}"
    );
}

#[test]
fn encode_load_preset() {
    let cmd = RendererCommand::LoadPreset { path: String::from("/tmp/a.milk") };
    assert_eq!(
        encode_command(&cmd),
        "{\"type\":\"load_preset\",\"path\":\"/tmp/a.milk\"}"
    );
}

#[test]
fn encode_audio_fixed_point() {
    let cmd = RendererCommand::Audio { samples: vec![10000, -2500, 0, 333] };
    assert_eq!(
        encode_command(&cmd),
        "{\"type\":\"audio\",\"samples\":[1.0000,-0.2500,0.0000,0.0333]}"
    );
}

#[test]
fn encode_beat_sensitivity() {
    let cmd = RendererCommand::SetBeatSensitivity { value: 15000 };
    assert_eq!(
        encode_command(&cmd),
        "{\"type\":\"set_beat_sensitivity\",\"value\":1.5000}"
    );
}

#[test]
fn encode_video_and_ndi_outputs() {
    let cmd = RendererCommand::SetVideoOutput {
        enabled: true,
        device_path: Some(String::from("/dev/video10")),
    };
    assert_eq!(
        encode_command(&cmd),
        "{\"type\":\"set_video_output\",\"enabled\":true,\"device_path\":\"/dev/video10\"}"
    );
    let cmd = RendererCommand::SetNdiOutput { enabled: false, name: None };
    assert_eq!(
        encode_command(&cmd),
        "{\"type\":\"set_ndi_output\",\"enabled\":false,\"name\":null}"
    );
}

#[test]
fn encode_texture_paths_escapes() {
    let cmd = RendererCommand::SetTexturePaths {
        paths: vec![String::from("/a/b"), String::from("with \"quote\"\nline")],
    };
    assert_eq!(
        encode_command(&cmd),
        "{\"type\":\"set_texture_paths\",\"paths\":[\"/a/b\",\"with \\\"quote\\\"\\nline\"]}"
    );
}

#[test]
fn encode_startup_config() {
    let cfg = RendererConfig {
        width: 1280,
        height: 720,
        preset_path: Some(String::from("/p/x.milk")),
        fullscreen: false,
        deck_id: 2,
        monitor_index: Some(1),
        texture_paths: vec![String::from("/t")],
    };
    assert_eq!(
        encode_config(&cfg),
        "{\"width\":1280,\"height\":720,\"preset_path\":\"/p/x.milk\",\"fullscreen\":false,\"deck_id\":2,\"monitor_index\":1,\"texture_paths\":[\"/t\"]}"
    );
    let cfg = RendererConfig {
        width: 1920,
        height: 1080,
        preset_path: None,
        fullscreen: true,
        deck_id: 0,
        monitor_index: None,
        texture_paths: vec![],
    };
    assert_eq!(
        encode_config(&cfg),
        "{\"width\":1920,\"height\":1080,\"preset_path\":null,\"fullscreen\":true,\"deck_id\":0,\"monitor_index\":null,\"texture_paths\":[]}"
    );
}

#[test]
fn parse_simple_events() {
    assert!(matches!(parse_event("{\"type\":\"ready\"}"), Some(RendererEvent::Ready)));
    assert!(matches!(parse_event("{\"type\":\"closed\"}"), Some(RendererEvent::Closed)));
}

#[test]
fn parse_error_event() {
    match parse_event("{\"type\":\"error\",\"message\":\"shader failed\"}") {
        Some(RendererEvent::Error { message }) => assert_eq!(message, "shader failed"),
        other => panic!("unexpected: {:?}", other),
    }
}

#[test]
fn parse_preset_loaded_event() {
    match parse_event("{\"type\":\"preset_loaded\",\"path\":\"/p/a.milk\"}") {
        Some(RendererEvent::PresetLoaded { path }) => assert_eq!(path, "/p/a.milk"),
        other => panic!("unexpected: {:?}", other),
    }
}

#[test]
fn parse_unescapes_message() {
    match parse_event("{\"type\":\"error\",\"message\":\"a \\\"b\\\"\\n\\tc\\\\d\"}") {
        Some(RendererEvent::Error { message }) => assert_eq!(message, "a \"b\"\n\tc\\d"),
        other => panic!("unexpected: {:?}", other),
    }
}

#[test]
fn parse_drops_noise() {
    assert!(parse_event("").is_none());
    assert!(parse_event("garbage").is_none());
    assert!(parse_event("{\"type\":\"unknown\"}").is_none());
    assert!(parse_event("{\"type\":\"error\",\"message\":\"unterminated}").is_none());
    assert!(parse_event("{\"type\":\"error\",\"message\":\"bad \\q escape\"}").is_none());
}

#[test]
fn parse_inverts_encode() {
    let events = [
        RendererEvent::Ready,
        RendererEvent::Closed,
        RendererEvent::Error { message: String::from("tab\there \"and\" back\\slash") },
        RendererEvent::PresetLoaded { path: String::from("/very/deep/path.milk") },
    ];
    for ev in events {
        let line = encode_event(&ev);
        let back = parse_event(&line).expect("canonical line must parse");
        assert_eq!(format!("{:?}", back), format!("{:?}", ev));
    }
}

#[test]
fn parse_unescapes_control_codes() {
    // A control character outside the short escapes travels as \u00XX
    // and comes back as itself.
    match parse_event("{\"type\":\"error\",\"message\":\"a\\u0001b\\u001fc\"}") {
        Some(RendererEvent::Error { message }) => {
            assert_eq!(message, "a\u{1}b\u{1f}c");
        }
        other => panic!("unexpected: {:?}", other),
    }
    // Non-canonical forms of the same escape stay noise.
    assert!(parse_event("{\"type\":\"error\",\"message\":\"\\u0041\"}").is_none());
    assert!(parse_event("{\"type\":\"error\",\"message\":\"\\u000A\"}").is_none());
    assert!(parse_event("{\"type\":\"error\",\"message\":\"\\u01\"}").is_none());
}

#[test]
fn every_canonical_event_parses_back() {
    let events = [
        RendererEvent::Ready,
        RendererEvent::Closed,
        RendererEvent::Error { message: String::from("mix of \u{2} and \"text\"\r\n") },
        RendererEvent::PresetLoaded { path: String::from("C:\\presets\\a.milk") },
    ];
    for ev in events {
        let line = encode_event(&ev);
        let back = parse_event(&line).expect("canonical line must parse");
        assert_eq!(format!("{:?}", back), format!("{:?}", ev));
    }
}
