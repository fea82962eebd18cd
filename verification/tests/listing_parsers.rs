//! Device-listing parsers, the renderer search, and the preset catalogue.

use opendrop::capture::find_default_monitor;
use opendrop::capture::parse_pactl_sources;
use opendrop::catalog::dedup_presets;
use opendrop::catalog::sort_presets;
use opendrop::paths::Arch;
use opendrop::paths::Platform;
use opendrop::paths::SearchEnv;
use opendrop::paths::renderer_candidates;
use opendrop::paths::renderer_executable_name;
use opendrop::paths::renderer_not_found_message;
use opendrop::paths::target_triple;
use opendrop::pipewire::PipeWireSource;
use opendrop::pipewire::parse_wpctl_status;
use opendrop::presets::PresetInfo;

#[test]
fn pactl_listing_yields_auto_plus_monitors() {
    let listing = "0\talsa_input.usb-mic.mono\tmodule\ts16le\tRUNNING\n\
                   1\talsa_output.pci-0000_00_1f.3.analog-stereo.monitor\tmodule\tfloat32le\tIDLE\n";
    let devices = parse_pactl_sources(listing);
    assert_eq!(devices.len(), 2);
    assert_eq!(devices[0].name, "auto");
    assert!(devices[0].is_default);
    assert_eq!(devices[1].name, "alsa_output.pci-0000_00_1f.3.analog-stereo.monitor");
    assert_eq!(devices[1].description, "pci 0000 00 1f.3 (Stereo) (Monitor)");
    assert!(devices[1].is_monitor);
}

#[test]
fn default_monitor_is_the_first_monitor_line() {
    let listing = "0\talsa_input.usb-mic.mono\tmodule\n\
                   1\talsa_output.hdmi.monitor\tmodule\n\
                   2\talsa_output.analog.monitor\tmodule\n";
    assert_eq!(
        find_default_monitor(listing).as_deref(),
        Some("alsa_output.hdmi.monitor")
    );
    assert_eq!(find_default_monitor("no tabs here"), None);
}

#[test]
fn wpctl_status_finds_sources_and_sinks() {
    let output = "Audio\n\
                  Sinks:\n\
                  *55. Built-in Audio Analog Stereo        [vol: 0.74]\n\
                  Sources:\n\
                  66. Webcam Mic  [vol: 1.00]\n\
                  Video\n\
                  77. Should not appear [vol: 1.00]\n";
    let mut sources: Vec<PipeWireSource> = Vec::new();
    parse_wpctl_status(output, &mut sources);
    assert_eq!(sources.len(), 2);
    assert_eq!(sources[0].id, 55);
    assert_eq!(sources[0].name, "Built-in Audio Analog Stereo");
    assert_eq!(sources[0].media_class, "Audio/Sink");
    assert!(sources[0].is_monitor);
    assert_eq!(sources[1].id, 66);
    assert_eq!(sources[1].name, "Webcam Mic");
    assert_eq!(sources[1].media_class, "Audio/Source");
    assert!(!sources[1].is_monitor);
}

#[test]
fn renderer_names_per_platform() {
    assert_eq!(renderer_executable_name(Platform::Linux), "opendrop-renderer");
    assert_eq!(
        renderer_executable_name(Platform::Windows),
        "opendrop-renderer.exe"
    );
    assert_eq!(
        target_triple(Platform::Linux, Arch::X86_64),
        "x86_64-unknown-linux-gnu"
    );
    assert_eq!(
        target_triple(Platform::MacOs, Arch::Aarch64),
        "aarch64-apple-darwin"
    );
    assert_eq!(target_triple(Platform::Other, Arch::Other), "unknown");
}

#[test]
fn renderer_search_order() {
    let env = SearchEnv {
        exe_dir: Some(String::from("/opt/app")),
        cwd: Some(String::from("/work")),
        home: Some(String::from("/home/vj")),
        program_files: None,
        local_app_data: None,
        bundle_resources: None,
    };
    let candidates = renderer_candidates(Platform::Linux, Arch::X86_64, &env);
    assert_eq!(
        candidates,
        vec![
            "/opt/app/opendrop-renderer-x86_64-unknown-linux-gnu".to_string(),
            "/opt/app/opendrop-renderer".to_string(),
            "/work/target/release/opendrop-renderer".to_string(),
            "/work/target/debug/opendrop-renderer".to_string(),
            "/work/../target/release/opendrop-renderer".to_string(),
            "/work/../target/debug/opendrop-renderer".to_string(),
            "/usr/bin/opendrop-renderer".to_string(),
            "/usr/local/bin/opendrop-renderer".to_string(),
            "/home/vj/.local/bin/opendrop-renderer".to_string(),
        ]
    );
    let message = renderer_not_found_message(&candidates);
    // Exactly the heading and the first five candidates, one per line.
    assert_eq!(
        message,
        "Could not find opendrop-renderer executable. Searched:\n  - \
         /opt/app/opendrop-renderer-x86_64-unknown-linux-gnu\n  - \
         /opt/app/opendrop-renderer\n  - \
         /work/target/release/opendrop-renderer\n  - \
         /work/target/debug/opendrop-renderer\n  - \
         /work/../target/release/opendrop-renderer"
    );
}

#[test]
fn pw_cli_objects_are_collected() {
    let output = "\
 id 42, type PipeWire:Interface:Node/3\n\
 \t\tnode.name = \"alsa_output.analog-stereo.monitor\"\n\
 \t\tnode.description = \"Built-in Audio\"\n\
 \t\tmedia.class = \"Audio/Source\"\n\
 id 43, type PipeWire:Interface:Node/3\n\
 \t\tnode.name = \"video-device\"\n\
 \t\tmedia.class = \"Video/Source\"\n\
 id 44, type PipeWire:Interface:Node/3\n\
 \t\tnode.name = \"mic\"\n\
 \t\tmedia.class = \"Audio/Source\"\n";
    let sources = opendrop::pipewire::parse_pw_cli_objects(output);
    assert_eq!(sources.len(), 2);
    assert_eq!(sources[0].id, 42);
    assert_eq!(sources[0].name, "alsa_output.analog-stereo.monitor");
    assert_eq!(sources[0].description, "Built-in Audio");
    assert_eq!(sources[0].media_class, "Audio/Source");
    assert!(sources[0].is_monitor);
    assert_eq!(sources[1].id, 44);
    assert_eq!(sources[1].name, "mic");
    // Without a description the name stands in.
    assert_eq!(sources[1].description, "mic");
    assert!(!sources[1].is_monitor);
}

#[test]
fn list_sources_falls_back_to_the_status_listing() {
    let wpctl = "Audio\nSources:\n7. Fallback Mic [vol: 1.0]\n";
    let sources = opendrop::pipewire::list_sources_from("nothing here", wpctl);
    assert_eq!(sources.len(), 1);
    assert_eq!(sources[0].id, 7);
    assert_eq!(sources[0].name, "Fallback Mic");
}

#[test]
fn xrandr_listing_yields_monitors() {
    let output = "Screen 0: minimum 320 x 200, current 4480 x 1440\n\
                  HDMI-1 connected primary 1920x1080+0+0 (normal left inverted) 527mm x 296mm\n\
                  DP-1 connected 2560x1440+1920+0 (normal left inverted) 597mm x 336mm\n\
                  DP-2 disconnected (normal left inverted right x axis y axis)\n";
    let monitors = opendrop::monitors::parse_monitors(output);
    assert_eq!(monitors.len(), 2);
    assert_eq!(monitors[0].index, 0);
    assert_eq!(monitors[0].name, "HDMI-1");
    assert_eq!(monitors[0].width, 1920);
    assert_eq!(monitors[0].height, 1080);
    assert!(monitors[0].is_primary);
    assert_eq!(monitors[1].index, 1);
    assert_eq!(monitors[1].name, "DP-1");
    assert_eq!(monitors[1].width, 2560);
    assert_eq!(monitors[1].height, 1440);
    assert!(!monitors[1].is_primary);
}

#[test]
fn empty_monitor_listing_falls_back_to_a_default() {
    let monitors = opendrop::monitors::list_monitors_from("");
    assert_eq!(monitors.len(), 1);
    assert_eq!(monitors[0].name, "Primary");
    assert_eq!(monitors[0].width, 1920);
    assert_eq!(monitors[0].height, 1080);
    assert!(monitors[0].is_primary);
}

fn preset(name: &str, path: &str) -> PresetInfo {
    PresetInfo {
        name: name.to_string(),
        path: path.to_string(),
    }
}

#[test]
fn dedup_keeps_the_first_of_each_name() {
    let found = vec![
        preset("Warp", "/a/Warp.milk"),
        preset("Aurora", "/a/Aurora.milk"),
        preset("Warp", "/b/Warp.milk"),
    ];
    let unique = dedup_presets(found);
    assert_eq!(unique.len(), 2);
    assert_eq!(unique[0].path, "/a/Warp.milk");
    assert_eq!(unique[1].name, "Aurora");
}

#[test]
fn sort_orders_case_insensitively() {
    let found = vec![
        preset("zebra", "/z"),
        preset("Aurora", "/a"),
        preset("aardvark", "/aa"),
        preset("Beam", "/b"),
    ];
    let sorted = sort_presets(found);
    let names: Vec<&str> = sorted.iter().map(|p| p.name.as_str()).collect();
    assert_eq!(names, vec!["aardvark", "Aurora", "Beam", "zebra"]);
}

#[test]
fn data_dir_candidates_follow_the_environment() {
    let env = opendrop::paths::DataEnv {
        home: Some(String::from("/home/vj")),
        data_home: None,
        exe_dir: Some(String::from("/opt/app")),
        exe_parent_dir: None,
        appdir: None,
    };
    let dirs = opendrop::paths::preset_dir_candidates(&env);
    assert_eq!(
        dirs,
        vec![
            "/usr/share/projectM/presets".to_string(),
            "/usr/local/share/projectM/presets".to_string(),
            "/home/vj/.local/share/opendrop/presets".to_string(),
            "/home/vj/.local/share/projectM/presets".to_string(),
            "/home/vj/OpenDrop/presets".to_string(),
            "/opt/app/presets".to_string(),
            "/opt/app/resources/presets".to_string(),
        ]
    );
    let tex = opendrop::paths::texture_dir_candidates(&env);
    // The texture search ends with the preset locations.
    assert_eq!(tex.len(), 14);
    assert_eq!(tex[0], "/usr/share/projectM/textures");
    assert_eq!(tex[7], "/usr/share/projectM/presets");
}
