//! Video output backends: descriptors, availability, the window output.

use opendrop::video::NdiConfig;
use opendrop::video::NdiOutput;
use opendrop::video::OutputBackend;
use opendrop::video::SpoutConfig;
use opendrop::video::V4l2Config;
use opendrop::video::VideoOutput;
use opendrop::video::WindowOutput;
use opendrop::video::is_backend_available;
use opendrop::video::list_outputs;

#[test]
fn test_ndi_config_default() {
    let config = NdiConfig::default();
    assert_eq!(config.name, "OpenDrop");
    assert!(config.clock_video);
    assert!(config.groups.is_none());
}

#[test]
fn test_ndi_config_with_name() {
    let config = NdiConfig::with_name("Test Source");
    assert_eq!(config.name, "Test Source");
}

#[test]
fn test_ndi_not_available_without_feature() {
    assert!(!NdiOutput::is_available());
}

#[test]
fn test_output_backend_display() {
    assert_eq!(OutputBackend::Ndi.label(), "NDI");
    assert_eq!(OutputBackend::PipeWire.label(), "PipeWire");
    assert_eq!(OutputBackend::Spout.label(), "Spout");
    assert_eq!(OutputBackend::V4l2Loopback.label(), "v4l2loopback");
    assert_eq!(OutputBackend::Window.label(), "Window");
}

#[test]
fn test_window_output_creation() {
    let output = WindowOutput::new();
    assert!(output.is_active());
    assert_eq!(output.backend(), OutputBackend::Window);
    assert_eq!(output.name(), "window");
}

#[test]
fn test_window_output_set_active() {
    let mut output = WindowOutput::new();
    assert!(output.is_active());

    output.set_active(false);
    assert!(!output.is_active());

    output.set_active(true);
    assert!(output.is_active());
}

#[test]
fn test_window_output_send_frame() {
    let mut output = WindowOutput::new();
    assert!(output.send_frame(0, 1920, 1080).is_ok());
}

#[test]
fn test_window_backend_always_available() {
    // The window backend needs no probed devices.
    assert!(is_backend_available(OutputBackend::Window, false));
    assert!(is_backend_available(OutputBackend::Window, true));
}

#[test]
fn test_list_window_outputs() {
    let outputs = list_outputs(OutputBackend::Window, &Vec::new());
    assert_eq!(outputs.len(), 1);
    assert_eq!(outputs[0], "Default Window");
}

#[test]
fn test_ndi_availability() {
    let _available = is_backend_available(OutputBackend::Ndi, false);
}

#[test]
fn test_pipewire_not_available() {
    assert!(!is_backend_available(OutputBackend::PipeWire, false));
}

#[test]
fn v4l2_availability_follows_the_probe() {
    assert!(!is_backend_available(OutputBackend::V4l2Loopback, false));
    assert!(is_backend_available(OutputBackend::V4l2Loopback, true));
}

#[test]
fn v4l2_outputs_list_the_probed_devices() {
    let devices = vec![opendrop::video::V4l2DeviceInfo {
        path: "/dev/video10".to_string(),
        name: "Loopback".to_string(),
        driver: "v4l2 loopback".to_string(),
    }];
    let outputs = list_outputs(OutputBackend::V4l2Loopback, &devices);
    assert_eq!(outputs, vec!["/dev/video10: Loopback (v4l2 loopback)".to_string()]);
}

#[test]
fn test_spout_config_default() {
    let config = SpoutConfig::default();
    assert_eq!(config.sender_name, "OpenDrop");
    assert_eq!(config.width, 1920);
    assert_eq!(config.height, 1080);
}

#[test]
fn test_v4l2_config_default() {
    let config = V4l2Config::default();
    assert_eq!(config.device_path, "/dev/video10");
    assert_eq!(config.width, 1920);
    assert_eq!(config.height, 1080);
}

#[test]
fn test_ndi_output_refused() {
    assert!(NdiOutput::new().is_err());
    assert!(NdiOutput::with_config(NdiConfig::default()).is_err());
}
