//! The capture engine's delivery queue and level computation.

use opendrop::capture::AudioConfig;
use opendrop::capture::AudioEngine;
use opendrop::levels::compute_levels;
use opendrop::pipewire::PipeWireConfig;
use opendrop::pipewire::extract_property_value;

#[test]
fn test_pipewire_config_default() {
    let config = PipeWireConfig::default();
    assert_eq!(config.sample_rate, 44100);
    assert_eq!(config.channels, 2);
    assert!(config.target.is_none());
}

#[test]
fn test_extract_property() {
    assert_eq!(
        extract_property_value("  node.name = \"test\""),
        Some("test".to_string())
    );
    assert_eq!(
        extract_property_value("media.class = Audio/Source"),
        Some("Audio/Source".to_string())
    );
}

#[test]
fn extract_property_without_equals() {
    assert_eq!(extract_property_value("no separator here"), None);
}

#[test]
fn audio_config_default() {
    let config = AudioConfig::default();
    assert_eq!(config.sample_rate, 48000);
    assert_eq!(config.channels, 2);
    assert_eq!(config.buffer_size, 1024);
    assert!(config.device_name.is_none());
}

#[test]
fn stopped_engine_never_delivers() {
    // An engine that is stopped and was never started always yields nothing.
    let mut engine = AudioEngine::new();
    assert!(!engine.is_running());
    assert!(engine.try_recv().is_none());

    // A chunk pushed at a stopped engine is dropped.
    engine.push_chunk(vec![1, 2, 3, 4]);
    assert!(engine.try_recv().is_none());

    // Starting, then stopping, drops everything again.
    engine.start().unwrap();
    engine.push_chunk(vec![1, 2]);
    engine.stop();
    assert!(!engine.is_running());
    assert!(engine.try_recv().is_none());
}

#[test]
fn engine_delivers_in_order() {
    let mut engine = AudioEngine::new();
    engine.start().unwrap();
    assert!(engine.is_running());
    // A second start is idempotent.
    engine.start().unwrap();

    engine.push_chunk(vec![1, 2]);
    engine.push_chunk(vec![3, 4]);
    assert_eq!(engine.try_recv(), Some(vec![1, 2]));
    assert_eq!(engine.try_recv(), Some(vec![3, 4]));
    assert!(engine.try_recv().is_none());
}

#[test]
fn engine_drains_all_at_once() {
    let mut engine = AudioEngine::new();
    engine.start().unwrap();
    engine.push_chunk(vec![1]);
    engine.push_chunk(vec![2]);
    let batch = engine.drain();
    assert_eq!(batch, vec![vec![1], vec![2]]);
    assert!(engine.try_recv().is_none());
    assert!(engine.is_running());
}

#[test]
fn rms_of_full_scale_frames_is_unity() {
    // Two full-scale stereo frames: both channels read exactly 1.0.
    let batch = vec![vec![10000, 10000, -10000, -10000]];
    assert_eq!(compute_levels(&batch), Some((10000, 10000)));
}

#[test]
fn rms_of_empty_batch_is_nothing() {
    let batch: Vec<Vec<i32>> = Vec::new();
    assert_eq!(compute_levels(&batch), None);
    // A batch without one complete frame also yields nothing.
    let batch = vec![vec![42]];
    assert_eq!(compute_levels(&batch), None);
}

#[test]
fn rms_ignores_odd_trailing_sample() {
    // The trailing fifth sample is ignored; the four counted samples are
    // full scale.
    let batch = vec![vec![10000, -10000, 10000, -10000, 12345]];
    assert_eq!(compute_levels(&batch), Some((10000, 10000)));
}

#[test]
fn rms_of_half_scale() {
    // All samples at half scale: RMS is half scale on both channels.
    let batch = vec![vec![5000, 5000, -5000, -5000]];
    assert_eq!(compute_levels(&batch), Some((5000, 5000)));
}

#[test]
fn rms_clamps_to_unity() {
    // Samples beyond full scale clamp at 1.0.
    let batch = vec![vec![30000, 30000]];
    assert_eq!(compute_levels(&batch), Some((10000, 10000)));
}

#[test]
fn channel_counts() {
    assert_eq!(opendrop::capture::Channels::Mono.count(), 1);
    assert_eq!(opendrop::capture::Channels::Stereo.count(), 2);
}
