//! Error descriptions across the library's error types.

use opendrop::capture::AudioError;
use opendrop::deck::DeckError;
use opendrop::video::VideoOutputError;

#[test]
fn audio_error_messages() {
    assert_eq!(AudioError::NoInputDevice.message(), "No input device available");
    assert_eq!(
        AudioError::ConfigError(String::from("closed")).message(),
        "Failed to get default config: closed"
    );
    assert_eq!(
        AudioError::StreamError(String::from("boom")).message(),
        "Stream error: boom"
    );
    assert_eq!(
        AudioError::DeviceNotFound(String::from("hw:1")).message(),
        "Device not found: hw:1"
    );
    assert_eq!(
        AudioError::UnsupportedFormat(String::from("U24")).message(),
        "Unsupported sample format: U24"
    );
    assert_eq!(
        AudioError::ChannelError(String::from("gone")).message(),
        "Channel error: gone"
    );
}

#[test]
fn video_error_messages() {
    assert_eq!(
        VideoOutputError::InitError(String::from("no device")).message(),
        "Output initialization failed: no device"
    );
    assert_eq!(
        VideoOutputError::SendError(String::from("pipe")).message(),
        "Frame send failed: pipe"
    );
    assert_eq!(
        VideoOutputError::NotSupported.message(),
        "Output not supported on this platform"
    );
}

#[test]
fn deck_error_message() {
    assert_eq!(
        DeckError::InitError(String::from("no slot")).message(),
        "Failed to initialize deck: no slot"
    );
}
