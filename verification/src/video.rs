//! Video output backends: the common interface and its portable members.
//!
//! Frame transport itself happens inside the renderer subprocess; the
//! controller only stores backend descriptors and answers availability
//! queries.  The window backend is always available; the network video
//! backend needs a runtime this build does not link, so it reports
//! itself unavailable and refuses construction.

use vstd::prelude::*;

use crate::strutil::str_eq;

verus! {

/// Errors of a video output backend.
#[derive(Debug)]
pub enum VideoOutputError {
    /// The output could not be initialised.
    InitError(String),
    /// A frame could not be delivered.
    SendError(String),
    /// The backend does not work on this platform or build.
    NotSupported,
}

impl VideoOutputError {
    /// Human-readable description of the error.
    pub fn message(&self) -> (r: String)
        ensures
            (self matches VideoOutputError::InitError(s) ==> r@
                == "Output initialization failed: "@ + s@),
            (self matches VideoOutputError::SendError(s) ==> r@ == "Frame send failed: "@ + s@),
            self is NotSupported ==> r@ == "Output not supported on this platform"@,
    {
        match self {
            VideoOutputError::InitError(s) => {
                let mut r = String::from_str("Output initialization failed: ");
                r.append(s.as_str());
                r
            },
            VideoOutputError::SendError(s) => {
                let mut r = String::from_str("Frame send failed: ");
                r.append(s.as_str());
                r
            },
            VideoOutputError::NotSupported => String::from_str(
                "Output not supported on this platform",
            ),
        }
    }
}

/// The known video output backends.
#[derive(Debug, Clone, Copy, PartialEq, Eq, Structural)]
pub enum OutputBackend {
    /// Network video streaming.
    Ndi,
    /// The native media daemon (not implemented).
    PipeWire,
    /// Texture sharing between applications.
    Spout,
    /// A loopback video device.
    V4l2Loopback,
    /// Direct window output, the default.
    Window,
}

impl OutputBackend {
    /// Display label of the backend.
    pub fn label(&self) -> (r: &'static str)
        ensures
            self == OutputBackend::Ndi ==> r@ == "NDI"@,
            self == OutputBackend::PipeWire ==> r@ == "PipeWire"@,
            self == OutputBackend::Spout ==> r@ == "Spout"@,
            self == OutputBackend::V4l2Loopback ==> r@ == "v4l2loopback"@,
            self == OutputBackend::Window ==> r@ == "Window"@,
    {
        match self {
            OutputBackend::Ndi => "NDI",
            OutputBackend::PipeWire => "PipeWire",
            OutputBackend::Spout => "Spout",
            OutputBackend::V4l2Loopback => "v4l2loopback",
            OutputBackend::Window => "Window",
        }
    }
}

/// Interface of a video output backend.  `active_spec` is each
/// implementation's model of its enable flag.
pub trait VideoOutput: Sized {
    /// Model of the output's enable flag.
    spec fn active_spec(&self) -> bool;

    /// The backend this output belongs to.
    fn backend(&self) -> OutputBackend;

    /// Deliver a frame by texture handle.
    fn send_frame(&mut self, texture_id: u32, width: u32, height: u32) -> Result<
        (),
        VideoOutputError,
    >;

    /// Whether the output is enabled.
    fn is_active(&self) -> (r: bool)
        ensures
            r == self.active_spec(),
    ;

    /// The output's name.
    fn name(&self) -> &str;

    /// Enable or disable the output.
    fn set_active(&mut self, active: bool);
}

/// Window-based video output: frames go to the renderer's own window, so
/// delivery always succeeds.
#[derive(Debug)]
pub struct WindowOutput {
    active: bool,
}

impl WindowOutput {
    /// A fresh window output, enabled.
    pub fn new() -> (r: Self)
        ensures
            r.active_spec(),
    {
        WindowOutput { active: true }
    }
}

impl Default for WindowOutput {
    fn default() -> (r: Self)
        ensures
            r.active_spec(),
    {
        WindowOutput::new()
    }
}

impl VideoOutput for WindowOutput {
    closed spec fn active_spec(&self) -> bool {
        self.active
    }

    fn backend(&self) -> (r: OutputBackend) {
        OutputBackend::Window
    }

    fn send_frame(&mut self, texture_id: u32, width: u32, height: u32) -> (r: Result<
        (),
        VideoOutputError,
    >) {
        Ok(())
    }

    fn is_active(&self) -> (r: bool) {
        self.active
    }

    fn name(&self) -> (r: &str) {
        "window"
    }

    fn set_active(&mut self, active: bool) {
        self.active = active;
    }
}

/// Configuration of the network video output.
#[derive(Debug)]
pub struct NdiConfig {
    /// Source name visible to receivers.
    pub name: String,
    /// Receiver groups; none for the default.
    pub groups: Option<String>,
    /// Whether to rate-limit video to the frame clock.
    pub clock_video: bool,
}

impl Default for NdiConfig {
    fn default() -> (r: Self)
        ensures
            r.name@ == "OpenDrop"@,
            r.groups is None,
            r.clock_video,
    {
        NdiConfig { name: String::from_str("OpenDrop"), groups: None, clock_video: true }
    }
}

impl NdiConfig {
    /// Configuration with a custom source name.
    pub fn with_name(name: &str) -> (r: Self)
        ensures
            r.name@ == name@,
            r.groups is None,
            r.clock_video,
    {
        NdiConfig { name: String::from_str(name), groups: None, clock_video: true }
    }
}

/// Information about a network video sender.
#[derive(Debug)]
pub struct NdiSenderInfo {
    pub name: String,
    pub connected_receivers: u32,
}

/// Network video output.  This build does not link the network video
/// runtime, so the backend reports itself unavailable and refuses
/// construction.
#[derive(Debug)]
pub struct NdiOutput {
    /// The configuration the output was asked for.
    pub config: NdiConfig,
    /// Whether the output is enabled; never set here.
    pub active: bool,
}

impl NdiOutput {
    /// Whether the network video runtime is available: never, here.
    pub fn is_available() -> (r: bool)
        ensures
            !r,
    {
        false
    }

    /// Refused: the runtime is not linked.
    pub fn new() -> (r: Result<Self, VideoOutputError>)
        ensures
            r matches Err(e) && e is NotSupported,
    {
        Err(VideoOutputError::NotSupported)
    }

    /// Refused: the runtime is not linked.
    pub fn with_config(config: NdiConfig) -> (r: Result<Self, VideoOutputError>)
        ensures
            r matches Err(e) && e is NotSupported,
    {
        let _ = config;
        Err(VideoOutputError::NotSupported)
    }

    /// Information about the sender.
    pub fn info(&self) -> (r: NdiSenderInfo)
        ensures
            r.name@ == self.config.name@,
            r.connected_receivers == 0,
    {
        NdiSenderInfo { name: self.config.name.clone(), connected_receivers: 0 }
    }
}

impl VideoOutput for NdiOutput {
    closed spec fn active_spec(&self) -> bool {
        self.active
    }

    fn backend(&self) -> (r: OutputBackend) {
        OutputBackend::Ndi
    }

    fn send_frame(&mut self, texture_id: u32, width: u32, height: u32) -> (r: Result<
        (),
        VideoOutputError,
    >) {
        Err(VideoOutputError::NotSupported)
    }

    fn is_active(&self) -> (r: bool) {
        self.active
    }

    fn name(&self) -> (r: &str) {
        self.config.name.as_str()
    }

    fn set_active(&mut self, active: bool) {
        let _ = active;
    }
}

/// Configuration of the texture-sharing output.
#[derive(Debug)]
pub struct SpoutConfig {
    /// Sender name visible to receivers.
    pub sender_name: String,
    /// Frame width.
    pub width: u32,
    /// Frame height.
    pub height: u32,
}

impl Default for SpoutConfig {
    fn default() -> (r: Self)
        ensures
            r.sender_name@ == "OpenDrop"@,
            r.width == 1920,
            r.height == 1080,
    {
        SpoutConfig { sender_name: String::from_str("OpenDrop"), width: 1920, height: 1080 }
    }
}

/// Information about a texture-sharing sender.
#[derive(Debug)]
pub struct SpoutSenderInfo {
    pub name: String,
    pub width: u32,
    pub height: u32,
}

/// Configuration of the loopback-device output.
#[derive(Debug)]
pub struct V4l2Config {
    /// Device path, such as `/dev/video10`.
    pub device_path: String,
    /// Frame width.
    pub width: u32,
    /// Frame height.
    pub height: u32,
}

impl Default for V4l2Config {
    fn default() -> (r: Self)
        ensures
            r.device_path@ == "/dev/video10"@,
            r.width == 1920,
            r.height == 1080,
    {
        V4l2Config { device_path: String::from_str("/dev/video10"), width: 1920, height: 1080 }
    }
}

/// Descriptor of one loopback video device.
#[derive(Debug)]
pub struct V4l2DeviceInfo {
    pub path: String,
    pub name: String,
    pub driver: String,
}

/// The display line of one loopback video device.
pub open spec fn spec_v4l2_device_line(d: V4l2DeviceInfo) -> Seq<char> {
    d.path@ + ": "@ + d.name@ + " ("@ + d.driver@ + ")"@
}

/// Names of the outputs a backend offers: the default window for the
/// window backend, one line per loopback device the caller enumerated
/// for the loopback backend, and nothing for backends whose runtime
/// this build does not link.
pub fn list_outputs(backend: OutputBackend, v4l2_devices: &Vec<V4l2DeviceInfo>) -> (r: Vec<String>)
    ensures
        backend == OutputBackend::Window ==> r@.len() == 1 && r@[0]@ == "Default Window"@,
        backend == OutputBackend::V4l2Loopback ==> r@.len() == v4l2_devices@.len() && (forall|
            i: int,
        |
            0 <= i < r@.len() ==> (#[trigger] r@[i])@ == spec_v4l2_device_line(
                v4l2_devices@[i],
            )),
        backend == OutputBackend::Ndi || backend == OutputBackend::PipeWire || backend
            == OutputBackend::Spout ==> r@.len() == 0,
{
    match backend {
        OutputBackend::Window => {
            let mut v: Vec<String> = Vec::new();
            v.push(String::from_str("Default Window"));
            v
        },
        OutputBackend::V4l2Loopback => {
            let mut v: Vec<String> = Vec::new();
            let mut i: usize = 0;
            while i < v4l2_devices.len()
                invariant
                    i <= v4l2_devices@.len(),
                    v@.len() == i,
                    forall|j: int|
                        0 <= j < i ==> (#[trigger] v@[j])@ == spec_v4l2_device_line(
                            v4l2_devices@[j],
                        ),
                decreases v4l2_devices@.len() - i,
            {
                let d = &v4l2_devices[i];
                let mut line = d.path.clone();
                line.append(": ");
                line.append(d.name.as_str());
                line.append(" (");
                line.append(d.driver.as_str());
                line.append(")");
                proof {
                    assert(line@ =~= spec_v4l2_device_line(v4l2_devices@[i as int]));
                }
                v.push(line);
                i = i + 1;
            }
            v
        },
        OutputBackend::Ndi => {
            if NdiOutput::is_available() {
                let mut v: Vec<String> = Vec::new();
                v.push(String::from_str("NDI:OpenDrop"));
                v
            } else {
                Vec::new()
            }
        },
        _ => Vec::new(),
    }
}

/// Whether a backend can produce output: the window always can; the
/// loopback backend exactly when the caller's device probe found one;
/// the network video backend needs the runtime this build does not
/// link; the rest are not implemented.
pub fn is_backend_available(backend: OutputBackend, v4l2_loopback_present: bool) -> (r: bool)
    ensures
        backend == OutputBackend::Window ==> r,
        backend == OutputBackend::V4l2Loopback ==> r == v4l2_loopback_present,
        backend == OutputBackend::Ndi ==> !r,
        backend == OutputBackend::PipeWire || backend == OutputBackend::Spout ==> !r,
{
    match backend {
        OutputBackend::Window => true,
        OutputBackend::V4l2Loopback => v4l2_loopback_present,
        OutputBackend::Ndi => NdiOutput::is_available(),
        _ => false,
    }
}

} // verus!
