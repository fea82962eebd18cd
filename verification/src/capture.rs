//! Audio capture engine: the delivery side of the capture worker.
//!
//! A platform capture worker (a subprocess reader or device callback,
//! outside the library) converts whatever it receives into fixed-point
//! interleaved-stereo chunks and hands them to `push_chunk`; the pump
//! cycle drains them without blocking.  One pushed chunk is one delivered
//! chunk: the engine never merges or splits them.  A stopped engine holds
//! nothing and delivers nothing.

use vstd::prelude::*;

use crate::strutil::contains_str;
use crate::strutil::has_substr;
use crate::strutil::replace_str;
use crate::strutil::spec_replace;
use crate::strutil::split_on;
use crate::strutil::split_str;

verus! {

/// Errors of the capture layer.
#[derive(Debug)]
pub enum AudioError {
    /// No input device could be found.
    NoInputDevice,
    /// The device's configuration could not be read.
    ConfigError(String),
    /// Opening or running the capture stream failed.
    StreamError(String),
    /// The named device does not exist.
    DeviceNotFound(String),
    /// The device produces a sample format the worker cannot convert.
    UnsupportedFormat(String),
    /// The delivery channel failed.
    ChannelError(String),
}

impl AudioError {
    /// Human-readable description of the error.
    pub fn message(&self) -> (r: String)
        ensures
            self is NoInputDevice ==> r@ == "No input device available"@,
            (self matches AudioError::ConfigError(s) ==> r@ == "Failed to get default config: "@
                + s@),
            (self matches AudioError::StreamError(s) ==> r@ == "Stream error: "@ + s@),
            (self matches AudioError::DeviceNotFound(s) ==> r@ == "Device not found: "@ + s@),
            (self matches AudioError::UnsupportedFormat(s) ==> r@
                == "Unsupported sample format: "@ + s@),
            (self matches AudioError::ChannelError(s) ==> r@ == "Channel error: "@ + s@),
    {
        match self {
            AudioError::NoInputDevice => String::from_str("No input device available"),
            AudioError::ConfigError(s) => {
                let mut r = String::from_str("Failed to get default config: ");
                r.append(s.as_str());
                r
            },
            AudioError::StreamError(s) => {
                let mut r = String::from_str("Stream error: ");
                r.append(s.as_str());
                r
            },
            AudioError::DeviceNotFound(s) => {
                let mut r = String::from_str("Device not found: ");
                r.append(s.as_str());
                r
            },
            AudioError::UnsupportedFormat(s) => {
                let mut r = String::from_str("Unsupported sample format: ");
                r.append(s.as_str());
                r
            },
            AudioError::ChannelError(s) => {
                let mut r = String::from_str("Channel error: ");
                r.append(s.as_str());
                r
            },
        }
    }
}

/// Capture configuration.
#[derive(Debug)]
pub struct AudioConfig {
    /// Target sample rate.
    pub sample_rate: u32,
    /// Channel count, interleaved.
    pub channels: u16,
    /// Chunk buffer size in samples.
    pub buffer_size: usize,
    /// Device name; `None` selects the default source.
    pub device_name: Option<String>,
}

impl Default for AudioConfig {
    /// Stereo at 48 kHz from the default device.
    fn default() -> (r: Self)
        ensures
            r.sample_rate == 48000,
            r.channels == 2,
            r.buffer_size == 1024,
            r.device_name is None,
    {
        AudioConfig { sample_rate: 48000, channels: 2, buffer_size: 1024, device_name: None }
    }
}

/// Audio channel configuration.
#[derive(Debug, Clone, Copy, PartialEq, Eq, Structural)]
pub enum Channels {
    Mono,
    Stereo,
}

impl Channels {
    /// How many interleaved channels a frame carries.
    pub fn count(&self) -> (r: usize)
        ensures
            self == Channels::Mono ==> r == 1,
            self == Channels::Stereo ==> r == 2,
    {
        match self {
            Channels::Mono => 1,
            Channels::Stereo => 2,
        }
    }
}

/// Direction of an audio device.
#[derive(Debug, Clone, Copy, PartialEq, Eq, Structural)]
pub enum DeviceType {
    /// A microphone or line input.
    Input,
    /// A playback device, usable for loopback capture.
    Output,
    /// A monitor of a playback device: captures what is heard.
    Monitor,
}

/// Which capture backend serves a device.
#[derive(Debug, Clone, Copy, PartialEq, Eq, Structural)]
pub enum AudioBackend {
    /// The cross-platform device API.
    Cpal,
    /// The native media daemon.
    PipeWire,
    /// The sound-server monitor reader.
    PulseAudio,
}

/// Descriptor of one capture device, as the selection surface shows it.
#[derive(Debug)]
pub struct DeviceInfo {
    pub name: String,
    pub description: String,
    pub is_default: bool,
    pub is_monitor: bool,
    pub device_type: DeviceType,
    pub backend: AudioBackend,
}

/// Description shown for one monitor device, cleaned up from its
/// sound-server name.
pub open spec fn spec_monitor_desc(name: Seq<char>) -> Seq<char> {
    spec_replace(
        spec_replace(
            spec_replace(
                spec_replace(
                    spec_replace(name, "alsa_output."@, Seq::<char>::empty()),
                    ".monitor"@,
                    Seq::<char>::empty(),
                ),
                "_"@,
                " "@,
            ),
            "-"@,
            " "@,
        ),
        ".analog stereo"@,
        " (Stereo)"@,
    ) + " (Monitor)"@
}

/// Names of the monitor devices among the sound server's source lines:
/// the second tab-separated field of every line whose second field holds
/// `.monitor`.
pub open spec fn spec_monitor_names(lines: Seq<Seq<char>>) -> Seq<Seq<char>>
    decreases lines.len(),
{
    if lines.len() == 0 {
        Seq::<Seq<char>>::empty()
    } else {
        let rest = spec_monitor_names(lines.drop_last());
        let parts = split_on(lines.last(), '\t');
        if parts.len() >= 2 && has_substr(parts[1], ".monitor"@) {
            rest.push(parts[1])
        } else {
            rest
        }
    }
}

/// Parse the sound server's short source listing into the device list
/// the selection surface shows: the automatic system-audio entry first,
/// then one entry per monitor device.
pub fn parse_pactl_sources(output: &str) -> (r: Vec<DeviceInfo>)
    ensures
        ({
            let names = spec_monitor_names(split_on(output@, '\n'));
            &&& r@.len() == 1 + names.len()
            &&& r@[0].name@ == "auto"@
            &&& r@[0].description@ == "System Audio (Auto-detect)"@
            &&& r@[0].is_default
            &&& r@[0].is_monitor
            &&& r@[0].device_type == DeviceType::Monitor
            &&& r@[0].backend == AudioBackend::PulseAudio
            &&& (forall|i: int|
                1 <= i < r@.len() ==> (#[trigger] r@[i]).name@ == names[i - 1] && r@[i].description@
                    == spec_monitor_desc(names[i - 1]) && !r@[i].is_default && r@[i].is_monitor
                    && r@[i].device_type == DeviceType::Monitor && r@[i].backend
                    == AudioBackend::PulseAudio)
        }),
{
    let mut r: Vec<DeviceInfo> = Vec::new();
    r.push(
        DeviceInfo {
            name: String::from_str("auto"),
            description: String::from_str("System Audio (Auto-detect)"),
            is_default: true,
            is_monitor: true,
            device_type: DeviceType::Monitor,
            backend: AudioBackend::PulseAudio,
        },
    );
    let lines = split_str(output, '\n');
    let ghost lv = lines.deep_view();
    let mut li: usize = 0;
    proof {
        assert(lv.take(0) =~= Seq::<Seq<char>>::empty());
    }
    while li < lines.len()
        invariant
            lv == lines.deep_view(),
            lv.len() == lines@.len(),
            forall|k: int| 0 <= k < lines@.len() ==> lv[k] == lines@[k]@,
            li <= lines@.len(),
            r@.len() == 1 + spec_monitor_names(lv.take(li as int)).len(),
            r@[0].name@ == "auto"@,
            r@[0].description@ == "System Audio (Auto-detect)"@,
            r@[0].is_default,
            r@[0].is_monitor,
            r@[0].device_type == DeviceType::Monitor,
            r@[0].backend == AudioBackend::PulseAudio,
            forall|i: int|
                1 <= i < r@.len() ==> (#[trigger] r@[i]).name@ == spec_monitor_names(
                    lv.take(li as int),
                )[i - 1] && r@[i].description@ == spec_monitor_desc(
                    spec_monitor_names(lv.take(li as int))[i - 1],
                ) && !r@[i].is_default && r@[i].is_monitor && r@[i].device_type
                == DeviceType::Monitor && r@[i].backend == AudioBackend::PulseAudio,
        decreases lines@.len() - li,
    {
        proof {
            assert(lv.take(li as int + 1).drop_last() =~= lv.take(li as int));
            assert(lv.take(li as int + 1).last() == lv[li as int]);
        }
        let parts = split_str(lines[li].as_str(), '\t');
        if parts.len() >= 2 && contains_str(parts[1].as_str(), ".monitor") {
            proof {
                reveal_strlit("alsa_output.");
                reveal_strlit(".monitor");
                reveal_strlit("_");
                reveal_strlit("-");
                reveal_strlit(".analog stereo");
                reveal_strlit("");
                assert("alsa_output."@.len() == 12);
                assert(".monitor"@.len() == 8);
                assert("_"@.len() == 1);
                assert("-"@.len() == 1);
                assert(".analog stereo"@.len() == 14);
                assert(""@ =~= Seq::<char>::empty());
            }
            let name = parts[1].clone();
            let mut description = replace_str(
                replace_str(
                    replace_str(
                        replace_str(
                            replace_str(parts[1].as_str(), "alsa_output.", "").as_str(),
                            ".monitor",
                            "",
                        ).as_str(),
                        "_",
                        " ",
                    ).as_str(),
                    "-",
                    " ",
                ).as_str(),
                ".analog stereo",
                " (Stereo)",
            );
            description.append(" (Monitor)");
            proof {
                assert(parts.deep_view()[1] == parts@[1]@);
                assert(description@ =~= spec_monitor_desc(split_on(lv[li as int], '\t')[1]));
            }
            r.push(
                DeviceInfo {
                    name,
                    description,
                    is_default: false,
                    is_monitor: true,
                    device_type: DeviceType::Monitor,
                    backend: AudioBackend::PulseAudio,
                },
            );
        }
        li = li + 1;
    }
    proof {
        assert(lv.take(lines@.len() as int) =~= lv);
    }
    r
}

/// The first monitor device among the sound server's source lines; what
/// the automatic device selection resolves to.
pub open spec fn spec_first_monitor(lines: Seq<Seq<char>>) -> Option<Seq<char>>
    decreases lines.len(),
{
    if lines.len() == 0 {
        None
    } else {
        let parts = split_on(lines[0], '\t');
        if parts.len() >= 2 && has_substr(parts[1], ".monitor"@) {
            Some(parts[1])
        } else {
            spec_first_monitor(lines.skip(1))
        }
    }
}

/// Resolve the automatic device selection: the first monitor source in
/// the sound server's listing, or nothing when none exists.
pub fn find_default_monitor(output: &str) -> (r: Option<String>)
    ensures
        (r matches Some(n) ==> spec_first_monitor(split_on(output@, '\n')) == Some(n@)),
        r is None ==> spec_first_monitor(split_on(output@, '\n')) is None,
{
    let lines = split_str(output, '\n');
    let ghost lv = lines.deep_view();
    let mut li: usize = 0;
    proof {
        assert(lv.skip(0) =~= lv);
    }
    while li < lines.len()
        invariant
            lv == lines.deep_view(),
            lv == split_on(output@, '\n'),
            lv.len() == lines@.len(),
            forall|k: int| 0 <= k < lines@.len() ==> lv[k] == lines@[k]@,
            li <= lines@.len(),
            spec_first_monitor(lv) == spec_first_monitor(lv.skip(li as int)),
        decreases lines@.len() - li,
    {
        proof {
            assert(lv.skip(li as int)[0] == lv[li as int]);
            assert(lv.skip(li as int).skip(1) =~= lv.skip(li as int + 1));
        }
        let parts = split_str(lines[li].as_str(), '\t');
        if parts.len() >= 2 && contains_str(parts[1].as_str(), ".monitor") {
            let found = parts[1].clone();
            proof {
                assert(parts.deep_view()[1] == parts@[1]@);
                assert(parts.deep_view().len() == parts@.len());
                assert(spec_first_monitor(lv.skip(li as int)) == Some(
                    split_on(lv[li as int], '\t')[1],
                ));
                assert(spec_first_monitor(split_on(output@, '\n')) == Some(found@));
            }
            return Some(found);
        }
        li = li + 1;
    }
    proof {
        assert(lv.skip(lines@.len() as int) =~= Seq::<Seq<char>>::empty());
    }
    None
}

/// Delivery side of the audio capture engine.
#[derive(Debug)]
pub struct AudioEngine {
    /// Whether a capture worker is attached.
    pub running: bool,
    /// Chunks delivered by the worker and not yet drained, oldest first.
    pub queue: Vec<Vec<i32>>,
}

impl AudioEngine {
    /// A stopped engine holds no pending chunks.
    pub open spec fn wf(self) -> bool {
        !self.running ==> self.queue@.len() == 0
    }

    /// A fresh engine: stopped and empty.
    pub fn new() -> (r: Self)
        ensures
            r.wf(),
            !r.running,
            r.queue@.len() == 0,
    {
        AudioEngine { running: false, queue: Vec::new() }
    }

    /// Attach a capture worker.  Idempotent: a second start changes
    /// nothing and still succeeds.
    pub fn start(&mut self) -> (r: Result<(), AudioError>)
        requires
            old(self).wf(),
        ensures
            final(self).wf(),
            r is Ok,
            final(self).running,
            old(self).running ==> *final(self) == *old(self),
            !old(self).running ==> final(self).queue@.len() == 0,
    {
        if !self.running {
            self.running = true;
        }
        Ok(())
    }

    /// Detach the worker and drop whatever it had delivered.
    pub fn stop(&mut self)
        ensures
            final(self).wf(),
            !final(self).running,
            final(self).queue@.len() == 0,
    {
        self.running = false;
        self.queue = Vec::new();
    }

    /// Deliver one chunk from the worker.  A stopped engine drops it.
    pub fn push_chunk(&mut self, chunk: Vec<i32>)
        requires
            old(self).wf(),
        ensures
            final(self).wf(),
            old(self).running ==> final(self).queue@ == old(self).queue@.push(chunk)
                && final(self).running,
            !old(self).running ==> *final(self) == *old(self),
    {
        if self.running {
            self.queue.push(chunk);
        }
    }

    /// Next chunk, without blocking: the oldest pending one, or nothing.
    /// An engine that is stopped, or was never started, yields nothing.
    pub fn try_recv(&mut self) -> (r: Option<Vec<i32>>)
        requires
            old(self).wf(),
        ensures
            final(self).wf(),
            final(self).running == old(self).running,
            !old(self).running ==> r is None && *final(self) == *old(self),
            old(self).queue@.len() == 0 ==> r is None && *final(self) == *old(self),
            old(self).running && old(self).queue@.len() > 0 ==> (r matches Some(c) && c@ == old(
                self,
            ).queue@[0]@ && final(self).queue@ == old(self).queue@.skip(1)),
    {
        if !self.running || self.queue.len() == 0 {
            return None;
        }
        let chunk = self.queue.remove(0);
        proof {
            assert(old(self).queue@.remove(0) =~= old(self).queue@.skip(1));
        }
        Some(chunk)
    }

    /// Drain every pending chunk at once, oldest first.
    pub fn drain(&mut self) -> (r: Vec<Vec<i32>>)
        requires
            old(self).wf(),
        ensures
            final(self).wf(),
            final(self).running == old(self).running,
            r@ == old(self).queue@,
            final(self).queue@.len() == 0,
    {
        let mut out: Vec<Vec<i32>> = Vec::new();
        core::mem::swap(&mut out, &mut self.queue);
        out
    }

    /// Whether a capture worker is attached.
    pub fn is_running(&self) -> (r: bool)
        ensures
            r == self.running,
    {
        self.running
    }
}

} // verus!
