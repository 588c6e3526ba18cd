//! Sample-format types exposed on the public API.
//!
//! The callback always receives f32 interleaved samples at the device's
//! sample rate. Backends convert internally when the device wants
//! something else (e.g. S16LE on very old ALSA cards).

use vstd::prelude::*;

verus! {

#[derive(Debug, Clone, Copy, PartialEq, Eq, Structural)]
pub enum SampleFormat {
    /// 32-bit IEEE 754 float, native endian, interleaved. The only
    /// format the public callback API currently speaks.
    F32,
}

/// Caller-supplied preferred format. Backends may return a different
/// actual format in [`StreamFormat`] if the device can't honor the
/// request exactly.
#[derive(Debug)]
pub struct StreamRequest {
    pub sample_rate: u32,
    pub channels: u16,
    pub format: SampleFormat,
    /// Requested buffer size in frames (one frame = `channels` samples).
    /// `None` lets the backend pick. Backends treat this as a hint, not
    /// a constraint.
    pub buffer_frames: Option<u32>,
    /// Opaque id of the endpoint to open, as enumerated by the same
    /// backend. `None` opens the system default.
    pub device: Option<String>,
}

impl Clone for StreamRequest {
    fn clone(&self) -> (copy: Self)
        ensures
            copy == *self,
    {
        let device = match &self.device {
            Some(id) => Some(id.clone()),
            None => None,
        };
        StreamRequest {
            sample_rate: self.sample_rate,
            channels: self.channels,
            format: self.format,
            buffer_frames: self.buffer_frames,
            device,
        }
    }
}

impl StreamRequest {
    /// The text of the requested endpoint's id, if one is requested.
    pub open spec fn device_id(self) -> Option<Seq<char>> {
        match self.device {
            Some(id) => Some(id@),
            None => None,
        }
    }

    /// A request for `sample_rate` and `channels` on the system default
    /// endpoint, with the buffer size left to the backend.
    pub fn new(sample_rate: u32, channels: u16) -> (req: Self)
        ensures
            req.sample_rate == sample_rate,
            req.channels == channels,
            req.format == SampleFormat::F32,
            req.buffer_frames is None,
            req.device_id() is None,
    {
        StreamRequest {
            sample_rate,
            channels,
            format: SampleFormat::F32,
            buffer_frames: None,
            device: None,
        }
    }

    /// The same request with another buffer-size hint.
    pub fn with_buffer_frames(self, buffer_frames: Option<u32>) -> (req: Self)
        ensures
            req == (StreamRequest { buffer_frames, ..self }),
    {
        StreamRequest {
            sample_rate: self.sample_rate,
            channels: self.channels,
            format: self.format,
            buffer_frames,
            device: self.device,
        }
    }

    /// The same request bound to the endpoint `id`.
    pub fn with_device(self, id: &str) -> (req: Self)
        ensures
            req.device_id() == Some(id@),
            req == (StreamRequest { device: req.device, ..self }),
    {
        StreamRequest {
            sample_rate: self.sample_rate,
            channels: self.channels,
            format: self.format,
            buffer_frames: self.buffer_frames,
            device: Some(id.to_owned()),
        }
    }
}

/// Actual stream parameters after the backend has reconciled the
/// request with what the device supports.
#[derive(Debug, Clone, Copy, PartialEq, Eq, Structural)]
pub struct StreamFormat {
    pub sample_rate: u32,
    pub channels: u16,
    pub format: SampleFormat,
}

/// Information passed to the callback alongside the output buffer.
#[derive(Debug, Clone, Copy, PartialEq, Eq, Structural)]
pub struct CallbackInfo {
    /// Monotonic count of frames played on this stream. Useful as a
    /// cheap audio master clock.
    pub frames_played: u64,
}

/// A single output device discovered by a backend's enumeration.
///
/// The `id` is the backend-native opaque identifier (an ALSA PCM name, a
/// WASAPI endpoint id rendered as UTF-8, a CoreAudio numeric
/// `AudioDeviceID` formatted as decimal); `name` is the human-friendly
/// label the OS shows in its sound settings. Exactly one device in a list
/// has `is_default == true`, the one a plain `open()` would use, as long as
/// the system reports one default endpoint and lists it once.
#[derive(Debug, PartialEq, Eq)]
pub struct Device {
    /// Backend-native opaque identifier. Format differs per backend; do
    /// not parse it -- treat it as an opaque token for logging or
    /// equality comparison against another `Device` from the same
    /// backend.
    pub id: String,
    /// Human-readable name as shown in the OS sound settings. May be
    /// empty if the OS exposes no friendly label.
    pub name: String,
    /// `true` for the system's current default output endpoint.
    pub is_default: bool,
}

impl Clone for Device {
    fn clone(&self) -> (copy: Self)
        ensures
            copy == *self,
    {
        Device { id: self.id.clone(), name: self.name.clone(), is_default: self.is_default }
    }
}

impl Device {
    /// Whether this device has exactly these texts and this tag.
    pub open spec fn is(self, id: Seq<char>, name: Seq<char>, is_default: bool) -> bool {
        self.id@ == id && self.name@ == name && self.is_default == is_default
    }
}

/// Whether exactly one of these `(id, name, is_default)` entries is tagged
/// as the default.
pub open spec fn has_one_default(entries: Seq<(Seq<char>, Seq<char>, bool)>) -> bool {
    exists|i: int| is_the_one_default(entries, i)
}

/// Whether the entry at `i` is tagged as the default, and no other is.
pub open spec fn is_the_one_default(entries: Seq<(Seq<char>, Seq<char>, bool)>, i: int) -> bool {
    &&& 0 <= i < entries.len()
    &&& entries[i].2
    &&& forall|j: int| 0 <= j < entries.len() && j != i ==> !(#[trigger] entries[j]).2
}

/// Whether a list of devices has exactly these `(id, name, is_default)`
/// entries, in this order.
pub open spec fn lists(devices: Seq<Device>, entries: Seq<(Seq<char>, Seq<char>, bool)>) -> bool {
    &&& devices.len() == entries.len()
    &&& forall|i: int|
        0 <= i < devices.len() ==> (#[trigger] devices[i]).is(
            entries[i].0,
            entries[i].1,
            entries[i].2,
        )
}

} // verus!
