//! The [`Stream`] handle returned by `open()`.
//!
//! Each backend implements [`StreamImpl`] to provide a uniform control
//! surface (`play`, `pause`, `stop`) regardless of whether the backend
//! drives the callback from a worker thread (ALSA, PulseAudio) or from
//! an OS-owned audio thread (CoreAudio, WASAPI).

use std::time::Duration;
use vstd::prelude::*;

use crate::error::Error;
use crate::format::StreamFormat;

verus! {

/// Per-backend stream implementation. The public surface is [`Stream`],
/// which wraps one of these.
///
/// What a call does to the backend is a relation that an implementation may
/// give; one that gives none promises nothing. The contracts of [`Stream`]
/// say which call was made, and pass on what is promised of its outcome.
pub trait StreamImpl: Sized {
    /// What a call of `play` can do.
    open spec fn plays(before: Self, after: Self, reply: Result<(), Error>) -> bool {
        true
    }

    /// What a call of `pause` can do.
    open spec fn pauses(before: Self, after: Self, reply: Result<(), Error>) -> bool {
        true
    }

    /// What a call of `stop` can do.
    open spec fn stops(before: Self, after: Self) -> bool {
        true
    }

    /// What a call of `format` can return.
    open spec fn reports_format(self, format: StreamFormat) -> bool {
        true
    }

    /// What a call of `latency` can return.
    open spec fn reports_latency(self, latency: Option<Duration>) -> bool {
        true
    }

    fn play(&mut self) -> (reply: Result<(), Error>)
        ensures
            Self::plays(*old(self), *final(self), reply),
    ;

    fn pause(&mut self) -> (reply: Result<(), Error>)
        ensures
            Self::pauses(*old(self), *final(self), reply),
    ;

    fn format(&self) -> (format: StreamFormat)
        ensures
            self.reports_format(format),
    ;

    /// Output-side latency: how far behind real-time a sample is by the
    /// time it's submitted to the callback. Covers software buffering plus
    /// whatever the backend can see of the hardware pipeline. Backends
    /// that can't measure it return `None`.
    fn latency(&self) -> (latency: Option<Duration>)
        ensures
            self.reports_latency(latency),
    ;

    /// Stop and release all resources.
    fn stop(&mut self)
        ensures
            Self::stops(*old(self), *final(self)),
    ;
}

/// Unity gain: the bit pattern of `1.0f32`.
pub const UNITY_GAIN: u32 = 0x3F80_0000;

/// Whether the f32 with this bit pattern is not a number.
pub open spec fn gain_is_nan(bits: u32) -> bool {
    (bits as int) % 0x8000_0000 > 0x7F80_0000
}

/// Whether the f32 with this bit pattern has its sign bit set.
pub open spec fn gain_is_negative(bits: u32) -> bool {
    bits >= 0x8000_0000
}

/// The gain a volume request comes to: negative values and NaN are
/// silence, everything else is taken as it is.
pub open spec fn clamped_gain(bits: u32) -> u32 {
    if gain_is_nan(bits) || gain_is_negative(bits) {
        0
    } else {
        bits
    }
}

/// Clamps a volume, given and returned as an f32 bit pattern.
pub fn clamp_gain(bits: u32) -> (gain: u32)
    ensures
        gain == clamped_gain(bits),
{
    if bits > 0x7F80_0000 {
        0
    } else {
        bits
    }
}

/// What the gain stage does to a rendered buffer.
#[derive(Debug, Clone, Copy, PartialEq, Eq, Structural)]
pub enum GainStage {
    /// Unity gain: the samples pass through untouched.
    Bypass,
    /// Every sample is multiplied by the gain.
    Scale,
}

/// Picks the gain stage for a gain bit pattern: unity gain bypasses the
/// multiplication entirely.
pub fn gain_stage(gain: u32) -> (stage: GainStage)
    ensures
        stage == (if gain == UNITY_GAIN {
            GainStage::Bypass
        } else {
            GainStage::Scale
        }),
{
    if gain == UNITY_GAIN {
        GainStage::Bypass
    } else {
        GainStage::Scale
    }
}

/// Handle to an open audio output stream.
///
/// Streams start in the **playing** state: the callback begins running
/// as soon as `open()` returns (every backend behaves this way). Call
/// [`Stream::pause`] right after opening if you need to prepare a
/// stream ahead of time.
pub struct Stream<I: StreamImpl> {
    inner: I,
    stopped: bool,
    /// Last successfully *requested* transport state, see
    /// [`Stream::is_playing`].
    playing: bool,
    /// Software gain applied to the callback's output, as f32 bits.
    volume: u32,
}

impl<I: StreamImpl> Stream<I> {
    /// The backend's side of the stream.
    pub closed spec fn backend(self) -> I {
        self.inner
    }

    /// Whether the backend was told to stop.
    pub closed spec fn is_stopped(self) -> bool {
        self.stopped
    }

    /// The last transport state successfully requested.
    pub closed spec fn wants_playing(self) -> bool {
        self.playing
    }

    /// The software gain, as f32 bits.
    pub closed spec fn gain(self) -> u32 {
        self.volume
    }

    /// A stream over a backend that is already running, at unity gain.
    pub fn new(inner: I) -> (stream: Self)
        ensures
            stream.backend() == inner,
            !stream.is_stopped(),
            stream.wants_playing(),
            stream.gain() == UNITY_GAIN,
    {
        Stream { inner, stopped: false, playing: true, volume: UNITY_GAIN }
    }

    /// Asks the backend to play. The requested state changes only when the
    /// backend accepts.
    pub fn play(&mut self) -> (reply: Result<(), Error>)
        ensures
            I::plays(old(self).backend(), final(self).backend(), reply),
            final(self).wants_playing() == (reply is Ok || old(self).wants_playing()),
            final(self).is_stopped() == old(self).is_stopped(),
            final(self).gain() == old(self).gain(),
    {
        let reply = self.inner.play();
        if reply.is_ok() {
            self.playing = true;
        }
        reply
    }

    /// Asks the backend to pause. The requested state changes only when
    /// the backend accepts.
    pub fn pause(&mut self) -> (reply: Result<(), Error>)
        ensures
            I::pauses(old(self).backend(), final(self).backend(), reply),
            final(self).wants_playing() == (!(reply is Ok) && old(self).wants_playing()),
            final(self).is_stopped() == old(self).is_stopped(),
            final(self).gain() == old(self).gain(),
    {
        let reply = self.inner.pause();
        if reply.is_ok() {
            self.playing = false;
        }
        reply
    }

    /// The last transport state successfully requested through this
    /// handle: `true` from `open()` (streams start playing) and after a
    /// successful [`Stream::play`], `false` after a successful
    /// [`Stream::pause`] or once the stream is stopped.
    ///
    /// This tracks *requests*, not a hardware query -- a device yanked
    /// mid-playback doesn't flip it.
    pub fn is_playing(&self) -> (playing: bool)
        ensures
            playing == (self.wants_playing() && !self.is_stopped()),
    {
        self.playing && !self.stopped
    }

    /// Set the software volume applied to everything the callback
    /// renders, given as an f32 bit pattern.
    ///
    /// `1.0` (the default) is unity gain and bypasses the multiply
    /// entirely; `0.0` is silence; values in between attenuate linearly
    /// (amplitude, not dB). Values above `1.0` amplify and may clip the
    /// backend's output range. Negative values and `NaN` clamp to
    /// `0.0`.
    pub fn set_volume(&mut self, volume: u32)
        ensures
            final(self).gain() == clamped_gain(volume),
            final(self).backend() == old(self).backend(),
            final(self).is_stopped() == old(self).is_stopped(),
            final(self).wants_playing() == old(self).wants_playing(),
    {
        self.volume = clamp_gain(volume);
    }

    /// The current software volume as an f32 bit pattern, as last set by
    /// [`Stream::set_volume`] (after clamping). Defaults to `1.0`.
    pub fn volume(&self) -> (gain: u32)
        ensures
            gain == self.gain(),
    {
        self.volume
    }

    /// The format the backend agreed on.
    pub fn format(&self) -> (format: StreamFormat)
        ensures
            self.backend().reports_format(format),
    {
        self.inner.format()
    }

    /// Current output latency, if the backend can measure it. Callers can
    /// subtract this from their audio clock to compensate Bluetooth and
    /// network sinks.
    pub fn latency(&self) -> (latency: Option<Duration>)
        ensures
            self.backend().reports_latency(latency),
    {
        self.inner.latency()
    }

    /// Stops the backend, unless that has been done already.
    pub fn shut_down(&mut self)
        ensures
            final(self).is_stopped(),
            final(self).wants_playing() == old(self).wants_playing(),
            final(self).gain() == old(self).gain(),
            if old(self).is_stopped() {
                final(self).backend() == old(self).backend()
            } else {
                I::stops(old(self).backend(), final(self).backend())
            },
    {
        if !self.stopped {
            self.inner.stop();
            self.stopped = true;
        }
    }

    /// Ends the stream and hands the backend's side back, stopped.
    pub fn stop(self) -> (inner: I)
        ensures
            if self.is_stopped() {
                inner == self.backend()
            } else {
                I::stops(self.backend(), inner)
            },
    {
        let mut stream = self;
        stream.shut_down();
        stream.inner
    }
}

/// Clamping a volume a second time changes nothing, and no clamped volume
/// is negative or NaN.
pub proof fn law_clamped_gain_is_settled(bits: u32)
    ensures
        clamped_gain(clamped_gain(bits)) == clamped_gain(bits),
        !gain_is_nan(clamped_gain(bits)),
        !gain_is_negative(clamped_gain(bits)),
{
}

} // verus!
