//! OSS output backend: the decisions behind the `open`, `ioctl` and `write`
//! calls on `/dev/dsp`.
//!
//! OSS is largely supplanted by PulseAudio and ALSA on Linux, so it sits
//! last in the probe order. It has no separate period control: the size of
//! each `write` is the period.

use std::time::Duration;
use vstd::prelude::*;
use vstd::string::*;

use crate::backends::alsa::clamp_channels;
use crate::error::Error;
use crate::format::{CallbackInfo, SampleFormat, StreamFormat, StreamRequest};
use crate::text::{has_nul, push_signed};
use crate::time::{default_period_frames, frames_to_nanos, nanos};

verus! {

/// `SNDCTL_DSP_SETFMT`.
pub const SNDCTL_DSP_SETFMT: u32 = 0xC004_5005;

/// `SNDCTL_DSP_CHANNELS`.
pub const SNDCTL_DSP_CHANNELS: u32 = 0xC004_5006;

/// `SNDCTL_DSP_SPEED`.
pub const SNDCTL_DSP_SPEED: u32 = 0xC004_5002;

/// `AFMT_S16_LE`: the one format every OSS driver takes.
pub const AFMT_S16_LE: i32 = 0x10;

/// The device that is opened when none is asked for.
pub open spec fn device_path(id: Option<Seq<char>>) -> Seq<char> {
    match id {
        Some(path) => path,
        None => "/dev/dsp"@,
    }
}

/// The character device to open: the request's id is its path. A path with a
/// NUL inside is rejected.
pub fn path_of(req: &StreamRequest) -> (path: Result<String, Error>)
    ensures
        match path {
            Ok(p) => p@ == device_path(req.device_id()) && (req.device_id() is Some
                ==> !p@.contains('\0')),
            Err(e) => {
                &&& req.device_id() is Some
                &&& req.device_id()->0.contains('\0')
                &&& e.is_device_open("oss"@, "device id contains an interior NUL byte"@)
            },
        },
{
    match &req.device {
        None => Ok("/dev/dsp".to_owned()),
        Some(id) => {
            if has_nul(id.as_str()) {
                Err(
                    Error::DeviceOpen {
                        backend: "oss",
                        detail: "device id contains an interior NUL byte".to_owned(),
                    },
                )
            } else {
                Ok(id.clone())
            }
        },
    }
}

/// The frames of one `write`: the hint, or 20 ms, never below 64 frames.
pub open spec fn write_frames(hint: Option<u32>, rate: u32) -> int {
    match hint {
        Some(frames) => frames as int,
        None => crate::time::default_period(rate as int),
    }
}

/// Where the opening of a device stands.
#[derive(Debug, Clone, Copy, PartialEq, Eq, Structural)]
pub enum OssStage {
    Open,
    SetFormat,
    SetChannels,
    SetSpeed,
    Spawn,
    Running,
    CloseOnError,
    Failed,
}

/// The call that an opening makes next.
#[derive(Debug, Clone, Copy, PartialEq, Eq, Structural)]
pub enum OssCall {
    /// `open`, for writing only.
    Open,
    /// `ioctl` with this request, on an integer with this value.
    Ioctl { request: u32, value: i32 },
    /// Start the worker thread.
    SpawnWorker,
    /// `close`.
    Close,
    Nothing,
}

/// What a call returned, and the integer that an `ioctl` left behind.
#[derive(Debug, Clone, Copy, PartialEq, Eq, Structural)]
pub struct OssReply {
    pub code: i32,
    pub value: i32,
}

/// Why an opening failed.
#[derive(Debug, Clone, Copy, PartialEq, Eq, Structural)]
pub enum OssFailure {
    Open(i32),
    SetFormat(i32),
    /// The device insists on this format.
    Format(i32),
    SetChannels(i32),
    /// The device answered with this channel count.
    Channels(i32),
    SetSpeed(i32),
    /// The device answered with this rate.
    Speed(i32),
    Spawn,
}

/// An opening in progress.
#[derive(Debug, Clone, Copy, PartialEq, Eq, Structural)]
pub struct OssOpen {
    pub stage: OssStage,
    pub channels: u16,
    pub rate: u32,
    pub failure: Option<OssFailure>,
}

/// A rate as the integer that an `ioctl` takes.
pub open spec fn ioctl_rate(rate: u32) -> int {
    crate::time::at_most(rate as int, i32::MAX as int)
}

impl OssOpen {
    /// The opening of `req`, before any call.
    pub open spec fn started(req: StreamRequest) -> OssOpen {
        OssOpen {
            stage: OssStage::Open,
            channels: crate::backends::alsa::clamped_channels(req.channels),
            rate: req.sample_rate,
            failure: None,
        }
    }

    /// The call that the current stage makes.
    pub open spec fn due(self) -> OssCall {
        match self.stage {
            OssStage::Open => OssCall::Open,
            OssStage::SetFormat => OssCall::Ioctl {
                request: SNDCTL_DSP_SETFMT,
                value: AFMT_S16_LE,
            },
            OssStage::SetChannels => OssCall::Ioctl {
                request: SNDCTL_DSP_CHANNELS,
                value: self.channels as i32,
            },
            OssStage::SetSpeed => OssCall::Ioctl {
                request: SNDCTL_DSP_SPEED,
                value: ioctl_rate(self.rate) as i32,
            },
            OssStage::Spawn => OssCall::SpawnWorker,
            OssStage::CloseOnError => OssCall::Close,
            OssStage::Running => OssCall::Nothing,
            OssStage::Failed => OssCall::Nothing,
        }
    }

    /// The opening stopped by a failure, with the device to be closed if it
    /// is open.
    pub open spec fn stopped_by(self, failure: OssFailure) -> OssOpen {
        OssOpen {
            stage: if failure is Open {
                OssStage::Failed
            } else {
                OssStage::CloseOnError
            },
            failure: Some(failure),
            ..self
        }
    }

    /// The opening after the current call's reply. The device answers each
    /// `ioctl` with the value it settled on.
    pub open spec fn after(self, reply: OssReply) -> OssOpen {
        match self.stage {
            OssStage::Open => if reply.code < 0 {
                self.stopped_by(OssFailure::Open(reply.code))
            } else {
                OssOpen { stage: OssStage::SetFormat, ..self }
            },
            OssStage::SetFormat => if reply.code < 0 {
                self.stopped_by(OssFailure::SetFormat(reply.code))
            } else if reply.value != AFMT_S16_LE {
                self.stopped_by(OssFailure::Format(reply.value))
            } else {
                OssOpen { stage: OssStage::SetChannels, ..self }
            },
            OssStage::SetChannels => if reply.code < 0 {
                self.stopped_by(OssFailure::SetChannels(reply.code))
            } else if reply.value < 1 || reply.value > u16::MAX {
                self.stopped_by(OssFailure::Channels(reply.value))
            } else {
                OssOpen { stage: OssStage::SetSpeed, channels: reply.value as u16, ..self }
            },
            OssStage::SetSpeed => if reply.code < 0 {
                self.stopped_by(OssFailure::SetSpeed(reply.code))
            } else if reply.value < 1 {
                self.stopped_by(OssFailure::Speed(reply.value))
            } else {
                OssOpen { stage: OssStage::Spawn, rate: reply.value as u32, ..self }
            },
            OssStage::Spawn => if reply.code < 0 {
                self.stopped_by(OssFailure::Spawn)
            } else {
                OssOpen { stage: OssStage::Running, ..self }
            },
            OssStage::CloseOnError => OssOpen { stage: OssStage::Failed, ..self },
            OssStage::Running => self,
            OssStage::Failed => self,
        }
    }

    /// Begins the opening of `req`.
    pub fn start(req: &StreamRequest) -> (opening: OssOpen)
        ensures
            opening == OssOpen::started(*req),
    {
        OssOpen {
            stage: OssStage::Open,
            channels: clamp_channels(req.channels),
            rate: req.sample_rate,
            failure: None,
        }
    }

    /// The call to make next.
    pub fn call(&self) -> (call: OssCall)
        ensures
            call == self.due(),
    {
        match self.stage {
            OssStage::Open => OssCall::Open,
            OssStage::SetFormat => OssCall::Ioctl {
                request: SNDCTL_DSP_SETFMT,
                value: AFMT_S16_LE,
            },
            OssStage::SetChannels => OssCall::Ioctl {
                request: SNDCTL_DSP_CHANNELS,
                value: self.channels as i32,
            },
            OssStage::SetSpeed => {
                let value: i32 = if self.rate > 0x7FFF_FFFF {
                    i32::MAX
                } else {
                    self.rate as i32
                };
                OssCall::Ioctl { request: SNDCTL_DSP_SPEED, value }
            },
            OssStage::Spawn => OssCall::SpawnWorker,
            OssStage::CloseOnError => OssCall::Close,
            OssStage::Running | OssStage::Failed => OssCall::Nothing,
        }
    }

    fn stop_by(self, failure: OssFailure) -> (next: OssOpen)
        ensures
            next == self.stopped_by(failure),
    {
        let mut next = self;
        next.stage = match failure {
            OssFailure::Open(_) => OssStage::Failed,
            _ => OssStage::CloseOnError,
        };
        next.failure = Some(failure);
        next
    }

    /// Takes the reply to the current call.
    pub fn step(self, reply: OssReply) -> (next: OssOpen)
        ensures
            next == self.after(reply),
    {
        let mut next = self;
        match self.stage {
            OssStage::Open => {
                if reply.code < 0 {
                    return self.stop_by(OssFailure::Open(reply.code));
                }
                next.stage = OssStage::SetFormat;
            },
            OssStage::SetFormat => {
                if reply.code < 0 {
                    return self.stop_by(OssFailure::SetFormat(reply.code));
                }
                if reply.value != AFMT_S16_LE {
                    return self.stop_by(OssFailure::Format(reply.value));
                }
                next.stage = OssStage::SetChannels;
            },
            OssStage::SetChannels => {
                if reply.code < 0 {
                    return self.stop_by(OssFailure::SetChannels(reply.code));
                }
                if reply.value < 1 || reply.value > 0xFFFF {
                    return self.stop_by(OssFailure::Channels(reply.value));
                }
                next.stage = OssStage::SetSpeed;
                next.channels = reply.value as u16;
            },
            OssStage::SetSpeed => {
                if reply.code < 0 {
                    return self.stop_by(OssFailure::SetSpeed(reply.code));
                }
                if reply.value < 1 {
                    return self.stop_by(OssFailure::Speed(reply.value));
                }
                next.stage = OssStage::Spawn;
                next.rate = reply.value as u32;
            },
            OssStage::Spawn => {
                if reply.code < 0 {
                    return self.stop_by(OssFailure::Spawn);
                }
                next.stage = OssStage::Running;
            },
            OssStage::CloseOnError => {
                next.stage = OssStage::Failed;
            },
            OssStage::Running | OssStage::Failed => {},
        }
        next
    }

    /// The format that the device settled on.
    pub fn format(&self) -> (format: StreamFormat)
        ensures
            format == (StreamFormat {
                sample_rate: self.rate,
                channels: self.channels,
                format: SampleFormat::F32,
            }),
    {
        StreamFormat {
            sample_rate: self.rate,
            channels: self.channels,
            format: SampleFormat::F32,
        }
    }

    /// The opening of `req` after a sequence of replies.
    pub open spec fn after_all(req: StreamRequest, replies: Seq<OssReply>) -> OssOpen
        decreases replies.len(),
    {
        if replies.len() == 0 {
            OssOpen::started(req)
        } else {
            Self::after_all(req, replies.drop_last()).after(replies.last())
        }
    }

    /// Whether the device is open after a sequence of replies.
    pub open spec fn device_open(req: StreamRequest, replies: Seq<OssReply>) -> bool
        decreases replies.len(),
    {
        if replies.len() == 0 {
            false
        } else {
            match Self::after_all(req, replies.drop_last()).due() {
                OssCall::Open => replies.last().code >= 0,
                OssCall::Close => false,
                _ => Self::device_open(req, replies.drop_last()),
            }
        }
    }
}

/// Whatever the system replies, the device is opened once, used and closed
/// only while it is open, left open by a running stream and closed by a
/// failed one.
pub proof fn law_oss_open_closes_its_device(req: StreamRequest, replies: Seq<OssReply>)
    ensures
        ({
            let opening = OssOpen::after_all(req, replies);
            let open = OssOpen::device_open(req, replies);
            &&& opening.due() is Open ==> !open
            &&& opening.due() is Ioctl || opening.due() is Close || opening.due() is SpawnWorker
                ==> open
            &&& opening.stage is Running ==> open && opening.failure is None
            &&& opening.stage is Failed ==> !open && opening.failure is Some
        }),
    decreases replies.len(),
{
    if replies.len() > 0 {
        law_oss_open_closes_its_device(req, replies.drop_last());
        lemma_oss_failure_is_recorded(req, replies);
    }
}

proof fn lemma_oss_failure_is_recorded(req: StreamRequest, replies: Seq<OssReply>)
    ensures
        ({
            let opening = OssOpen::after_all(req, replies);
            (opening.stage is Failed || opening.stage is CloseOnError) == (opening.failure is Some)
        }),
    decreases replies.len(),
{
    if replies.len() > 0 {
        lemma_oss_failure_is_recorded(req, replies.drop_last());
    }
}

/// A running stream reports a rate and a channel count that the device
/// settled on, never zero.
pub proof fn law_oss_format_is_sane(req: StreamRequest, replies: Seq<OssReply>)
    ensures
        ({
            let opening = OssOpen::after_all(req, replies);
            &&& opening.channels >= 1
            &&& opening.stage is Spawn || opening.stage is Running ==> opening.rate >= 1
        }),
    decreases replies.len(),
{
    if replies.len() > 0 {
        law_oss_format_is_sane(req, replies.drop_last());
    }
}

/// The detail of a failed opening.
pub open spec fn failure_text(failure: OssFailure, path: Seq<char>, reason: Seq<char>) -> Seq<
    char,
> {
    match failure {
        OssFailure::Open(_) => "open "@ + path + ": "@ + reason,
        OssFailure::SetFormat(_) => "SNDCTL_DSP_SETFMT: "@ + reason,
        OssFailure::SetChannels(_) => "SNDCTL_DSP_CHANNELS: "@ + reason,
        OssFailure::SetSpeed(_) => "SNDCTL_DSP_SPEED: "@ + reason,
        OssFailure::Format(got) => "device insists on sample format "@
            + crate::text::signed_decimal(got as int),
        OssFailure::Channels(got) => "device answered with channel count "@
            + crate::text::signed_decimal(got as int),
        OssFailure::Speed(got) => "device answered with sample rate "@
            + crate::text::signed_decimal(got as int),
        OssFailure::Spawn => "spawn worker: "@ + reason,
    }
}

/// The error a failed opening is reported with. `reason` is what the system
/// says of the call that failed.
pub fn open_error(failure: OssFailure, path: &str, reason: &str) -> (error: Error)
    ensures
        match failure {
            OssFailure::Format(_) | OssFailure::Channels(_) | OssFailure::Speed(_) => {
                error.is_unsupported_format("oss"@, failure_text(failure, path@, reason@))
            },
            OssFailure::Spawn => error.is_runtime("oss"@, failure_text(failure, path@, reason@)),
            _ => error.is_device_open("oss"@, failure_text(failure, path@, reason@)),
        },
{
    let mut detail = String::new();
    match failure {
        OssFailure::Open(_) => {
            detail.append("open ");
            detail.append(path);
            detail.append(": ");
            detail.append(reason);
        },
        OssFailure::SetFormat(_) => {
            detail.append("SNDCTL_DSP_SETFMT: ");
            detail.append(reason);
        },
        OssFailure::SetChannels(_) => {
            detail.append("SNDCTL_DSP_CHANNELS: ");
            detail.append(reason);
        },
        OssFailure::SetSpeed(_) => {
            detail.append("SNDCTL_DSP_SPEED: ");
            detail.append(reason);
        },
        OssFailure::Format(got) => {
            detail.append("device insists on sample format ");
            push_signed(&mut detail, got);
        },
        OssFailure::Channels(got) => {
            detail.append("device answered with channel count ");
            push_signed(&mut detail, got);
        },
        OssFailure::Speed(got) => {
            detail.append("device answered with sample rate ");
            push_signed(&mut detail, got);
        },
        OssFailure::Spawn => {
            detail.append("spawn worker: ");
            detail.append(reason);
        },
    }
    assert(detail@ =~= failure_text(failure, path@, reason@));
    match failure {
        OssFailure::Format(_) | OssFailure::Channels(_) | OssFailure::Speed(_) => {
            Error::UnsupportedFormat { backend: "oss", detail }
        },
        OssFailure::Spawn => Error::Runtime { backend: "oss", detail },
        _ => Error::DeviceOpen { backend: "oss", detail },
    }
}

/// The outcome of a probe: what the throw-away `open` of `/dev/dsp`
/// returned, and what the system says of a failure.
pub fn probe_outcome(code: i32, reason: &str) -> (outcome: Result<(), Error>)
    ensures
        match outcome {
            Ok(_) => code >= 0,
            Err(e) => code < 0 && e.is_device_open(
                "oss"@,
                failure_text(OssFailure::Open(code), "/dev/dsp"@, reason@),
            ),
        },
{
    if code < 0 {
        Err(open_error(OssFailure::Open(code), "/dev/dsp", reason))
    } else {
        Ok(())
    }
}

/// The worker's side of a running stream.
#[derive(Debug, Clone, Copy, PartialEq, Eq, Structural)]
pub struct OssWorker {
    pub period_frames: u32,
    pub channels: u16,
    /// Frames written while not paused; the frame clock.
    pub frames_played: u64,
}

/// What the worker is told.
#[derive(Debug, Clone, Copy, PartialEq, Eq, Structural)]
pub enum OssEvent {
    /// The stop flag, read at the top of the loop.
    StopFlag(bool),
    /// The pause flag, read before the period is filled.
    PauseFlag(bool),
    /// Whether the period was written, and the pause flag read after it.
    Written { ok: bool, paused: bool },
}

/// What the worker does next.
#[derive(Debug, Clone, Copy, PartialEq, Eq, Structural)]
pub enum OssTask {
    /// Read the stop flag.
    ReadStopFlag,
    /// Read the pause flag.
    ReadPauseFlag,
    /// Write one period of silence, of that many samples.
    WriteSilence(u64),
    /// Run the callback on that many samples and write them as 16-bit
    /// integers.
    RenderAndWrite(u64, CallbackInfo),
    /// Leave the loop.
    Exit,
}

impl OssWorker {
    /// The samples of one period.
    pub open spec fn samples(self) -> int {
        self.period_frames * self.channels
    }

    /// The worker after an event. The clock advances by one period per
    /// write, but not while paused.
    pub open spec fn after(self, event: OssEvent) -> OssWorker {
        match event {
            OssEvent::Written { ok, paused } if ok && !paused => OssWorker {
                frames_played: ((self.frames_played + self.period_frames)
                    % 0x1_0000_0000_0000_0000) as u64,
                ..self
            },
            _ => self,
        }
    }

    /// What the worker does next when an event finds it in this state.
    pub open spec fn answer(self, event: OssEvent) -> OssTask {
        match event {
            OssEvent::StopFlag(stop) => if stop {
                OssTask::Exit
            } else {
                OssTask::ReadPauseFlag
            },
            OssEvent::PauseFlag(paused) => if paused {
                OssTask::WriteSilence(self.samples() as u64)
            } else {
                OssTask::RenderAndWrite(
                    self.samples() as u64,
                    CallbackInfo { frames_played: self.frames_played },
                )
            },
            OssEvent::Written { ok, .. } => if ok {
                OssTask::ReadStopFlag
            } else {
                OssTask::Exit
            },
        }
    }

    /// A worker whose clock stands at zero, for the format that the device
    /// settled on. The size of its writes is the hint, or 20 ms.
    pub fn new(format: StreamFormat, hint: Option<u32>) -> (worker: OssWorker)
        ensures
            worker.period_frames == write_frames(hint, format.sample_rate),
            worker.channels == format.channels,
            worker.frames_played == 0,
    {
        let period_frames: u32 = match hint {
            Some(frames) => frames,
            None => default_period_frames(format.sample_rate),
        };
        OssWorker { period_frames, channels: format.channels, frames_played: 0 }
    }

    /// One turn of the worker.
    pub fn step(&mut self, event: OssEvent) -> (task: OssTask)
        ensures
            *final(self) == old(self).after(event),
            task == old(self).answer(event),
    {
        proof {
            assert(0 <= self.period_frames * self.channels <= 0xFFFF_FFFF * 0xFFFF)
                by (nonlinear_arith)
                requires
                    self.period_frames <= 0xFFFF_FFFF,
                    self.channels <= 0xFFFF,
            ;
        }
        let samples: u64 = self.period_frames as u64 * self.channels as u64;
        match event {
            OssEvent::StopFlag(stop) => {
                if stop {
                    OssTask::Exit
                } else {
                    OssTask::ReadPauseFlag
                }
            },
            OssEvent::PauseFlag(paused) => {
                if paused {
                    OssTask::WriteSilence(samples)
                } else {
                    OssTask::RenderAndWrite(
                        samples,
                        CallbackInfo { frames_played: self.frames_played },
                    )
                }
            },
            OssEvent::Written { ok, paused } => {
                if !ok {
                    return OssTask::Exit;
                }
                if !paused {
                    self.frames_played = self.frames_played.wrapping_add(
                        self.period_frames as u64,
                    );
                }
                OssTask::ReadStopFlag
            },
        }
    }
}

impl OssWorker {
    /// The worker after a sequence of events.
    pub open spec fn after_all(self, events: Seq<OssEvent>) -> OssWorker
        decreases events.len(),
    {
        if events.len() == 0 {
            self
        } else {
            self.after_all(events.drop_last()).after(events.last())
        }
    }

    /// The frames that a sequence of events wrote while not paused: one
    /// period for each write.
    pub open spec fn written_frames(self, events: Seq<OssEvent>) -> nat
        decreases events.len(),
    {
        if events.len() == 0 {
            0
        } else {
            self.written_frames(events.drop_last()) + match events.last() {
                OssEvent::Written { ok, paused } if ok && !paused => self.period_frames as nat,
                _ => 0nat,
            }
        }
    }
}

/// After any events the frame clock has advanced by the frames written while
/// not paused, modulo its 64 bits, and the size of a write has not changed.
pub proof fn law_oss_clock_counts_written_frames(worker: OssWorker, events: Seq<OssEvent>)
    ensures
        worker.after_all(events).period_frames == worker.period_frames,
        worker.after_all(events).channels == worker.channels,
        worker.after_all(events).frames_played == (worker.frames_played + worker.written_frames(
            events,
        )) % 0x1_0000_0000_0000_0000,
    decreases events.len(),
{
    if events.len() > 0 {
        let init = events.drop_last();
        law_oss_clock_counts_written_frames(worker, init);
        crate::time::lemma_count_wraps(
            worker.frames_played + worker.written_frames(init),
            worker.period_frames as int,
        );
    }
}

/// While paused the clock stands still and the callback is not run.
pub proof fn law_oss_pause_halts_the_clock(worker: OssWorker, event: OssEvent)
    requires
        event matches OssEvent::Written { paused, .. } ==> paused,
        event matches OssEvent::PauseFlag(paused) ==> paused,
    ensures
        worker.after(event).frames_played == worker.frames_played,
        !(worker.answer(event) is RenderAndWrite),
{
}

/// The worker-side period buffering: one period at the stream's rate.
pub fn latency(period_frames: u32, rate: u32) -> (latency: Duration)
    ensures
        latency == crate::time::duration_of_nanos(
            crate::time::frames_nanos(period_frames as int, rate as int) as u64,
        ),
{
    nanos(frames_to_nanos(period_frames as u64, rate))
}

} // verus!
