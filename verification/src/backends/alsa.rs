//! ALSA output backend: the decisions behind the `snd_pcm_*` calls.
//!
//! ALSA's blocking `snd_pcm_writei` doesn't naturally fit a pull-callback
//! model, so a worker thread loops: invoke the user callback, convert to
//! the device's format if needed, write one period, repeat.

use std::time::Duration;
use vstd::prelude::*;
use vstd::string::*;

use crate::error::Error;
use crate::format::{CallbackInfo, Device, SampleFormat, StreamFormat, StreamRequest};
use crate::text::{describe_error, first_line, has_nul, same_text};
use crate::time::{default_period_frames, frames_to_nanos, nanos};

verus! {

/// `SND_PCM_ACCESS_RW_INTERLEAVED`.
pub const ACCESS_RW_INTERLEAVED: i32 = 3;

/// `SND_PCM_FORMAT_FLOAT_LE`.
pub const FORMAT_FLOAT_LE: i32 = 14;

/// `SND_PCM_FORMAT_S16_LE`.
pub const FORMAT_S16_LE: i32 = 2;

/// The open mode of a playback stream: blocking.
pub const MODE_BLOCKING: i32 = 0;

/// `SND_PCM_NONBLOCK`, the open mode of a throw-away introspection handle.
pub const MODE_NONBLOCK: i32 = 1;

/// The PCM that a request names: its device id, or `default`.
pub open spec fn requested_pcm(req: StreamRequest) -> Seq<char> {
    match req.device_id() {
        Some(id) => id,
        None => "default"@,
    }
}

/// The PCM name to hand to `snd_pcm_open`. The enumerated device id *is*
/// the PCM name; one with a NUL inside is rejected rather than silently
/// truncated.
pub fn pcm_name(req: &StreamRequest) -> (name: Result<String, Error>)
    ensures
        match name {
            Ok(n) => n@ == requested_pcm(*req) && !n@.contains('\0'),
            Err(e) => requested_pcm(*req).contains('\0') && e.is_device_open(
                "alsa"@,
                "device id contains an interior NUL byte"@,
            ),
        },
{
    let wanted = match &req.device {
        Some(id) => id.as_str(),
        None => "default",
    };
    if has_nul(wanted) {
        Err(
            Error::DeviceOpen {
                backend: "alsa",
                detail: "device id contains an interior NUL byte".to_owned(),
            },
        )
    } else {
        Ok(wanted.to_owned())
    }
}

/// The outcome of a probe: the code of the throw-away `snd_pcm_open`, and
/// what `snd_strerror` says of it.
pub fn probe_outcome(code: i32, said: Option<&[u8]>) -> (outcome: Result<(), Error>)
    ensures
        match outcome {
            Ok(_) => code >= 0,
            Err(e) => code < 0 && e.is_device_open(
                "alsa"@,
                crate::text::error_text(crate::text::raw_text(said), "alsa"@, code),
            ),
        },
{
    if code < 0 {
        Err(Error::DeviceOpen { backend: "alsa", detail: describe_error(said, "alsa", code) })
    } else {
        Ok(())
    }
}

/// Where the opening of a stream stands.
#[derive(Debug, Clone, Copy, PartialEq, Eq, Structural)]
pub enum AlsaStage {
    Open,
    HwMalloc,
    HwAny,
    SetAccess,
    SetFormatFloat,
    SetFormatS16,
    SetChannels,
    SetRate,
    SetPeriod,
    SetBuffer,
    Commit,
    GetPeriod,
    HwFree,
    Prepare,
    Spawn,
    Running,
    HwFreeOnError,
    CloseOnError,
    Failed,
}

/// The call into libasound (or the thread spawn) that comes next.
#[derive(Debug, Clone, Copy, PartialEq, Eq, Structural)]
pub enum AlsaCall {
    Open,
    HwMalloc,
    HwAny,
    SetAccess(i32),
    SetFormat(i32),
    SetChannels(u32),
    SetRateNear(u32),
    SetPeriodSizeNear(u64),
    SetBufferSizeNear(u64),
    Commit,
    GetPeriodSize,
    HwFree,
    Prepare,
    SpawnWorker,
    Close,
    OpenNonblocking,
    SetChannelsNear(u32),
    Nothing,
}

/// What a call gave back.
#[derive(Debug, Clone, Copy, PartialEq, Eq, Structural)]
pub struct AlsaReply {
    /// The return code; negative when the call failed. A spawn that failed
    /// is a negative code too.
    pub code: i32,
    /// What `set_rate_near` left in its rate argument.
    pub rate: u32,
    /// What a period-size call left in its size argument.
    pub frames: u64,
    /// What `set_channels_near` left in its channel argument.
    pub channels: u32,
}

/// The call that stopped an opening, and its code.
#[derive(Debug, Clone, Copy, PartialEq, Eq, Structural)]
pub struct AlsaFailure {
    pub stage: AlsaStage,
    pub code: i32,
}

/// An opening in progress.
#[derive(Debug, Clone, Copy, PartialEq, Eq, Structural)]
pub struct AlsaOpen {
    pub stage: AlsaStage,
    pub failure: Option<AlsaFailure>,
    /// The caller's buffer-size hint.
    pub hint: Option<u32>,
    pub channels: u32,
    /// The rate asked for, then the rate the device snapped to.
    pub rate: u32,
    /// Whether the device takes f32 samples; otherwise it takes s16.
    pub float: bool,
    /// The period asked for, then the one the device snapped to.
    pub period: u64,
    /// The period read back after the commit.
    pub period_actual: u64,
}

impl AlsaStage {
    /// Whether the PCM handle is open while this stage's call is made.
    pub open spec fn holds_pcm(self) -> bool {
        !(self is Open) && !(self is Failed)
    }

    /// Whether the hardware-parameter block is allocated while this
    /// stage's call is made.
    pub open spec fn holds_params(self) -> bool {
        match self {
            AlsaStage::HwAny => true,
            AlsaStage::SetAccess => true,
            AlsaStage::SetFormatFloat => true,
            AlsaStage::SetFormatS16 => true,
            AlsaStage::SetChannels => true,
            AlsaStage::SetRate => true,
            AlsaStage::SetPeriod => true,
            AlsaStage::SetBuffer => true,
            AlsaStage::Commit => true,
            AlsaStage::GetPeriod => true,
            AlsaStage::HwFree => true,
            AlsaStage::HwFreeOnError => true,
            _ => false,
        }
    }

    /// Whether a negative code at this stage ends the opening. The float
    /// format has a fallback; the buffer size and the period read-back are
    /// best-effort; clean-up goes on whatever it returns.
    pub open spec fn mandatory(self) -> bool {
        match self {
            AlsaStage::SetFormatFloat => false,
            AlsaStage::SetBuffer => false,
            AlsaStage::GetPeriod => false,
            AlsaStage::HwFree => false,
            AlsaStage::Running => false,
            AlsaStage::HwFreeOnError => false,
            AlsaStage::CloseOnError => false,
            AlsaStage::Failed => false,
            _ => true,
        }
    }

    /// Where a failure at this stage leads: whatever is held is released
    /// first, the parameter block before the PCM.
    pub open spec fn on_failure(self) -> AlsaStage {
        if self.holds_params() {
            AlsaStage::HwFreeOnError
        } else if self.holds_pcm() {
            AlsaStage::CloseOnError
        } else {
            AlsaStage::Failed
        }
    }

    /// Where this stage leads when its call did what was needed.
    pub open spec fn on_success(self, code: i32) -> AlsaStage {
        match self {
            AlsaStage::Open => AlsaStage::HwMalloc,
            AlsaStage::HwMalloc => AlsaStage::HwAny,
            AlsaStage::HwAny => AlsaStage::SetAccess,
            AlsaStage::SetAccess => AlsaStage::SetFormatFloat,
            AlsaStage::SetFormatFloat => if code == 0 {
                AlsaStage::SetChannels
            } else {
                AlsaStage::SetFormatS16
            },
            AlsaStage::SetFormatS16 => AlsaStage::SetChannels,
            AlsaStage::SetChannels => AlsaStage::SetRate,
            AlsaStage::SetRate => AlsaStage::SetPeriod,
            AlsaStage::SetPeriod => AlsaStage::SetBuffer,
            AlsaStage::SetBuffer => AlsaStage::Commit,
            AlsaStage::Commit => AlsaStage::GetPeriod,
            AlsaStage::GetPeriod => AlsaStage::HwFree,
            AlsaStage::HwFree => AlsaStage::Prepare,
            AlsaStage::Prepare => AlsaStage::Spawn,
            AlsaStage::Spawn => AlsaStage::Running,
            AlsaStage::Running => AlsaStage::Running,
            AlsaStage::HwFreeOnError => AlsaStage::CloseOnError,
            AlsaStage::CloseOnError => AlsaStage::Failed,
            AlsaStage::Failed => AlsaStage::Failed,
        }
    }

    fn failure_exit(self) -> (next: AlsaStage)
        ensures
            next == self.on_failure(),
    {
        match self {
            AlsaStage::Open | AlsaStage::Failed => AlsaStage::Failed,
            AlsaStage::HwMalloc | AlsaStage::Prepare | AlsaStage::Spawn | AlsaStage::Running
            | AlsaStage::CloseOnError => AlsaStage::CloseOnError,
            _ => AlsaStage::HwFreeOnError,
        }
    }

    fn next(self, code: i32) -> (next: AlsaStage)
        ensures
            next == self.on_success(code),
    {
        match self {
            AlsaStage::Open => AlsaStage::HwMalloc,
            AlsaStage::HwMalloc => AlsaStage::HwAny,
            AlsaStage::HwAny => AlsaStage::SetAccess,
            AlsaStage::SetAccess => AlsaStage::SetFormatFloat,
            AlsaStage::SetFormatFloat => if code == 0 {
                AlsaStage::SetChannels
            } else {
                AlsaStage::SetFormatS16
            },
            AlsaStage::SetFormatS16 => AlsaStage::SetChannels,
            AlsaStage::SetChannels => AlsaStage::SetRate,
            AlsaStage::SetRate => AlsaStage::SetPeriod,
            AlsaStage::SetPeriod => AlsaStage::SetBuffer,
            AlsaStage::SetBuffer => AlsaStage::Commit,
            AlsaStage::Commit => AlsaStage::GetPeriod,
            AlsaStage::GetPeriod => AlsaStage::HwFree,
            AlsaStage::HwFree => AlsaStage::Prepare,
            AlsaStage::Prepare => AlsaStage::Spawn,
            AlsaStage::Spawn => AlsaStage::Running,
            AlsaStage::Running => AlsaStage::Running,
            AlsaStage::HwFreeOnError => AlsaStage::CloseOnError,
            AlsaStage::CloseOnError => AlsaStage::Failed,
            AlsaStage::Failed => AlsaStage::Failed,
        }
    }

    fn must_succeed(self) -> (must: bool)
        ensures
            must == self.mandatory(),
    {
        match self {
            AlsaStage::SetFormatFloat | AlsaStage::SetBuffer | AlsaStage::GetPeriod
            | AlsaStage::HwFree | AlsaStage::Running | AlsaStage::HwFreeOnError
            | AlsaStage::CloseOnError | AlsaStage::Failed => false,
            _ => true,
        }
    }
}

/// A channel count brought into the range the backends open with.
pub open spec fn clamped_channels(channels: u16) -> u16 {
    if channels < 1 {
        1
    } else if channels > 8 {
        8
    } else {
        channels
    }
}

/// Brings a channel count into the range 1 to 8.
pub fn clamp_channels(channels: u16) -> (clamped: u16)
    ensures
        clamped == clamped_channels(channels),
{
    if channels < 1 {
        1
    } else if channels > 8 {
        8
    } else {
        channels
    }
}

impl AlsaOpen {
    /// The opening of `req`, before any call.
    pub open spec fn started(req: StreamRequest) -> AlsaOpen {
        AlsaOpen {
            stage: AlsaStage::Open,
            failure: None,
            hint: req.buffer_frames,
            channels: clamped_channels(req.channels) as u32,
            rate: req.sample_rate,
            float: false,
            period: 0,
            period_actual: 0,
        }
    }

    /// Whether this reply stops the opening.
    pub open spec fn stopped_by(self, reply: AlsaReply) -> bool {
        self.stage.mandatory() && reply.code < 0
    }

    /// The period to ask for: the caller's hint, or 20 ms at the rate the
    /// device settled on.
    pub open spec fn wanted_period(hint: Option<u32>, rate: u32) -> u64 {
        match hint {
            Some(frames) => frames as u64,
            None => crate::time::default_period(rate as int) as u64,
        }
    }

    /// What the opening learns from a reply that does not stop it.
    pub open spec fn learned(self, reply: AlsaReply) -> AlsaOpen {
        match self.stage {
            AlsaStage::SetFormatFloat => AlsaOpen { float: reply.code == 0, ..self },
            AlsaStage::SetRate => AlsaOpen {
                rate: reply.rate,
                period: Self::wanted_period(self.hint, reply.rate),
                ..self
            },
            AlsaStage::SetPeriod => AlsaOpen { period: reply.frames, ..self },
            AlsaStage::GetPeriod => AlsaOpen { period_actual: reply.frames, ..self },
            _ => self,
        }
    }

    /// The opening after the current stage's call gave `reply`.
    pub open spec fn after(self, reply: AlsaReply) -> AlsaOpen {
        if self.stopped_by(reply) {
            AlsaOpen {
                stage: self.stage.on_failure(),
                failure: Some(AlsaFailure { stage: self.stage, code: reply.code }),
                ..self
            }
        } else {
            AlsaOpen { stage: self.stage.on_success(reply.code), ..self.learned(reply) }
        }
    }

    /// The buffer size to ask for: four periods of headroom.
    pub open spec fn wanted_buffer(self) -> u64 {
        crate::time::at_most(self.period * 4, u64::MAX as int) as u64
    }

    /// The call that the current stage makes.
    pub open spec fn due(self) -> AlsaCall {
        match self.stage {
            AlsaStage::Open => AlsaCall::Open,
            AlsaStage::HwMalloc => AlsaCall::HwMalloc,
            AlsaStage::HwAny => AlsaCall::HwAny,
            AlsaStage::SetAccess => AlsaCall::SetAccess(ACCESS_RW_INTERLEAVED),
            AlsaStage::SetFormatFloat => AlsaCall::SetFormat(FORMAT_FLOAT_LE),
            AlsaStage::SetFormatS16 => AlsaCall::SetFormat(FORMAT_S16_LE),
            AlsaStage::SetChannels => AlsaCall::SetChannels(self.channels),
            AlsaStage::SetRate => AlsaCall::SetRateNear(self.rate),
            AlsaStage::SetPeriod => AlsaCall::SetPeriodSizeNear(self.period),
            AlsaStage::SetBuffer => AlsaCall::SetBufferSizeNear(self.wanted_buffer()),
            AlsaStage::Commit => AlsaCall::Commit,
            AlsaStage::GetPeriod => AlsaCall::GetPeriodSize,
            AlsaStage::HwFree => AlsaCall::HwFree,
            AlsaStage::Prepare => AlsaCall::Prepare,
            AlsaStage::Spawn => AlsaCall::SpawnWorker,
            AlsaStage::Running => AlsaCall::Nothing,
            AlsaStage::HwFreeOnError => AlsaCall::HwFree,
            AlsaStage::CloseOnError => AlsaCall::Close,
            AlsaStage::Failed => AlsaCall::Nothing,
        }
    }

    /// Begins the opening of `req`.
    pub fn start(req: &StreamRequest) -> (opening: AlsaOpen)
        ensures
            opening == AlsaOpen::started(*req),
    {
        AlsaOpen {
            stage: AlsaStage::Open,
            failure: None,
            hint: req.buffer_frames,
            channels: clamp_channels(req.channels) as u32,
            rate: req.sample_rate,
            float: false,
            period: 0,
            period_actual: 0,
        }
    }

    /// The call to make next.
    pub fn call(&self) -> (call: AlsaCall)
        ensures
            call == self.due(),
    {
        match self.stage {
            AlsaStage::Open => AlsaCall::Open,
            AlsaStage::HwMalloc => AlsaCall::HwMalloc,
            AlsaStage::HwAny => AlsaCall::HwAny,
            AlsaStage::SetAccess => AlsaCall::SetAccess(ACCESS_RW_INTERLEAVED),
            AlsaStage::SetFormatFloat => AlsaCall::SetFormat(FORMAT_FLOAT_LE),
            AlsaStage::SetFormatS16 => AlsaCall::SetFormat(FORMAT_S16_LE),
            AlsaStage::SetChannels => AlsaCall::SetChannels(self.channels),
            AlsaStage::SetRate => AlsaCall::SetRateNear(self.rate),
            AlsaStage::SetPeriod => AlsaCall::SetPeriodSizeNear(self.period),
            AlsaStage::SetBuffer => AlsaCall::SetBufferSizeNear(
                crate::time::saturating_product(self.period, 4),
            ),
            AlsaStage::Commit => AlsaCall::Commit,
            AlsaStage::GetPeriod => AlsaCall::GetPeriodSize,
            AlsaStage::HwFree => AlsaCall::HwFree,
            AlsaStage::Prepare => AlsaCall::Prepare,
            AlsaStage::Spawn => AlsaCall::SpawnWorker,
            AlsaStage::Running => AlsaCall::Nothing,
            AlsaStage::HwFreeOnError => AlsaCall::HwFree,
            AlsaStage::CloseOnError => AlsaCall::Close,
            AlsaStage::Failed => AlsaCall::Nothing,
        }
    }

    /// Takes the reply to the current call.
    pub fn step(self, reply: AlsaReply) -> (next: AlsaOpen)
        ensures
            next == self.after(reply),
    {
        let mut next = self;
        if self.stage.must_succeed() && reply.code < 0 {
            next.stage = self.stage.failure_exit();
            next.failure = Some(AlsaFailure { stage: self.stage, code: reply.code });
            return next;
        }
        match self.stage {
            AlsaStage::SetFormatFloat => {
                next.float = reply.code == 0;
            },
            AlsaStage::SetRate => {
                next.rate = reply.rate;
                next.period = match self.hint {
                    Some(frames) => frames as u64,
                    None => default_period_frames(reply.rate) as u64,
                };
            },
            AlsaStage::SetPeriod => {
                next.period = reply.frames;
            },
            AlsaStage::GetPeriod => {
                next.period_actual = reply.frames;
            },
            _ => {},
        }
        next.stage = self.stage.next(reply.code);
        next
    }
}

/// What the worker and the stream handle are made with.
#[derive(Debug, Clone, Copy, PartialEq, Eq, Structural)]
pub struct AlsaPlan {
    pub period_frames: u64,
    pub channels: u32,
    /// Whether the device takes f32 samples; otherwise it takes s16.
    pub float: bool,
    pub format: StreamFormat,
}

impl AlsaOpen {
    /// What the opening has agreed on so far.
    pub fn plan(&self) -> (plan: AlsaPlan)
        requires
            self.channels <= u16::MAX,
        ensures
            plan.period_frames == crate::time::at_least(
                self.period_actual as int,
                self.period as int,
            ),
            plan.channels == self.channels,
            plan.float == self.float,
            plan.format == (StreamFormat {
                sample_rate: self.rate,
                channels: self.channels as u16,
                format: SampleFormat::F32,
            }),
    {
        AlsaPlan {
            period_frames: if self.period_actual >= self.period {
                self.period_actual
            } else {
                self.period
            },
            channels: self.channels,
            float: self.float,
            format: StreamFormat {
                sample_rate: self.rate,
                channels: self.channels as u16,
                format: SampleFormat::F32,
            },
        }
    }
}

/// The name under which a stage's failure is reported.
pub open spec fn failed_call(stage: AlsaStage) -> Seq<char> {
    match stage {
        AlsaStage::HwMalloc => "hw_params_malloc"@,
        AlsaStage::HwAny => "hw_params_any"@,
        AlsaStage::SetAccess => "hw_params_set_access"@,
        AlsaStage::SetFormatS16 => "hw_params_set_format(S16_LE)"@,
        AlsaStage::SetChannels => "hw_params_set_channels"@,
        AlsaStage::SetRate => "hw_params_set_rate_near"@,
        AlsaStage::SetPeriod => "hw_params_set_period_size_near"@,
        AlsaStage::Commit => "hw_params (commit)"@,
        AlsaStage::Prepare => "snd_pcm_prepare"@,
        _ => ""@,
    }
}

fn failed_call_name(stage: AlsaStage) -> (name: &'static str)
    ensures
        name@ == failed_call(stage),
{
    match stage {
        AlsaStage::HwMalloc => "hw_params_malloc",
        AlsaStage::HwAny => "hw_params_any",
        AlsaStage::SetAccess => "hw_params_set_access",
        AlsaStage::SetFormatS16 => "hw_params_set_format(S16_LE)",
        AlsaStage::SetChannels => "hw_params_set_channels",
        AlsaStage::SetRate => "hw_params_set_rate_near",
        AlsaStage::SetPeriod => "hw_params_set_period_size_near",
        AlsaStage::Commit => "hw_params (commit)",
        AlsaStage::Prepare => "snd_pcm_prepare",
        _ => "",
    }
}

/// The error a failed opening is reported with. `said` is what
/// `snd_strerror` says of the code, `spawn_error` what the system says of a
/// worker thread that could not be started.
pub fn open_error(failure: AlsaFailure, said: Option<&[u8]>, spawn_error: &str) -> (error: Error)
    ensures
        match failure.stage {
            AlsaStage::Spawn => error.is_runtime("alsa"@, "spawn worker: "@ + spawn_error@),
            AlsaStage::Open => error.is_device_open(
                "alsa"@,
                crate::text::error_text(crate::text::raw_text(said), "alsa"@, failure.code),
            ),
            stage => error.is_device_open(
                "alsa"@,
                failed_call(stage) + ": "@ + crate::text::error_text(
                    crate::text::raw_text(said),
                    "alsa"@,
                    failure.code,
                ),
            ),
        },
{
    let mut detail = String::new();
    match failure.stage {
        AlsaStage::Spawn => {
            detail.append("spawn worker: ");
            detail.append(spawn_error);
            assert(detail@ =~= "spawn worker: "@ + spawn_error@);
            return Error::Runtime { backend: "alsa", detail };
        },
        AlsaStage::Open => {},
        stage => {
            detail.append(failed_call_name(stage));
            detail.append(": ");
        },
    }
    let reason = describe_error(said, "alsa", failure.code);
    detail.append(reason.as_str());
    assert(failure.stage is Open ==> detail@ =~= reason@);
    assert(!(failure.stage is Open) ==> detail@ =~= failed_call(failure.stage) + ": "@ + reason@);
    Error::DeviceOpen { backend: "alsa", detail }
}

/// What an opening holds of libasound.
#[derive(Debug, Clone, Copy, PartialEq, Eq, Structural)]
pub struct AlsaHeld {
    pub pcm: bool,
    pub params: bool,
}

impl AlsaHeld {
    /// What is held once `call` has returned `code`.
    pub open spec fn after(self, call: AlsaCall, code: i32) -> AlsaHeld {
        match call {
            AlsaCall::Open => AlsaHeld { pcm: code >= 0, ..self },
            AlsaCall::OpenNonblocking => AlsaHeld { pcm: code >= 0, ..self },
            AlsaCall::HwMalloc => AlsaHeld { params: code >= 0, ..self },
            AlsaCall::HwFree => AlsaHeld { params: false, ..self },
            AlsaCall::Close => AlsaHeld { pcm: false, ..self },
            _ => self,
        }
    }

    /// Whether `call` may be made with this held: nothing is acquired or
    /// released twice, the parameter calls have their block, and the PCM is
    /// closed, prepared and played only once the block is gone.
    pub open spec fn allows(self, call: AlsaCall) -> bool {
        match call {
            AlsaCall::Open => !self.pcm && !self.params,
            AlsaCall::OpenNonblocking => !self.pcm && !self.params,
            AlsaCall::HwMalloc => self.pcm && !self.params,
            AlsaCall::Prepare => self.pcm && !self.params,
            AlsaCall::SpawnWorker => self.pcm && !self.params,
            AlsaCall::Close => self.pcm && !self.params,
            AlsaCall::Nothing => !self.params,
            _ => self.pcm && self.params,
        }
    }
}

impl AlsaOpen {
    /// The opening of `req` after a sequence of replies.
    pub open spec fn after_all(req: StreamRequest, replies: Seq<AlsaReply>) -> AlsaOpen
        decreases replies.len(),
    {
        if replies.len() == 0 {
            AlsaOpen::started(req)
        } else {
            Self::after_all(req, replies.drop_last()).after(replies.last())
        }
    }

    /// What the calls made so far have left held.
    pub open spec fn held_after_all(req: StreamRequest, replies: Seq<AlsaReply>) -> AlsaHeld
        decreases replies.len(),
    {
        if replies.len() == 0 {
            AlsaHeld { pcm: false, params: false }
        } else {
            Self::held_after_all(req, replies.drop_last()).after(
                Self::after_all(req, replies.drop_last()).due(),
                replies.last().code,
            )
        }
    }

    /// Whether the opening is over, one way or the other.
    pub open spec fn settled(self) -> bool {
        self.stage is Running || self.stage is Failed
    }

    /// An upper bound on the replies still needed.
    pub open spec fn remaining(self) -> nat {
        match self.stage {
            AlsaStage::Open => 16,
            AlsaStage::HwMalloc => 15,
            AlsaStage::HwAny => 14,
            AlsaStage::SetAccess => 13,
            AlsaStage::SetFormatFloat => 12,
            AlsaStage::SetFormatS16 => 11,
            AlsaStage::SetChannels => 10,
            AlsaStage::SetRate => 9,
            AlsaStage::SetPeriod => 8,
            AlsaStage::SetBuffer => 7,
            AlsaStage::Commit => 6,
            AlsaStage::GetPeriod => 5,
            AlsaStage::HwFree => 4,
            AlsaStage::Prepare => 3,
            AlsaStage::Spawn => 2,
            AlsaStage::HwFreeOnError => 2,
            AlsaStage::CloseOnError => 1,
            AlsaStage::Running => 0,
            AlsaStage::Failed => 0,
        }
    }
}

/// Whatever libasound replies, the opening holds exactly what its stage
/// says, and its next call is one that may be made with that held. So a
/// failed opening has released everything it acquired, each thing once, and
/// a running one holds the PCM alone.
pub proof fn law_alsa_open_releases_what_it_holds(req: StreamRequest, replies: Seq<AlsaReply>)
    ensures
        ({
            let opening = AlsaOpen::after_all(req, replies);
            let held = AlsaOpen::held_after_all(req, replies);
            &&& held.pcm == opening.stage.holds_pcm()
            &&& held.params == opening.stage.holds_params()
            &&& held.allows(opening.due())
            &&& opening.stage is Failed ==> !held.pcm && !held.params
            &&& opening.stage is Running ==> held.pcm && !held.params
        }),
    decreases replies.len(),
{
    if replies.len() > 0 {
        law_alsa_open_releases_what_it_holds(req, replies.drop_last());
    }
}

/// Every opening is over after at most sixteen replies.
pub proof fn law_alsa_open_settles(req: StreamRequest, replies: Seq<AlsaReply>)
    ensures
        AlsaOpen::after_all(req, replies).remaining() + replies.len() <= 16 || AlsaOpen::after_all(
            req,
            replies,
        ).settled(),
        replies.len() >= 16 ==> AlsaOpen::after_all(req, replies).settled(),
    decreases replies.len(),
{
    if replies.len() > 0 {
        law_alsa_open_settles(req, replies.drop_last());
    }
}

/// The channel count and the buffer hint stay those of the request; the
/// failure, if there is one, is the first negative reply of a mandatory
/// stage, and the opening fails exactly when there is one.
pub proof fn law_alsa_open_reports_the_first_failure(req: StreamRequest, replies: Seq<AlsaReply>)
    ensures
        ({
            let opening = AlsaOpen::after_all(req, replies);
            &&& opening.channels == clamped_channels(req.channels)
            &&& opening.hint == req.buffer_frames
            &&& match opening.failure {
                Some(f) => {
                    &&& opening.stage is HwFreeOnError || opening.stage is CloseOnError
                        || opening.stage is Failed
                    &&& exists|k: int|
                        {
                            &&& 0 <= k < replies.len()
                            &&& #[trigger] AlsaOpen::after_all(req, replies.take(k)).failure is None
                            &&& AlsaOpen::after_all(req, replies.take(k)).stage == f.stage
                            &&& AlsaOpen::after_all(req, replies.take(k)).stopped_by(replies[k])
                            &&& replies[k].code == f.code
                        }
                },
                None => {
                    &&& !(opening.stage is HwFreeOnError)
                    &&& !(opening.stage is CloseOnError)
                    &&& !(opening.stage is Failed)
                    &&& forall|k: int|
                        0 <= k < replies.len() ==> !(#[trigger] AlsaOpen::after_all(
                            req,
                            replies.take(k),
                        )).stopped_by(replies[k])
                },
            }
        }),
    decreases replies.len(),
{
    if replies.len() > 0 {
        let init = replies.drop_last();
        law_alsa_open_reports_the_first_failure(req, init);
        let before = AlsaOpen::after_all(req, init);
        let last = replies.len() - 1;
        assert(replies.take(last) =~= init);
        assert forall|k: int| 0 <= k < last implies #[trigger] replies.take(k) == init.take(k) by {
            assert(replies.take(k) =~= init.take(k));
        }
        if before.failure is Some {
            let f = before.failure->0;
            let k = choose|k: int|
                {
                    &&& 0 <= k < init.len()
                    &&& #[trigger] AlsaOpen::after_all(req, init.take(k)).failure is None
                    &&& AlsaOpen::after_all(req, init.take(k)).stage == f.stage
                    &&& AlsaOpen::after_all(req, init.take(k)).stopped_by(init[k])
                    &&& init[k].code == f.code
                };
            assert(replies.take(k) == init.take(k));
            assert(AlsaOpen::after_all(req, replies.take(k)).failure is None);
        } else if before.stopped_by(replies.last()) {
            assert(AlsaOpen::after_all(req, replies.take(last)).failure is None);
        } else {
            assert forall|k: int| 0 <= k < replies.len() implies !(#[trigger] AlsaOpen::after_all(
                req,
                replies.take(k),
            )).stopped_by(replies[k]) by {
                if k < last {
                    assert(replies.take(k) == init.take(k));
                    assert(!AlsaOpen::after_all(req, init.take(k)).stopped_by(init[k]));
                }
            }
        }
    }
}

/// Once the device has settled on a rate, it is asked for a period of the
/// caller's hint, or of 20 ms at that rate; and the buffer it is asked for
/// next is four times the period it answers with, as far as that fits.
pub proof fn law_alsa_period_follows_the_hint(opening: AlsaOpen, reply: AlsaReply)
    requires
        opening.stage is SetRate,
        reply.code >= 0,
    ensures
        opening.after(reply).due() == AlsaCall::SetPeriodSizeNear(
            match opening.hint {
                Some(frames) => frames as u64,
                None => crate::time::default_period(reply.rate as int) as u64,
            },
        ),
        forall|next: AlsaReply|
            next.code >= 0 ==> (#[trigger] opening.after(reply).after(next)).due()
                == AlsaCall::SetBufferSizeNear(
                crate::time::at_most(next.frames * 4, u64::MAX as int) as u64,
            ),
{
}

/// What the name-hint API says of one PCM, as raw C strings; `None` where it
/// answers NULL.
#[derive(Debug)]
pub struct AlsaHint {
    pub ioid: Option<Vec<u8>>,
    pub name: Option<Vec<u8>>,
    pub desc: Option<Vec<u8>>,
}

/// The text of a hint value.
pub open spec fn hint_text(raw: Option<Vec<u8>>) -> Option<Seq<char>> {
    match raw {
        Some(bytes) => Some(crate::text::utf8_lossy(bytes@)),
        None => None,
    }
}

impl AlsaHint {
    /// Whether the PCM can play: its direction is `Output` or unset, which
    /// is how the API marks both directions.
    pub open spec fn plays(self) -> bool {
        match hint_text(self.ioid) {
            Some(direction) => direction == "Output"@,
            None => true,
        }
    }

    /// The device entry a hint comes to: the PCM name as the id, the first
    /// line of the description (or else the PCM name) as the label, and the
    /// PCM called `default` tagged as the default. Hints that cannot play
    /// or have no name come to nothing.
    pub open spec fn entry(self) -> Option<(Seq<char>, Seq<char>, bool)> {
        match hint_text(self.name) {
            Some(name) if self.plays() => {
                let label = match hint_text(self.desc) {
                    Some(desc) => match crate::text::first_line_of(desc) {
                        Some(line) => line,
                        None => name,
                    },
                    None => name,
                };
                Some((name, label, name == "default"@))
            },
            _ => None,
        }
    }
}

/// The entries of a list of hints, in order.
pub open spec fn entries(hints: Seq<AlsaHint>) -> Seq<(Seq<char>, Seq<char>, bool)>
    decreases hints.len(),
{
    if hints.len() == 0 {
        seq![]
    } else {
        match hints.last().entry() {
            Some(entry) => entries(hints.drop_last()).push(entry),
            None => entries(hints.drop_last()),
        }
    }
}

fn decode_hint(raw: &Option<Vec<u8>>) -> (text: Option<String>)
    ensures
        match text {
            Some(t) => hint_text(*raw) == Some(t@),
            None => hint_text(*raw) is None,
        },
{
    match raw {
        Some(bytes) => Some(crate::text::decode_utf8_lossy(bytes.as_slice())),
        None => None,
    }
}

/// The device a hint stands for, if it is one that plays.
pub fn device_of_hint(hint: &AlsaHint) -> (device: Option<Device>)
    ensures
        match device {
            Some(d) => hint.entry() == Some((d.id@, d.name@, d.is_default)),
            None => hint.entry() is None,
        },
{
    let plays = match decode_hint(&hint.ioid) {
        Some(direction) => same_text(direction.as_str(), "Output"),
        None => true,
    };
    if !plays {
        return None;
    }
    match decode_hint(&hint.name) {
        None => None,
        Some(name) => {
            let line = match decode_hint(&hint.desc) {
                Some(desc) => first_line(desc.as_str()),
                None => None,
            };
            let label = match line {
                Some(line) => line,
                None => name.clone(),
            };
            let is_default = same_text(name.as_str(), "default");
            Some(Device { id: name, name: label, is_default })
        },
    }
}

/// The playback devices of an enumeration. `available` says whether the
/// library has the name-hint API at all, `code` is what
/// `snd_device_name_hint` returned, `said` what `snd_strerror` says of it,
/// and `hints` the list it filled in.
pub fn enumerate(
    available: bool,
    code: i32,
    said: Option<&[u8]>,
    hints: &Vec<AlsaHint>,
) -> (devices: Result<Vec<Device>, Error>)
    ensures
        match devices {
            Ok(list) => available && code >= 0 && crate::format::lists(list@, entries(hints@)),
            Err(e) => if !available {
                e.is_not_implemented("alsa"@)
            } else {
                code < 0 && e.is_runtime(
                    "alsa"@,
                    "snd_device_name_hint: "@ + crate::text::error_text(
                        crate::text::raw_text(said),
                        "alsa"@,
                        code,
                    ),
                )
            },
        },
{
    if !available {
        return Err(Error::NotImplemented("alsa"));
    }
    if code < 0 {
        let mut detail = String::new();
        detail.append("snd_device_name_hint: ");
        let reason = describe_error(said, "alsa", code);
        detail.append(reason.as_str());
        assert(detail@ =~= "snd_device_name_hint: "@ + reason@);
        return Err(Error::Runtime { backend: "alsa", detail });
    }
    let mut list: Vec<Device> = Vec::new();
    let mut i: usize = 0;
    assert(hints@.take(0) =~= Seq::<AlsaHint>::empty());
    while i < hints.len()
        invariant
            i <= hints@.len(),
            crate::format::lists(list@, entries(hints@.take(i as int))),
        decreases hints@.len() - i,
    {
        match device_of_hint(&hints[i]) {
            Some(device) => {
                list.push(device);
            },
            None => {},
        }
        proof {
            let prefix = hints@.take(i + 1);
            assert(prefix.drop_last() =~= hints@.take(i as int));
            assert(prefix.last() == hints@[i as int]);
        }
        i = i + 1;
    }
    assert(hints@.take(i as int) =~= hints@);
    Ok(list)
}

/// A device is tagged as the default exactly when it is the PCM called
/// `default`, which is the one an unrouted request opens; and any listed id
/// routes back to the PCM it came from.
pub proof fn law_alsa_default_is_what_opens(hints: Seq<AlsaHint>, i: int, req: StreamRequest)
    requires
        0 <= i < entries(hints).len(),
    ensures
        entries(hints)[i].2 == (entries(hints)[i].0 == "default"@),
        req.device_id() is None ==> (entries(hints)[i].2 <==> entries(hints)[i].0 == requested_pcm(
            req,
        )),
        req.device_id() == Some(entries(hints)[i].0) ==> requested_pcm(req) == entries(hints)[i].0,
    decreases hints.len(),
{
    if hints.len() > 0 {
        if i < entries(hints.drop_last()).len() {
            law_alsa_default_is_what_opens(hints.drop_last(), i, req);
        }
    }
}

/// Entries with different ids are not both the default.
pub proof fn law_alsa_at_most_one_default(hints: Seq<AlsaHint>, i: int, j: int)
    requires
        0 <= i < entries(hints).len(),
        0 <= j < entries(hints).len(),
        entries(hints)[i].0 != entries(hints)[j].0,
    ensures
        !(entries(hints)[i].2 && entries(hints)[j].2),
{
    let any = arbitrary::<StreamRequest>();
    law_alsa_default_is_what_opens(hints, i, any);
    law_alsa_default_is_what_opens(hints, j, any);
}

/// Whether a hint lists the PCM that an unrouted request opens.
pub open spec fn lists_default(hint: AlsaHint) -> bool {
    hint.entry() matches Some(entry) && entry.0 == "default"@
}

proof fn lemma_no_default_listed(hints: Seq<AlsaHint>)
    requires
        forall|j: int| 0 <= j < hints.len() ==> !lists_default(#[trigger] hints[j]),
    ensures
        forall|j: int| 0 <= j < entries(hints).len() ==> !(#[trigger] entries(hints)[j]).2,
    decreases hints.len(),
{
    if hints.len() > 0 {
        let shorter = entries(hints.drop_last());
        assert(!lists_default(hints[hints.len() - 1]));
        lemma_no_default_listed(hints.drop_last());
        assert forall|j: int| 0 <= j < entries(hints).len() implies !(
        #[trigger] entries(hints)[j]).2 by {
            if j < shorter.len() {
                assert(entries(hints)[j] == shorter[j]);
            }
        }
    }
}

/// Where exactly one of the hints lists the PCM called `default`, exactly
/// one device of the enumeration is the default.
pub proof fn law_alsa_exactly_one_default(hints: Seq<AlsaHint>, k: int)
    requires
        0 <= k < hints.len(),
        lists_default(hints[k]),
        forall|j: int| 0 <= j < hints.len() && j != k ==> !lists_default(#[trigger] hints[j]),
    ensures
        crate::format::has_one_default(entries(hints)),
    decreases hints.len(),
{
    let init = hints.drop_last();
    let last = hints.len() - 1;
    let list = entries(hints);
    if k == last {
        assert forall|j: int| 0 <= j < init.len() implies !lists_default(#[trigger] init[j]) by {
            assert(init[j] == hints[j]);
        }
        lemma_no_default_listed(init);
        assert forall|j: int| 0 <= j < list.len() && j != list.len() - 1 implies !(
        #[trigger] list[j]).2 by {
            assert(list[j] == entries(init)[j]);
        }
        assert(crate::format::is_the_one_default(list, list.len() - 1));
    } else {
        assert forall|j: int| 0 <= j < init.len() && j != k implies !lists_default(
            #[trigger] init[j],
        ) by {
            assert(init[j] == hints[j]);
        }
        assert(init[k] == hints[k]);
        law_alsa_exactly_one_default(init, k);
        assert(!lists_default(hints[last]));
        let i = choose|i: int| crate::format::is_the_one_default(entries(init), i);
        assert forall|j: int| 0 <= j < list.len() && j != i implies !(#[trigger] list[j]).2 by {
            if j < entries(init).len() {
                assert(list[j] == entries(init)[j]);
            }
        }
        assert(list[i] == entries(init)[i]);
        assert(crate::format::is_the_one_default(list, i));
    }
}

/// The worker's side of a running stream.
#[derive(Debug, Clone, Copy, PartialEq, Eq, Structural)]
pub struct AlsaWorker {
    pub period_frames: u64,
    /// Frames the device has accepted; the stream's frame clock.
    pub frames_played: u64,
    /// The latest `snd_pcm_delay` reading, in frames.
    pub delay_frames: i64,
}

/// What the worker is told.
#[derive(Debug, Clone, Copy, PartialEq, Eq, Structural)]
pub enum AlsaEvent {
    /// The stop flag, read at the top of the loop.
    StopFlag(bool),
    /// What `snd_pcm_writei` returned.
    Written(i64),
    /// What `snd_pcm_recover` returned.
    Recovered(i32),
    /// What `snd_pcm_delay` returned, and the delay it reported.
    Delay { code: i32, frames: i64 },
}

/// What the worker does next.
#[derive(Debug, Clone, Copy, PartialEq, Eq, Structural)]
pub enum AlsaTask {
    /// Read the stop flag.
    ReadStopFlag,
    /// Run the callback, convert if the device needs it, and write one
    /// period.
    RenderAndWrite(CallbackInfo),
    /// Ask `snd_pcm_recover` to mend this write error.
    Recover(i64),
    /// Read `snd_pcm_delay`.
    ReadDelay,
    /// Leave the loop.
    Exit,
}

impl AlsaWorker {
    /// The worker after an event: the clock advances by exactly the frames
    /// the device accepted, and a failed delay reading leaves the last good
    /// one in place.
    pub open spec fn after(self, event: AlsaEvent) -> AlsaWorker {
        match event {
            AlsaEvent::Written(n) if n >= 0 => AlsaWorker {
                frames_played: ((self.frames_played + n) % 0x1_0000_0000_0000_0000) as u64,
                ..self
            },
            AlsaEvent::Delay { code, frames } if code == 0 => AlsaWorker {
                delay_frames: frames,
                ..self
            },
            _ => self,
        }
    }

    /// What the worker does next when an event finds it in this state.
    pub open spec fn answer(self, event: AlsaEvent) -> AlsaTask {
        match event {
            AlsaEvent::StopFlag(stop) => if stop {
                AlsaTask::Exit
            } else {
                AlsaTask::RenderAndWrite(CallbackInfo { frames_played: self.frames_played })
            },
            AlsaEvent::Written(n) => if n < 0 {
                AlsaTask::Recover(n)
            } else {
                AlsaTask::ReadDelay
            },
            AlsaEvent::Recovered(code) => if code < 0 {
                AlsaTask::Exit
            } else {
                AlsaTask::ReadStopFlag
            },
            AlsaEvent::Delay { .. } => AlsaTask::ReadStopFlag,
        }
    }

    /// A worker whose clock stands at zero.
    pub fn new(plan: &AlsaPlan) -> (worker: AlsaWorker)
        ensures
            worker == (AlsaWorker {
                period_frames: plan.period_frames,
                frames_played: 0,
                delay_frames: 0,
            }),
    {
        AlsaWorker { period_frames: plan.period_frames, frames_played: 0, delay_frames: 0 }
    }

    /// One turn of the worker.
    pub fn step(&mut self, event: AlsaEvent) -> (task: AlsaTask)
        ensures
            *final(self) == old(self).after(event),
            task == old(self).answer(event),
    {
        match event {
            AlsaEvent::StopFlag(stop) => {
                if stop {
                    AlsaTask::Exit
                } else {
                    AlsaTask::RenderAndWrite(CallbackInfo { frames_played: self.frames_played })
                }
            },
            AlsaEvent::Written(n) => {
                if n < 0 {
                    AlsaTask::Recover(n)
                } else {
                    self.frames_played = self.frames_played.wrapping_add(n as u64);
                    AlsaTask::ReadDelay
                }
            },
            AlsaEvent::Recovered(code) => {
                if code < 0 {
                    AlsaTask::Exit
                } else {
                    AlsaTask::ReadStopFlag
                }
            },
            AlsaEvent::Delay { code, frames } => {
                if code == 0 {
                    self.delay_frames = frames;
                }
                AlsaTask::ReadStopFlag
            },
        }
    }

    /// The worker after a sequence of events.
    pub open spec fn after_all(self, events: Seq<AlsaEvent>) -> AlsaWorker
        decreases events.len(),
    {
        if events.len() == 0 {
            self
        } else {
            self.after_all(events.drop_last()).after(events.last())
        }
    }
}

/// The frames that the device accepted over a sequence of events.
pub open spec fn accepted_frames(events: Seq<AlsaEvent>) -> nat
    decreases events.len(),
{
    if events.len() == 0 {
        0
    } else {
        accepted_frames(events.drop_last()) + match events.last() {
            AlsaEvent::Written(n) if n >= 0 => n as nat,
            _ => 0,
        }
    }
}

/// The frame clock is the number of frames the device accepted, modulo its
/// 64 bits.
pub proof fn law_alsa_clock_counts_accepted_frames(worker: AlsaWorker, events: Seq<AlsaEvent>)
    ensures
        worker.after_all(events).frames_played == (worker.frames_played + accepted_frames(events))
            % 0x1_0000_0000_0000_0000,
    decreases events.len(),
{
    if events.len() > 0 {
        law_alsa_clock_counts_accepted_frames(worker, events.drop_last());
    }
}

/// How many samples one period's buffer holds.
pub fn period_samples(period_frames: usize, channels: usize) -> (samples: usize)
    requires
        period_frames * channels <= usize::MAX,
    ensures
        samples == period_frames * channels,
{
    period_frames * channels
}

/// The latency that a driver queue of `delay_frames` frames means; a
/// negative reading counts as an empty queue.
pub fn latency(delay_frames: i64, sample_rate: u32) -> (latency: Duration)
    ensures
        latency == crate::time::duration_of_nanos(
            crate::time::frames_nanos(
                crate::time::at_least(delay_frames as int, 0),
                sample_rate as int,
            ) as u64,
        ),
{
    let frames: u64 = if delay_frames > 0 {
        delay_frames as u64
    } else {
        0
    };
    nanos(frames_to_nanos(frames, sample_rate))
}

/// Where the introspection of a device stands.
#[derive(Debug, Clone, Copy, PartialEq, Eq, Structural)]
pub enum PeekStage {
    Open,
    HwMalloc,
    HwAny,
    SetRate,
    SetChannels,
    HwFree,
    Close,
    Done,
    Failed,
}

/// The introspection of a device: a throw-away handle is asked what it
/// would snap 48 kHz stereo to, and is closed again whatever it says.
#[derive(Debug, Clone, Copy, PartialEq, Eq, Structural)]
pub struct AlsaPeek {
    pub stage: PeekStage,
    pub failure: Option<AlsaFailure>,
    pub rate: u32,
    pub channels: u32,
}

impl PeekStage {
    /// Whether the PCM handle is open while this stage's call is made.
    pub open spec fn holds_pcm(self) -> bool {
        !(self is Open) && !(self is Done) && !(self is Failed)
    }

    /// Whether the hardware-parameter block is allocated while this stage's
    /// call is made.
    pub open spec fn holds_params(self) -> bool {
        self is HwAny || self is SetRate || self is SetChannels || self is HwFree
    }

    /// The stage of an opening that makes the same call, if this stage's
    /// call must succeed.
    pub open spec fn mandatory(self) -> Option<AlsaStage> {
        match self {
            PeekStage::Open => Some(AlsaStage::Open),
            PeekStage::HwMalloc => Some(AlsaStage::HwMalloc),
            PeekStage::HwAny => Some(AlsaStage::HwAny),
            PeekStage::SetRate => Some(AlsaStage::SetRate),
            PeekStage::SetChannels => Some(AlsaStage::SetChannels),
            _ => None,
        }
    }

    fn must_succeed(self) -> (stage: Option<AlsaStage>)
        ensures
            stage == self.mandatory(),
    {
        match self {
            PeekStage::Open => Some(AlsaStage::Open),
            PeekStage::HwMalloc => Some(AlsaStage::HwMalloc),
            PeekStage::HwAny => Some(AlsaStage::HwAny),
            PeekStage::SetRate => Some(AlsaStage::SetRate),
            PeekStage::SetChannels => Some(AlsaStage::SetChannels),
            _ => None,
        }
    }
}

impl AlsaPeek {
    /// An introspection before any call.
    pub open spec fn started() -> AlsaPeek {
        AlsaPeek { stage: PeekStage::Open, failure: None, rate: 48_000, channels: 2 }
    }

    /// The call that the current stage makes.
    pub open spec fn due(self) -> AlsaCall {
        match self.stage {
            PeekStage::Open => AlsaCall::OpenNonblocking,
            PeekStage::HwMalloc => AlsaCall::HwMalloc,
            PeekStage::HwAny => AlsaCall::HwAny,
            PeekStage::SetRate => AlsaCall::SetRateNear(self.rate),
            PeekStage::SetChannels => AlsaCall::SetChannelsNear(self.channels),
            PeekStage::HwFree => AlsaCall::HwFree,
            PeekStage::Close => AlsaCall::Close,
            PeekStage::Done => AlsaCall::Nothing,
            PeekStage::Failed => AlsaCall::Nothing,
        }
    }

    /// The introspection after the current stage's call gave `reply`. A
    /// failure goes straight to releasing what is held.
    pub open spec fn after(self, reply: AlsaReply) -> AlsaPeek {
        match self.stage.mandatory() {
            Some(stage) if reply.code < 0 => AlsaPeek {
                stage: if self.stage.holds_params() {
                    PeekStage::HwFree
                } else if self.stage.holds_pcm() {
                    PeekStage::Close
                } else {
                    PeekStage::Failed
                },
                failure: Some(AlsaFailure { stage, code: reply.code }),
                ..self
            },
            _ => match self.stage {
                PeekStage::Open => AlsaPeek { stage: PeekStage::HwMalloc, ..self },
                PeekStage::HwMalloc => AlsaPeek { stage: PeekStage::HwAny, ..self },
                PeekStage::HwAny => AlsaPeek { stage: PeekStage::SetRate, ..self },
                PeekStage::SetRate => AlsaPeek {
                    stage: PeekStage::SetChannels,
                    rate: reply.rate,
                    ..self
                },
                PeekStage::SetChannels => AlsaPeek {
                    stage: PeekStage::HwFree,
                    channels: reply.channels,
                    ..self
                },
                PeekStage::HwFree => AlsaPeek { stage: PeekStage::Close, ..self },
                PeekStage::Close => AlsaPeek {
                    stage: if self.failure is Some {
                        PeekStage::Failed
                    } else {
                        PeekStage::Done
                    },
                    ..self
                },
                PeekStage::Done => self,
                PeekStage::Failed => self,
            },
        }
    }

    /// Begins an introspection.
    pub fn start() -> (peek: AlsaPeek)
        ensures
            peek == AlsaPeek::started(),
    {
        AlsaPeek { stage: PeekStage::Open, failure: None, rate: 48_000, channels: 2 }
    }

    /// The call to make next.
    pub fn call(&self) -> (call: AlsaCall)
        ensures
            call == self.due(),
    {
        match self.stage {
            PeekStage::Open => AlsaCall::OpenNonblocking,
            PeekStage::HwMalloc => AlsaCall::HwMalloc,
            PeekStage::HwAny => AlsaCall::HwAny,
            PeekStage::SetRate => AlsaCall::SetRateNear(self.rate),
            PeekStage::SetChannels => AlsaCall::SetChannelsNear(self.channels),
            PeekStage::HwFree => AlsaCall::HwFree,
            PeekStage::Close => AlsaCall::Close,
            PeekStage::Done => AlsaCall::Nothing,
            PeekStage::Failed => AlsaCall::Nothing,
        }
    }

    /// Takes the reply to the current call.
    pub fn step(self, reply: AlsaReply) -> (next: AlsaPeek)
        ensures
            next == self.after(reply),
    {
        let mut next = self;
        if let Some(stage) = self.stage.must_succeed() {
            if reply.code < 0 {
                next.failure = Some(AlsaFailure { stage, code: reply.code });
                next.stage = match self.stage {
                    PeekStage::HwAny | PeekStage::SetRate | PeekStage::SetChannels =>
                    PeekStage::HwFree,
                    PeekStage::HwMalloc => PeekStage::Close,
                    _ => PeekStage::Failed,
                };
                return next;
            }
        }
        match self.stage {
            PeekStage::Open => {
                next.stage = PeekStage::HwMalloc;
            },
            PeekStage::HwMalloc => {
                next.stage = PeekStage::HwAny;
            },
            PeekStage::HwAny => {
                next.stage = PeekStage::SetRate;
            },
            PeekStage::SetRate => {
                next.stage = PeekStage::SetChannels;
                next.rate = reply.rate;
            },
            PeekStage::SetChannels => {
                next.stage = PeekStage::HwFree;
                next.channels = reply.channels;
            },
            PeekStage::HwFree => {
                next.stage = PeekStage::Close;
            },
            PeekStage::Close => {
                next.stage = if self.failure.is_some() {
                    PeekStage::Failed
                } else {
                    PeekStage::Done
                };
            },
            PeekStage::Done | PeekStage::Failed => {},
        }
        next
    }

    /// The format the device would settle on, once the introspection has
    /// read it.
    pub fn format(&self) -> (format: StreamFormat)
        ensures
            format == (StreamFormat {
                sample_rate: self.rate,
                channels: crate::time::at_most(self.channels as int, u16::MAX as int) as u16,
                format: SampleFormat::F32,
            }),
    {
        StreamFormat {
            sample_rate: self.rate,
            channels: if self.channels > 0xFFFF {
                0xFFFF
            } else {
                self.channels as u16
            },
            format: SampleFormat::F32,
        }
    }

    /// The introspection after a sequence of replies.
    pub open spec fn after_all(replies: Seq<AlsaReply>) -> AlsaPeek
        decreases replies.len(),
    {
        if replies.len() == 0 {
            AlsaPeek::started()
        } else {
            Self::after_all(replies.drop_last()).after(replies.last())
        }
    }

    /// What the calls made so far have left held.
    pub open spec fn held_after_all(replies: Seq<AlsaReply>) -> AlsaHeld
        decreases replies.len(),
    {
        if replies.len() == 0 {
            AlsaHeld { pcm: false, params: false }
        } else {
            Self::held_after_all(replies.drop_last()).after(
                Self::after_all(replies.drop_last()).due(),
                replies.last().code,
            )
        }
    }
}

/// Whatever libasound replies, an introspection that is over holds nothing,
/// it is over after at most seven replies, and it failed exactly when it
/// has a failure to report.
pub proof fn law_alsa_peek_leaves_nothing_open(replies: Seq<AlsaReply>)
    ensures
        ({
            let peek = AlsaPeek::after_all(replies);
            let held = AlsaPeek::held_after_all(replies);
            &&& held.pcm == peek.stage.holds_pcm()
            &&& held.params == peek.stage.holds_params()
            &&& held.allows(peek.due())
            &&& peek.stage is Done ==> peek.failure is None
            &&& peek.stage is Failed ==> peek.failure is Some
            &&& replies.len() >= 7 ==> (peek.stage is Done || peek.stage is Failed)
        }),
    decreases replies.len(),
{
    lemma_peek_progress(replies);
    if replies.len() > 0 {
        law_alsa_peek_leaves_nothing_open(replies.drop_last());
    }
}

spec fn peek_remaining(stage: PeekStage) -> int {
    match stage {
        PeekStage::Open => 7,
        PeekStage::HwMalloc => 6,
        PeekStage::HwAny => 5,
        PeekStage::SetRate => 4,
        PeekStage::SetChannels => 3,
        PeekStage::HwFree => 2,
        PeekStage::Close => 1,
        PeekStage::Done => 0,
        PeekStage::Failed => 0,
    }
}

proof fn lemma_peek_progress(replies: Seq<AlsaReply>)
    ensures
        peek_remaining(AlsaPeek::after_all(replies).stage) == 0 || peek_remaining(
            AlsaPeek::after_all(replies).stage,
        ) + replies.len() <= 7,
        replies.len() == 0 || !(AlsaPeek::after_all(replies).stage is Open),
        AlsaPeek::after_all(replies).failure is Some ==> (AlsaPeek::after_all(replies).stage
            is HwFree || AlsaPeek::after_all(replies).stage is Close || AlsaPeek::after_all(
            replies,
        ).stage is Failed),
    decreases replies.len(),
{
    if replies.len() > 0 {
        lemma_peek_progress(replies.drop_last());
    }
}

} // verus!
