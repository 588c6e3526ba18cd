//! PulseAudio output backend via the "simple" API: the decisions behind
//! the `pa_simple_*` calls.
//!
//! The simple API hides the PulseAudio main loop behind a blocking
//! `pa_simple_write`; a worker thread runs that exactly like the ALSA
//! backend so the user-facing callback surface is identical.

use std::time::Duration;
use vstd::prelude::*;
use vstd::string::*;

use crate::backends::alsa::clamp_channels;
use crate::error::Error;
use crate::format::{CallbackInfo, SampleFormat, StreamFormat, StreamRequest};
use crate::text::{describe_error, has_nul};
use crate::time::{default_period_frames, micros, saturating_product};

verus! {

/// `pa_sample_format_t::PA_SAMPLE_FLOAT32LE`.
pub const SAMPLE_FLOAT32LE: i32 = 5;

/// `pa_buffer_attr` from `pulse/def.h`. Each field is a **byte** count or
/// `u32::MAX` ("let the server pick"). For playback the server reads
/// `tlength` (target playback-buffer length) and `minreq` (smallest poll
/// the server wants before refilling); the other three fields belong to
/// the capture path or to overall sizing and stay sentinel.
#[derive(Debug, Clone, Copy, PartialEq, Eq, Structural)]
pub struct BufferAttr {
    pub maxlength: u32,
    pub tlength: u32,
    pub prebuf: u32,
    pub minreq: u32,
    pub fragsize: u32,
}

/// A byte count in the 32 bits the server reads, saturating.
pub open spec fn byte_count(bytes: int) -> int {
    crate::time::at_most(bytes, u32::MAX as int)
}

/// The bytes of a run of frames, saturating at 64 bits.
pub open spec fn frame_bytes(frames: int, bytes_per_frame: int) -> int {
    crate::time::at_most(frames * bytes_per_frame, u64::MAX as int)
}

/// The buffer attributes for a frame-count hint: `tlength` is the hint in
/// bytes, `minreq` one default period but no more than `tlength`; the rest
/// is left to the server.
pub open spec fn buffer_attr(
    buffer_frames: u32,
    sample_rate: u32,
    bytes_per_frame: usize,
) -> BufferAttr {
    let tlength = frame_bytes(buffer_frames as int, bytes_per_frame as int);
    let period = frame_bytes(
        crate::time::default_period(sample_rate as int),
        bytes_per_frame as int,
    );
    BufferAttr {
        maxlength: u32::MAX,
        tlength: byte_count(tlength) as u32,
        prebuf: u32::MAX,
        minreq: byte_count(crate::time::at_most(period, tlength)) as u32,
        fragsize: u32::MAX,
    }
}

/// Build the buffer attributes from a frame-count hint, the stream's sample
/// rate, and the per-frame byte size. `tlength` is the requested
/// playback-buffer byte count; `minreq` is the smallest refill the server
/// should ask for, about 20 ms, and is capped at `tlength` so the server
/// never rejects a hint with `minreq > tlength`. The other three fields stay
/// sentinel (`u32::MAX`) so the server picks defaults for them.
pub fn make_buffer_attr(
    buffer_frames: u32,
    sample_rate: u32,
    bytes_per_frame: usize,
) -> (attr: BufferAttr)
    ensures
        attr == buffer_attr(buffer_frames, sample_rate, bytes_per_frame),
{
    let tlength_bytes: u64 = saturating_product(buffer_frames as u64, bytes_per_frame as u64);
    let period_bytes: u64 = saturating_product(
        default_period_frames(sample_rate) as u64,
        bytes_per_frame as u64,
    );
    let minreq_bytes: u64 = if period_bytes < tlength_bytes {
        period_bytes
    } else {
        tlength_bytes
    };
    BufferAttr {
        maxlength: u32::MAX,
        tlength: saturate_u32(tlength_bytes),
        prebuf: u32::MAX,
        minreq: saturate_u32(minreq_bytes),
        fragsize: u32::MAX,
    }
}

fn saturate_u32(bytes: u64) -> (count: u32)
    ensures
        count == byte_count(bytes as int),
{
    if bytes > 0xFFFF_FFFF {
        u32::MAX
    } else {
        bytes as u32
    }
}

/// The server is never asked for refills larger than the buffer: `minreq`
/// stays within `tlength`, whatever the hint. A hint of any frames is a
/// buffer of some bytes, however large it is.
pub proof fn law_minreq_within_tlength(
    buffer_frames: u32,
    sample_rate: u32,
    bytes_per_frame: usize,
)
    ensures
        ({
            let attr = buffer_attr(buffer_frames, sample_rate, bytes_per_frame);
            &&& attr.minreq <= attr.tlength
            &&& buffer_frames > 0 && bytes_per_frame > 0 ==> attr.tlength > 0
        }),
{
    let wide = bytes_per_frame as int;
    let period = crate::time::default_period(sample_rate as int);
    assert(buffer_frames * wide >= 0) by (nonlinear_arith)
        requires
            wide >= 0,
    ;
    assert(period * wide >= 0) by (nonlinear_arith)
        requires
            wide >= 0,
            period >= 0,
    ;
    if buffer_frames > 0 && bytes_per_frame > 0 {
        assert(buffer_frames * wide > 0) by (nonlinear_arith)
            requires
                buffer_frames > 0,
                wide > 0,
        ;
    }
}

/// What a stream is opened with.
#[derive(Debug, Clone, Copy, PartialEq, Eq, Structural)]
pub struct PulsePlan {
    pub format: StreamFormat,
    /// The buffer attributes to hand to the server; `None` hands it NULL,
    /// so it picks every field.
    pub attr: Option<BufferAttr>,
    /// Frames per worker write.
    pub period_frames: u32,
}

/// The frames of one worker write: the hint as it is, or 20 ms but never
/// below 64 frames.
pub open spec fn write_period(hint: Option<u32>, rate: u32) -> int {
    match hint {
        Some(frames) => frames as int,
        None => crate::time::default_period(rate as int),
    }
}

/// Plans the opening of `req`: the stream format, the server-side buffer
/// attributes when there is a hint, and the worker's write size,
/// which follows the hint so that client and server stay aligned.
pub fn plan(req: &StreamRequest) -> (plan: PulsePlan)
    ensures
        plan.format == (StreamFormat {
            sample_rate: req.sample_rate,
            channels: crate::backends::alsa::clamped_channels(req.channels),
            format: SampleFormat::F32,
        }),
        plan.period_frames == write_period(req.buffer_frames, req.sample_rate),
        plan.attr == match req.buffer_frames {
            Some(frames) => Some(
                buffer_attr(
                    frames,
                    req.sample_rate,
                    (crate::backends::alsa::clamped_channels(req.channels) * 4) as usize,
                ),
            ),
            None => None,
        },
{
    let channels = clamp_channels(req.channels);
    let bytes_per_frame: usize = channels as usize * 4;
    let attr = match req.buffer_frames {
        Some(frames) => Some(make_buffer_attr(frames, req.sample_rate, bytes_per_frame)),
        None => None,
    };
    let period_frames: u32 = match req.buffer_frames {
        Some(frames) => frames,
        None => default_period_frames(req.sample_rate),
    };
    PulsePlan {
        format: StreamFormat {
            sample_rate: req.sample_rate,
            channels,
            format: SampleFormat::F32,
        },
        attr,
        period_frames,
    }
}

/// Client and server stay aligned: with a hint, one worker write is exactly
/// the server's target buffer, as long as that fits the 32 bits the server
/// reads.
pub proof fn law_pulse_writes_match_the_buffer(hint: u32, rate: u32, channels: u16)
    requires
        hint * (crate::backends::alsa::clamped_channels(channels) * 4) <= u32::MAX,
    ensures
        buffer_attr(hint, rate, (crate::backends::alsa::clamped_channels(channels) * 4) as usize).tlength == write_period(
            Some(hint),
            rate,
        ) * (crate::backends::alsa::clamped_channels(channels) * 4),
{
    let wide = crate::backends::alsa::clamped_channels(channels) * 4;
    assert(hint * wide >= 0) by (nonlinear_arith)
        requires
            wide >= 0,
    ;
}

/// The sink that a request names, to hand to `pa_simple_new`; `None` is the
/// default sink. A name with a NUL inside is rejected.
pub fn sink_name(req: &StreamRequest) -> (name: Result<Option<String>, Error>)
    ensures
        match name {
            Ok(Some(n)) => req.device_id() == Some(n@) && !n@.contains('\0'),
            Ok(None) => req.device_id() is None,
            Err(e) => req.device_id() is Some && req.device_id()->0.contains('\0')
                && e.is_device_open("pulse"@, "device id contains an interior NUL byte"@),
        },
{
    match &req.device {
        None => Ok(None),
        Some(id) => {
            if has_nul(id.as_str()) {
                Err(
                    Error::DeviceOpen {
                        backend: "pulse",
                        detail: "device id contains an interior NUL byte".to_owned(),
                    },
                )
            } else {
                Ok(Some(id.clone()))
            }
        },
    }
}

/// The outcome of `pa_simple_new`: whether it delivered a connection, the
/// error it set otherwise, and what `pa_strerror` says of that.
pub fn connect_outcome(
    connected: bool,
    code: i32,
    said: Option<&[u8]>,
) -> (outcome: Result<(), Error>)
    ensures
        match outcome {
            Ok(_) => connected,
            Err(e) => !connected && e.is_device_open(
                "pulse"@,
                crate::text::error_text(crate::text::raw_text(said), "pa"@, code),
            ),
        },
{
    if connected {
        Ok(())
    } else {
        Err(Error::DeviceOpen { backend: "pulse", detail: describe_error(said, "pa", code) })
    }
}

/// Where the opening of a stream stands.
#[derive(Debug, Clone, Copy, PartialEq, Eq, Structural)]
pub enum PulseStage {
    Connect,
    Spawn,
    Running,
    FreeOnError,
    Failed,
}

/// The call that an opening makes next.
#[derive(Debug, Clone, Copy, PartialEq, Eq, Structural)]
pub enum PulseCall {
    Connect,
    SpawnWorker,
    Free,
    Nothing,
}

/// Why an opening failed.
#[derive(Debug, Clone, Copy, PartialEq, Eq, Structural)]
pub enum PulseFailure {
    /// `pa_simple_new` delivered nothing and set this error.
    Connect(i32),
    /// The worker thread could not be started.
    Spawn,
}

/// An opening in progress.
#[derive(Debug, Clone, Copy, PartialEq, Eq, Structural)]
pub struct PulseOpen {
    pub stage: PulseStage,
    pub failure: Option<PulseFailure>,
}

impl PulseOpen {
    /// The call that the current stage makes.
    pub open spec fn due(self) -> PulseCall {
        match self.stage {
            PulseStage::Connect => PulseCall::Connect,
            PulseStage::Spawn => PulseCall::SpawnWorker,
            PulseStage::FreeOnError => PulseCall::Free,
            PulseStage::Running => PulseCall::Nothing,
            PulseStage::Failed => PulseCall::Nothing,
        }
    }

    /// The opening after the current stage's call: `ok` says whether it did
    /// what was asked, `code` is the error it set. A worker that cannot be
    /// started has its connection freed.
    pub open spec fn after(self, ok: bool, code: i32) -> PulseOpen {
        match self.stage {
            PulseStage::Connect => if ok {
                PulseOpen { stage: PulseStage::Spawn, ..self }
            } else {
                PulseOpen {
                    stage: PulseStage::Failed,
                    failure: Some(PulseFailure::Connect(code)),
                }
            },
            PulseStage::Spawn => if ok {
                PulseOpen { stage: PulseStage::Running, ..self }
            } else {
                PulseOpen {
                    stage: PulseStage::FreeOnError,
                    failure: Some(PulseFailure::Spawn),
                }
            },
            PulseStage::FreeOnError => PulseOpen { stage: PulseStage::Failed, ..self },
            PulseStage::Running => self,
            PulseStage::Failed => self,
        }
    }

    /// Begins an opening.
    pub fn start() -> (opening: PulseOpen)
        ensures
            opening == (PulseOpen { stage: PulseStage::Connect, failure: None }),
    {
        PulseOpen { stage: PulseStage::Connect, failure: None }
    }

    /// The call to make next.
    pub fn call(&self) -> (call: PulseCall)
        ensures
            call == self.due(),
    {
        match self.stage {
            PulseStage::Connect => PulseCall::Connect,
            PulseStage::Spawn => PulseCall::SpawnWorker,
            PulseStage::FreeOnError => PulseCall::Free,
            PulseStage::Running | PulseStage::Failed => PulseCall::Nothing,
        }
    }

    /// Takes the outcome of the current call.
    pub fn step(self, ok: bool, code: i32) -> (next: PulseOpen)
        ensures
            next == self.after(ok, code),
    {
        match self.stage {
            PulseStage::Connect => if ok {
                PulseOpen { stage: PulseStage::Spawn, failure: self.failure }
            } else {
                PulseOpen {
                    stage: PulseStage::Failed,
                    failure: Some(PulseFailure::Connect(code)),
                }
            },
            PulseStage::Spawn => if ok {
                PulseOpen { stage: PulseStage::Running, failure: self.failure }
            } else {
                PulseOpen { stage: PulseStage::FreeOnError, failure: Some(PulseFailure::Spawn) }
            },
            PulseStage::FreeOnError => PulseOpen {
                stage: PulseStage::Failed,
                failure: self.failure,
            },
            PulseStage::Running | PulseStage::Failed => self,
        }
    }
}

/// The error a failed opening is reported with. `said` is what `pa_strerror`
/// says of the code, `spawn_error` what the system says of a worker thread
/// that could not be started.
pub fn open_error(failure: PulseFailure, said: Option<&[u8]>, spawn_error: &str) -> (error: Error)
    ensures
        match failure {
            PulseFailure::Connect(code) => error.is_device_open(
                "pulse"@,
                crate::text::error_text(crate::text::raw_text(said), "pa"@, code),
            ),
            PulseFailure::Spawn => error.is_runtime("pulse"@, "spawn worker: "@ + spawn_error@),
        },
{
    match failure {
        PulseFailure::Connect(code) => Error::DeviceOpen {
            backend: "pulse",
            detail: describe_error(said, "pa", code),
        },
        PulseFailure::Spawn => {
            let mut detail = String::new();
            detail.append("spawn worker: ");
            detail.append(spawn_error);
            assert(detail@ =~= "spawn worker: "@ + spawn_error@);
            Error::Runtime { backend: "pulse", detail }
        },
    }
}

/// Whatever the server and the system reply, an opening is over after three
/// calls; it frees the connection exactly when it had one and could not
/// start its worker, and it fails exactly when it has a failure to report.
pub proof fn law_pulse_open_frees_its_connection(
    connected: bool,
    code: i32,
    spawned: bool,
    spawn_code: i32,
    freed: bool,
    free_code: i32,
)
    ensures
        ({
            let start = PulseOpen { stage: PulseStage::Connect, failure: None };
            let asked = start.after(connected, code);
            let worked = asked.after(spawned, spawn_code);
            let done = worked.after(freed, free_code);
            &&& start.due() is Connect
            &&& asked.due() is SpawnWorker <==> connected
            &&& worked.due() is Free <==> connected && !spawned
            &&& done.stage is Running <==> connected && spawned
            &&& done.stage is Failed <==> !(connected && spawned)
            &&& done.failure == (if !connected {
                Some(PulseFailure::Connect(code))
            } else if !spawned {
                Some(PulseFailure::Spawn)
            } else {
                None
            })
        }),
{
}

/// The worker's side of a running stream.
#[derive(Debug, Clone, Copy, PartialEq, Eq, Structural)]
pub struct PulseWorker {
    pub period_frames: u32,
    /// Frames written while not paused; the frame clock.
    pub frames_played: u64,
    /// The latest latency reading, in microseconds.
    pub latency_usec: u64,
}

/// What the worker is told.
#[derive(Debug, Clone, Copy, PartialEq, Eq, Structural)]
pub enum PulseEvent {
    /// The stop flag, read at the top of the loop.
    StopFlag(bool),
    /// The pause flag, read before the period is filled.
    PauseFlag(bool),
    /// What `pa_simple_write` returned, and the pause flag read after it.
    Written { code: i32, paused: bool },
    /// What `pa_simple_get_latency` returned.
    Latency(u64),
}

/// What the worker does next.
#[derive(Debug, Clone, Copy, PartialEq, Eq, Structural)]
pub enum PulseTask {
    /// Read the stop flag.
    ReadStopFlag,
    /// Read the pause flag.
    ReadPauseFlag,
    /// Write one period of silence, so the server doesn't stall out.
    WriteSilence,
    /// Run the callback and write one period.
    RenderAndWrite(CallbackInfo),
    /// Read `pa_simple_get_latency`.
    ReadLatency,
    /// Leave the loop.
    Exit,
}

impl PulseWorker {
    /// The worker after an event. The clock advances by one period per
    /// write, but not while paused; an invalid latency reading leaves the
    /// last good one in place.
    pub open spec fn after(self, event: PulseEvent) -> PulseWorker {
        match event {
            PulseEvent::Written { code, paused } if code >= 0 && !paused => PulseWorker {
                frames_played: ((self.frames_played + self.period_frames)
                    % 0x1_0000_0000_0000_0000) as u64,
                ..self
            },
            PulseEvent::Latency(usec) if usec != u64::MAX => PulseWorker {
                latency_usec: usec,
                ..self
            },
            _ => self,
        }
    }

    /// What the worker does next when an event finds it in this state.
    pub open spec fn answer(self, event: PulseEvent) -> PulseTask {
        match event {
            PulseEvent::StopFlag(stop) => if stop {
                PulseTask::Exit
            } else {
                PulseTask::ReadPauseFlag
            },
            PulseEvent::PauseFlag(paused) => if paused {
                PulseTask::WriteSilence
            } else {
                PulseTask::RenderAndWrite(CallbackInfo { frames_played: self.frames_played })
            },
            PulseEvent::Written { code, .. } => if code < 0 {
                PulseTask::Exit
            } else {
                PulseTask::ReadLatency
            },
            PulseEvent::Latency(_) => PulseTask::ReadStopFlag,
        }
    }

    /// A worker whose clock stands at zero.
    pub fn new(plan: &PulsePlan) -> (worker: PulseWorker)
        ensures
            worker == (PulseWorker {
                period_frames: plan.period_frames,
                frames_played: 0,
                latency_usec: 0,
            }),
    {
        PulseWorker { period_frames: plan.period_frames, frames_played: 0, latency_usec: 0 }
    }

    /// One turn of the worker.
    pub fn step(&mut self, event: PulseEvent) -> (task: PulseTask)
        ensures
            *final(self) == old(self).after(event),
            task == old(self).answer(event),
    {
        match event {
            PulseEvent::StopFlag(stop) => {
                if stop {
                    PulseTask::Exit
                } else {
                    PulseTask::ReadPauseFlag
                }
            },
            PulseEvent::PauseFlag(paused) => {
                if paused {
                    PulseTask::WriteSilence
                } else {
                    PulseTask::RenderAndWrite(CallbackInfo { frames_played: self.frames_played })
                }
            },
            PulseEvent::Written { code, paused } => {
                if code < 0 {
                    return PulseTask::Exit;
                }
                if !paused {
                    self.frames_played = self.frames_played.wrapping_add(
                        self.period_frames as u64,
                    );
                }
                PulseTask::ReadLatency
            },
            PulseEvent::Latency(usec) => {
                if usec != u64::MAX {
                    self.latency_usec = usec;
                }
                PulseTask::ReadStopFlag
            },
        }
    }

    /// The worker after a sequence of events.
    pub open spec fn after_all(self, events: Seq<PulseEvent>) -> PulseWorker
        decreases events.len(),
    {
        if events.len() == 0 {
            self
        } else {
            self.after_all(events.drop_last()).after(events.last())
        }
    }
}

/// How many periods of a sequence of events were written while not paused.
pub open spec fn played_periods(events: Seq<PulseEvent>) -> nat
    decreases events.len(),
{
    if events.len() == 0 {
        0
    } else {
        played_periods(events.drop_last()) + match events.last() {
            PulseEvent::Written { code, paused } if code >= 0 && !paused => 1nat,
            _ => 0nat,
        }
    }
}

/// The frame clock is one period for each period written while not paused,
/// modulo its 64 bits.
pub proof fn law_pulse_clock_counts_played_periods(worker: PulseWorker, events: Seq<PulseEvent>)
    ensures
        worker.after_all(events).period_frames == worker.period_frames,
        worker.after_all(events).frames_played == (worker.frames_played + played_periods(events)
            * worker.period_frames) % 0x1_0000_0000_0000_0000,
    decreases events.len(),
{
    if events.len() > 0 {
        let init = events.drop_last();
        let n = played_periods(init) as int;
        let period = worker.period_frames as int;
        law_pulse_clock_counts_played_periods(worker, init);
        assert((n + 1) * period == n * period + period) by (nonlinear_arith);
        let before = worker.frames_played + n * period;
        assert(((before % 0x1_0000_0000_0000_0000) + period) % 0x1_0000_0000_0000_0000 == (before
            + period) % 0x1_0000_0000_0000_0000);
    } else {
        assert(played_periods(events) * worker.period_frames == 0) by (nonlinear_arith)
            requires
                played_periods(events) == 0,
        ;
    }
}

/// While paused the clock stands still and the callback is not run.
pub proof fn law_pulse_pause_halts_the_clock(worker: PulseWorker, event: PulseEvent)
    requires
        event matches PulseEvent::Written { paused, .. } ==> paused,
        event matches PulseEvent::PauseFlag(paused) ==> paused,
    ensures
        worker.after(event).frames_played == worker.frames_played,
        !(worker.answer(event) is RenderAndWrite),
{
}

/// The end-to-end latency that the server reported last.
pub fn latency(latency_usec: u64) -> (latency: Duration)
    ensures
        latency == crate::time::duration_of_micros(latency_usec),
        latency_usec * 1000 <= u64::MAX ==> latency == crate::time::duration_of_nanos(
            (latency_usec * 1000) as u64,
        ),
{
    micros(latency_usec)
}

} // verus!
