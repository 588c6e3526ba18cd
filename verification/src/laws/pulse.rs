//! PulseAudio.

#![allow(unused_imports)]

use crate::backends::pulse::{
    connect_outcome, latency, make_buffer_attr, open_error, plan, sink_name, BufferAttr, PulseCall,
    PulseEvent, PulseFailure, PulseOpen, PulsePlan, PulseStage, PulseTask, PulseWorker,
};
use crate::error::Error;
use crate::format::{CallbackInfo, StreamRequest};
use crate::time::default_period_frames;
use std::time::Duration;
use vstd::prelude::*;
use vstd::string::*;

verus! {

/// The number that the library's header gives for 32-bit floats.
pub proof fn law_the_pulse_sample_code_is_the_headers()
    ensures
        crate::backends::pulse::SAMPLE_FLOAT32LE == 5,
{
}

/// The target length is the hinted frames in bytes; a refill is a fiftieth
/// of a second in bytes, but never more than the target; the server picks
/// the rest. What does not fit in 32 bits saturates.
pub proof fn law_the_server_buffers_the_hinted_frames(
    frames: u32,
    rate: u32,
    width: usize,
    period: u32,
    attr: BufferAttr,
)
    requires
        call_ensures(make_buffer_attr, (frames, rate, width), attr),
        call_ensures(default_period_frames, (rate,), period),
    ensures
        frames * width <= 0xFFFF_FFFF ==> attr.tlength == frames * width,
        frames * width > 0xFFFF_FFFF ==> attr.tlength == 0xFFFF_FFFF,
        frames <= period ==> attr.minreq == attr.tlength,
        frames > period && period * width <= 0xFFFF_FFFF ==> attr.minreq == period * width,
        frames > period && period * width > 0xFFFF_FFFF ==> attr.minreq == 0xFFFF_FFFF,
        attr.maxlength == 0xFFFF_FFFF,
        attr.prebuf == 0xFFFF_FFFF,
        attr.fragsize == 0xFFFF_FFFF,
{
    let wide = width as int;
    assert(0 <= frames * wide) by (nonlinear_arith)
        requires
            wide >= 0,
    ;
    assert(0 <= period * wide) by (nonlinear_arith)
        requires
            wide >= 0,
    ;
    if frames <= period {
        assert(frames * wide <= period * wide) by (nonlinear_arith)
            requires
                wide >= 0,
                frames <= period,
        ;
    } else {
        assert(frames * wide >= period * wide) by (nonlinear_arith)
            requires
                wide >= 0,
                frames > period,
        ;
    }
}

/// A stream is opened at the rate asked for, with the channels asked for
/// kept between one and eight. With a hint, the server is told to buffer it
/// and the worker writes as many frames; without one, the server picks and
/// the worker writes a fiftieth of a second.
pub proof fn law_pulse_streams_are_planned_from_the_request(
    req: StreamRequest,
    p: PulsePlan,
    attr: BufferAttr,
)
    requires
        call_ensures(plan, (&req,), p),
        req.buffer_frames matches Some(frames) ==> call_ensures(
            make_buffer_attr,
            (frames, req.sample_rate, (p.format.channels * 4) as usize),
            attr,
        ),
    ensures
        p.format.sample_rate == req.sample_rate,
        p.format.format is F32,
        1 <= p.format.channels <= 8,
        1 <= req.channels <= 8 ==> p.format.channels == req.channels,
        req.channels == 0 ==> p.format.channels == 1,
        req.channels > 8 ==> p.format.channels == 8,
        req.buffer_frames matches Some(frames) ==> p.period_frames == frames && p.attr == Some(
            attr,
        ),
        req.buffer_frames is None ==> p.attr is None && crate::laws::alsa::is_default_period(
            p.period_frames as int,
            req.sample_rate,
        ),
{
}

/// The sink is the requested one, or the server's default; a name that no C
/// string can carry is refused, and only such a one.
pub proof fn law_the_requested_sink_is_named(
    req: StreamRequest,
    name: Result<Option<String>, Error>,
)
    requires
        call_ensures(sink_name, (&req,), name),
    ensures
        req.device is None ==> name is Ok && name->Ok_0 is None,
        req.device matches Some(id) ==> {
            &&& !id@.contains('\0') ==> name is Ok && name->Ok_0 is Some && name->Ok_0->0@ == id@
            &&& id@.contains('\0') ==> (name matches Err(Error::DeviceOpen { backend, detail })
                && backend@ == "pulse"@ && detail@ == "device id contains an interior NUL byte"@)
        },
{
}

/// A connection that was made is the outcome; otherwise it is the server's
/// words, or the number of the error when there are none.
pub proof fn law_a_connection_is_the_outcome(
    connected: bool,
    code: i32,
    said: Option<&[u8]>,
    outcome: Result<(), Error>,
)
    requires
        call_ensures(connect_outcome, (connected, code, said), outcome),
    ensures
        outcome is Ok <==> connected,
        outcome matches Err(e) ==> (e matches Error::DeviceOpen { backend, detail } && backend@
            == "pulse"@ && (said matches Some(raw) ==> detail@ == crate::text::utf8_lossy(raw@))
            && (said is None ==> detail@ == "pa"@ + " error "@ + crate::text::signed_decimal(
            code as int,
        ))),
{
}

/// An opening connects, then starts its worker; a worker that does not start
/// has the connection freed. What failed is reported, whatever comes after.
pub proof fn law_pulse_calls_follow_one_another(
    first: PulseOpen,
    at: PulseOpen,
    ok: bool,
    code: i32,
    next: PulseOpen,
    call: PulseCall,
    after: PulseCall,
)
    requires
        call_ensures(PulseOpen::start, (), first),
        call_ensures(PulseOpen::call, (&at,), call),
        call_ensures(PulseOpen::step, (at, ok, code), next),
        call_ensures(PulseOpen::call, (&next,), after),
    ensures
        first.due() is Connect && first.failure is None,
        call == at.due(),
        match call {
            PulseCall::Connect => if ok {
                after is SpawnWorker && next.failure == at.failure
            } else {
                after is Nothing && next.failure == Some(PulseFailure::Connect(code))
                    && next.stage is Failed
            },
            PulseCall::SpawnWorker => if ok {
                after is Nothing && next.failure == at.failure && next.stage is Running
            } else {
                after is Free && next.failure == Some(PulseFailure::Spawn)
            },
            PulseCall::Free => after is Nothing && next.failure == at.failure && next.stage
                is Failed,
            PulseCall::Nothing => next == at && after is Nothing,
        },
{
}

/// The error of a failed opening is the server's words, or why the worker
/// could not be started.
pub proof fn law_pulse_errors_say_what_failed(
    failure: PulseFailure,
    said: Option<&[u8]>,
    spawn_error: &str,
    error: Error,
)
    requires
        call_ensures(open_error, (failure, said, spawn_error), error),
    ensures
        match failure {
            PulseFailure::Connect(code) => error matches Error::DeviceOpen { backend, detail }
                && backend@ == "pulse"@ && (said matches Some(raw) ==> detail@
                == crate::text::utf8_lossy(raw@)) && (said is None ==> detail@ == "pa"@
                + " error "@ + crate::text::signed_decimal(code as int)),
            PulseFailure::Spawn => error matches Error::Runtime { backend, detail } && backend@
                == "pulse"@ && detail@ == "spawn worker: "@ + spawn_error@,
        },
{
}

/// One turn of the worker: it leaves when told to stop or when a write
/// fails, writes silence while paused, counts a period once it was written
/// and not paused, and keeps the last latency that was a reading at all.
pub proof fn law_the_pulse_worker_goes_round(
    p: PulsePlan,
    first: PulseWorker,
    worker: &mut PulseWorker,
    event: PulseEvent,
    task: PulseTask,
)
    requires
        call_ensures(PulseWorker::new, (&p,), first),
        call_ensures(PulseWorker::step, (worker, event), task),
    ensures
        first.period_frames == p.period_frames,
        first.frames_played == 0,
        first.latency_usec == 0,
        *final(worker) == old(worker).after(event),
        final(worker).period_frames == old(worker).period_frames,
        match event {
            PulseEvent::StopFlag(stop) => {
                &&& *final(worker) == *old(worker)
                &&& stop ==> task is Exit
                &&& !stop ==> task is ReadPauseFlag
            },
            PulseEvent::PauseFlag(paused) => {
                &&& *final(worker) == *old(worker)
                &&& paused ==> task is WriteSilence
                &&& !paused ==> (task matches PulseTask::RenderAndWrite(info) && info.frames_played
                    == old(worker).frames_played)
            },
            PulseEvent::Written { code, paused } => {
                &&& code >= 0 ==> task is ReadLatency
                &&& code < 0 ==> task is Exit
                &&& code >= 0 && !paused ==> (final(worker).frames_played
                    - old(worker).frames_played - old(worker).period_frames)
                    % 0x1_0000_0000_0000_0000 == 0
                &&& code < 0 || paused ==> final(worker).frames_played
                    == old(worker).frames_played
                &&& final(worker).latency_usec == old(worker).latency_usec
            },
            PulseEvent::Latency(usec) => {
                &&& task is ReadStopFlag
                &&& final(worker).frames_played == old(worker).frames_played
                &&& usec < 0xFFFF_FFFF_FFFF_FFFF ==> final(worker).latency_usec == usec
                &&& usec == 0xFFFF_FFFF_FFFF_FFFF ==> final(worker).latency_usec
                    == old(worker).latency_usec
            },
        },
{
}

/// The latency is the server's microseconds.
pub proof fn law_pulse_latency_is_the_servers(usec: u64, d: Duration)
    requires
        call_ensures(latency, (usec,), d),
    ensures
        d == crate::time::duration_of_micros(usec),
        usec * 1000 <= 0xFFFF_FFFF_FFFF_FFFF ==> d == crate::time::duration_of_nanos(
            (usec * 1000) as u64,
        ),
{
}

} // verus!
