//! The mock backend.

#![allow(unused_imports)]

use crate::backends::mock::{
    keep_rendered, open, output_devices, period_to_nanos, preferred_format, probe, push_captured,
    render, resolve, spawn_error, take_captured, CaptureSink, MockEvent, MockStream, MockTask,
    MockWorker,
};
use crate::error::Error;
use crate::format::{CallbackInfo, Device, StreamFormat, StreamRequest};
use crate::stream::StreamImpl;
use std::time::Duration;
use vstd::prelude::*;
use vstd::string::*;

verus! {

/// The mock's timing and its bound on what is captured.
pub proof fn law_mock_bounds()
    ensures
        crate::backends::mock::MIN_TICK_NS == 500_000,
        crate::backends::mock::SLICE_NS == 10_000_000,
        crate::backends::mock::CAPTURE_CAP_SAMPLES == 4_194_304,
{
}

/// Whether a text is the id of one of the three virtual devices.
pub open spec fn is_virtual(id: Seq<char>) -> bool {
    id == "mock:default"@ || id == "mock:secondary"@ || id == "mock:capture"@
}

/// The virtual devices are the three.
pub proof fn lemma_virtual_devices(id: Seq<char>)
    ensures
        crate::backends::mock::is_mock_device(id) <==> is_virtual(id),
{
    let entries = crate::backends::mock::mock_entries();
    assert(entries[0].0 == "mock:default"@);
    assert(entries[1].0 == "mock:secondary"@);
    assert(entries[2].0 == "mock:capture"@);
}

/// No id is the default; a virtual device's id is itself; any other is
/// refused by name.
pub proof fn law_virtual_ids_resolve_to_themselves(
    text: &str,
    named: Result<&'static str, Error>,
    unnamed: Result<&'static str, Error>,
)
    requires
        call_ensures(resolve, (Some(text),), named),
        call_ensures(resolve, (None,), unnamed),
    ensures
        unnamed is Ok && unnamed->Ok_0@ == "mock:default"@,
        is_virtual(text@) ==> named is Ok && named->Ok_0@ == text@,
        !is_virtual(text@) ==> (named matches Err(Error::DeviceOpen { backend, detail }) && backend@
            == "mock"@ && detail@ == "no such mock device: "@ + text@),
{
    lemma_virtual_devices(text@);
    lemma_virtual_devices("mock:default"@);
}

/// The mock always probes.
pub proof fn law_the_mock_always_probes(outcome: Result<(), Error>)
    requires
        call_ensures(probe, (), outcome),
    ensures
        outcome is Ok,
{
}

/// Three devices are listed, the first of them the default.
pub proof fn law_three_virtual_devices_are_listed(list: Result<Vec<Device>, Error>)
    requires
        call_ensures(output_devices, (), list),
    ensures
        list is Ok,
        ({
            let l = list->Ok_0@;
            &&& l.len() == 3
            &&& l[0].id@ == "mock:default"@ && l[0].name@ == "Mock Default Output"@
                && l[0].is_default
            &&& l[1].id@ == "mock:secondary"@ && l[1].name@ == "Mock Secondary Output"@
                && !l[1].is_default
            &&& l[2].id@ == "mock:capture"@ && l[2].name@ == "Mock Capture-Sink Output"@
                && !l[2].is_default
        }),
{
    let l = list->Ok_0@;
    let e = crate::backends::mock::mock_entries();
    assert(l[0].is(e[0].0, e[0].1, e[0].2));
    assert(l[1].is(e[1].0, e[1].1, e[1].2));
    assert(l[2].is(e[2].0, e[2].1, e[2].2));
}

/// A virtual device prefers 48 kHz stereo; any other is refused by name.
pub proof fn law_the_mock_prefers_48_khz_stereo(
    text: &str,
    named: Result<StreamFormat, Error>,
    unnamed: Result<StreamFormat, Error>,
)
    requires
        call_ensures(preferred_format, (Some(text),), named),
        call_ensures(preferred_format, (None,), unnamed),
    ensures
        unnamed matches Ok(f) && f.sample_rate == 48_000 && f.channels == 2 && f.format is F32,
        is_virtual(text@) ==> (named matches Ok(f) && f.sample_rate == 48_000 && f.channels == 2
            && f.format is F32),
        !is_virtual(text@) ==> (named matches Err(Error::DeviceOpen { backend, detail }) && backend@
            == "mock"@ && detail@ == "no such mock device: "@ + text@),
{
    lemma_virtual_devices(text@);
    lemma_virtual_devices("mock:default"@);
}

/// Whether a number is the nearest whole one to `n / d`, the even one of two
/// that are as near.
pub open spec fn is_nearest(q: int, n: int, d: int) -> bool {
    &&& -d <= 2 * (q * d - n) <= d
    &&& 2 * (q * d - n) == d || 2 * (q * d - n) == -d ==> q % 2 == 0
}

proof fn lemma_rounded_is_nearest(n: int, d: int)
    requires
        n >= 0,
        d > 0,
    ensures
        is_nearest(crate::backends::mock::rounded_quotient(n, d), n, d),
{
    vstd::arithmetic::div_mod::lemma_fundamental_div_mod(n, d);
    vstd::arithmetic::div_mod::lemma_mod_bound(n, d);
    vstd::arithmetic::div_mod::lemma_div_pos_is_pos(n, d);
    let q = n / d;
    assert((q + 1) * d == d * q + d) by (nonlinear_arith);
    assert(q * d == d * q) by (nonlinear_arith);
    assert(q % 2 == 0 || q % 2 == 1);
    assert(q % 2 == 1 ==> (q + 1) % 2 == 0);
}

/// A period's length is the nearest nanosecond to its frames' share of a
/// second.
pub proof fn law_a_period_lasts_its_share_of_a_second(frames: u32, rate: u32, ns: u64)
    requires
        rate > 0,
        call_ensures(period_to_nanos, (frames, rate), ns),
    ensures
        is_nearest(ns as int, frames * 1_000_000_000, rate as int),
{
    lemma_rounded_is_nearest(frames * 1_000_000_000, rate as int);
}

/// A request with a rate and channels is opened on any virtual device
/// exactly as it is, and plays; its period is the hint or a fiftieth of a
/// second, but never empty; and only the capture device captures. What is
/// missing a rate or a channel is refused first, then an unknown device.
pub proof fn law_the_mock_opens_what_was_requested(
    req: StreamRequest,
    opened: Result<MockStream, Error>,
)
    requires
        call_ensures(open, (&req,), opened),
    ensures
        opened is Ok <==> req.sample_rate > 0 && req.channels > 0 && (req.device is None
            || is_virtual(req.device->0@)),
        opened matches Ok(s) ==> {
            &&& s.playing && !s.shutdown
            &&& s.fmt.sample_rate == req.sample_rate
            &&& s.fmt.channels == req.channels
            &&& s.fmt.format is F32
            &&& req.buffer_frames matches Some(frames) ==> (frames > 0 ==> s.period_frames
                == frames) && (frames == 0 ==> s.period_frames == 1)
            &&& req.buffer_frames is None && req.sample_rate >= 50 ==> s.period_frames * 50
                <= req.sample_rate < (s.period_frames + 1) * 50
            &&& req.buffer_frames is None && req.sample_rate < 50 ==> s.period_frames == 1
            &&& is_nearest(
                s.period_ns as int,
                s.period_frames * 1_000_000_000,
                req.sample_rate as int,
            )
            &&& s.capture <==> req.device is Some && req.device->0@ == "mock:capture"@
        },
        opened matches Err(e) ==> if req.sample_rate == 0 || req.channels == 0 {
            e matches Error::UnsupportedFormat { backend, detail } && backend@ == "mock"@ && detail@
                == "sample_rate="@ + crate::text::decimal(req.sample_rate as nat) + " channels="@
                + crate::text::decimal(req.channels as nat) + " — both must be non-zero"@
        } else {
            e matches Error::DeviceOpen { backend, detail } && backend@ == "mock"@ && detail@
                == "no such mock device: "@ + req.device->0@
        },
{
    lemma_virtual_devices("mock:default"@);
    if let Some(id) = req.device {
        lemma_virtual_devices(id@);
    }
    reveal_strlit("mock:default");
    reveal_strlit("mock:capture");
    assert("mock:default"@[5] != "mock:capture"@[5]);
    if let Ok(s) = opened {
        lemma_rounded_is_nearest(s.period_frames * 1_000_000_000, req.sample_rate as int);
    }
}

/// The error of a worker that could not be started says why.
pub proof fn law_mock_spawn_errors_say_why(reason: &str, error: Error)
    requires
        call_ensures(spawn_error, (reason,), error),
    ensures
        error matches Error::Runtime { backend, detail } && backend@ == "mock"@ && detail@
            == "worker spawn: "@ + reason@,
{
}

/// Playing, pausing and stopping always work; they set the flags that the
/// worker reads and nothing else.
pub proof fn law_mock_transport_sets_its_flags(
    played: &mut MockStream,
    paused: &mut MockStream,
    stopped: &mut MockStream,
    play: Result<(), Error>,
    pause: Result<(), Error>,
)
    requires
        call_ensures(<MockStream as StreamImpl>::play, (played,), play),
        call_ensures(<MockStream as StreamImpl>::pause, (paused,), pause),
        call_ensures(<MockStream as StreamImpl>::stop, (stopped,), ()),
    ensures
        play is Ok && final(played).playing && final(played).shutdown == old(played).shutdown,
        pause is Ok && !final(paused).playing && final(paused).shutdown == old(paused).shutdown,
        !final(stopped).playing && final(stopped).shutdown,
        final(played).fmt == old(played).fmt,
        final(played).period_frames == old(played).period_frames,
        final(played).period_ns == old(played).period_ns,
        final(played).capture == old(played).capture,
        final(paused).fmt == old(paused).fmt,
        final(paused).period_frames == old(paused).period_frames,
        final(paused).period_ns == old(paused).period_ns,
        final(paused).capture == old(paused).capture,
        final(stopped).fmt == old(stopped).fmt,
        final(stopped).period_frames == old(stopped).period_frames,
        final(stopped).period_ns == old(stopped).period_ns,
        final(stopped).capture == old(stopped).capture,
{
}

/// A stream reports the format it was opened with, and two periods of
/// latency.
pub proof fn law_mock_latency_is_two_periods(
    stream: MockStream,
    format: StreamFormat,
    latency: Option<Duration>,
)
    requires
        call_ensures(<MockStream as StreamImpl>::format, (&stream,), format),
        call_ensures(<MockStream as StreamImpl>::latency, (&stream,), latency),
    ensures
        format == stream.fmt,
        stream.period_ns * 2 <= 0xFFFF_FFFF_FFFF_FFFF ==> latency == Some(
            crate::time::duration_of_nanos((stream.period_ns * 2) as u64),
        ),
        stream.period_ns * 2 > 0xFFFF_FFFF_FFFF_FFFF ==> latency == Some(
            crate::time::duration_of_nanos(0xFFFF_FFFF_FFFF_FFFF),
        ),
{
}

/// A worker starts at zero with its stream's shape, and ticks once a period
/// but at most every half millisecond.
pub proof fn law_a_mock_worker_ticks_once_a_period(stream: MockStream, worker: MockWorker)
    requires
        call_ensures(MockStream::worker, (&stream,), worker),
    ensures
        worker.period_frames == stream.period_frames,
        worker.channels == stream.fmt.channels,
        worker.capture == stream.capture,
        worker.frames_played == 0,
        worker.remaining_ns == 0,
        stream.period_ns >= 500_000 ==> worker.tick_ns == stream.period_ns,
        stream.period_ns < 500_000 ==> worker.tick_ns == 500_000,
{
}

/// One turn of the worker: it leaves on a shutdown; it renders a period of
/// every channel when the stream plays, counts it and then sleeps a tick; it
/// sleeps a tick without rendering when the stream is paused; and it sleeps
/// in slices of ten milliseconds at most.
pub proof fn law_the_mock_worker_goes_round(
    worker: &mut MockWorker,
    event: MockEvent,
    task: MockTask,
)
    requires
        call_ensures(MockWorker::step, (worker, event), task),
    ensures
        *final(worker) == old(worker).after(event),
        final(worker).period_frames == old(worker).period_frames,
        final(worker).channels == old(worker).channels,
        final(worker).capture == old(worker).capture,
        final(worker).tick_ns == old(worker).tick_ns,
        match event {
            MockEvent::Shutdown(shutdown) => {
                &&& *final(worker) == *old(worker)
                &&& shutdown ==> task is Exit
                &&& !shutdown && old(worker).remaining_ns == 0 ==> task is ReadPlaying
                &&& !shutdown && 0 < old(worker).remaining_ns <= 10_000_000 ==> task
                    == MockTask::Sleep(old(worker).remaining_ns)
                &&& !shutdown && old(worker).remaining_ns > 10_000_000 ==> task
                    == MockTask::Sleep(10_000_000)
            },
            MockEvent::Playing(playing) => {
                &&& final(worker).frames_played == old(worker).frames_played
                &&& playing ==> final(worker).remaining_ns == old(worker).remaining_ns
                &&& !playing ==> task is ReadShutdown && final(worker).remaining_ns
                    == old(worker).tick_ns
                &&& playing ==> (task matches MockTask::Render { samples, info, capture } && samples
                    == old(worker).period_frames * old(worker).channels && info.frames_played
                    == old(worker).frames_played && capture == old(worker).capture)
            },
            MockEvent::Rendered => {
                &&& task is ReadShutdown
                &&& final(worker).remaining_ns == old(worker).tick_ns
                &&& (final(worker).frames_played - old(worker).frames_played
                    - old(worker).period_frames) % 0x1_0000_0000_0000_0000 == 0
            },
            MockEvent::Slept => {
                &&& task is ReadShutdown
                &&& final(worker).frames_played == old(worker).frames_played
                &&& old(worker).remaining_ns <= 10_000_000 ==> final(worker).remaining_ns == 0
                &&& old(worker).remaining_ns > 10_000_000 ==> final(worker).remaining_ns
                    == old(worker).remaining_ns - 10_000_000
            },
        },
{
    let frames = old(worker).period_frames;
    let channels = old(worker).channels;
    assert(0 <= frames * channels <= 0xFFFF_FFFF * 0xFFFF) by (nonlinear_arith)
        requires
            frames <= 0xFFFF_FFFF,
            channels <= 0xFFFF,
    ;
}

/// A sink starts empty; what is pushed follows what it holds, in order, up
/// to its bound; draining hands out all it holds and leaves it empty.
pub proof fn law_the_sink_keeps_its_first_samples(
    fresh: CaptureSink,
    sink: &mut CaptureSink,
    chunk: &[u32],
    drained_sink: &mut CaptureSink,
    drained: Vec<u32>,
)
    requires
        old(sink)@.len() <= 4_194_304,
        call_ensures(CaptureSink::new, (), fresh),
        call_ensures(push_captured, (sink, chunk), ()),
        call_ensures(take_captured, (drained_sink,), drained),
    ensures
        fresh@.len() == 0,
        old(sink)@.len() + chunk@.len() <= 4_194_304 ==> final(sink)@ == old(sink)@ + chunk@,
        old(sink)@.len() + chunk@.len() > 4_194_304 ==> final(sink)@.len() == 4_194_304
            && final(sink)@ == (old(sink)@ + chunk@).take(4_194_304),
        drained@ == old(drained_sink)@,
        final(drained_sink)@.len() == 0,
{
    let held = old(sink)@;
    if held.len() + chunk@.len() <= 4_194_304 {
        assert(chunk@.take(chunk@.len() as int) =~= chunk@);
    } else {
        assert(final(sink)@ =~= (held + chunk@).take(4_194_304));
    }
}

/// What was rendered is pushed to the sink if it is captured, and leaves the
/// sink alone otherwise.
pub proof fn law_only_captured_streams_reach_the_sink(
    sink: &mut CaptureSink,
    capture: bool,
    left: &[u32],
)
    requires
        old(sink)@.len() + left@.len() <= 4_194_304,
        call_ensures(keep_rendered, (sink, capture, left), ()),
    ensures
        capture ==> final(sink)@ == old(sink)@ + left@,
        !capture ==> final(sink)@ == old(sink)@,
{
    assert(left@.take(left@.len() as int) =~= left@);
}

/// A full sink takes only as much as there is room for.
pub proof fn law_a_full_sink_keeps_what_it_holds(
    sink: &mut CaptureSink,
    capture: bool,
    left: &[u32],
)
    requires
        old(sink)@.len() <= 4_194_304,
        old(sink)@.len() + left@.len() > 4_194_304,
        call_ensures(keep_rendered, (sink, capture, left), ()),
    ensures
        capture ==> final(sink)@ == (old(sink)@ + left@).take(4_194_304),
        !capture ==> final(sink)@ == old(sink)@,
{
    if capture {
        assert(final(sink)@ =~= (old(sink)@ + left@).take(4_194_304));
    }
}

/// What was rendered is what the callback makes of a silent buffer of the
/// period's samples, given the clock as it was.
pub proof fn law_rendering_is_the_callbacks<C: FnOnce(Vec<u32>, CallbackInfo) -> Vec<u32>>(
    samples: usize,
    info: CallbackInfo,
    callback: C,
    left: Vec<u32>,
)
    requires
        call_ensures(render::<C>, (samples, info, callback), left),
    ensures
        exists|buf: Vec<u32>|
            {
                &&& #[trigger] callback.ensures((buf, info), left)
                &&& buf@.len() == samples
                &&& forall|i: int| 0 <= i < samples ==> buf@[i] == 0
            },
{
    let buf = choose|buf: Vec<u32>|
        buf@ == crate::backends::mock::blank(samples as nat) && #[trigger] callback.ensures(
            (buf, info),
            left,
        );
    assert(callback.ensures((buf, info), left));
}

} // verus!
