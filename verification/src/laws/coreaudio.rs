//! CoreAudio: the queue, its clock and its latency.

#![allow(unused_imports)]

use crate::backends::coreaudio::{
    f32_asbd, latency, open_error, plan, probe_outcome, requested_device, routing_ready, FillTask,
    QueueCall, QueueClock, QueueFailure, QueueOpen, QueuePlan, QueueReply, QueueStage,
    StreamDescription,
};
use crate::error::Error;
use crate::format::{CallbackInfo, StreamFormat, StreamRequest};
use crate::text::parse_u32;
use std::time::Duration;
use vstd::prelude::*;
use vstd::string::*;

verus! {

/// A description is of packed, interleaved 32-bit floats: four bytes for
/// each channel of a frame, one frame to a packet.
pub proof fn law_a_description_is_of_packed_floats(
    rate: u32,
    channels: u16,
    asbd: StreamDescription,
)
    requires
        call_ensures(f32_asbd, (rate, channels), asbd),
    ensures
        asbd.sample_rate == rate,
        asbd.format_id == 0x6C70_636D,
        asbd.format_flags == 9,
        asbd.frames_per_packet == 1,
        asbd.bits_per_channel == 32,
        channels > 0 ==> asbd.channels_per_frame == channels,
        channels == 0 ==> asbd.channels_per_frame == 1,
        asbd.bytes_per_frame == asbd.channels_per_frame * 4,
        asbd.bytes_per_packet == asbd.bytes_per_frame,
{
}

/// A probe succeeds exactly when a queue was delivered without an error.
pub proof fn law_coreaudio_probes_by_opening(
    status: i32,
    delivered: bool,
    outcome: Result<(), Error>,
)
    requires
        call_ensures(probe_outcome, (status, delivered), outcome),
    ensures
        outcome is Ok <==> status == 0 && delivered,
        outcome matches Err(e) ==> (e matches Error::DeviceOpen { backend, detail } && backend@
            == "coreaudio"@ && detail@ == "AudioQueueNewOutput"@ + " OSStatus="@
            + crate::text::signed_decimal(status as int)),
{
}

/// A request is routed to the device whose number its id reads as, and to
/// the default when it names none; an id that does not read as a number is
/// refused, and only such a one.
pub proof fn law_ids_route_to_the_device_they_read_as(
    req: StreamRequest,
    text: &str,
    number: Option<u32>,
    device: Result<Option<u32>, Error>,
)
    requires
        call_ensures(requested_device, (&req,), device),
        call_ensures(parse_u32, (text,), number),
        req.device matches Some(id) ==> id@ == text@,
    ensures
        req.device is None ==> device is Ok && device->Ok_0 is None,
        req.device is Some ==> match number {
            Some(n) => device is Ok && device->Ok_0 == Some(n),
            None => device matches Err(Error::UnsupportedFormat { backend, detail }) && backend@
                == "coreaudio"@ && detail@ == "device id "@ + crate::text::debug_quoted(text@)
                + " is not a numeric AudioDeviceID (must come from output_devices() on the same coreaudio backend)"@,
        },
{
}

/// The decimal number of any device routes to that device.
pub proof fn law_every_device_number_routes_back(
    req: StreamRequest,
    number: u32,
    device: Result<Option<u32>, Error>,
)
    requires
        call_ensures(requested_device, (&req,), device),
        req.device is Some,
        req.device->0@ == crate::text::decimal(number as nat),
    ensures
        device is Ok && device->Ok_0 == Some(number),
{
    crate::text::law_decimal_reads_back(number);
}

/// Routing takes both libraries; the one that is missing is named, the HAL
/// first.
pub proof fn law_routing_takes_both_libraries(hal: bool, cf: bool, ready: Result<(), Error>)
    requires
        call_ensures(routing_ready, (hal, cf), ready),
    ensures
        ready is Ok <==> hal && cf,
        ready matches Err(e) ==> (e matches Error::UnsupportedFormat { backend, detail } && backend@
            == "coreaudio"@ && (!hal ==> detail@
            == "CoreAudio.framework HAL is required for per-device routing but failed to load"@)
            && (hal ==> detail@
            == "CoreFoundation.framework is required for per-device routing but failed to load"@)),
{
}

/// A queue is opened at the rate asked for, with the channels asked for kept
/// between one and eight; its buffers hold the frames hinted at or a
/// fiftieth of a second, four bytes a sample; and the latency floor is the
/// time of three of them.
pub proof fn law_queues_are_planned_from_the_request(req: StreamRequest, p: QueuePlan)
    requires
        call_ensures(plan, (&req,), p),
    ensures
        p.format.sample_rate == req.sample_rate,
        p.format.format is F32,
        1 <= p.format.channels <= 8,
        1 <= req.channels <= 8 ==> p.format.channels == req.channels,
        req.channels == 0 ==> p.format.channels == 1,
        req.channels > 8 ==> p.format.channels == 8,
        p.description.sample_rate == req.sample_rate,
        p.description.format_id == 0x6C70_636D,
        p.description.format_flags == 9,
        p.description.frames_per_packet == 1,
        p.description.bits_per_channel == 32,
        p.description.channels_per_frame == p.format.channels,
        p.description.bytes_per_frame == p.format.channels * 4,
        p.description.bytes_per_packet == p.format.channels * 4,
        req.buffer_frames matches Some(frames) ==> p.frames_per_buf == frames,
        req.buffer_frames is None ==> crate::laws::alsa::is_default_period(
            p.frames_per_buf as int,
            req.sample_rate,
        ),
        p.frames_per_buf * p.format.channels * 4 <= 0xFFFF_FFFF ==> p.bytes_per_buf
            == p.frames_per_buf * p.format.channels * 4,
        p.frames_per_buf * p.format.channels * 4 > 0xFFFF_FFFF ==> p.bytes_per_buf == 0xFFFF_FFFF,
        crate::laws::time::is_time_of(
            p.sw_latency_ns as int,
            3 * p.frames_per_buf,
            req.sample_rate as int,
        ),
{
    let frames = 3 * p.frames_per_buf;
    assert(crate::backends::coreaudio::NUM_BUFFERS * p.frames_per_buf == frames)
        by (nonlinear_arith)
        requires
            frames == 3 * p.frames_per_buf,
            crate::backends::coreaudio::NUM_BUFFERS == 3,
    ;
    crate::laws::time::lemma_the_time_of(0, frames, req.sample_rate as int);
}

proof fn lemma_quotient_fits(n: int, d: int)
    requires
        0 <= n <= 0xFFFF_FFFF_FFFF_FFFF,
        d > 0,
    ensures
        0 <= n / d <= n,
{
    vstd::arithmetic::div_mod::lemma_div_pos_is_pos(n, d);
    vstd::arithmetic::div_mod::lemma_div_nonincreasing(n, d);
}

/// An opening is driven by its model.
pub proof fn law_queue_openings_follow_their_model(
    device: Option<u32>,
    first: QueueOpen,
    at: QueueOpen,
    call: QueueCall,
    reply: QueueReply,
    next: QueueOpen,
)
    requires
        call_ensures(QueueOpen::start, (device,), first),
        call_ensures(QueueOpen::call, (&at,), call),
        call_ensures(QueueOpen::step, (at, reply), next),
    ensures
        first == QueueOpen::after_all(device, Seq::empty()),
        call == at.due(),
        next == at.after(reply),
{
}

proof fn lemma_queue_bookkeeping(device: Option<u32>, replies: Seq<QueueReply>)
    ensures
        ({
            let o = QueueOpen::after_all(device, replies);
            &&& o.device == device
            &&& o.due() is DeviceUid || o.due() is SetDevice || o.due() is ReleaseUid ==> device
                is Some && o.primed == 0
            &&& o.due() is NewOutput ==> o.primed == 0
            &&& o.due() is AllocateBuffer || o.due() is PrimeBuffer ==> o.primed < 3
            &&& o.due() is Start ==> o.primed == 3
            &&& o.stage is Running ==> o.primed == 3
            &&& o.failure is Some <==> o.due() is Dispose || o.due() is DropState
                || o.stage is Failed
        }),
    decreases replies.len(),
{
    if replies.len() > 0 {
        lemma_queue_bookkeeping(device, replies.drop_last());
    }
}

/// A queue is created, routed to the device if one is asked for, given three
/// buffers, each allocated and then filled with silence, and started. The
/// reference to the device's UID is released whether the routing worked or
/// not.
pub proof fn law_queue_calls_follow_one_another(
    device: Option<u32>,
    replies: Seq<QueueReply>,
    reply: QueueReply,
    later: QueueReply,
)
    requires
        QueueOpen::after_all(device, replies).failure is None,
    ensures
        ({
            let at = QueueOpen::after_all(device, replies);
            let next = at.after(reply);
            let ok = reply.status == 0 && reply.delivered;
            &&& QueueOpen::after_all(device, Seq::empty()).due() is NewOutput
            &&& QueueOpen::after_all(device, Seq::empty()).primed == 0
            &&& at.due() is PrimeBuffer ==> next.primed == at.primed + 1
            &&& !(at.due() is PrimeBuffer) ==> next.primed == at.primed
            &&& match at.due() {
                QueueCall::NewOutput => if !ok {
                    next.due() is DropState && next.failure == Some(
                        QueueFailure::NewOutput(reply.status),
                    )
                } else {
                    next.failure is None && match device {
                        Some(d) => next.due() == QueueCall::DeviceUid(d),
                        None => next.due() is AllocateBuffer,
                    }
                },
                QueueCall::DeviceUid(d) => device == Some(d) && if !ok {
                    next.due() is Dispose && next.failure == Some(QueueFailure::DeviceUid(d))
                } else {
                    next.due() is SetDevice && next.failure is None
                },
                QueueCall::SetDevice => device is Some && next.due() is ReleaseUid && next.failure
                    is None && if reply.status != 0 {
                    next.after(later).due() is Dispose && next.after(later).failure == Some(
                        QueueFailure::SetDevice { device: device->0, status: reply.status },
                    )
                } else {
                    next.after(later).due() is AllocateBuffer && next.after(later).failure is None
                },
                QueueCall::AllocateBuffer => at.primed < 3 && if !ok {
                    next.due() is Dispose && next.failure == Some(
                        QueueFailure::Allocate(reply.status),
                    )
                } else {
                    next.due() is PrimeBuffer && next.failure is None
                },
                QueueCall::PrimeBuffer => next.failure is None && if at.primed < 2 {
                    next.due() is AllocateBuffer
                } else {
                    next.due() is Start
                },
                QueueCall::Start => at.primed == 3 && if reply.status != 0 {
                    next.due() is Dispose && next.failure == Some(
                        QueueFailure::Start(reply.status),
                    )
                } else {
                    next.due() is Nothing && next.stage is Running && next.failure is None
                },
                QueueCall::Nothing => at.stage is Running && next == at,
                QueueCall::ReleaseUid => next.due() is Dispose || next.due() is AllocateBuffer,
                _ => false,
            }
        }),
{
    lemma_queue_bookkeeping(device, replies);
}

/// After a failure the queue is disposed of if there is one, then the
/// callback's state is dropped, and the failure stays what it was.
pub proof fn law_a_failed_queue_is_disposed_of(
    device: Option<u32>,
    replies: Seq<QueueReply>,
    reply: QueueReply,
)
    requires
        QueueOpen::after_all(device, replies).failure is Some,
    ensures
        ({
            let at = QueueOpen::after_all(device, replies);
            let next = at.after(reply);
            &&& next.failure == at.failure
            &&& !(next.stage is Running)
            &&& match at.due() {
                QueueCall::Dispose => next.due() is DropState,
                QueueCall::DropState => next.due() is Nothing,
                QueueCall::Nothing => next.due() is Nothing,
                _ => false,
            }
        }),
{
    lemma_queue_bookkeeping(device, replies);
}

/// The error of a failed opening names the call and its status, or the
/// device that has no UID.
pub proof fn law_queue_errors_name_the_failed_call(failure: QueueFailure, error: Error)
    requires
        call_ensures(open_error, (failure,), error),
    ensures
        match failure {
            QueueFailure::NewOutput(status) => error matches Error::DeviceOpen { backend, detail }
                && backend@ == "coreaudio"@ && detail@ == "AudioQueueNewOutput"@ + " OSStatus="@
                + crate::text::signed_decimal(status as int),
            QueueFailure::DeviceUid(device) => error matches Error::UnsupportedFormat {
                backend,
                detail,
            } && backend@ == "coreaudio"@ && detail@ == "AudioDeviceID "@ + crate::text::decimal(
                device as nat,
            ) + " has no DeviceUID property — not an output device or HAL refused the query"@,
            QueueFailure::SetDevice { device, status } => error matches Error::DeviceOpen {
                backend,
                detail,
            } && backend@ == "coreaudio"@ && detail@ == "AudioQueueSetProperty(CurrentDevice="@
                + crate::text::decimal(device as nat) + ")"@ + " OSStatus="@
                + crate::text::signed_decimal(status as int),
            QueueFailure::Allocate(status) => error matches Error::DeviceOpen { backend, detail }
                && backend@ == "coreaudio"@ && detail@ == "AudioQueueAllocateBuffer"@
                + " OSStatus="@ + crate::text::signed_decimal(status as int),
            QueueFailure::Start(status) => error matches Error::DeviceOpen { backend, detail }
                && backend@ == "coreaudio"@ && detail@ == "AudioQueueStart"@ + " OSStatus="@
                + crate::text::signed_decimal(status as int),
        },
{
}

/// The callback fills as many whole frames as the buffer has room for, with
/// silence while paused and with the user's samples at the frames played so
/// far otherwise; what is submitted is exactly those frames, and the clock
/// advances by them unless it is paused.
pub proof fn law_a_buffer_is_filled_with_whole_frames(
    p: QueuePlan,
    first: QueueClock,
    clock: &mut QueueClock,
    capacity: u32,
    paused: bool,
    task: FillTask,
    bytes: u32,
)
    requires
        old(clock).channels >= 1,
        call_ensures(QueueClock::new, (&p,), first),
        call_ensures(QueueClock::fill, (&*clock, capacity, paused), task),
        call_ensures(QueueClock::submit, (clock, capacity, paused), bytes),
    ensures
        first.channels == p.format.channels,
        first.frames_played == 0,
        final(clock).channels == old(clock).channels,
        paused ==> final(clock).frames_played == old(clock).frames_played,
        exists|frames: int|
            {
                &&& 0 <= #[trigger] (frames * (4 * old(clock).channels)) <= capacity
                &&& capacity < (frames + 1) * (4 * old(clock).channels)
                &&& bytes == frames * (4 * old(clock).channels)
                &&& !paused ==> (final(clock).frames_played - old(clock).frames_played - frames)
                    % 0x1_0000_0000_0000_0000 == 0
                &&& match task {
                    FillTask::Silence(samples) => paused && samples * 4 == bytes,
                    FillTask::Render(samples, info) => !paused && samples * 4 == bytes
                        && info.frames_played == old(clock).frames_played,
                }
            },
{
    let channels = old(clock).channels;
    let wide = 4 * channels;
    let frames = crate::backends::coreaudio::whole_frames(capacity, channels);
    crate::laws::time::lemma_quotient_bounds(capacity as int, wide);
    vstd::arithmetic::div_mod::lemma_div_pos_is_pos(capacity as int, wide);
    assert(frames * channels * 4 == frames * wide) by (nonlinear_arith)
        requires
            wide == 4 * channels,
    ;
    assert(0 <= frames * channels) by (nonlinear_arith)
        requires
            frames >= 0,
            channels >= 0,
    ;
    assert(0 <= frames * (4 * old(clock).channels) <= capacity);
    if !paused {
        let before = old(clock).frames_played;
        let after = final(clock).frames_played;
        assert(after == (before + frames) % 0x1_0000_0000_0000_0000);
        assert((after - before - frames) % 0x1_0000_0000_0000_0000 == 0);
    }
}

/// With hardware frames reported, the latency is the software floor and the
/// time of those frames on top of it, whatever the floor and however many
/// the frames; with none reported it is the floor.
pub proof fn law_hardware_frames_add_their_time(
    floor: u64,
    frames: u32,
    rate: u32,
    ns: int,
    with: Duration,
    without: Duration,
)
    requires
        crate::laws::time::is_time_of(ns, frames as int, rate as int),
        call_ensures(latency, (floor, Some(frames), rate), with),
        call_ensures(latency, (floor, None, rate), without),
    ensures
        without == crate::time::duration_of_nanos(floor),
        0 <= ns <= 0xFFFF_FFFF_FFFF_FFFF,
        floor + ns <= 0xFFFF_FFFF_FFFF_FFFF ==> with == crate::time::duration_of_nanos(
            (floor + ns) as u64,
        ),
        floor + ns > 0xFFFF_FFFF_FFFF_FFFF ==> with == crate::time::duration_of_nanos(
            0xFFFF_FFFF_FFFF_FFFF,
        ),
{
    crate::laws::time::lemma_the_time_of(ns, frames as int, rate as int);
}

/// Two readings whose hardware frames differ by a second's worth differ by a
/// second, whatever the floor.
pub proof fn law_a_second_of_hardware_frames_is_a_second(
    floor: u64,
    frames: u32,
    rate: u32,
    short: Duration,
    long: Duration,
)
    requires
        rate > 0,
        frames + rate <= 0xFFFF_FFFF,
        floor <= 0x7FFF_FFFF_FFFF_FFFF,
        call_ensures(latency, (floor, Some(frames), rate), short),
        call_ensures(latency, (floor, Some((frames + rate) as u32), rate), long),
    ensures
        exists|ns: u64|
            short == #[trigger] crate::time::duration_of_nanos(ns) && ns + 1_000_000_000
                <= 0xFFFF_FFFF_FFFF_FFFF && long == crate::time::duration_of_nanos(
                (ns + 1_000_000_000) as u64,
            ),
{
    let r = rate as int;
    let total = frames * 1_000_000_000;
    let more = (frames + rate) * 1_000_000_000;
    let q = total / r;
    crate::laws::time::lemma_quotient_bounds(total, r);
    lemma_quotient_fits(total, r);
    assert((q + 1_000_000_000) * r == q * r + 1_000_000_000 * r) by (nonlinear_arith);
    assert((q + 1_000_000_000 + 1) * r == (q + 1) * r + 1_000_000_000 * r) by (nonlinear_arith);
    crate::laws::time::lemma_quotient_is_unique(more, r, q + 1_000_000_000);
    lemma_quotient_fits(more, r);
    let ns = (floor + q) as u64;
    assert(short == crate::time::duration_of_nanos(ns));
    assert(long == crate::time::duration_of_nanos((ns + 1_000_000_000) as u64));
}

} // verus!
