//! WASAPI.

#![allow(unused_imports)]

use crate::backends::wasapi::{
    activation_error, buffer_duration, compute_clock_latency_ns, endpoint_id_units, guid,
    inspect_format, latency, list_endpoints, mix_stream_format, open_error, stream_latency_nanos,
    subtype_ieee_float, subtype_pcm, ActivateFailure, ActivateStage, Activation, Endpoint,
    MixFormat, OpenFailure, OpenStage, WasapiCall, WasapiEvent, WasapiOpen, WasapiReply,
    WasapiTask, WasapiWorker, GUID,
};
use crate::backends::wasapi_list::{
    walk_error, EndpointWalk, ListCall, ListFailure, ListStage,
};
use crate::error::Error;
use crate::format::{CallbackInfo, Device, StreamFormat, StreamRequest};
use crate::text::{decode_utf16_lossy, encode_utf16};
use std::time::Duration;
use vstd::prelude::*;
use vstd::string::*;

verus! {

/// The numbers that the platform's headers give.
pub proof fn law_wasapi_codes_are_the_headers()
    ensures
        crate::backends::wasapi::S_OK == 0,
        crate::backends::wasapi::WAIT_OBJECT_0 == 0,
        crate::backends::wasapi::WAIT_TIMEOUT == 258,
        crate::backends::wasapi::WAVE_FORMAT_PCM == 1,
        crate::backends::wasapi::WAVE_FORMAT_IEEE_FLOAT == 3,
        crate::backends::wasapi::WAVE_FORMAT_EXTENSIBLE == 0xFFFE,
        crate::backends::wasapi::DEFAULT_BUFFER_DURATION == 2_000_000,
        crate::backends::wasapi::NO_LIVE_LATENCY == 0xFFFF_FFFF_FFFF_FFFF,
{
}

/// Identifiers are assembled field by field, and match when all their fields
/// do.
pub proof fn law_identifiers_match_in_every_field(
    d1: u32,
    d2: u16,
    d3: u16,
    d4: [u8; 8],
    built: GUID,
    a: GUID,
    b: GUID,
    same: bool,
)
    requires
        call_ensures(guid, (d1, d2, d3, d4), built),
        call_ensures(GUID::matches, (&a, &b), same),
    ensures
        built.data1 == d1 && built.data2 == d2 && built.data3 == d3 && built.data4@ == d4@,
        same <==> a.data1 == b.data1 && a.data2 == b.data2 && a.data3 == b.data3 && forall|i: int|
            0 <= i < 8 ==> a.data4@[i] == b.data4@[i],
{
    if forall|i: int| 0 <= i < 8 ==> a.data4@[i] == b.data4@[i] {
        assert(a.data4@ =~= b.data4@);
    }
}

/// Whether an identifier is that of a wave sub-format with this tag.
pub open spec fn is_subtype(id: GUID, tag: int) -> bool {
    id.data1 == tag && id.data2 == 0 && id.data3 == 0x10 && id.data4@[0] == 0x80 && id.data4@[1]
        == 0 && id.data4@[2] == 0 && id.data4@[3] == 0xAA && id.data4@[4] == 0 && id.data4@[5]
        == 0x38 && id.data4@[6] == 0x9B && id.data4@[7] == 0x71
}

/// The two sub-formats that are played.
pub proof fn law_the_sub_formats_are_float_and_pcm(float: GUID, pcm: GUID)
    requires
        call_ensures(subtype_ieee_float, (), float),
        call_ensures(subtype_pcm, (), pcm),
    ensures
        is_subtype(float, 3),
        is_subtype(pcm, 1),
{
}

/// A block is float when its tag is 3, or when it is extensible and its
/// sub-format is; it is integer when that is 1; nothing else is either. Its
/// bits are its bits.
pub proof fn law_formats_are_float_or_pcm(
    tag: u16,
    bits: u16,
    sub: GUID,
    layout: Option<(bool, u16)>,
)
    requires
        call_ensures(inspect_format, (tag, bits, &sub), layout),
    ensures
        tag == 3 || tag == 0xFFFE && is_subtype(sub, 3) ==> layout == Some((true, bits)),
        tag == 1 || tag == 0xFFFE && is_subtype(sub, 1) ==> layout == Some((false, bits)),
        tag != 3 && tag != 1 && !(tag == 0xFFFE && (is_subtype(sub, 3) || is_subtype(sub, 1)))
            ==> layout is None,
{
    let tail = crate::backends::wasapi::wave_subtype_tail();
    if is_subtype(sub, 3) || is_subtype(sub, 1) {
        assert(sub.data4@ =~= tail);
    }
    if sub.data4@ == tail {
        assert(tail[0] == 0x80 && tail[1] == 0 && tail[2] == 0 && tail[3] == 0xAA && tail[4] == 0
            && tail[5] == 0x38 && tail[6] == 0x9B && tail[7] == 0x71);
    }
}

/// A hint is asked for as its time in units of 100 ns, rounded down but one
/// at least; without a hint that is a fifth of a second.
pub proof fn law_the_hint_is_asked_for_as_time(
    frames: u32,
    rate: u32,
    units: int,
    hinted: i64,
    unhinted: i64,
)
    requires
        rate > 0 ==> units * rate <= frames * 10_000_000 < (units + 1) * rate,
        rate == 0 ==> units == frames * 10_000_000,
        call_ensures(buffer_duration, (Some(frames), rate), hinted),
        call_ensures(buffer_duration, (None, rate), unhinted),
    ensures
        units >= 1 ==> hinted == units,
        units < 1 ==> hinted == 1,
        unhinted == 2_000_000,
{
    lemma_hinted_duration(frames, rate, units);
}

proof fn lemma_hinted_duration(frames: u32, rate: u32, units: int)
    requires
        rate > 0 ==> units * rate <= frames * 10_000_000 < (units + 1) * rate,
        rate == 0 ==> units == frames * 10_000_000,
    ensures
        units >= 1 ==> crate::backends::wasapi::hinted_duration(frames, rate) == units,
        units < 1 ==> crate::backends::wasapi::hinted_duration(frames, rate) == 1,
{
    let n = frames * 10_000_000;
    let d: int = if rate == 0 {
        1
    } else {
        rate as int
    };
    if rate > 0 {
        crate::laws::time::lemma_quotient_is_unique(n, d, units);
    }
    vstd::arithmetic::div_mod::lemma_div_nonincreasing(n, d);
    assert(n / d == units);
}

/// The latency by the clock is the time of the frames written and not yet
/// played, where the frames played are the cursor's share of a second at the
/// stream's rate.
pub proof fn law_clock_latency_is_the_time_in_flight(
    written: u64,
    position: u64,
    frequency: u64,
    rate: u32,
    played: int,
    time: int,
    ns: u64,
)
    requires
        frequency > 0 && rate > 0,
        played * frequency <= position * rate < (played + 1) * frequency,
        written > played ==> time * rate <= (written - played) * 1_000_000_000 < (time + 1) * rate,
        written <= played ==> time == 0,
        call_ensures(compute_clock_latency_ns, (written, position, frequency, rate), ns),
    ensures
        time <= 0xFFFF_FFFF_FFFF_FFFF ==> ns == time,
        time > 0xFFFF_FFFF_FFFF_FFFF ==> ns == 0xFFFF_FFFF_FFFF_FFFF,
{
    let p = position * rate;
    crate::laws::time::lemma_quotient_is_unique(p, frequency as int, played);
    assert(crate::backends::wasapi::cursor_frames(position, frequency, rate) == played);
    if written > played {
        crate::laws::time::lemma_quotient_is_unique(
            (written - played) * 1_000_000_000,
            rate as int,
            time,
        );
    } else {
        vstd::arithmetic::div_mod::lemma_div_basics(rate as int);
    }
}

/// A frequency or a rate of zero counts as one.
pub proof fn law_zero_frequency_counts_as_one(
    written: u64,
    position: u64,
    frequency: u64,
    rate: u32,
    still: u64,
    at_one: u64,
    slow: u64,
    at_one_hertz: u64,
)
    requires
        call_ensures(compute_clock_latency_ns, (written, position, 0, rate), still),
        call_ensures(compute_clock_latency_ns, (written, position, 1, rate), at_one),
        call_ensures(compute_clock_latency_ns, (written, position, frequency, 0), slow),
        call_ensures(compute_clock_latency_ns, (written, position, frequency, 1), at_one_hertz),
    ensures
        still == at_one,
        slow == at_one_hertz,
{
}

/// A stream latency is in units of 100 ns; a negative one is none.
pub proof fn law_stream_latency_is_in_hundreds(reference: i64, ns: u64)
    requires
        reference * 100 <= 0xFFFF_FFFF_FFFF_FFFF,
        call_ensures(stream_latency_nanos, (reference,), ns),
    ensures
        reference >= 0 ==> ns == reference * 100,
        reference < 0 ==> ns == 0,
{
}

/// A live latency is what is reported; until there is one, the stream's and
/// the time of the frames queued are.
pub proof fn law_wasapi_latency_prefers_the_live_one(
    live: u64,
    stream_ns: u64,
    padding: u64,
    rate: u32,
    ns: int,
    d: Duration,
)
    requires
        crate::laws::time::is_time_of(ns, padding as int, rate as int),
        live == 0xFFFF_FFFF_FFFF_FFFF ==> stream_ns + ns <= 0xFFFF_FFFF_FFFF_FFFF,
        call_ensures(latency, (live, stream_ns, padding, rate), d),
    ensures
        live < 0xFFFF_FFFF_FFFF_FFFF ==> d == crate::time::duration_of_nanos(live),
        live == 0xFFFF_FFFF_FFFF_FFFF ==> d == crate::time::duration_of_nanos(
            (stream_ns + ns) as u64,
        ),
{
    crate::laws::time::lemma_the_time_of(ns, padding as int, rate as int);
}

/// An activation is driven by its model.
pub proof fn law_activations_follow_their_model(
    req: StreamRequest,
    first: Activation,
    at: Activation,
    call: WasapiCall,
    reply: WasapiReply,
    next: Activation,
)
    requires
        call_ensures(Activation::start, (&req,), first),
        call_ensures(Activation::call, (&at,), call),
        call_ensures(Activation::step, (at, reply), next),
    ensures
        first == Activation::after_all(req, Seq::empty()),
        call == at.due(),
        next == at.after(reply),
{
}

proof fn lemma_activation_bookkeeping(req: StreamRequest, replies: Seq<WasapiReply>)
    ensures
        ({
            let at = Activation::after_all(req, replies);
            &&& at.routed <==> req.device is Some
            &&& match at.due() {
                WasapiCall::ReleaseEnumerator => true,
                WasapiCall::ReleaseDevice => true,
                WasapiCall::ReleaseClient => at.failure is Some,
                WasapiCall::Nothing => at.failure is Some <==> at.stage is Failed,
                _ => at.failure is None,
            }
            &&& at.mix is Some <==> at.stage is Ready
        }),
    decreases replies.len(),
{
    if replies.len() > 0 {
        lemma_activation_bookkeeping(req, replies.drop_last());
    }
}

/// An activation creates the enumerator, asks it for the named endpoint or
/// the default one, releases it, activates the endpoint, releases that, and
/// asks the client for its mix format, which is what the activation comes
/// to. A call that does not deliver is the failure; what is held is released
/// before the activation ends.
pub proof fn law_activation_calls_follow_one_another(
    req: StreamRequest,
    replies: Seq<WasapiReply>,
    reply: WasapiReply,
)
    ensures
        ({
            let at = Activation::after_all(req, replies);
            let next = at.after(reply);
            let ok = reply.code == 0 && reply.present;
            let failed = next.failure == Some(
                ActivateFailure { call: at.due(), code: reply.code },
            );
            let ended = next.stage is Failed && next.due() is Nothing;
            &&& Activation::after_all(req, Seq::empty()).due() is CreateEnumerator
            &&& match at.due() {
                WasapiCall::CreateEnumerator => if ok {
                    next.failure is None && if req.device is Some {
                        next.due() is GetDevice
                    } else {
                        next.due() is GetDefaultAudioEndpoint
                    }
                } else {
                    failed && ended
                },
                WasapiCall::GetDevice => req.device is Some && next.due() is ReleaseEnumerator && (
                if ok {
                    next.failure is None
                } else {
                    failed
                }),
                WasapiCall::GetDefaultAudioEndpoint => req.device is None && next.due()
                    is ReleaseEnumerator && (if ok {
                    next.failure is None
                } else {
                    failed
                }),
                WasapiCall::ReleaseEnumerator => next.failure == at.failure && if at.failure
                    is None {
                    next.due() is Activate
                } else {
                    ended
                },
                WasapiCall::Activate => next.due() is ReleaseDevice && (if ok {
                    next.failure is None
                } else {
                    failed
                }),
                WasapiCall::ReleaseDevice => next.failure == at.failure && if at.failure is None {
                    next.due() is GetMixFormat
                } else {
                    ended
                },
                WasapiCall::GetMixFormat => if ok {
                    next.failure is None && next.due() is Nothing && next.stage is Ready && next.mix
                        == Some(reply.mix)
                } else {
                    failed && next.due() is ReleaseClient
                },
                WasapiCall::ReleaseClient => next.failure == at.failure && ended,
                WasapiCall::Nothing => next == at,
                _ => false,
            }
        }),
{
    lemma_activation_bookkeeping(req, replies);
}

/// The name under which the failure of a call is reported.
pub open spec fn reported_name(call: WasapiCall) -> Seq<char> {
    match call {
        WasapiCall::CreateEnumerator => "CoCreateInstance(MMDeviceEnumerator)"@,
        WasapiCall::GetDefaultAudioEndpoint => "GetDefaultAudioEndpoint"@,
        WasapiCall::GetDevice => "IMMDeviceEnumerator::GetDevice"@,
        WasapiCall::Activate => "IMMDevice::Activate"@,
        WasapiCall::GetMixFormat => "GetMixFormat"@,
        WasapiCall::Initialize { .. } => "IAudioClient::Initialize"@,
        WasapiCall::SetEventHandle => "SetEventHandle"@,
        WasapiCall::GetBufferSize => "GetBufferSize"@,
        WasapiCall::GetRenderClient => "GetService(IAudioRenderClient)"@,
        WasapiCall::Start => "IAudioClient::Start"@,
        _ => ""@,
    }
}

/// The error of a failed activation names the call and its status.
pub proof fn law_activation_errors_name_the_failed_call(failure: ActivateFailure, error: Error)
    requires
        call_ensures(activation_error, (failure,), error),
    ensures
        error matches Error::DeviceOpen { backend, detail } && backend@ == "wasapi"@ && detail@
            == reported_name(failure.call) + " HRESULT="@ + crate::text::status_hex(failure.code),
{
}

/// An opening is driven by its model.
pub proof fn law_wasapi_openings_follow_their_model(
    hint: Option<u32>,
    mix: MixFormat,
    first: WasapiOpen,
    at: WasapiOpen,
    call: WasapiCall,
    reply: WasapiReply,
    next: WasapiOpen,
)
    requires
        call_ensures(WasapiOpen::start, (hint, mix), first),
        call_ensures(WasapiOpen::call, (&at,), call),
        call_ensures(WasapiOpen::step, (at, reply), next),
    ensures
        first == WasapiOpen::after_all(hint, mix, Seq::empty()),
        call == at.due(),
        next == at.after(reply),
{
}

/// An opening keeps the mix format it was given. A 32-bit float or a 16-bit
/// integer format is initialised with the hint's time, and any other is the
/// failure.
pub proof fn law_wasapi_openings_begin_with_the_mix_format(
    frames: u32,
    units: int,
    mix: MixFormat,
)
    requires
        mix.sample_rate > 0 ==> units * mix.sample_rate <= frames * 10_000_000 < (units + 1)
            * mix.sample_rate,
        mix.sample_rate == 0 ==> units == frames * 10_000_000,
    ensures
        ({
            let hinted = WasapiOpen::after_all(Some(frames), mix, Seq::empty());
            let unhinted = WasapiOpen::after_all(None, mix, Seq::empty());
            &&& hinted.mix == mix && unhinted.mix == mix
            &&& hinted.buffer_frames == 0 && hinted.stream_latency == 0 && hinted.clock_frequency
                == 0
            &&& unhinted.buffer_frames == 0 && unhinted.stream_latency == 0
                && unhinted.clock_frequency == 0
            &&& hinted.float <==> mix.layout == Some((true, 32u16))
            &&& unhinted.float <==> mix.layout == Some((true, 32u16))
            &&& hinted.failure == unhinted.failure
            &&& match mix.layout {
                None => hinted.failure == Some(OpenFailure::NoLayout) && hinted.due()
                    is FreeMixFormat && unhinted.due() is FreeMixFormat,
                Some((float, bits)) => if float && bits == 32 || !float && bits == 16 {
                    &&& hinted.failure is None
                    &&& unhinted.due() == (WasapiCall::Initialize { duration: 2_000_000 })
                    &&& hinted.due() matches WasapiCall::Initialize { duration } && (units >= 1
                        ==> duration == units) && (units < 1 ==> duration == 1)
                } else {
                    hinted.failure == Some(OpenFailure::BadLayout { float, bits }) && hinted.due()
                        is FreeMixFormat && unhinted.due() is FreeMixFormat
                },
            }
        }),
{
    lemma_hinted_duration(frames, mix.sample_rate, units);
    lemma_units_fit(frames, mix.sample_rate, units);
}

proof fn lemma_units_fit(frames: u32, rate: u32, units: int)
    requires
        rate > 0 ==> units * rate <= frames * 10_000_000 < (units + 1) * rate,
        rate == 0 ==> units == frames * 10_000_000,
    ensures
        0 <= units <= frames * 10_000_000,
{
    if rate > 0 {
        let n = frames * 10_000_000;
        crate::laws::time::lemma_quotient_is_unique(n, rate as int, units);
        vstd::arithmetic::div_mod::lemma_div_nonincreasing(n, rate as int);
        vstd::arithmetic::div_mod::lemma_div_pos_is_pos(n, rate as int);
    }
}

proof fn lemma_wasapi_bookkeeping(hint: Option<u32>, mix: MixFormat, replies: Seq<WasapiReply>)
    ensures
        ({
            let at = WasapiOpen::after_all(hint, mix, replies);
            &&& at.mix == mix
            &&& match at.due() {
                WasapiCall::FreeMixFormat => true,
                WasapiCall::ReleaseRender => at.failure is Some,
                WasapiCall::CloseEvent => at.failure is Some,
                WasapiCall::ReleaseClient => at.failure is Some,
                WasapiCall::Nothing => at.failure is None <==> at.stage is Running,
                _ => at.failure is None,
            }
        }),
    decreases replies.len(),
{
    if replies.len() > 0 {
        lemma_wasapi_bookkeeping(hint, mix, replies.drop_last());
    }
}

/// An initialised client has its mix format freed, and is given an event,
/// asked for its buffer size and its render service, started, and asked for
/// its latency and its clock; then the worker is started. Only the latency
/// and the clock may fail: a clock that has no frequency is released and
/// done without.
pub proof fn law_wasapi_calls_follow_one_another(
    hint: Option<u32>,
    mix: MixFormat,
    replies: Seq<WasapiReply>,
    reply: WasapiReply,
)
    ensures
        ({
            let at = WasapiOpen::after_all(hint, mix, replies);
            let next = at.after(reply);
            let ok = reply.code == 0;
            let failed = next.failure == Some(
                OpenFailure::Call { call: at.due(), code: reply.code },
            );
            let same = next.failure == at.failure;
            match at.due() {
                WasapiCall::Initialize { .. } => next.due() is FreeMixFormat && (if ok {
                    same
                } else {
                    failed
                }),
                WasapiCall::FreeMixFormat => same && if at.failure is None {
                    next.due() is CreateEvent
                } else {
                    next.due() is ReleaseClient
                },
                WasapiCall::CreateEvent => if reply.present {
                    same && next.due() is SetEventHandle
                } else {
                    next.failure == Some(OpenFailure::NoEvent) && next.due() is ReleaseClient
                },
                WasapiCall::SetEventHandle => if ok {
                    same && next.due() is GetBufferSize
                } else {
                    failed && next.due() is CloseEvent
                },
                WasapiCall::GetBufferSize => if ok {
                    same && next.due() is GetRenderClient
                } else {
                    failed && next.due() is CloseEvent
                },
                WasapiCall::GetRenderClient => if ok && reply.present {
                    same && next.due() is Start
                } else {
                    failed && next.due() is CloseEvent
                },
                WasapiCall::Start => if ok {
                    same && next.due() is GetStreamLatency
                } else {
                    failed && next.due() is ReleaseRender
                },
                WasapiCall::GetStreamLatency => same && next.due() is GetClock,
                WasapiCall::GetClock => same && if !reply.present {
                    next.due() is SpawnWorker
                } else if ok {
                    next.due() is GetFrequency
                } else {
                    next.due() is ReleaseClock
                },
                WasapiCall::GetFrequency => same && if ok && reply.count > 0 {
                    next.due() is SpawnWorker
                } else {
                    next.due() is ReleaseClock
                },
                WasapiCall::ReleaseClock => same && next.due() is SpawnWorker,
                WasapiCall::SpawnWorker => next.due() is Nothing && if ok {
                    same && next.stage is Running
                } else {
                    next.failure == Some(OpenFailure::Spawn) && !(next.stage is Running)
                },
                WasapiCall::ReleaseRender => same && next.due() is CloseEvent,
                WasapiCall::CloseEvent => same && next.due() is ReleaseClient,
                WasapiCall::ReleaseClient => same && next.due() is Nothing && !(next.stage
                    is Running),
                WasapiCall::Nothing => next == at,
                _ => false,
            }
        }),
{
    lemma_wasapi_bookkeeping(hint, mix, replies);
}

/// What an opening learns is what the calls report, and nothing else changes
/// it: the buffer's frames, the stream's latency, and the frequency of a
/// clock that has one.
pub proof fn law_wasapi_learns_what_is_reported(
    hint: Option<u32>,
    mix: MixFormat,
    replies: Seq<WasapiReply>,
    reply: WasapiReply,
)
    ensures
        ({
            let at = WasapiOpen::after_all(hint, mix, replies);
            let next = at.after(reply);
            &&& next.mix == mix
            &&& next.duration == at.duration
            &&& next.float == at.float
            &&& if at.due() is GetBufferSize && reply.code == 0 {
                next.buffer_frames == reply.count
            } else {
                next.buffer_frames == at.buffer_frames
            }
            &&& if at.due() is GetStreamLatency {
                next.stream_latency == reply.reference_time
            } else {
                next.stream_latency == at.stream_latency
            }
            &&& if at.due() is GetFrequency && reply.code == 0 && reply.count > 0 {
                next.clock_frequency == reply.count
            } else {
                next.clock_frequency == at.clock_frequency
            }
        }),
{
    lemma_wasapi_bookkeeping(hint, mix, replies);
}

/// A stream reports the rate and the channels of the mix format.
pub proof fn law_wasapi_reports_the_mix_format(
    opening: WasapiOpen,
    mix: MixFormat,
    of_opening: StreamFormat,
    of_mix: StreamFormat,
)
    requires
        call_ensures(WasapiOpen::format, (&opening,), of_opening),
        call_ensures(mix_stream_format, (&mix,), of_mix),
    ensures
        of_opening.sample_rate == opening.mix.sample_rate,
        of_opening.channels == opening.mix.channels,
        of_opening.format is F32,
        of_mix.sample_rate == mix.sample_rate,
        of_mix.channels == mix.channels,
        of_mix.format is F32,
{
}

/// The error of a failed opening names what failed.
pub proof fn law_wasapi_errors_name_what_failed(
    failure: OpenFailure,
    spawn_error: &str,
    error: Error,
)
    requires
        call_ensures(open_error, (failure, spawn_error), error),
    ensures
        match failure {
            OpenFailure::NoLayout => error matches Error::UnsupportedFormat { backend, detail }
                && backend@ == "wasapi"@ && detail@ == "mix format is neither IEEE_FLOAT nor PCM"@,
            OpenFailure::BadLayout { float, bits } => error matches Error::UnsupportedFormat {
                backend,
                detail,
            } && backend@ == "wasapi"@ && (float ==> detail@ == "mix format bits_per_sample="@
                + crate::text::decimal(bits as nat) + " is_float="@ + "true"@) && (!float ==> detail@
                == "mix format bits_per_sample="@ + crate::text::decimal(bits as nat)
                + " is_float="@ + "false"@),
            OpenFailure::Call { call, code } => error matches Error::DeviceOpen { backend, detail }
                && backend@ == "wasapi"@ && detail@ == reported_name(call) + " HRESULT="@
                + crate::text::status_hex(code),
            OpenFailure::NoEvent => error matches Error::DeviceOpen { backend, detail } && backend@
                == "wasapi"@ && detail@ == "CreateEventA returned NULL"@,
            OpenFailure::Spawn => error matches Error::Runtime { backend, detail } && backend@
                == "wasapi"@ && detail@ == "spawn worker: "@ + spawn_error@,
        },
{
}

/// A worker starts at zero, with no latency published.
pub proof fn law_wasapi_workers_start_at_zero(
    buffer_frames: u32,
    rate: u32,
    frequency: u64,
    worker: WasapiWorker,
)
    requires
        call_ensures(WasapiWorker::new, (buffer_frames, rate, frequency), worker),
    ensures
        worker.buffer_frames == buffer_frames,
        worker.sample_rate == rate,
        worker.clock_frequency == frequency,
        worker.frames_played == 0,
        worker.frames_written == 0,
        worker.padding_frames == 0,
        worker.available == 0,
        worker.clock_latency_ns == 0xFFFF_FFFF_FFFF_FFFF,
{
}

/// What the worker does: it leaves when told to stop and when anything it
/// needs fails; it fills the room that the padding leaves in the buffer, and
/// waits again where that is none; what it fills is silent while paused.
pub proof fn law_the_wasapi_worker_goes_round(
    worker: &mut WasapiWorker,
    event: WasapiEvent,
    task: WasapiTask,
)
    requires
        call_ensures(WasapiWorker::step, (worker, event), task),
    ensures
        match event {
            WasapiEvent::StopFlag(stop) => if stop {
                task is Exit
            } else {
                task is Wait
            },
            WasapiEvent::Waited(w) => if w == 0 || w == 258 {
                task is ReadPadding
            } else {
                task is Exit
            },
            WasapiEvent::Padding { code, frames } => if code != 0 {
                task is Exit
            } else if frames >= old(worker).buffer_frames {
                task is ReadStopFlag
            } else {
                task matches WasapiTask::GetBuffer(n) && n + frames == old(worker).buffer_frames
            },
            WasapiEvent::Buffer { code, present } => if code == 0 && present {
                task is ReadPauseFlag
            } else {
                task is Exit
            },
            WasapiEvent::PauseFlag(paused) => if paused {
                task == WasapiTask::Silence(old(worker).available)
            } else {
                task matches WasapiTask::Render(n, info) && n == old(worker).available
                    && info.frames_played == old(worker).frames_played
            },
            WasapiEvent::Released { code, .. } => if code != 0 {
                task is Exit
            } else if old(worker).clock_frequency > 0 {
                task is ReadPosition
            } else {
                task is ReadStopFlag
            },
            WasapiEvent::Position { .. } => task is ReadStopFlag,
        },
{
}

/// What the worker counts: every frame that was handed over, and of those
/// the ones that were not paused; the padding and the room are those of the
/// last reading; and a latency is published with each reading of the cursor.
pub proof fn law_the_wasapi_worker_counts_what_was_handed_over(
    worker: &mut WasapiWorker,
    event: WasapiEvent,
    task: WasapiTask,
)
    requires
        call_ensures(WasapiWorker::step, (worker, event), task),
    ensures
        *final(worker) == old(worker).after(event),
        final(worker).buffer_frames == old(worker).buffer_frames,
        final(worker).sample_rate == old(worker).sample_rate,
        final(worker).clock_frequency == old(worker).clock_frequency,
        match event {
            WasapiEvent::Released { code, paused } => {
                &&& code == 0 ==> (final(worker).frames_written - old(worker).frames_written
                    - old(worker).available) % 0x1_0000_0000_0000_0000 == 0
                &&& code != 0 ==> final(worker).frames_written == old(worker).frames_written
                &&& code == 0 && !paused ==> (final(worker).frames_played
                    - old(worker).frames_played - old(worker).available)
                    % 0x1_0000_0000_0000_0000 == 0
                &&& code != 0 || paused ==> final(worker).frames_played
                    == old(worker).frames_played
            },
            _ => final(worker).frames_written == old(worker).frames_written
                && final(worker).frames_played == old(worker).frames_played,
        },
        match event {
            WasapiEvent::Padding { code, frames } => if code == 0 {
                &&& final(worker).padding_frames == frames
                &&& frames <= old(worker).buffer_frames ==> final(worker).available + frames
                    == old(worker).buffer_frames
                &&& frames > old(worker).buffer_frames ==> final(worker).available == 0
            } else {
                final(worker).padding_frames == old(worker).padding_frames
                    && final(worker).available == old(worker).available
            },
            _ => final(worker).padding_frames == old(worker).padding_frames
                && final(worker).available == old(worker).available,
        },
        match event {
            WasapiEvent::Position { code, position } => code != 0
                ==> final(worker).clock_latency_ns == old(worker).clock_latency_ns,
            _ => final(worker).clock_latency_ns == old(worker).clock_latency_ns,
        },
{
}

/// The latency that is published is the one by the clock of all that was
/// written.
pub proof fn law_the_wasapi_worker_publishes_the_clock_latency(
    worker: &mut WasapiWorker,
    position: u64,
    task: WasapiTask,
    ns: u64,
)
    requires
        call_ensures(
            WasapiWorker::step,
            (worker, WasapiEvent::Position { code: 0, position }),
            task,
        ),
        call_ensures(
            compute_clock_latency_ns,
            (
                old(worker).frames_written,
                position,
                old(worker).clock_frequency,
                old(worker).sample_rate,
            ),
            ns,
        ),
    ensures
        final(worker).clock_latency_ns == ns,
{
}

/// Every endpoint is one device, in order: its id and its name are the
/// endpoint's as text, no name being an empty label, and it is the default
/// exactly when it has the default endpoint's id.
pub proof fn law_every_endpoint_is_a_device(
    endpoints: Vec<Endpoint>,
    default_id: Option<Vec<u16>>,
    devices: Vec<Device>,
    i: int,
)
    requires
        call_ensures(list_endpoints, (&endpoints, &default_id), devices),
        0 <= i < endpoints@.len(),
    ensures
        devices@.len() == endpoints@.len(),
        devices@[i].id@ == crate::text::utf16_lossy(endpoints@[i].id@),
        endpoints@[i].name matches Some(units) ==> devices@[i].name@ == crate::text::utf16_lossy(
            units@,
        ),
        endpoints@[i].name is None ==> devices@[i].name@.len() == 0,
        devices@[i].is_default <==> default_id is Some && default_id->0@ == endpoints@[i].id@,
{
    reveal_strlit("");
    let entries = endpoints@.map_values(
        |e: Endpoint| e.entry(crate::backends::wasapi::units_of(default_id)),
    );
    assert(devices@[i].is(entries[i].0, entries[i].1, entries[i].2));
}

/// An id is handed over as UTF-16 with a terminating zero.
pub proof fn law_ids_are_handed_over_terminated(id: &str, units: Vec<u16>, bare: Vec<u16>)
    requires
        call_ensures(endpoint_id_units, (id,), units),
        call_ensures(encode_utf16, (id,), bare),
    ensures
        units@ == bare@.push(0u16),
{
}

/// A walk is driven by its model.
pub proof fn law_walks_follow_their_model(
    first: EndpointWalk,
    at: EndpointWalk,
    call: ListCall,
    reply: WasapiReply,
    next: EndpointWalk,
)
    requires
        call_ensures(EndpointWalk::start, (), first),
        call_ensures(EndpointWalk::call, (&at,), call),
        call_ensures(EndpointWalk::step, (at, reply), next),
    ensures
        first == EndpointWalk::after_all(Seq::empty()),
        call == at.due(),
        next == at.after(reply),
{
}

proof fn lemma_walk_bookkeeping(replies: Seq<WasapiReply>)
    ensures
        ({
            let at = EndpointWalk::after_all(replies);
            &&& at.listed <= at.count
            &&& match at.due() {
                ListCall::Item(i) => at.failure is None && i == at.listed && at.listed < at.count,
                ListCall::GetId => at.failure is None && at.listed < at.count,
                ListCall::ReadName => at.failure is None && at.listed < at.count,
                ListCall::ReleaseItem => true,
                ListCall::ReleaseCollection => at.failure is None ==> at.listed == at.count,
                ListCall::ReleaseEnumerator => at.failure is None ==> at.listed == at.count,
                ListCall::Nothing => (at.failure is None <==> at.stage is Done) && (at.failure
                    is None ==> at.listed == at.count),
                _ => at.failure is None && at.count == 0 && at.listed == 0,
            }
        }),
    decreases replies.len(),
{
    if replies.len() > 0 {
        lemma_walk_bookkeeping(replies.drop_last());
    }
}

/// A walk asks for the default endpoint's id, which may be missing, then for
/// the endpoints and their count, and reads the id and the name of each in
/// turn, from the first to the last; a name may be missing. Any other call
/// that does not deliver is the failure. What is held is released, and the
/// walk ends.
pub proof fn law_walk_calls_follow_one_another(replies: Seq<WasapiReply>, reply: WasapiReply)
    ensures
        ({
            let at = EndpointWalk::after_all(replies);
            let next = at.after(reply);
            let ok = reply.code == 0 && reply.present;
            let failed = next.failure == Some(ListFailure { call: at.due(), code: reply.code });
            let same = next.failure == at.failure;
            &&& EndpointWalk::after_all(Seq::empty()).due() is CreateEnumerator
            &&& at.due() is GetCount && reply.code == 0 ==> next.count == reply.count
            &&& !(at.due() is GetCount && reply.code == 0) ==> next.count == at.count
            &&& at.due() is ReadName ==> next.listed == at.listed + 1
            &&& !(at.due() is ReadName) ==> next.listed == at.listed
            &&& match at.due() {
                ListCall::CreateEnumerator => if ok {
                    same && next.due() is GetDefault
                } else {
                    failed && next.due() is Nothing
                },
                ListCall::GetDefault => same && if ok {
                    next.due() is GetDefaultId
                } else {
                    next.due() is Enumerate
                },
                ListCall::GetDefaultId => same && next.due() is ReleaseDefault,
                ListCall::ReleaseDefault => same && next.due() is Enumerate,
                ListCall::Enumerate => if ok {
                    same && next.due() is GetCount
                } else {
                    failed && next.due() is ReleaseEnumerator
                },
                ListCall::GetCount => if reply.code != 0 {
                    failed && next.due() is ReleaseCollection
                } else {
                    same && if reply.count > 0 {
                        next.due() == ListCall::Item(0)
                    } else {
                        next.due() is ReleaseCollection
                    }
                },
                ListCall::Item(i) => i == at.listed && if ok {
                    same && next.due() is GetId
                } else {
                    failed && next.due() is ReleaseCollection
                },
                ListCall::GetId => if ok {
                    same && next.due() is ReadName
                } else {
                    failed && next.due() is ReleaseItem
                },
                ListCall::ReadName => same && next.due() is ReleaseItem,
                ListCall::ReleaseItem => same && if at.failure is None && at.listed < at.count {
                    next.due() == ListCall::Item(at.listed)
                } else {
                    next.due() is ReleaseCollection
                },
                ListCall::ReleaseCollection => same && next.due() is ReleaseEnumerator,
                ListCall::ReleaseEnumerator => same && next.due() is Nothing && (next.stage is Done
                    <==> at.failure is None),
                ListCall::Nothing => next == at,
            }
        }),
{
    lemma_walk_bookkeeping(replies);
}

/// A walk that is done has read as many endpoints as were counted.
pub proof fn law_a_finished_walk_has_read_every_endpoint(replies: Seq<WasapiReply>)
    requires
        EndpointWalk::after_all(replies).stage is Done,
    ensures
        EndpointWalk::after_all(replies).listed == EndpointWalk::after_all(replies).count,
        EndpointWalk::after_all(replies).failure is None,
{
    lemma_walk_bookkeeping(replies);
}

/// The error of a failed walk names the call and its status.
pub proof fn law_walk_errors_name_the_failed_call(failure: ListFailure, error: Error)
    requires
        call_ensures(walk_error, (failure,), error),
    ensures
        error matches Error::Runtime { backend, detail } && backend@ == "wasapi"@ && match failure.call {
            ListCall::CreateEnumerator => detail@ == "CoCreateInstance(MMDeviceEnumerator)"@
                + " HRESULT="@ + crate::text::status_hex(failure.code),
            ListCall::Enumerate => detail@ == "IMMDeviceEnumerator::EnumAudioEndpoints"@
                + " HRESULT="@ + crate::text::status_hex(failure.code),
            ListCall::GetCount => detail@ == "IMMDeviceCollection::GetCount"@ + " HRESULT="@
                + crate::text::status_hex(failure.code),
            ListCall::Item(_) => detail@ == "IMMDeviceCollection::Item"@ + " HRESULT="@
                + crate::text::status_hex(failure.code),
            ListCall::GetId => detail@ == "IMMDevice::GetId"@ + " HRESULT="@
                + crate::text::status_hex(failure.code),
            _ => true,
        },
{
}

} // verus!
