//! ALSA.

#![allow(unused_imports)]

use crate::backends::alsa::{
    clamp_channels, device_of_hint, enumerate, latency, open_error, pcm_name, period_samples,
    probe_outcome, AlsaCall, AlsaEvent, AlsaFailure, AlsaHint, AlsaOpen, AlsaPeek, AlsaPlan,
    AlsaReply, AlsaStage, AlsaTask, AlsaWorker,
};
use crate::error::Error;
use crate::format::{CallbackInfo, Device, StreamFormat, StreamRequest};
use crate::text::first_line;
use std::time::Duration;
use vstd::prelude::*;
use vstd::string::*;

verus! {

/// The numbers that the library's headers give.
pub proof fn law_alsa_codes_are_the_headers()
    ensures
        crate::backends::alsa::ACCESS_RW_INTERLEAVED == 3,
        crate::backends::alsa::FORMAT_FLOAT_LE == 14,
        crate::backends::alsa::FORMAT_S16_LE == 2,
        crate::backends::alsa::MODE_BLOCKING == 0,
        crate::backends::alsa::MODE_NONBLOCK == 1,
{
}

/// A channel count from one to eight is opened as it is, a smaller one as
/// one and a larger one as eight.
pub proof fn law_channels_are_kept_from_one_to_eight(channels: u16, clamped: u16)
    requires
        call_ensures(clamp_channels, (channels,), clamped),
    ensures
        1 <= clamped <= 8,
        1 <= channels <= 8 ==> clamped == channels,
        channels == 0 ==> clamped == 1,
        channels > 8 ==> clamped == 8,
{
}

/// The PCM that is opened is the requested device, or `default`; a name that
/// no C string can carry is refused, and only such a one.
pub proof fn law_the_requested_pcm_is_opened(req: StreamRequest, name: Result<String, Error>)
    requires
        call_ensures(pcm_name, (&req,), name),
    ensures
        req.device is None ==> name is Ok && name->Ok_0@ == "default"@,
        req.device matches Some(id) ==> {
            &&& !id@.contains('\0') ==> name is Ok && name->Ok_0@ == id@
            &&& id@.contains('\0') ==> (name matches Err(Error::DeviceOpen { backend, detail })
                && backend@ == "alsa"@ && detail@ == "device id contains an interior NUL byte"@)
        },
{
    reveal_strlit("default");
    assert(!"default"@.contains('\0')) by {
        assert forall|i: int| 0 <= i < "default"@.len() implies "default"@[i] != '\0' by {}
    }
}

/// A probe succeeds exactly when the device opens; a failure is told in the
/// library's words.
pub proof fn law_alsa_probes_by_opening(
    code: i32,
    said: Option<&[u8]>,
    outcome: Result<(), Error>,
)
    requires
        call_ensures(probe_outcome, (code, said), outcome),
    ensures
        outcome is Ok <==> code >= 0,
        outcome matches Err(e) ==> (e matches Error::DeviceOpen { backend, detail } && backend@
            == "alsa"@ && (said matches Some(raw) ==> detail@ == crate::text::utf8_lossy(raw@))
            && (said is None ==> detail@ == "alsa error "@ + crate::text::signed_decimal(
            code as int,
        ))),
{
    reveal_strlit("alsa");
    reveal_strlit(" error ");
    reveal_strlit("alsa error ");
    assert("alsa"@ + " error "@ =~= "alsa error "@);
}

/// An opening is driven by its model: it starts there, asks for what the
/// model has due, and moves as the model does.
pub proof fn law_alsa_openings_follow_their_model(
    req: StreamRequest,
    first: AlsaOpen,
    at: AlsaOpen,
    call: AlsaCall,
    reply: AlsaReply,
    next: AlsaOpen,
)
    requires
        call_ensures(AlsaOpen::start, (&req,), first),
        call_ensures(AlsaOpen::call, (&at,), call),
        call_ensures(AlsaOpen::step, (at, reply), next),
    ensures
        first == AlsaOpen::after_all(req, Seq::empty()),
        call == at.due(),
        forall|replies: Seq<AlsaReply>|
            at == #[trigger] AlsaOpen::after_all(req, replies) ==> next == AlsaOpen::after_all(
                req,
                replies.push(reply),
            ),
{
    assert forall|replies: Seq<AlsaReply>|
        at == #[trigger] AlsaOpen::after_all(req, replies) implies next == AlsaOpen::after_all(
        req,
        replies.push(reply),
    ) by {
        assert(replies.push(reply).drop_last() =~= replies);
    }
}

/// What the device answered to the rate that it was asked for, if it did.
pub open spec fn rate_answer(req: StreamRequest, replies: Seq<AlsaReply>) -> Option<u32>
    decreases replies.len(),
{
    if replies.len() == 0 {
        None
    } else if AlsaOpen::after_all(req, replies.drop_last()).due() is SetRateNear
        && replies.last().code >= 0 {
        Some(replies.last().rate)
    } else {
        rate_answer(req, replies.drop_last())
    }
}

/// What the device answered to the period that it was asked for, if it did.
pub open spec fn period_answer(req: StreamRequest, replies: Seq<AlsaReply>) -> Option<u64>
    decreases replies.len(),
{
    if replies.len() == 0 {
        None
    } else if AlsaOpen::after_all(req, replies.drop_last()).due() is SetPeriodSizeNear
        && replies.last().code >= 0 {
        Some(replies.last().frames)
    } else {
        period_answer(req, replies.drop_last())
    }
}

/// The period that was read back after the commit, if it was read.
pub open spec fn committed_period(req: StreamRequest, replies: Seq<AlsaReply>) -> Option<u64>
    decreases replies.len(),
{
    if replies.len() == 0 {
        None
    } else if AlsaOpen::after_all(req, replies.drop_last()).due() is GetPeriodSize {
        Some(replies.last().frames)
    } else {
        committed_period(req, replies.drop_last())
    }
}

/// Whether the device was asked for float samples and took them.
pub open spec fn took_float(req: StreamRequest, replies: Seq<AlsaReply>) -> bool
    decreases replies.len(),
{
    if replies.len() == 0 {
        false
    } else {
        took_float(req, replies.drop_last()) || AlsaOpen::after_all(req, replies.drop_last()).due()
            == AlsaCall::SetFormat(14) && replies.last().code == 0
    }
}

/// Whether the device was asked for float samples and refused them.
pub open spec fn refused_float(req: StreamRequest, replies: Seq<AlsaReply>) -> bool
    decreases replies.len(),
{
    if replies.len() == 0 {
        false
    } else {
        refused_float(req, replies.drop_last()) || AlsaOpen::after_all(
            req,
            replies.drop_last(),
        ).due() == AlsaCall::SetFormat(14) && replies.last().code != 0
    }
}

/// How far an opening that has not failed has come.
pub open spec fn progress(stage: AlsaStage) -> int {
    match stage {
        AlsaStage::Open => 0,
        AlsaStage::HwMalloc => 1,
        AlsaStage::HwAny => 2,
        AlsaStage::SetAccess => 3,
        AlsaStage::SetFormatFloat => 4,
        AlsaStage::SetFormatS16 => 5,
        AlsaStage::SetChannels => 6,
        AlsaStage::SetRate => 7,
        AlsaStage::SetPeriod => 8,
        AlsaStage::SetBuffer => 9,
        AlsaStage::Commit => 10,
        AlsaStage::GetPeriod => 11,
        AlsaStage::HwFree => 12,
        AlsaStage::Prepare => 13,
        AlsaStage::Spawn => 14,
        AlsaStage::Running => 15,
        _ => -1,
    }
}

/// Whether a number is the fiftieth part of a rate, rounded down, but at
/// least 64.
pub open spec fn is_default_period(frames: int, rate: u32) -> bool {
    if rate >= 3200 {
        frames * 50 <= rate < (frames + 1) * 50
    } else {
        frames == 64
    }
}

proof fn lemma_alsa_learns(req: StreamRequest, replies: Seq<AlsaReply>)
    ensures
        ({
            let o = AlsaOpen::after_all(req, replies);
            let far = progress(o.stage);
            &&& 1 <= o.channels <= 8
            &&& 1 <= req.channels <= 8 ==> o.channels == req.channels
            &&& req.channels == 0 ==> o.channels == 1
            &&& req.channels > 8 ==> o.channels == 8
            &&& o.hint == req.buffer_frames
            &&& far >= 0 <==> o.failure is None
            &&& match rate_answer(req, replies) {
                Some(rate) => o.rate == rate && far != 7 && (far < 0 || far >= 8),
                None => o.rate == req.sample_rate && far <= 7,
            }
            &&& match period_answer(req, replies) {
                Some(frames) => o.period == frames && (far < 0 || far >= 9),
                None => far <= 8 && (far == 8 ==> match req.buffer_frames {
                    Some(hint) => o.period == hint,
                    None => is_default_period(o.period as int, o.rate),
                }),
            }
            &&& match committed_period(req, replies) {
                Some(frames) => o.period_actual == frames && (far < 0 || far >= 12),
                None => o.period_actual == 0 && far <= 11,
            }
            &&& o.float == took_float(req, replies)
            &&& far >= 6 ==> took_float(req, replies) != refused_float(req, replies)
            &&& far == 5 ==> refused_float(req, replies) && !took_float(req, replies)
            &&& 0 <= far <= 4 ==> !refused_float(req, replies) && !took_float(req, replies)
        }),
    decreases replies.len(),
{
    if replies.len() > 0 {
        lemma_alsa_learns(req, replies.drop_last());
    }
}

/// A stream that runs reports what the device settled on: the rate that it
/// answered with, whether that is above, below or equal to the rate asked
/// for; the channels asked for, kept between one and eight; and it renders
/// the longer of the period it answered with and the one it committed to,
/// in float exactly when it took float.
pub proof fn law_a_running_alsa_stream_reports_what_the_device_settled_on(
    req: StreamRequest,
    replies: Seq<AlsaReply>,
    plan: AlsaPlan,
)
    requires
        AlsaOpen::after_all(req, replies).stage is Running,
        call_ensures(AlsaOpen::plan, (&AlsaOpen::after_all(req, replies),), plan),
    ensures
        rate_answer(req, replies) == Some(plan.format.sample_rate),
        period_answer(req, replies) is Some,
        committed_period(req, replies) is Some,
        plan.period_frames >= period_answer(req, replies)->0,
        plan.period_frames >= committed_period(req, replies)->0,
        plan.period_frames == period_answer(req, replies)->0 || plan.period_frames
            == committed_period(req, replies)->0,
        plan.float <==> took_float(req, replies),
        !plan.float <==> refused_float(req, replies),
        plan.format.format is F32,
        plan.channels == plan.format.channels,
        1 <= plan.channels <= 8,
        1 <= req.channels <= 8 ==> plan.channels == req.channels,
        req.channels == 0 ==> plan.channels == 1,
        req.channels > 8 ==> plan.channels == 8,
{
    lemma_alsa_learns(req, replies);
}

/// What the device is asked for, at any point of any opening: interleaved
/// access; float samples, and 16-bit ones only once it has refused those;
/// the channels and the rate of the request; a period of the hint, or of a
/// fiftieth of a second at the rate it answered with; and a buffer of four
/// of the periods it answered with.
pub proof fn law_alsa_asks_for_what_was_requested(req: StreamRequest, replies: Seq<AlsaReply>)
    ensures
        match AlsaOpen::after_all(req, replies).due() {
            AlsaCall::SetAccess(access) => access == 3,
            AlsaCall::SetFormat(format) => if refused_float(req, replies) {
                format == 2
            } else {
                format == 14
            },
            AlsaCall::SetChannels(channels) => {
                &&& 1 <= channels <= 8
                &&& 1 <= req.channels <= 8 ==> channels == req.channels
                &&& req.channels == 0 ==> channels == 1
                &&& req.channels > 8 ==> channels == 8
            },
            AlsaCall::SetRateNear(rate) => rate == req.sample_rate,
            AlsaCall::SetPeriodSizeNear(frames) => match req.buffer_frames {
                Some(hint) => frames == hint,
                None => rate_answer(req, replies) is Some && is_default_period(
                    frames as int,
                    rate_answer(req, replies)->0,
                ),
            },
            AlsaCall::SetBufferSizeNear(frames) => {
                &&& period_answer(req, replies) is Some
                &&& period_answer(req, replies)->0 * 4 <= 0xFFFF_FFFF_FFFF_FFFF ==> frames
                    == period_answer(req, replies)->0 * 4
                &&& period_answer(req, replies)->0 * 4 > 0xFFFF_FFFF_FFFF_FFFF ==> frames
                    == 0xFFFF_FFFF_FFFF_FFFF
            },
            AlsaCall::OpenNonblocking => false,
            AlsaCall::SetChannelsNear(_) => false,
            _ => true,
        },
{
    lemma_alsa_learns(req, replies);
}

/// The calls of an opening that goes well follow one another in one order;
/// only a device that refuses float is asked for its format a second time,
/// and neither the buffer size nor the period read back can stop an opening.
pub proof fn law_alsa_calls_follow_one_another(
    req: StreamRequest,
    replies: Seq<AlsaReply>,
    reply: AlsaReply,
)
    requires
        AlsaOpen::after_all(req, replies).failure is None,
    ensures
        ({
            let call = AlsaOpen::after_all(req, replies).due();
            let next = AlsaOpen::after_all(req, replies.push(reply)).due();
            let failure = AlsaOpen::after_all(req, replies.push(reply)).failure;
            &&& AlsaOpen::after_all(req, Seq::empty()).due() is Open
            &&& reply.code >= 0 || call is SetBufferSizeNear || call is GetPeriodSize || call
                is HwFree || call == AlsaCall::SetFormat(14) ==> failure is None && match call {
                AlsaCall::Open => next is HwMalloc,
                AlsaCall::HwMalloc => next is HwAny,
                AlsaCall::HwAny => next is SetAccess,
                AlsaCall::SetAccess(_) => next == AlsaCall::SetFormat(14),
                AlsaCall::SetFormat(format) => if format == 14 && reply.code != 0 {
                    next == AlsaCall::SetFormat(2)
                } else {
                    next is SetChannels
                },
                AlsaCall::SetChannels(_) => next is SetRateNear,
                AlsaCall::SetRateNear(_) => next is SetPeriodSizeNear,
                AlsaCall::SetPeriodSizeNear(_) => next is SetBufferSizeNear,
                AlsaCall::SetBufferSizeNear(_) => next is Commit,
                AlsaCall::Commit => next is GetPeriodSize,
                AlsaCall::GetPeriodSize => next is HwFree,
                AlsaCall::HwFree => next is Prepare,
                AlsaCall::Prepare => next is SpawnWorker,
                AlsaCall::SpawnWorker => next is Nothing && AlsaOpen::after_all(
                    req,
                    replies.push(reply),
                ).stage is Running,
                AlsaCall::Nothing => next is Nothing,
                _ => false,
            }
        }),
{
    lemma_alsa_learns(req, replies);
    assert(replies.push(reply).drop_last() =~= replies);
}

/// Any other call that fails ends the opening: its code is what is reported,
/// the parameter block is freed if there is one, then the PCM is closed if
/// it is open, and nothing that is answered meanwhile changes the report.
pub proof fn law_a_failed_alsa_call_ends_the_opening(
    req: StreamRequest,
    replies: Seq<AlsaReply>,
    reply: AlsaReply,
    later: AlsaReply,
)
    requires
        AlsaOpen::after_all(req, replies).failure is None,
        reply.code < 0,
    ensures
        ({
            let call = AlsaOpen::after_all(req, replies).due();
            let failed = AlsaOpen::after_all(req, replies.push(reply));
            let after = AlsaOpen::after_all(req, replies.push(reply).push(later));
            let last = AlsaOpen::after_all(req, replies.push(reply).push(later).push(later));
            &&& call is Open || call is HwMalloc || call is HwAny || call is SetAccess || call
                == AlsaCall::SetFormat(2) || call is SetChannels || call is SetRateNear || call
                is SetPeriodSizeNear || call is Commit || call is Prepare || call is SpawnWorker
                ==> {
                &&& failed.failure matches Some(f) && f.code == reply.code
                &&& after.failure == failed.failure
                &&& last.failure == failed.failure
                &&& !(failed.stage is Running) && !(after.stage is Running)
                &&& match call {
                    AlsaCall::Open => failed.due() is Nothing,
                    AlsaCall::HwMalloc => failed.due() is Close && after.due() is Nothing,
                    AlsaCall::Prepare => failed.due() is Close && after.due() is Nothing,
                    AlsaCall::SpawnWorker => failed.due() is Close && after.due() is Nothing,
                    _ => failed.due() is HwFree && after.due() is Close && last.due() is Nothing,
                }
            }
        }),
{
    lemma_alsa_learns(req, replies);
    assert(replies.push(reply).drop_last() =~= replies);
    assert(replies.push(reply).push(later).drop_last() =~= replies.push(reply));
    assert(replies.push(reply).push(later).push(later).drop_last() =~= replies.push(reply).push(
        later,
    ));
}

/// The name under which the failure of a call is reported.
pub open spec fn reported_name(call: AlsaCall) -> Seq<char> {
    match call {
        AlsaCall::HwMalloc => "hw_params_malloc"@,
        AlsaCall::HwAny => "hw_params_any"@,
        AlsaCall::SetAccess(_) => "hw_params_set_access"@,
        AlsaCall::SetFormat(_) => "hw_params_set_format(S16_LE)"@,
        AlsaCall::SetChannels(_) => "hw_params_set_channels"@,
        AlsaCall::SetRateNear(_) => "hw_params_set_rate_near"@,
        AlsaCall::SetPeriodSizeNear(_) => "hw_params_set_period_size_near"@,
        AlsaCall::Commit => "hw_params (commit)"@,
        AlsaCall::Prepare => "snd_pcm_prepare"@,
        _ => ""@,
    }
}

/// Whether a text says why a call failed: in the library's words, or by the
/// number of the error where it has none.
pub open spec fn says_why(text: Seq<char>, said: Option<&[u8]>, code: i32) -> bool {
    match said {
        Some(raw) => text == crate::text::utf8_lossy(raw@),
        None => text == "alsa"@ + " error "@ + crate::text::signed_decimal(code as int),
    }
}

/// The error of an opening names the call that failed, and says why in the
/// library's words; the error of a worker that could not be started says why
/// in the system's.
pub proof fn law_alsa_errors_name_the_failed_call(
    req: StreamRequest,
    replies: Seq<AlsaReply>,
    reply: AlsaReply,
    said: Option<&[u8]>,
    why: Seq<char>,
    spawn_error: &str,
    error: Error,
)
    requires
        AlsaOpen::after_all(req, replies).failure is None,
        AlsaOpen::after_all(req, replies.push(reply)).failure is Some,
        says_why(why, said, reply.code),
        call_ensures(
            open_error,
            (AlsaOpen::after_all(req, replies.push(reply)).failure->0, said, spawn_error),
            error,
        ),
    ensures
        match AlsaOpen::after_all(req, replies).due() {
            AlsaCall::Open => error matches Error::DeviceOpen { backend, detail } && backend@
                == "alsa"@ && detail@ == why,
            AlsaCall::SpawnWorker => error matches Error::Runtime { backend, detail } && backend@
                == "alsa"@ && detail@ == "spawn worker: "@ + spawn_error@,
            call => error matches Error::DeviceOpen { backend, detail } && backend@ == "alsa"@
                && detail@ == reported_name(call) + ": "@ + why,
        },
{
    lemma_alsa_learns(req, replies);
    assert(replies.push(reply).drop_last() =~= replies);
}

/// Every hint that has a name and can play is a device, whatever else it
/// says, and no other is. Its id is the PCM's name; it is the default when
/// that name is `default`; and its label is the first line of its
/// description, or the name when it has none.
pub proof fn law_every_playable_hint_is_a_device(
    hint: AlsaHint,
    device: Option<Device>,
    text: &str,
    line: Option<String>,
)
    requires
        call_ensures(device_of_hint, (&hint,), device),
        hint.desc matches Some(raw) ==> text@ == crate::text::utf8_lossy(raw@),
        call_ensures(first_line, (text,), line),
    ensures
        device is Some <==> hint.name is Some && (hint.ioid is None || crate::text::utf8_lossy(
            hint.ioid->0@,
        ) == "Output"@),
        device matches Some(d) ==> {
            &&& d.id@ == crate::text::utf8_lossy(hint.name->0@)
            &&& d.is_default <==> d.id@ == "default"@
            &&& hint.desc is None ==> d.name@ == d.id@
            &&& hint.desc is Some && line is None ==> d.name@ == d.id@
            &&& hint.desc is Some && line is Some ==> d.name@ == line->0@
        },
{
}

/// So the label of a hint with a description is what stands before the
/// description's first line break.
pub proof fn law_a_label_is_the_first_line_of_the_description(
    hint: AlsaHint,
    device: Option<Device>,
    head: Seq<char>,
    rest: Seq<char>,
)
    requires
        call_ensures(device_of_hint, (&hint,), device),
        device is Some,
        hint.desc is Some,
        forall|i: int| 0 <= i < head.len() ==> head[i] != '\n',
        head.len() > 0 && head.last() != '\r',
    ensures
        ({
            let text = crate::text::utf8_lossy(hint.desc->0@);
            let label = device->0.name@;
            &&& text.len() == 0 ==> label == device->0.id@
            &&& text == head ==> label == head
            &&& text == head.push('\n') + rest ==> label == head
            &&& text == head.push('\r').push('\n') + rest ==> label == head
            &&& text == seq!['\n'] + rest ==> label.len() == 0
        }),
{
    lemma_first_lines(crate::text::utf8_lossy(hint.desc->0@), head, rest);
}

proof fn lemma_first_lines(text: Seq<char>, head: Seq<char>, rest: Seq<char>)
    requires
        forall|i: int| 0 <= i < head.len() ==> head[i] != '\n',
        head.len() > 0 && head.last() != '\r',
    ensures
        text.len() == 0 ==> crate::text::first_line_of(text) is None,
        text == head ==> crate::text::first_line_of(text) == Some(head),
        text == head.push('\n') + rest ==> crate::text::first_line_of(text) == Some(head),
        text == head.push('\r').push('\n') + rest ==> crate::text::first_line_of(text) == Some(
            head,
        ),
        text == seq!['\n'] + rest ==> crate::text::first_line_of(text) is Some
            && crate::text::first_line_of(text)->0.len() == 0,
{
    if text == head {
        crate::text::lemma_run_before(text, '\n', head.len());
        assert(text.take(head.len() as int) =~= head);
    }
    if text == head.push('\n') + rest {
        assert forall|j: int| 0 <= j < head.len() implies text[j] != '\n' by {
            assert(text[j] == head[j]);
        }
        assert(text[head.len() as int] == '\n');
        crate::text::lemma_run_before(text, '\n', head.len());
        assert(text.take(head.len() as int) =~= head);
        assert(text[head.len() - 1] == head.last());
    }
    if text == head.push('\r').push('\n') + rest {
        let n = head.len() + 1;
        assert forall|j: int| 0 <= j < n implies text[j] != '\n' by {
            if j < head.len() {
                assert(text[j] == head[j]);
            } else {
                assert(text[j] == '\r');
            }
        }
        assert(text[n as int] == '\n');
        assert(text[n - 1] == '\r');
        crate::text::lemma_run_before(text, '\n', n as nat);
        assert(text.take(n - 1) =~= head);
    }
    if text == seq!['\n'] + rest {
        assert(text[0] == '\n');
        crate::text::lemma_run_before(text, '\n', 0);
    }
}

/// Whether two devices have the same id, label and tag.
pub open spec fn alike(a: Device, b: Device) -> bool {
    a.id@ == b.id@ && a.name@ == b.name@ && a.is_default == b.is_default
}

/// One hint more at the end adds its device at the end of the list, if it is
/// one, and changes nothing else; no hints are an empty list.
pub proof fn law_each_hint_adds_its_own_device(
    code: i32,
    said: Option<&[u8]>,
    none: Vec<AlsaHint>,
    hints: Vec<AlsaHint>,
    longer: Vec<AlsaHint>,
    hint: AlsaHint,
    device: Option<Device>,
    empty: Result<Vec<Device>, Error>,
    list: Result<Vec<Device>, Error>,
    grown: Result<Vec<Device>, Error>,
)
    requires
        code >= 0,
        none@.len() == 0,
        longer@ == hints@.push(hint),
        call_ensures(device_of_hint, (&hint,), device),
        call_ensures(enumerate, (true, code, said, &none), empty),
        call_ensures(enumerate, (true, code, said, &hints), list),
        call_ensures(enumerate, (true, code, said, &longer), grown),
    ensures
        empty is Ok && list is Ok && grown is Ok,
        empty->Ok_0@.len() == 0,
        ({
            let before = list->Ok_0@;
            let after = grown->Ok_0@;
            &&& after.len() == before.len() + (if device is Some {
                1int
            } else {
                0int
            })
            &&& forall|i: int| 0 <= i < before.len() ==> alike(#[trigger] after[i], before[i])
            &&& device matches Some(d) ==> alike(after.last(), d)
        }),
{
    assert(longer@.drop_last() =~= hints@);
    let before = list->Ok_0@;
    let after = grown->Ok_0@;
    let short = crate::backends::alsa::entries(hints@);
    let long = crate::backends::alsa::entries(longer@);
    assert forall|i: int| 0 <= i < before.len() implies alike(#[trigger] after[i], before[i]) by {
        assert(after[i].is(long[i].0, long[i].1, long[i].2));
        assert(before[i].is(short[i].0, short[i].1, short[i].2));
        assert(long[i] == short[i]);
    }
    if let Some(d) = device {
        let n = after.len() - 1;
        assert(after[n].is(long[n].0, long[n].1, long[n].2));
    }
}

/// Whether a hint has a name and can play, whatever it says of itself.
pub open spec fn can_play(hint: AlsaHint) -> bool {
    hint.name is Some && (hint.ioid matches Some(raw) ==> crate::text::utf8_lossy(raw@)
        == "Output"@)
}

/// The ids of a list are the names of the hints that can play: each of them
/// once, in the order of the hints, and no other.
pub proof fn law_the_listed_ids_are_the_playable_names(
    code: i32,
    said: Option<&[u8]>,
    hints: Vec<AlsaHint>,
    list: Result<Vec<Device>, Error>,
)
    requires
        code >= 0,
        call_ensures(enumerate, (true, code, said, &hints), list),
    ensures
        list is Ok,
        ({
            let playable = hints@.filter(|hint: AlsaHint| can_play(hint));
            &&& list->Ok_0@.len() == playable.len()
            &&& forall|i: int|
                0 <= i < playable.len() ==> (#[trigger] list->Ok_0@[i]).id@
                    == crate::text::utf8_lossy(playable[i].name->0@)
        }),
{
    let playable = hints@.filter(|hint: AlsaHint| can_play(hint));
    let entries = crate::backends::alsa::entries(hints@);
    lemma_entries_are_playable(hints@);
    assert forall|i: int| 0 <= i < playable.len() implies (#[trigger] list->Ok_0@[i]).id@
        == crate::text::utf8_lossy(playable[i].name->0@) by {
        assert(list->Ok_0@[i].is(entries[i].0, entries[i].1, entries[i].2));
    }
}

proof fn lemma_entries_are_playable(hints: Seq<AlsaHint>)
    ensures
        ({
            let playable = hints.filter(|hint: AlsaHint| can_play(hint));
            let entries = crate::backends::alsa::entries(hints);
            &&& entries.len() == playable.len()
            &&& forall|i: int|
                0 <= i < playable.len() ==> (#[trigger] entries[i]).0 == crate::text::utf8_lossy(
                    playable[i].name->0@,
                )
        }),
    decreases hints.len(),
{
    reveal(Seq::filter);
    if hints.len() > 0 {
        lemma_entries_are_playable(hints.drop_last());
    }
}

/// An enumeration fails exactly when the library has no way to enumerate or
/// says that it could not.
pub proof fn law_alsa_enumeration_fails_when_the_library_does(
    available: bool,
    code: i32,
    said: Option<&[u8]>,
    hints: Vec<AlsaHint>,
    list: Result<Vec<Device>, Error>,
)
    requires
        call_ensures(enumerate, (available, code, said, &hints), list),
    ensures
        list is Ok <==> available && code >= 0,
        !available ==> (list matches Err(Error::NotImplemented(backend)) && backend@ == "alsa"@),
        available && code < 0 ==> (list matches Err(Error::Runtime { backend, detail }) && backend@
            == "alsa"@ && (said matches Some(raw) ==> detail@ == "snd_device_name_hint: "@
            + crate::text::utf8_lossy(raw@))),
{
}

/// The worker's clock advances by exactly the frames that the device
/// accepted, its delay is the last one that was read without an error, and
/// it starts at zero.
pub proof fn law_the_alsa_worker_counts_what_was_accepted(
    plan: AlsaPlan,
    first: AlsaWorker,
    worker: &mut AlsaWorker,
    event: AlsaEvent,
    task: AlsaTask,
)
    requires
        call_ensures(AlsaWorker::new, (&plan,), first),
        call_ensures(AlsaWorker::step, (worker, event), task),
    ensures
        first.frames_played == 0,
        first.delay_frames == 0,
        first.period_frames == plan.period_frames,
        *final(worker) == old(worker).after(event),
        final(worker).period_frames == old(worker).period_frames,
        match event {
            AlsaEvent::Written(n) => {
                &&& n >= 0 ==> (final(worker).frames_played - old(worker).frames_played - n)
                    % 0x1_0000_0000_0000_0000 == 0
                &&& n < 0 ==> final(worker).frames_played == old(worker).frames_played
                &&& final(worker).delay_frames == old(worker).delay_frames
            },
            AlsaEvent::Delay { code, frames } => {
                &&& final(worker).frames_played == old(worker).frames_played
                &&& code == 0 ==> final(worker).delay_frames == frames
                &&& code != 0 ==> final(worker).delay_frames == old(worker).delay_frames
            },
            _ => *final(worker) == *old(worker),
        },
{
}

/// The worker renders with the frames played so far, writes, reads the delay
/// after a write that was accepted and mends one that was not; it leaves
/// when it is told to stop or a write cannot be mended, and goes on
/// otherwise.
pub proof fn law_the_alsa_worker_goes_round(
    worker: &mut AlsaWorker,
    event: AlsaEvent,
    task: AlsaTask,
)
    requires
        call_ensures(AlsaWorker::step, (worker, event), task),
    ensures
        match event {
            AlsaEvent::StopFlag(stop) => if stop {
                task is Exit
            } else {
                task matches AlsaTask::RenderAndWrite(info) && info.frames_played
                    == old(worker).frames_played
            },
            AlsaEvent::Written(n) => if n < 0 {
                task == AlsaTask::Recover(n)
            } else {
                task is ReadDelay
            },
            AlsaEvent::Recovered(code) => if code < 0 {
                task is Exit
            } else {
                task is ReadStopFlag
            },
            AlsaEvent::Delay { .. } => task is ReadStopFlag,
        },
{
}

/// A period's buffer has every channel of every frame.
pub proof fn law_a_period_holds_every_channel(frames: usize, channels: usize, samples: usize)
    requires
        frames * channels <= usize::MAX,
        call_ensures(period_samples, (frames, channels), samples),
    ensures
        samples == frames * channels,
{
}

/// The latency is the time of the frames in the driver's queue, and none
/// when the queue is reported empty or less than that.
pub proof fn law_alsa_latency_is_the_queues_time(delay: i64, rate: u32, ns: int, d: Duration)
    requires
        call_ensures(latency, (delay, rate), d),
        delay > 0 ==> crate::laws::time::is_time_of(ns, delay as int, rate as int),
        delay <= 0 ==> ns == 0,
    ensures
        0 <= ns <= 0xFFFF_FFFF_FFFF_FFFF,
        d == crate::time::duration_of_nanos(ns as u64),
{
    if delay > 0 {
        crate::laws::time::lemma_the_time_of(ns, delay as int, rate as int);
    } else {
        crate::laws::time::lemma_the_time_of(0, 0, rate as int);
    }
}

/// An introspection is driven by its model.
pub proof fn law_alsa_introspections_follow_their_model(
    first: AlsaPeek,
    at: AlsaPeek,
    call: AlsaCall,
    reply: AlsaReply,
    next: AlsaPeek,
)
    requires
        call_ensures(AlsaPeek::start, (), first),
        call_ensures(AlsaPeek::call, (&at,), call),
        call_ensures(AlsaPeek::step, (at, reply), next),
    ensures
        first == AlsaPeek::after_all(Seq::empty()),
        call == at.due(),
        next == at.after(reply),
{
}

/// A device is opened without blocking, asked what it makes of 48 kHz and of
/// two channels, and closed; its answers are what is reported.
pub proof fn law_alsa_introspection_reports_what_the_device_snaps_to(
    opened: AlsaReply,
    allocated: AlsaReply,
    any: AlsaReply,
    rate: AlsaReply,
    channels: AlsaReply,
    freed: AlsaReply,
    closed: AlsaReply,
    format: StreamFormat,
)
    requires
        opened.code >= 0 && allocated.code >= 0 && any.code >= 0 && rate.code >= 0 && channels.code
            >= 0,
        call_ensures(
            AlsaPeek::format,
            (&AlsaPeek::started().after(opened).after(allocated).after(any).after(rate).after(
                channels,
            ).after(freed).after(closed),),
            format,
        ),
    ensures
        ({
            let p0 = AlsaPeek::started();
            let p1 = p0.after(opened);
            let p2 = p1.after(allocated);
            let p3 = p2.after(any);
            let p4 = p3.after(rate);
            let p5 = p4.after(channels);
            let p6 = p5.after(freed);
            let p7 = p6.after(closed);
            &&& p0.due() is OpenNonblocking
            &&& p1.due() is HwMalloc
            &&& p2.due() is HwAny
            &&& p3.due() == AlsaCall::SetRateNear(48_000)
            &&& p4.due() == AlsaCall::SetChannelsNear(2)
            &&& p5.due() is HwFree
            &&& p6.due() is Close
            &&& p7.due() is Nothing
            &&& p7.failure is None && p7.stage is Done
            &&& format.sample_rate == rate.rate
            &&& channels.channels <= 0xFFFF ==> format.channels == channels.channels
            &&& channels.channels > 0xFFFF ==> format.channels == 0xFFFF
            &&& format.format is F32
        }),
{
}

/// An introspection whose call fails reports its code and closes what it
/// opened.
pub proof fn law_a_failed_alsa_introspection_closes_the_device(
    peek: AlsaPeek,
    reply: AlsaReply,
    later: AlsaReply,
)
    requires
        reply.code < 0,
        peek.failure is None,
    ensures
        ({
            let call = peek.due();
            let failed = peek.after(reply);
            &&& call is OpenNonblocking || call is HwMalloc || call is HwAny || call is SetRateNear
                || call is SetChannelsNear ==> (failed.failure matches Some(f) && f.code
                == reply.code)
            &&& call is OpenNonblocking ==> failed.due() is Nothing
            &&& call is HwMalloc ==> failed.due() is Close && failed.after(later).due() is Nothing
                && failed.after(later).failure == failed.failure
            &&& call is HwAny || call is SetRateNear || call is SetChannelsNear ==> failed.due()
                is HwFree && failed.after(later).due() is Close && failed.after(later).after(
                later,
            ).due() is Nothing && failed.after(later).after(later).failure == failed.failure
        }),
{
}

/// The error of a failed introspection names the call that failed, and says
/// why in the library's words.
pub proof fn law_alsa_introspection_errors_name_the_failed_call(
    peek: AlsaPeek,
    reply: AlsaReply,
    said: Option<&[u8]>,
    why: Seq<char>,
    spawn_error: &str,
    error: Error,
)
    requires
        peek.failure is None,
        peek.after(reply).failure is Some,
        says_why(why, said, reply.code),
        call_ensures(
            open_error,
            (peek.after(reply).failure->0, said, spawn_error),
            error,
        ),
    ensures
        error matches Error::DeviceOpen { backend, detail } && backend@ == "alsa"@ && match peek.due() {
            AlsaCall::OpenNonblocking => detail@ == why,
            AlsaCall::HwMalloc => detail@ == "hw_params_malloc"@ + ": "@ + why,
            AlsaCall::HwAny => detail@ == "hw_params_any"@ + ": "@ + why,
            AlsaCall::SetRateNear(_) => detail@ == "hw_params_set_rate_near"@ + ": "@ + why,
            AlsaCall::SetChannelsNear(_) => detail@ == "hw_params_set_channels"@ + ": "@ + why,
            _ => false,
        },
{
}

} // verus!
