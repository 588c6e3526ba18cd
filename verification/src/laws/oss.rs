//! OSS.

#![allow(unused_imports)]

use crate::backends::oss::{
    latency, open_error, path_of, probe_outcome, OssCall, OssEvent, OssFailure, OssOpen, OssReply,
    OssStage, OssTask, OssWorker,
};
use crate::error::Error;
use crate::format::{CallbackInfo, StreamFormat, StreamRequest};
use std::time::Duration;
use vstd::prelude::*;
use vstd::string::*;

verus! {

/// The numbers that the kernel's headers give.
pub proof fn law_oss_codes_are_the_kernels()
    ensures
        crate::backends::oss::SNDCTL_DSP_SETFMT == 0xC004_5005,
        crate::backends::oss::SNDCTL_DSP_CHANNELS == 0xC004_5006,
        crate::backends::oss::SNDCTL_DSP_SPEED == 0xC004_5002,
        crate::backends::oss::AFMT_S16_LE == 0x10,
{
}

/// The path that is opened is the requested device, or `/dev/dsp`; a path
/// that no C string can carry is refused, and only such a one.
pub proof fn law_the_requested_path_is_opened(req: StreamRequest, path: Result<String, Error>)
    requires
        call_ensures(path_of, (&req,), path),
    ensures
        req.device is None ==> path is Ok && path->Ok_0@ == "/dev/dsp"@,
        req.device matches Some(id) ==> {
            &&& !id@.contains('\0') ==> path is Ok && path->Ok_0@ == id@
            &&& id@.contains('\0') ==> (path matches Err(Error::DeviceOpen { backend, detail })
                && backend@ == "oss"@ && detail@ == "device id contains an interior NUL byte"@)
        },
{
}

/// An opening is driven by its model.
pub proof fn law_oss_openings_follow_their_model(
    req: StreamRequest,
    first: OssOpen,
    at: OssOpen,
    call: OssCall,
    reply: OssReply,
    next: OssOpen,
)
    requires
        call_ensures(OssOpen::start, (&req,), first),
        call_ensures(OssOpen::call, (&at,), call),
        call_ensures(OssOpen::step, (at, reply), next),
    ensures
        first == OssOpen::after_all(req, Seq::empty()),
        call == at.due(),
        next == at.after(reply),
{
}

/// What the device answered to the channel count it was asked for, if it
/// took one.
pub open spec fn channels_answer(req: StreamRequest, replies: Seq<OssReply>) -> Option<int>
    decreases replies.len(),
{
    if replies.len() == 0 {
        None
    } else {
        match OssOpen::after_all(req, replies.drop_last()).due() {
            OssCall::Ioctl { request, .. } if request == 0xC004_5006 && replies.last().code >= 0
                && 1 <= replies.last().value <= 0xFFFF => Some(replies.last().value as int),
            _ => channels_answer(req, replies.drop_last()),
        }
    }
}

/// What the device answered to the rate it was asked for, if it took one.
pub open spec fn speed_answer(req: StreamRequest, replies: Seq<OssReply>) -> Option<int>
    decreases replies.len(),
{
    if replies.len() == 0 {
        None
    } else {
        match OssOpen::after_all(req, replies.drop_last()).due() {
            OssCall::Ioctl { request, .. } if request == 0xC004_5002 && replies.last().code >= 0
                && replies.last().value >= 1 => Some(replies.last().value as int),
            _ => speed_answer(req, replies.drop_last()),
        }
    }
}

proof fn lemma_oss_learns(req: StreamRequest, replies: Seq<OssReply>)
    ensures
        ({
            let o = OssOpen::after_all(req, replies);
            let past_channels = o.stage is SetSpeed || o.stage is Spawn || o.stage is Running;
            let past_speed = o.stage is Spawn || o.stage is Running;
            &&& o.failure is Some <==> o.stage is CloseOnError || o.stage is Failed
            &&& match channels_answer(req, replies) {
                Some(n) => o.channels == n && (o.failure is None ==> past_channels),
                None => !past_channels && 1 <= o.channels <= 8 && (1 <= req.channels <= 8
                    ==> o.channels == req.channels) && (req.channels == 0 ==> o.channels == 1) && (
                req.channels > 8 ==> o.channels == 8),
            }
            &&& match speed_answer(req, replies) {
                Some(n) => o.rate == n && (o.failure is None ==> past_speed),
                None => !past_speed && o.rate == req.sample_rate,
            }
        }),
    decreases replies.len(),
{
    if replies.len() > 0 {
        lemma_oss_learns(req, replies.drop_last());
    }
}

/// A stream that runs reports the channel count and the rate that the device
/// answered with, whatever was asked for.
pub proof fn law_a_running_oss_stream_reports_the_devices_answers(
    req: StreamRequest,
    replies: Seq<OssReply>,
    format: StreamFormat,
)
    requires
        OssOpen::after_all(req, replies).stage is Running,
        call_ensures(OssOpen::format, (&OssOpen::after_all(req, replies),), format),
    ensures
        channels_answer(req, replies) == Some(format.channels as int),
        speed_answer(req, replies) == Some(format.sample_rate as int),
        format.format is F32,
{
    lemma_oss_learns(req, replies);
}

/// The calls of an opening: the device is opened, asked for 16-bit samples,
/// for the channels asked for and for the rate asked for, and given a
/// worker. What it refuses, or answers with a value that no stream can have,
/// is the failure, and an open device is then closed.
pub proof fn law_oss_calls_follow_one_another(
    req: StreamRequest,
    replies: Seq<OssReply>,
    reply: OssReply,
    later: OssReply,
)
    requires
        OssOpen::after_all(req, replies).failure is None,
    ensures
        ({
            let at = OssOpen::after_all(req, replies);
            let next = at.after(reply);
            let closes = next.due() is Close && next.after(later).due() is Nothing && next.after(
                later,
            ).failure == next.failure;
            &&& OssOpen::after_all(req, Seq::empty()).due() is Open
            &&& match at.due() {
                OssCall::Open => if reply.code < 0 {
                    next.due() is Nothing && next.failure == Some(OssFailure::Open(reply.code))
                } else {
                    next.failure is None && next.due() == (OssCall::Ioctl {
                        request: 0xC004_5005,
                        value: 0x10,
                    })
                },
                OssCall::Ioctl { request, value } => if request == 0xC004_5005 {
                    if reply.code < 0 {
                        closes && next.failure == Some(OssFailure::SetFormat(reply.code))
                    } else if reply.value != 0x10 {
                        closes && next.failure == Some(OssFailure::Format(reply.value))
                    } else {
                        next.failure is None && match next.due() {
                            OssCall::Ioctl { request, value } => request == 0xC004_5006 && 1
                                <= value <= 8 && (1 <= req.channels <= 8 ==> value == req.channels)
                                && (req.channels == 0 ==> value == 1) && (req.channels > 8 ==> value
                                == 8),
                            _ => false,
                        }
                    }
                } else if request == 0xC004_5006 {
                    if reply.code < 0 {
                        closes && next.failure == Some(OssFailure::SetChannels(reply.code))
                    } else if reply.value < 1 || reply.value > 0xFFFF {
                        closes && next.failure == Some(OssFailure::Channels(reply.value))
                    } else {
                        next.failure is None && match next.due() {
                            OssCall::Ioctl { request, value } => request == 0xC004_5002 && (
                            req.sample_rate <= 0x7FFF_FFFF ==> value == req.sample_rate) && (
                            req.sample_rate > 0x7FFF_FFFF ==> value == 0x7FFF_FFFF),
                            _ => false,
                        }
                    }
                } else {
                    request == 0xC004_5002 && if reply.code < 0 {
                        closes && next.failure == Some(OssFailure::SetSpeed(reply.code))
                    } else if reply.value < 1 {
                        closes && next.failure == Some(OssFailure::Speed(reply.value))
                    } else {
                        next.failure is None && next.due() is SpawnWorker
                    }
                },
                OssCall::SpawnWorker => if reply.code < 0 {
                    closes && next.failure == Some(OssFailure::Spawn)
                } else {
                    next.failure is None && next.due() is Nothing && next.stage is Running
                },
                OssCall::Close => false,
                OssCall::Nothing => next == at && at.stage is Running,
            }
        }),
{
    lemma_oss_learns(req, replies);
}

/// The error of a failed opening names what failed.
pub proof fn law_oss_errors_name_what_failed(
    failure: OssFailure,
    path: &str,
    reason: &str,
    error: Error,
)
    requires
        call_ensures(open_error, (failure, path, reason), error),
    ensures
        match failure {
            OssFailure::Open(_) => error matches Error::DeviceOpen { backend, detail } && backend@
                == "oss"@ && detail@ == "open "@ + path@ + ": "@ + reason@,
            OssFailure::SetFormat(_) => error matches Error::DeviceOpen { backend, detail }
                && backend@ == "oss"@ && detail@ == "SNDCTL_DSP_SETFMT: "@ + reason@,
            OssFailure::SetChannels(_) => error matches Error::DeviceOpen { backend, detail }
                && backend@ == "oss"@ && detail@ == "SNDCTL_DSP_CHANNELS: "@ + reason@,
            OssFailure::SetSpeed(_) => error matches Error::DeviceOpen { backend, detail }
                && backend@ == "oss"@ && detail@ == "SNDCTL_DSP_SPEED: "@ + reason@,
            OssFailure::Format(got) => error matches Error::UnsupportedFormat { backend, detail }
                && backend@ == "oss"@ && detail@ == "device insists on sample format "@
                + crate::text::signed_decimal(got as int),
            OssFailure::Channels(got) => error matches Error::UnsupportedFormat { backend, detail }
                && backend@ == "oss"@ && detail@ == "device answered with channel count "@
                + crate::text::signed_decimal(got as int),
            OssFailure::Speed(got) => error matches Error::UnsupportedFormat { backend, detail }
                && backend@ == "oss"@ && detail@ == "device answered with sample rate "@
                + crate::text::signed_decimal(got as int),
            OssFailure::Spawn => error matches Error::Runtime { backend, detail } && backend@
                == "oss"@ && detail@ == "spawn worker: "@ + reason@,
        },
{
}

/// A probe succeeds exactly when `/dev/dsp` opens.
pub proof fn law_oss_probes_by_opening(code: i32, reason: &str, outcome: Result<(), Error>)
    requires
        call_ensures(probe_outcome, (code, reason), outcome),
    ensures
        outcome is Ok <==> code >= 0,
        outcome matches Err(e) ==> (e matches Error::DeviceOpen { backend, detail } && backend@
            == "oss"@ && detail@ == "open "@ + "/dev/dsp"@ + ": "@ + reason@),
{
}

/// A worker starts at zero with the device's channels, and writes the hinted
/// frames or a fiftieth of a second at the device's rate.
pub proof fn law_oss_workers_write_the_hinted_frames(
    format: StreamFormat,
    hint: Option<u32>,
    worker: OssWorker,
)
    requires
        call_ensures(OssWorker::new, (format, hint), worker),
    ensures
        worker.frames_played == 0,
        worker.channels == format.channels,
        hint matches Some(frames) ==> worker.period_frames == frames,
        hint is None ==> crate::laws::alsa::is_default_period(
            worker.period_frames as int,
            format.sample_rate,
        ),
{
}

/// One turn of the worker: it leaves when told to stop or when a write
/// fails, writes a period of every channel, silent while paused, and counts
/// the period once it was written and not paused.
pub proof fn law_the_oss_worker_goes_round(
    worker: &mut OssWorker,
    event: OssEvent,
    task: OssTask,
)
    requires
        call_ensures(OssWorker::step, (worker, event), task),
    ensures
        *final(worker) == old(worker).after(event),
        final(worker).period_frames == old(worker).period_frames,
        final(worker).channels == old(worker).channels,
        match event {
            OssEvent::StopFlag(stop) => {
                &&& *final(worker) == *old(worker)
                &&& stop ==> task is Exit
                &&& !stop ==> task is ReadPauseFlag
            },
            OssEvent::PauseFlag(paused) => {
                &&& *final(worker) == *old(worker)
                &&& match task {
                    OssTask::WriteSilence(samples) => paused && samples
                        == old(worker).period_frames * old(worker).channels,
                    OssTask::RenderAndWrite(samples, info) => !paused && samples
                        == old(worker).period_frames * old(worker).channels && info.frames_played
                        == old(worker).frames_played,
                    _ => false,
                }
            },
            OssEvent::Written { ok, paused } => {
                &&& ok ==> task is ReadStopFlag
                &&& !ok ==> task is Exit
                &&& ok && !paused ==> (final(worker).frames_played - old(worker).frames_played
                    - old(worker).period_frames) % 0x1_0000_0000_0000_0000 == 0
                &&& !ok || paused ==> final(worker).frames_played == old(worker).frames_played
            },
        },
{
    let frames = old(worker).period_frames;
    let channels = old(worker).channels;
    assert(0 <= frames * channels <= 0xFFFF_FFFF * 0xFFFF) by (nonlinear_arith)
        requires
            frames <= 0xFFFF_FFFF,
            channels <= 0xFFFF,
    ;
}

/// The latency is the time of one period.
pub proof fn law_oss_latency_is_one_period(period: u32, rate: u32, ns: int, d: Duration)
    requires
        call_ensures(latency, (period, rate), d),
        crate::laws::time::is_time_of(ns, period as int, rate as int),
    ensures
        0 <= ns <= 0xFFFF_FFFF_FFFF_FFFF,
        d == crate::time::duration_of_nanos(ns as u64),
{
    crate::laws::time::lemma_the_time_of(ns, period as int, rate as int);
}

} // verus!
