//! The ALSA backend.

use oxideav_sysaudio::backends::alsa::{
    clamp_channels, enumerate, latency, open_error, pcm_name, period_samples, probe_outcome,
    AlsaCall, AlsaEvent, AlsaFailure, AlsaHint, AlsaOpen, AlsaPeek, AlsaReply, AlsaStage, AlsaTask,
    AlsaWorker, PeekStage, FORMAT_FLOAT_LE, FORMAT_S16_LE,
};
use oxideav_sysaudio::{CallbackInfo, Error, StreamRequest};
use std::time::Duration;

fn reply(code: i32, rate: u32, frames: u64, channels: u32) -> AlsaReply {
    AlsaReply { code, rate, frames, channels }
}

const OK: AlsaReply = AlsaReply { code: 0, rate: 44_100, frames: 1_024, channels: 2 };

/// Runs an opening in which the call with this number fails.
fn run_open(req: &StreamRequest, failing: Option<usize>) -> (AlsaOpen, Vec<AlsaCall>) {
    let mut o = AlsaOpen::start(req);
    let mut calls = Vec::new();
    while o.call() != AlsaCall::Nothing {
        let bad = failing == Some(calls.len());
        calls.push(o.call());
        o = o.step(if bad { reply(-22, 0, 0, 0) } else { OK });
    }
    (o, calls)
}

#[test]
fn alsa_opening_negotiates() {
    let (o, calls) = run_open(&StreamRequest::new(48_000, 2), None);
    assert_eq!(o.stage, AlsaStage::Running);
    assert_eq!(
        calls,
        vec![
            AlsaCall::Open,
            AlsaCall::HwMalloc,
            AlsaCall::HwAny,
            AlsaCall::SetAccess(3),
            AlsaCall::SetFormat(FORMAT_FLOAT_LE),
            AlsaCall::SetChannels(2),
            AlsaCall::SetRateNear(48_000),
            AlsaCall::SetPeriodSizeNear(882),
            AlsaCall::SetBufferSizeNear(4_096),
            AlsaCall::Commit,
            AlsaCall::GetPeriodSize,
            AlsaCall::HwFree,
            AlsaCall::Prepare,
            AlsaCall::SpawnWorker,
        ]
    );
    let plan = o.plan();
    assert!(plan.float);
    assert_eq!(plan.format.sample_rate, 44_100);
    assert_eq!(plan.period_frames, 1_024);
}

#[test]
fn alsa_hints_set_the_period() {
    let req = StreamRequest::new(48_000, 2).with_buffer_frames(Some(256));
    let (_, calls) = run_open(&req, None);
    assert!(calls.contains(&AlsaCall::SetPeriodSizeNear(256)));
}

#[test]
fn alsa_falls_back_to_s16() {
    let (o, calls) = run_open(&StreamRequest::new(48_000, 2), Some(4));
    assert_eq!(calls[5], AlsaCall::SetFormat(FORMAT_S16_LE));
    assert_eq!(o.stage, AlsaStage::Running);
    assert!(!o.plan().float);
}

#[test]
fn alsa_buffer_size_is_best_effort() {
    let (o, _) = run_open(&StreamRequest::new(48_000, 2), Some(8));
    assert_eq!(o.stage, AlsaStage::Running);
}

#[test]
fn alsa_failures_release_what_is_held() {
    let (o, calls) = run_open(&StreamRequest::new(48_000, 2), Some(0));
    assert_eq!(calls, vec![AlsaCall::Open]);
    assert_eq!(
        open_error(o.failure.unwrap(), Some(b"No such file or directory"), "").message(),
        "alsa: open: No such file or directory"
    );
    let (_, calls) = run_open(&StreamRequest::new(48_000, 2), Some(1));
    assert_eq!(calls[2..], [AlsaCall::Close]);
    let (o, calls) = run_open(&StreamRequest::new(48_000, 2), Some(6));
    assert_eq!(calls[7..], [AlsaCall::HwFree, AlsaCall::Close]);
    assert_eq!(o.failure, Some(AlsaFailure { stage: AlsaStage::SetRate, code: -22 }));
    assert_eq!(
        open_error(o.failure.unwrap(), None, "").message(),
        "alsa: open: hw_params_set_rate_near: alsa error -22"
    );
    let (o, calls) = run_open(&StreamRequest::new(48_000, 2), Some(13));
    assert_eq!(calls[14..], [AlsaCall::Close]);
    assert_eq!(
        open_error(o.failure.unwrap(), None, "no threads").message(),
        "alsa: runtime: spawn worker: no threads"
    );
}

#[test]
fn pcm_names_come_from_the_request() {
    assert_eq!(pcm_name(&StreamRequest::new(48_000, 2)).unwrap(), "default");
    let req = StreamRequest::new(48_000, 2).with_device("plughw:CARD=PCH,DEV=0");
    assert_eq!(pcm_name(&req).unwrap(), "plughw:CARD=PCH,DEV=0");
    let req = StreamRequest::new(48_000, 2).with_device("a\0b");
    assert_eq!(
        pcm_name(&req).unwrap_err().message(),
        "alsa: open: device id contains an interior NUL byte"
    );
}

#[test]
fn alsa_probe_outcomes() {
    assert!(probe_outcome(0, None).is_ok());
    assert_eq!(
        probe_outcome(-2, Some(b"No such device")).unwrap_err().message(),
        "alsa: open: No such device"
    );
    assert_eq!(probe_outcome(-2, None).unwrap_err().message(), "alsa: open: alsa error -2");
}

fn hint(ioid: Option<&str>, name: Option<&str>, desc: Option<&str>) -> AlsaHint {
    let raw = |s: Option<&str>| s.map(|s| s.as_bytes().to_vec());
    AlsaHint { ioid: raw(ioid), name: raw(name), desc: raw(desc) }
}

#[test]
fn alsa_enumeration_keeps_playback_pcms() {
    let hints = vec![
        hint(None, Some("default"), Some("Default Audio Device\nmore")),
        hint(Some("Input"), Some("hw:1"), Some("Microphone")),
        hint(Some("Output"), Some("hdmi:0"), None),
        hint(Some("Output"), None, Some("nameless")),
        hint(None, Some("null"), Some("")),
    ];
    let list = enumerate(true, 0, None, &hints).unwrap();
    let got: Vec<(&str, &str, bool)> =
        list.iter().map(|d| (d.id.as_str(), d.name.as_str(), d.is_default)).collect();
    assert_eq!(
        got,
        vec![
            ("default", "Default Audio Device", true),
            ("hdmi:0", "hdmi:0", false),
            ("null", "null", false),
        ]
    );
}

#[test]
fn alsa_enumeration_errors() {
    assert!(matches!(enumerate(false, 0, None, &Vec::new()), Err(Error::NotImplemented("alsa"))));
    assert_eq!(
        enumerate(true, -12, None, &Vec::new()).unwrap_err().message(),
        "alsa: runtime: snd_device_name_hint: alsa error -12"
    );
}

#[test]
fn alsa_worker_counts_accepted_frames() {
    let (o, _) = run_open(&StreamRequest::new(48_000, 2), None);
    let mut w = AlsaWorker::new(&o.plan());
    assert_eq!(
        w.step(AlsaEvent::StopFlag(false)),
        AlsaTask::RenderAndWrite(CallbackInfo { frames_played: 0 })
    );
    assert_eq!(w.step(AlsaEvent::Written(1_000)), AlsaTask::ReadDelay);
    assert_eq!(w.step(AlsaEvent::Delay { code: 0, frames: 480 }), AlsaTask::ReadStopFlag);
    assert_eq!(w.step(AlsaEvent::Written(-32)), AlsaTask::Recover(-32));
    assert_eq!(w.step(AlsaEvent::Recovered(0)), AlsaTask::ReadStopFlag);
    assert_eq!(w.frames_played, 1_000);
    w.step(AlsaEvent::Delay { code: -1, frames: 7 });
    assert_eq!(w.delay_frames, 480);
    assert_eq!(latency(w.delay_frames, 48_000), Duration::from_millis(10));
    assert_eq!(latency(-5, 48_000), Duration::from_millis(0));
    assert_eq!(latency(3, 0), Duration::from_secs(3));
    assert_eq!(w.step(AlsaEvent::Recovered(-5)), AlsaTask::Exit);
    assert_eq!(w.step(AlsaEvent::StopFlag(true)), AlsaTask::Exit);
    assert_eq!(period_samples(1_024, 2), 2_048);
}

#[test]
fn alsa_introspection_closes_what_it_opens() {
    let mut p = AlsaPeek::start();
    let mut calls = Vec::new();
    while p.call() != AlsaCall::Nothing {
        calls.push(p.call());
        p = p.step(reply(0, 44_100, 0, 6));
    }
    assert_eq!(
        calls,
        vec![
            AlsaCall::OpenNonblocking,
            AlsaCall::HwMalloc,
            AlsaCall::HwAny,
            AlsaCall::SetRateNear(48_000),
            AlsaCall::SetChannelsNear(2),
            AlsaCall::HwFree,
            AlsaCall::Close,
        ]
    );
    assert_eq!(p.stage, PeekStage::Done);
    assert_eq!((p.format().sample_rate, p.format().channels), (44_100, 6));
    let p = AlsaPeek::start().step(OK).step(OK).step(reply(-5, 0, 0, 0));
    assert_eq!(p.call(), AlsaCall::HwFree);
    let p = p.step(OK).step(OK);
    assert_eq!(p.stage, PeekStage::Failed);
    assert_eq!(
        open_error(p.failure.unwrap(), None, "").message(),
        "alsa: open: hw_params_any: alsa error -5"
    );
}

#[test]
fn channel_counts_are_clamped() {
    assert_eq!([0, 1, 8, 9, u16::MAX].map(clamp_channels), [1, 1, 8, 8, 8]);
}
