//! The OSS backend.

use oxideav_sysaudio::backends::oss::{
    latency, open_error, path_of, probe_outcome, OssCall, OssEvent, OssFailure, OssOpen, OssReply,
    OssStage, OssTask, OssWorker, AFMT_S16_LE, SNDCTL_DSP_CHANNELS, SNDCTL_DSP_SETFMT,
    SNDCTL_DSP_SPEED,
};
use oxideav_sysaudio::{CallbackInfo, StreamRequest};
use std::time::Duration;

/// Grants whatever is asked for.
fn grant(call: OssCall) -> OssReply {
    match call {
        OssCall::Ioctl { value, .. } => OssReply { code: 0, value },
        _ => OssReply { code: 0, value: 0 },
    }
}

const REFUSE: OssReply = OssReply { code: -1, value: 0 };

#[test]
fn oss_paths_come_from_the_request() {
    assert_eq!(path_of(&StreamRequest::new(48_000, 2)).unwrap(), "/dev/dsp");
    let req = StreamRequest::new(48_000, 2).with_device("/dev/dsp1");
    assert_eq!(path_of(&req).unwrap(), "/dev/dsp1");
    let req = StreamRequest::new(48_000, 2).with_device("/dev/\0dsp");
    assert_eq!(
        path_of(&req).unwrap_err().message(),
        "oss: open: device id contains an interior NUL byte"
    );
}

#[test]
fn oss_opening_sets_format_channels_and_rate() {
    let mut o = OssOpen::start(&StreamRequest::new(48_000, 2));
    let mut calls = Vec::new();
    while o.call() != OssCall::Nothing {
        calls.push(o.call());
        o = o.step(grant(o.call()));
    }
    assert_eq!(
        calls,
        vec![
            OssCall::Open,
            OssCall::Ioctl { request: SNDCTL_DSP_SETFMT, value: AFMT_S16_LE },
            OssCall::Ioctl { request: SNDCTL_DSP_CHANNELS, value: 2 },
            OssCall::Ioctl { request: SNDCTL_DSP_SPEED, value: 48_000 },
            OssCall::SpawnWorker,
        ]
    );
    assert_eq!(o.stage, OssStage::Running);
    assert_eq!((o.format().sample_rate, o.format().channels), (48_000, 2));
}

#[test]
fn oss_reports_what_the_device_settled_on() {
    let o = OssOpen::start(&StreamRequest::new(48_000, 6))
        .step(OssReply { code: 3, value: 0 })
        .step(OssReply { code: 0, value: AFMT_S16_LE })
        .step(OssReply { code: 0, value: 2 })
        .step(OssReply { code: 0, value: 44_100 });
    assert_eq!((o.format().sample_rate, o.format().channels), (44_100, 2));
}

#[test]
fn oss_failures_close_the_device() {
    let o = OssOpen::start(&StreamRequest::new(48_000, 2)).step(REFUSE);
    assert_eq!(o.stage, OssStage::Failed);
    assert_eq!(
        open_error(o.failure.unwrap(), "/dev/dsp", "No such file or directory").message(),
        "oss: open: open /dev/dsp: No such file or directory"
    );
    let opened = OssOpen::start(&StreamRequest::new(48_000, 2)).step(grant(OssCall::Open));
    let o = opened.step(OssReply { code: 0, value: 8 });
    assert_eq!(o.call(), OssCall::Close);
    assert_eq!(o.step(grant(OssCall::Close)).stage, OssStage::Failed);
    assert_eq!(o.failure, Some(OssFailure::Format(8)));
    assert_eq!(
        open_error(o.failure.unwrap(), "/dev/dsp", "").message(),
        "oss: unsupported format: device insists on sample format 8"
    );
    let o = opened.step(REFUSE);
    assert_eq!(
        open_error(o.failure.unwrap(), "/dev/dsp", "Invalid argument").message(),
        "oss: open: SNDCTL_DSP_SETFMT: Invalid argument"
    );
    let o = opened.step(OssReply { code: 0, value: AFMT_S16_LE }).step(OssReply { code: 0, value: 0 });
    assert_eq!(o.failure, Some(OssFailure::Channels(0)));
    assert_eq!(
        open_error(OssFailure::Spawn, "/dev/dsp", "no threads").message(),
        "oss: runtime: spawn worker: no threads"
    );
}

#[test]
fn oss_probes_the_default_device() {
    assert!(probe_outcome(3, "").is_ok());
    assert_eq!(
        probe_outcome(-1, "Permission denied").unwrap_err().message(),
        "oss: open: open /dev/dsp: Permission denied"
    );
}

#[test]
fn oss_writes_are_the_period() {
    let o = OssOpen::start(&StreamRequest::new(48_000, 2));
    let mut w = OssWorker::new(o.format(), None);
    assert_eq!(w.period_frames, 960);
    assert_eq!(OssWorker::new(o.format(), Some(256)).period_frames, 256);
    assert_eq!(latency(w.period_frames, 48_000), Duration::from_millis(20));
    assert_eq!(w.step(OssEvent::StopFlag(false)), OssTask::ReadPauseFlag);
    assert_eq!(
        w.step(OssEvent::PauseFlag(false)),
        OssTask::RenderAndWrite(1_920, CallbackInfo { frames_played: 0 })
    );
    assert_eq!(w.step(OssEvent::Written { ok: true, paused: false }), OssTask::ReadStopFlag);
    assert_eq!(w.frames_played, 960);
    assert_eq!(w.step(OssEvent::PauseFlag(true)), OssTask::WriteSilence(1_920));
    w.step(OssEvent::Written { ok: true, paused: true });
    assert_eq!(w.frames_played, 960);
    assert_eq!(w.step(OssEvent::Written { ok: false, paused: false }), OssTask::Exit);
    assert_eq!(w.step(OssEvent::StopFlag(true)), OssTask::Exit);
}
