//! The PulseAudio backend.

use oxideav_sysaudio::backends::pulse::{
    connect_outcome, latency, make_buffer_attr, open_error, plan, sink_name, PulseCall, PulseEvent,
    PulseFailure, PulseOpen, PulseStage, PulseTask, PulseWorker,
};
use oxideav_sysaudio::{CallbackInfo, Error, StreamRequest};
use std::time::Duration;

#[test]
fn buffer_attr_basic_48k_stereo() {
    // 4_800 frames of 8 bytes (stereo f32) = 38_400 bytes for tlength.
    // minreq is ~20 ms = 960 frames of 8 bytes, capped at tlength.
    let attr = make_buffer_attr(4_800, 48_000, 8);
    assert_eq!(attr.tlength, 4_800 * 8);
    assert_eq!(attr.minreq, 960 * 8);
    assert_eq!(attr.maxlength, u32::MAX);
    assert_eq!(attr.prebuf, u32::MAX);
    assert_eq!(attr.fragsize, u32::MAX);
}

#[test]
fn buffer_attr_minreq_capped_at_tlength() {
    let attr = make_buffer_attr(32, 48_000, 8);
    assert_eq!(attr.tlength, 256);
    assert_eq!(attr.minreq, 256);
}

#[test]
fn buffer_attr_saturates_huge_request() {
    // A frame count whose byte product overflows u32 must clamp at
    // u32::MAX rather than wrapping, otherwise the server would see
    // a small bogus tlength.
    let attr = make_buffer_attr(u32::MAX, 48_000, 8);
    assert_eq!(attr.tlength, u32::MAX);
}

#[test]
fn buffer_attr_mono_low_rate() {
    // 8 kHz mono, 80 frames (= 10 ms): tlength = 320 bytes. One period at
    // 8 kHz is 160 frames or 640 bytes, capped at tlength.
    let attr = make_buffer_attr(80, 8_000, 4);
    assert_eq!(attr.tlength, 320);
    assert_eq!(attr.minreq, 320);
}

#[test]
fn buffer_attr_of_an_empty_hint() {
    let attr = make_buffer_attr(0, 48_000, 8);
    assert_eq!(attr.tlength, 0);
    assert_eq!(attr.minreq, 0);
}

#[test]
fn pulse_plan_follows_the_hint() {
    let p = plan(&StreamRequest::new(48_000, 2));
    assert_eq!(p.period_frames, 960);
    assert!(p.attr.is_none());
    let p = plan(&StreamRequest::new(48_000, 12).with_buffer_frames(Some(16)));
    assert_eq!(p.format.channels, 8);
    assert_eq!(p.period_frames, 16);
    assert_eq!(p.attr.map(|a| a.tlength), Some(16 * 32));
    let p = plan(&StreamRequest::new(48_000, 2).with_buffer_frames(Some(32)));
    assert_eq!(p.period_frames, 32);
    assert_eq!(p.attr.map(|a| (a.tlength, a.minreq)), Some((256, 256)));
    // Only the default has a floor.
    assert_eq!(plan(&StreamRequest::new(1_000, 1)).period_frames, 64);
}

#[test]
fn pulse_sink_names() {
    assert_eq!(sink_name(&StreamRequest::new(48_000, 2)).unwrap(), None);
    let req = StreamRequest::new(48_000, 2).with_device("alsa_output.usb");
    assert_eq!(sink_name(&req).unwrap().as_deref(), Some("alsa_output.usb"));
    let req = StreamRequest::new(48_000, 2).with_device("a\0b");
    assert_eq!(
        sink_name(&req).unwrap_err().message(),
        "pulse: open: device id contains an interior NUL byte"
    );
}

#[test]
fn pulse_connect_failures() {
    assert!(connect_outcome(true, 0, None).is_ok());
    assert_eq!(
        connect_outcome(false, 6, Some(b"Connection refused")).unwrap_err().message(),
        "pulse: open: Connection refused"
    );
    assert_eq!(connect_outcome(false, 6, None).unwrap_err().message(), "pulse: open: pa error 6");
    // What the library says is decoded with replacement.
    assert_eq!(
        connect_outcome(false, 6, Some(b"bad \xFF byte")).unwrap_err().message(),
        "pulse: open: bad \u{FFFD} byte"
    );
}

#[test]
fn pulse_open_frees_its_connection_on_error() {
    let opening = PulseOpen::start();
    assert_eq!(opening.call(), PulseCall::Connect);
    let opening = opening.step(true, 0);
    assert_eq!(opening.call(), PulseCall::SpawnWorker);
    assert_eq!(opening.step(true, 0).stage, PulseStage::Running);
    let failing = opening.step(false, 0);
    assert_eq!(failing.call(), PulseCall::Free);
    let failed = failing.step(true, 0);
    assert_eq!(failed.stage, PulseStage::Failed);
    assert_eq!(failed.failure, Some(PulseFailure::Spawn));
    assert!(matches!(
        open_error(PulseFailure::Spawn, None, "no threads"),
        Error::Runtime { backend: "pulse", .. }
    ));
    let refused = PulseOpen::start().step(false, 6);
    assert_eq!(refused.stage, PulseStage::Failed);
    assert_eq!(refused.failure, Some(PulseFailure::Connect(6)));
}

#[test]
fn pulse_worker_counts_periods() {
    let p = plan(&StreamRequest::new(48_000, 2));
    let mut w = PulseWorker::new(&p);
    assert_eq!(w.step(PulseEvent::StopFlag(false)), PulseTask::ReadPauseFlag);
    assert_eq!(
        w.step(PulseEvent::PauseFlag(false)),
        PulseTask::RenderAndWrite(CallbackInfo { frames_played: 0 })
    );
    assert_eq!(w.step(PulseEvent::Written { code: 0, paused: false }), PulseTask::ReadLatency);
    assert_eq!(w.step(PulseEvent::Latency(2_500)), PulseTask::ReadStopFlag);
    assert_eq!(w.frames_played, 960);
    assert_eq!(w.step(PulseEvent::PauseFlag(true)), PulseTask::WriteSilence);
    w.step(PulseEvent::Written { code: 0, paused: true });
    w.step(PulseEvent::Latency(u64::MAX));
    assert_eq!(w.frames_played, 960);
    assert_eq!(w.latency_usec, 2_500);
    assert_eq!(latency(w.latency_usec), Duration::from_micros(2_500));
    assert_eq!(w.step(PulseEvent::Written { code: -1, paused: false }), PulseTask::Exit);
    assert_eq!(w.step(PulseEvent::StopFlag(true)), PulseTask::Exit);
}
