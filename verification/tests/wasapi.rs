//! The WASAPI backend.

use oxideav_sysaudio::backends::wasapi::{
    activation_error, buffer_duration, compute_clock_latency_ns, endpoint_id_units, guid,
    inspect_format, latency, list_endpoints, mix_stream_format, open_error, stream_latency_nanos,
    subtype_ieee_float, subtype_pcm, ActivateStage, Activation, Endpoint, MixFormat, OpenStage,
    WasapiCall, WasapiEvent, WasapiOpen, WasapiReply, WasapiTask, WasapiWorker, NO_LIVE_LATENCY,
    S_OK, WAIT_OBJECT_0, WAIT_TIMEOUT, WAVE_FORMAT_EXTENSIBLE, WAVE_FORMAT_IEEE_FLOAT,
    WAVE_FORMAT_PCM,
};
use oxideav_sysaudio::backends::wasapi_list::{
    walk_error, EndpointWalk, ListCall, ListStage,
};
use oxideav_sysaudio::{CallbackInfo, StreamRequest};
use std::time::Duration;

const F32_STEREO: MixFormat =
    MixFormat { channels: 2, sample_rate: 48_000, layout: Some((true, 32)) };

fn delivered(count: u64) -> WasapiReply {
    WasapiReply { code: S_OK, present: true, count, reference_time: 0, mix: F32_STEREO }
}

fn refused(code: i32) -> WasapiReply {
    WasapiReply { code, present: false, count: 0, reference_time: 0, mix: F32_STEREO }
}

const E_FAIL: i32 = 0x8000_4005u32 as i32;

#[test]
fn compute_clock_latency_frequency_equals_rate() {
    // `position` advances 1-to-1 with the frame count. 48000 frames
    // written, position at 47000 (i.e. 1000 frames in flight).
    let ns = compute_clock_latency_ns(48_000, 47_000, 48_000, 48_000);
    assert_eq!(ns, 1_000 * 1_000_000_000 / 48_000);
}

#[test]
fn compute_clock_latency_frequency_differs_from_rate() {
    let ns = compute_clock_latency_ns(50_000, 100_000, 96_000, 48_000);
    // 100000 * 48000 / 96000 = 50000 frames played, so 0 in flight.
    assert_eq!(ns, 0);
}

#[test]
fn compute_clock_latency_saturates_negative_into_zero() {
    // We must clamp at zero rather than wrap into a huge u64.
    let ns = compute_clock_latency_ns(1_000, 999_999, 48_000, 48_000);
    assert_eq!(ns, 0);
}

#[test]
fn compute_clock_latency_zero_frequency_does_not_panic() {
    let ns = compute_clock_latency_ns(48_000, 47_000, 0, 48_000);
    assert_eq!(ns, 0);
}

#[test]
fn a_cursor_far_ahead_means_no_latency() {
    // 2^63 ticks at one tick a second are 2^64 frames at two a second.
    assert_eq!(compute_clock_latency_ns(1_000, 1 << 63, 1, 2), 0);
    assert_eq!(compute_clock_latency_ns(u64::MAX, u64::MAX, 1, u32::MAX), 0);
}

#[test]
fn the_live_latency_counts_silence() {
    let mut w = WasapiWorker::new(48_000, 48_000, 48_000);
    w.step(WasapiEvent::Padding { code: S_OK, frames: 0 });
    w.step(WasapiEvent::Released { code: S_OK, paused: true });
    w.step(WasapiEvent::Position { code: S_OK, position: 0 });
    assert_eq!(w.frames_played, 0);
    assert_eq!(w.clock_latency_ns, 1_000_000_000);
}

#[test]
fn inspects_wave_formats() {
    let other = guid(1, 2, 3, [0; 8]);
    assert_eq!(inspect_format(WAVE_FORMAT_IEEE_FLOAT, 32, &other), Some((true, 32)));
    assert_eq!(inspect_format(WAVE_FORMAT_PCM, 16, &other), Some((false, 16)));
    assert_eq!(inspect_format(WAVE_FORMAT_EXTENSIBLE, 32, &subtype_ieee_float()), Some((true, 32)));
    assert_eq!(inspect_format(WAVE_FORMAT_EXTENSIBLE, 24, &subtype_pcm()), Some((false, 24)));
    assert_eq!(inspect_format(WAVE_FORMAT_EXTENSIBLE, 32, &other), None);
    assert_eq!(inspect_format(85, 0, &subtype_pcm()), None);
    assert!(subtype_pcm().matches(&subtype_pcm()));
    assert!(!subtype_pcm().matches(&subtype_ieee_float()));
}

#[test]
fn buffer_hints_become_reference_time() {
    assert_eq!(buffer_duration(None, 48_000), 2_000_000);
    assert_eq!(buffer_duration(Some(480), 48_000), 100_000);
    // Sub-tick hints round up to one tick; massive ones do not overflow.
    assert_eq!(buffer_duration(Some(0), 48_000), 1);
    assert_eq!(buffer_duration(Some(1), u32::MAX), 1);
    assert_eq!(buffer_duration(Some(u32::MAX), 0), 42_949_672_950_000_000);
}

#[test]
fn activation_releases_enumerator_and_device() {
    let mut a = Activation::start(&StreamRequest::new(48_000, 2));
    let mut calls = Vec::new();
    while a.call() != WasapiCall::Nothing {
        calls.push(a.call());
        a = a.step(delivered(0));
    }
    assert_eq!(
        calls,
        vec![
            WasapiCall::CreateEnumerator,
            WasapiCall::GetDefaultAudioEndpoint,
            WasapiCall::ReleaseEnumerator,
            WasapiCall::Activate,
            WasapiCall::ReleaseDevice,
            WasapiCall::GetMixFormat,
        ]
    );
    assert_eq!(a.stage, ActivateStage::Ready);
    assert_eq!(a.mix, Some(F32_STEREO));
    assert_eq!(mix_stream_format(&F32_STEREO).sample_rate, 48_000);
}

#[test]
fn activation_failures_release_what_is_held() {
    let routed = StreamRequest::new(48_000, 2).with_device("{0.0.0}");
    let mut a = Activation::start(&routed).step(delivered(0));
    assert_eq!(a.call(), WasapiCall::GetDevice);
    a = a.step(refused(E_FAIL));
    assert_eq!(a.call(), WasapiCall::ReleaseEnumerator);
    a = a.step(delivered(0));
    assert_eq!(a.stage, ActivateStage::Failed);
    assert_eq!(
        activation_error(a.failure.unwrap()).message(),
        "wasapi: open: IMMDeviceEnumerator::GetDevice HRESULT=0x80004005"
    );
}

#[test]
fn opening_runs_through_to_the_worker() {
    let mut o = WasapiOpen::start(Some(480), F32_STEREO);
    let mut calls = Vec::new();
    while o.call() != WasapiCall::Nothing {
        calls.push(o.call());
        o = o.step(delivered(1_056));
    }
    assert_eq!(calls[0], WasapiCall::Initialize { duration: 100_000 });
    assert_eq!(calls.last(), Some(&WasapiCall::SpawnWorker));
    assert_eq!(o.stage, OpenStage::Running);
    assert!(o.float);
    assert_eq!(o.buffer_frames, 1_056);
    assert_eq!(o.clock_frequency, 1_056);
    assert_eq!(o.format().channels, 2);
}

#[test]
fn opening_rejects_formats_it_cannot_feed() {
    let mut mix = F32_STEREO;
    mix.layout = Some((false, 24));
    let mut o = WasapiOpen::start(None, mix);
    assert_eq!(o.call(), WasapiCall::FreeMixFormat);
    o = o.step(delivered(0));
    assert_eq!(o.call(), WasapiCall::ReleaseClient);
    o = o.step(delivered(0));
    assert_eq!(o.stage, OpenStage::Failed);
    assert_eq!(
        open_error(o.failure.unwrap(), "").message(),
        "wasapi: unsupported format: mix format bits_per_sample=24 is_float=false"
    );
    mix.layout = None;
    let o = WasapiOpen::start(None, mix);
    assert_eq!(
        open_error(o.failure.unwrap(), "").message(),
        "wasapi: unsupported format: mix format is neither IEEE_FLOAT nor PCM"
    );
}

#[test]
fn opening_failures_release_newest_first() {
    let mut o = WasapiOpen::start(None, F32_STEREO);
    while o.call() != WasapiCall::Start {
        o = o.step(delivered(100));
    }
    o = o.step(refused(E_FAIL));
    let mut calls = Vec::new();
    while o.call() != WasapiCall::Nothing {
        calls.push(o.call());
        o = o.step(delivered(0));
    }
    assert_eq!(
        calls,
        vec![WasapiCall::ReleaseRender, WasapiCall::CloseEvent, WasapiCall::ReleaseClient]
    );
    assert_eq!(
        open_error(o.failure.unwrap(), "").message(),
        "wasapi: open: IAudioClient::Start HRESULT=0x80004005"
    );
    let mut o = WasapiOpen::start(None, F32_STEREO);
    while o.call() != WasapiCall::CreateEvent {
        o = o.step(delivered(100));
    }
    o = o.step(refused(S_OK));
    assert_eq!(
        open_error(o.failure.unwrap(), "").message(),
        "wasapi: open: CreateEventA returned NULL"
    );
}

#[test]
fn a_clock_of_frequency_zero_is_no_clock() {
    let mut o = WasapiOpen::start(None, F32_STEREO);
    while o.call() != WasapiCall::GetFrequency {
        o = o.step(delivered(100));
    }
    o = o.step(delivered(0));
    assert_eq!(o.call(), WasapiCall::ReleaseClock);
    o = o.step(delivered(0));
    assert_eq!(o.clock_frequency, 0);
    assert_eq!(o.call(), WasapiCall::SpawnWorker);
    o = o.step(refused(-1));
    assert_eq!(o.stage, OpenStage::SpawnFailed);
    assert_eq!(
        open_error(o.failure.unwrap(), "no threads").message(),
        "wasapi: runtime: spawn worker: no threads"
    );
}

#[test]
fn wasapi_worker_fills_the_room_there_is() {
    let mut w = WasapiWorker::new(1_000, 48_000, 48_000);
    assert_eq!(w.step(WasapiEvent::StopFlag(false)), WasapiTask::Wait);
    assert_eq!(w.step(WasapiEvent::Waited(WAIT_TIMEOUT)), WasapiTask::ReadPadding);
    assert_eq!(w.step(WasapiEvent::Waited(WAIT_OBJECT_0)), WasapiTask::ReadPadding);
    assert_eq!(w.step(WasapiEvent::Waited(128)), WasapiTask::Exit);
    assert_eq!(
        w.step(WasapiEvent::Padding { code: S_OK, frames: 1_000 }),
        WasapiTask::ReadStopFlag
    );
    assert_eq!(
        w.step(WasapiEvent::Padding { code: S_OK, frames: 400 }),
        WasapiTask::GetBuffer(600)
    );
    assert_eq!(
        w.step(WasapiEvent::Buffer { code: S_OK, present: true }),
        WasapiTask::ReadPauseFlag
    );
    assert_eq!(
        w.step(WasapiEvent::PauseFlag(false)),
        WasapiTask::Render(600, CallbackInfo { frames_played: 0 })
    );
    assert_eq!(
        w.step(WasapiEvent::Released { code: S_OK, paused: false }),
        WasapiTask::ReadPosition
    );
    assert_eq!(w.frames_played, 600);
    w.step(WasapiEvent::Position { code: S_OK, position: 120 });
    assert_eq!(w.clock_latency_ns, 10_000_000);
    assert_eq!(w.step(WasapiEvent::PauseFlag(true)), WasapiTask::Silence(600));
    w.step(WasapiEvent::Released { code: S_OK, paused: true });
    assert_eq!(w.frames_played, 600);
    assert_eq!(w.frames_written, 1_200);
    let mut w = WasapiWorker::new(1_000, 48_000, 0);
    assert_eq!(
        w.step(WasapiEvent::Released { code: S_OK, paused: false }),
        WasapiTask::ReadStopFlag
    );
    assert_eq!(w.clock_latency_ns, NO_LIVE_LATENCY);
}

#[test]
fn wasapi_latency_prefers_the_live_figure() {
    assert_eq!(latency(7_000, 1, 2, 48_000), Duration::from_nanos(7_000));
    assert_eq!(
        latency(NO_LIVE_LATENCY, 1_000, 480, 48_000),
        Duration::from_nanos(1_000 + 10_000_000)
    );
    assert_eq!(stream_latency_nanos(30_000), 3_000_000);
    assert_eq!(stream_latency_nanos(-1), 0);
}

#[test]
fn wasapi_lists_endpoints() {
    let id: Vec<u16> = "{0.0.0}.{a}".encode_utf16().collect();
    let other: Vec<u16> = "{0.0.0}.{b}".encode_utf16().collect();
    let name: Vec<u16> = "Lautsprecher \u{1F50A}".encode_utf16().collect();
    let endpoints =
        vec![Endpoint { id: id.clone(), name: Some(name) }, Endpoint { id: other, name: None }];
    let list = list_endpoints(&endpoints, &Some(id));
    assert_eq!(list.len(), 2);
    assert_eq!(list[0].id, "{0.0.0}.{a}");
    assert_eq!(list[0].name, "Lautsprecher \u{1F50A}");
    assert!(list[0].is_default);
    assert_eq!(list[1].name, "");
    assert!(!list[1].is_default);
    assert!(list_endpoints(&endpoints, &None).iter().all(|d| !d.is_default));
}

#[test]
fn endpoint_ids_route_back() {
    for text in ["{0.0.0.00000000}.{guid}", "Kopfh\u{F6}rer", "\u{1F50A}x\u{10FFFF}", ""] {
        let units: Vec<u16> = text.encode_utf16().collect();
        let list = list_endpoints(&vec![Endpoint { id: units.clone(), name: None }], &None);
        let mut expect = units;
        expect.push(0);
        assert_eq!(endpoint_id_units(&list[0].id), expect);
    }
}

#[test]
fn unpaired_surrogates_are_replaced() {
    let units = vec![0x61, 0xD834, 0x62, 0xDD1E, 0xD834, 0xDD1E];
    let list = list_endpoints(&vec![Endpoint { id: units, name: None }], &None);
    assert_eq!(list[0].id, "a\u{FFFD}b\u{FFFD}\u{1D11E}");
}

#[test]
fn a_walk_reads_every_endpoint() {
    let mut walk = EndpointWalk::start();
    let mut calls = Vec::new();
    while walk.call() != ListCall::Nothing {
        calls.push(walk.call());
        walk = walk.step(delivered(2));
    }
    assert_eq!(
        calls,
        vec![
            ListCall::CreateEnumerator,
            ListCall::GetDefault,
            ListCall::GetDefaultId,
            ListCall::ReleaseDefault,
            ListCall::Enumerate,
            ListCall::GetCount,
            ListCall::Item(0),
            ListCall::GetId,
            ListCall::ReadName,
            ListCall::ReleaseItem,
            ListCall::Item(1),
            ListCall::GetId,
            ListCall::ReadName,
            ListCall::ReleaseItem,
            ListCall::ReleaseCollection,
            ListCall::ReleaseEnumerator,
        ]
    );
    assert_eq!(walk.stage, ListStage::Done);
    assert_eq!(walk.listed, 2);
    assert!(walk.failure.is_none());
}

/// The calls and the report of a walk whose n-th call fails.
fn walk_failing_at(n: usize) -> (Vec<ListCall>, Option<String>) {
    let mut walk = EndpointWalk::start();
    let mut calls = Vec::new();
    while walk.call() != ListCall::Nothing {
        let reply = if calls.len() == n { refused(E_FAIL) } else { delivered(1) };
        calls.push(walk.call());
        walk = walk.step(reply);
    }
    (calls, walk.failure.map(|f| walk_error(f).message()))
}

#[test]
fn a_failed_walk_is_an_error_and_releases_what_it_holds() {
    let report = |n| walk_failing_at(n).1;
    assert_eq!(
        report(0).as_deref(),
        Some("wasapi: runtime: CoCreateInstance(MMDeviceEnumerator) HRESULT=0x80004005")
    );
    // No default endpoint, or none with an id, is no failure.
    assert_eq!(report(1), None);
    assert_eq!(report(2), None);
    assert_eq!(
        report(4).as_deref(),
        Some("wasapi: runtime: IMMDeviceEnumerator::EnumAudioEndpoints HRESULT=0x80004005")
    );
    assert_eq!(
        report(5).as_deref(),
        Some("wasapi: runtime: IMMDeviceCollection::GetCount HRESULT=0x80004005")
    );
    assert_eq!(
        report(6).as_deref(),
        Some("wasapi: runtime: IMMDeviceCollection::Item HRESULT=0x80004005")
    );
    assert_eq!(
        report(7).as_deref(),
        Some("wasapi: runtime: IMMDevice::GetId HRESULT=0x80004005")
    );
    // Neither is an endpoint without a name.
    assert_eq!(report(8), None);
    let (calls, _) = walk_failing_at(7);
    assert_eq!(
        calls[8..],
        [ListCall::ReleaseItem, ListCall::ReleaseCollection, ListCall::ReleaseEnumerator]
    );
    assert_eq!(walk_failing_at(0).0, vec![ListCall::CreateEnumerator]);
}

#[test]
fn one_endpoint_is_the_default() {
    let id = |n: u16| vec![0x7B, n, 0x7D];
    let endpoints: Vec<Endpoint> =
        (0x61..0x65).map(|n| Endpoint { id: id(n), name: None }).collect();
    let list = list_endpoints(&endpoints, &Some(id(0x63)));
    let tags: Vec<bool> = list.iter().map(|d| d.is_default).collect();
    assert_eq!(tags, vec![false, false, true, false]);
}
