//! The CoreAudio backend and its HAL queries.

use oxideav_sysaudio::backends::coreaudio::{
    f32_asbd, latency, open_error, plan, probe_outcome, requested_device, routing_ready, FillTask,
    QueueCall, QueueClock, QueueFailure, QueueOpen, QueueReply, QueueStage, PROBE_CHANNELS,
    PROBE_RATE,
};
use oxideav_sysaudio::backends::hal::{
    accept_channels, accept_f64_bits, accept_u32, accept_uid, address, all_devices,
    default_device, default_output_device, device_name, enumerate_output_devices, first_stream,
    four_cc, is_output_device, kAudioDevicePropertyBufferFrameSize, kAudioDevicePropertyDeviceName,
    kAudioDevicePropertyDeviceUID, kAudioDevicePropertyLatency,
    kAudioDevicePropertyNominalSampleRate, kAudioDevicePropertySafetyOffset,
    kAudioDevicePropertyStreams, kAudioFormatLinearPCM, kAudioHardwarePropertyDefaultOutputDevice,
    kAudioHardwarePropertyDevices, kAudioObjectPropertyElementMain,
    kAudioObjectPropertyScopeGlobal, kAudioObjectPropertyScopeOutput, kAudioObjectSystemObject,
    kAudioQueueProperty_CurrentDevice, kAudioStreamPropertyLatency,
    kAudioStreamPropertyVirtualFormat, name_capacity, object_count, AudioObjectPropertyAddress,
    HalDevice, HalQuery, LatencyQuery, LatencyStage,
};
use oxideav_sysaudio::backends::hal_format::{
    device_of_id, round_f64, FormatAnswer, FormatQuery, FormatQuestion,
};
use oxideav_sysaudio::{CallbackInfo, Error, StreamRequest};
use std::time::Duration;

#[test]
fn fourcc_constants_match_apple_headers() {
    // Every HAL FourCC should decode to the big-endian-packed ASCII the
    // Core Audio headers document.
    assert_eq!(kAudioObjectSystemObject, 1);
    assert_eq!(kAudioHardwarePropertyDefaultOutputDevice, u32::from_be_bytes(*b"dOut"));
    assert_eq!(kAudioObjectPropertyScopeGlobal, u32::from_be_bytes(*b"glob"));
    assert_eq!(kAudioObjectPropertyScopeOutput, u32::from_be_bytes(*b"outp"));
    assert_eq!(kAudioObjectPropertyElementMain, 0);
    assert_eq!(kAudioDevicePropertyLatency, u32::from_be_bytes(*b"ltnc"));
    assert_eq!(kAudioDevicePropertyBufferFrameSize, u32::from_be_bytes(*b"fsiz"));
    assert_eq!(kAudioDevicePropertySafetyOffset, u32::from_be_bytes(*b"saft"));
    assert_eq!(kAudioDevicePropertyStreams, u32::from_be_bytes(*b"stm#"));
    assert_eq!(kAudioStreamPropertyLatency, u32::from_be_bytes(*b"ltnc"));
    // Device-enumeration selectors.
    assert_eq!(kAudioHardwarePropertyDevices, u32::from_be_bytes(*b"dev#"));
    assert_eq!(kAudioDevicePropertyDeviceName, u32::from_be_bytes(*b"name"));
    // Per-device routing selectors.
    assert_eq!(kAudioDevicePropertyDeviceUID, u32::from_be_bytes(*b"uid "));
    assert_eq!(kAudioQueueProperty_CurrentDevice, u32::from_be_bytes(*b"aqcd"));
    assert_eq!(four_cc(b"lpcm"), kAudioFormatLinearPCM);
}

#[test]
fn format_selectors_match_apple_headers() {
    assert_eq!(kAudioDevicePropertyNominalSampleRate, four_cc(b"nsrt"));
    assert_eq!(kAudioStreamPropertyVirtualFormat, four_cc(b"sfmt"));
}

#[test]
fn property_address_layout_is_3_u32s() {
    // Three UInt32 fields, no padding, total 12 bytes.
    assert_eq!(std::mem::size_of::<AudioObjectPropertyAddress>(), 12);
    assert_eq!(std::mem::align_of::<AudioObjectPropertyAddress>(), 4);

    let a = AudioObjectPropertyAddress {
        mSelector: 0x1111_1111,
        mScope: 0x2222_2222,
        mElement: 0x3333_3333,
    };
    let base = std::ptr::from_ref(&a).addr();
    assert_eq!(std::ptr::from_ref(&a.mSelector).addr() - base, 0);
    assert_eq!(std::ptr::from_ref(&a.mScope).addr() - base, 4);
    assert_eq!(std::ptr::from_ref(&a.mElement).addr() - base, 8);
    assert_eq!(address(7, 8), AudioObjectPropertyAddress { mSelector: 7, mScope: 8, mElement: 0 });
}

#[test]
fn non_numeric_device_id_returns_unsupported_format() {
    // A caller that hands us an opaque blob from a different backend (or
    // otherwise fabricates one) must NOT silently fall back to the system
    // default -- they explicitly asked for a non-default device.
    let req = StreamRequest::new(48_000, 2).with_device("not-a-decimal-id");
    match requested_device(&req) {
        Err(Error::UnsupportedFormat { backend, detail }) => {
            assert_eq!(backend, "coreaudio");
            assert!(
                detail.contains("not a numeric AudioDeviceID"),
                "expected parse-failure message, got: {detail}"
            );
            assert_eq!(
                detail,
                "device id \"not-a-decimal-id\" is not a numeric AudioDeviceID (must come from \
                 output_devices() on the same coreaudio backend)"
            );
        }
        Err(other) => panic!("expected UnsupportedFormat, got: {}", other.message()),
        Ok(_) => panic!("CoreAudio accepted a non-numeric device id; routing bug"),
    }
}

#[test]
fn device_ids_are_quoted_as_debug_text() {
    for id in ["a\"b", "tab\t", "\u{1F50A}", "back\\slash", ""] {
        match device_of_id(id) {
            Err(Error::UnsupportedFormat { detail, .. }) => {
                assert!(detail.starts_with(&format!("device id {id:?} is not")), "{detail}");
            }
            _ => panic!("accepted {id:?}"),
        }
    }
    assert_eq!(device_of_id("73").unwrap(), 73);
    assert_eq!(device_of_id("+4294967295").unwrap(), u32::MAX);
    assert!(device_of_id("4294967296").is_err());
    assert!(device_of_id("-1").is_err());
    assert!(device_of_id("+").is_err());
}

fn hal_devices() -> Vec<HalDevice> {
    vec![
        HalDevice { id: 41, output: false, name: "Built-in Microphone".to_string() },
        HalDevice { id: 73, output: true, name: "Built-in Output".to_string() },
        HalDevice { id: 90, output: true, name: "USB DAC".to_string() },
    ]
}

#[test]
fn enumeration_includes_the_default_output_device() {
    let default = 73u32;
    let devs = enumerate_output_devices(true, &hal_devices(), default)
        .expect("enumeration must not error");
    assert!(!devs.is_empty());
    let entry = devs
        .iter()
        .find(|d| d.id == default.to_string())
        .unwrap_or_else(|| panic!("default output {default} missing from enumeration: {devs:?}"));
    assert!(entry.is_default, "default entry not tagged: {entry:?}");
    assert!(!entry.name.is_empty());
    // The direct query agrees with the enumeration.
    let direct = default_output_device(true, default, "Built-in Output".to_string())
        .expect("no error")
        .expect("a default");
    assert_eq!(&direct, entry);
    // Pure-input devices are dropped, and only one entry is tagged.
    assert_eq!(devs.len(), 2);
    assert_eq!(devs.iter().filter(|d| d.is_default).count(), 1);
    // Ids route back.
    for d in &devs {
        let req = StreamRequest::new(48_000, 2).with_device(&d.id);
        assert_eq!(requested_device(&req).unwrap().map(|n| n.to_string()), Some(d.id.clone()));
    }
}

#[test]
fn a_missing_hal_enumerates_nothing() {
    assert!(matches!(
        enumerate_output_devices(false, &hal_devices(), 73),
        Err(Error::NotImplemented("coreaudio"))
    ));
    assert!(default_output_device(false, 73, String::new()).is_err());
    assert_eq!(default_output_device(true, 0, String::new()).unwrap(), None);
    // A default of zero is no default.
    assert!(enumerate_output_devices(true, &hal_devices(), 0)
        .unwrap()
        .iter()
        .all(|d| !d.is_default));
}

#[test]
fn hal_answers_count_only_when_whole() {
    assert_eq!(accept_u32(0, 4, 9), Some(9));
    assert_eq!(accept_u32(0, 8, 9), None);
    assert_eq!(accept_u32(-50, 4, 9), None);
    assert_eq!(accept_f64_bits(0, 8, 1), Some(1));
    assert_eq!(accept_f64_bits(0, 4, 1), None);
    assert_eq!(accept_channels(0, 40, 6), Some(6));
    assert_eq!(accept_channels(0, 36, 6), None);
    assert!(accept_uid(0, 8, 8, true));
    assert!(!accept_uid(0, 8, 8, false));
    assert!(!accept_uid(0, 4, 8, true));
    assert_eq!(default_device(0, 73), 73);
    assert_eq!(default_device(-1, 73), 0);
    assert_eq!(object_count(0, 3), 0);
    assert_eq!(object_count(0, 13), 3);
    assert_eq!(object_count(1, 12), 0);
    assert_eq!(first_stream(0, &vec![5, 6]), Some(5));
    assert_eq!(first_stream(0, &vec![0, 6]), None);
    assert_eq!(first_stream(0, &vec![]), None);
    assert_eq!(first_stream(1, &vec![5]), None);
    assert_eq!(all_devices(0, &vec![0, 5, 0, 6]), vec![5, 6]);
    assert!(all_devices(1, &vec![5]).is_empty());
    assert!(is_output_device(0, 4));
    assert!(!is_output_device(0, 3));
    assert_eq!(name_capacity(0, 32), Some(32));
    assert_eq!(name_capacity(0, 100_000), Some(4096));
    assert_eq!(name_capacity(0, 0), None);
    assert_eq!(device_name(0, b"USB DAC\0garbage"), "USB DAC");
    assert_eq!(device_name(0, b"no end"), "no end");
    assert_eq!(device_name(0, b"Kopfh\xC3\xB6rer\0"), "Kopfh\u{F6}rer");
    assert_eq!(device_name(-1, b"x\0"), "");
}

/// Runs a latency query against a HAL that knows the given answers.
fn run_latency(bound: Option<u32>, hal: &dyn Fn(HalQuery) -> Option<u32>) -> Option<u32> {
    let mut q = LatencyQuery::start(bound);
    loop {
        match q.ask() {
            HalQuery::Nothing => return q.frames(),
            query => q = q.step(hal(query)),
        }
    }
}

#[test]
fn hardware_latency_sums_the_pipeline() {
    let hal = |query: HalQuery| match query {
        HalQuery::DefaultOutput => Some(73),
        HalQuery::FirstStream(73) => Some(74),
        HalQuery::Value { object: 73, selector, scope } => {
            if selector == kAudioDevicePropertyLatency && scope == kAudioObjectPropertyScopeGlobal {
                Some(1_000)
            } else if selector == kAudioDevicePropertyBufferFrameSize
                && scope == kAudioObjectPropertyScopeOutput
            {
                Some(512)
            } else if selector == kAudioDevicePropertySafetyOffset {
                Some(30)
            } else {
                None
            }
        }
        HalQuery::Value { object: 74, .. } => Some(4),
        _ => None,
    };
    assert_eq!(run_latency(None, &hal), Some(1_546));
    assert_eq!(run_latency(Some(0), &hal), Some(1_546));
    // A bound device is asked directly; unreported parts count as zero.
    assert_eq!(run_latency(Some(90), &hal), Some(0));
    assert_eq!(run_latency(None, &|_| None), None);
    assert_eq!(run_latency(None, &|_| Some(u32::MAX)), Some(u32::MAX));
    assert_eq!(LatencyQuery::start(Some(5)).stage, LatencyStage::DeviceLatencyOutput);
    assert_eq!(LatencyQuery::start(Some(5)).frames(), None);
}

#[test]
fn f64_rates_round_to_the_nearest() {
    for rate in [
        0.0f64,
        0.49,
        0.5,
        1.0,
        1.5,
        44_100.0,
        47_999.999_9,
        47_999.5,
        48_000.4,
        96_000.0,
        4_294_967_294.5,
        4_294_967_295.0,
        4_294_967_296.0,
        1e20,
        -1.0,
        -0.0,
        f64::INFINITY,
        f64::NEG_INFINITY,
        f64::NAN,
        f64::MIN_POSITIVE,
        5e-324,
        9_007_199_254_740_993.0,
    ] {
        let expect = rate.round().max(0.0).min(u32::MAX as f64) as u32;
        assert_eq!(round_f64(rate.to_bits()), expect, "{rate}");
    }
}

fn run_format(
    id: Option<&str>,
    hal: &dyn Fn(FormatQuestion) -> FormatAnswer,
) -> Result<oxideav_sysaudio::StreamFormat, Error> {
    let mut q = FormatQuery::start(true, id)?;
    loop {
        match q.ask() {
            FormatQuestion::Nothing => return q.outcome(),
            question => q = q.step(hal(question)),
        }
    }
}

#[test]
fn preferred_format_reads_rate_and_channels() {
    let hal = |question: FormatQuestion| match question {
        FormatQuestion::DefaultOutput => FormatAnswer::Number(73),
        FormatQuestion::Rate { device: 73, scope } => {
            if scope == kAudioObjectPropertyScopeGlobal {
                FormatAnswer::Rate(47_999.999_9f64.to_bits())
            } else {
                FormatAnswer::Missing
            }
        }
        FormatQuestion::FirstStream(73) => FormatAnswer::Number(74),
        FormatQuestion::Channels(74) => FormatAnswer::Number(6),
        _ => FormatAnswer::Missing,
    };
    let fmt = run_format(None, &hal).unwrap();
    assert_eq!((fmt.sample_rate, fmt.channels), (48_000, 6));
    assert_eq!(
        run_format(Some("90"), &hal).unwrap_err().message(),
        "coreaudio: unsupported format: HAL has no NominalSampleRate for AudioDeviceID 90 — \
         not an output device or query refused"
    );
    assert_eq!(
        run_format(None, &|_| FormatAnswer::Missing).unwrap_err().message(),
        "coreaudio: open: kAudioHardwarePropertyDefaultOutputDevice query failed"
    );
    assert!(matches!(run_format(Some("x"), &hal), Err(Error::UnsupportedFormat { .. })));
    assert!(matches!(
        FormatQuery::start(false, Some("x")),
        Err(Error::NotImplemented("coreaudio"))
    ));
    // Without a stream, or with no channels in it, stereo is reported.
    let bare = |question: FormatQuestion| match question {
        FormatQuestion::Rate { .. } => FormatAnswer::Rate(44_100.0f64.to_bits()),
        FormatQuestion::FirstStream(_) => FormatAnswer::Number(1),
        FormatQuestion::Channels(_) => FormatAnswer::Number(0x1_0000),
        _ => FormatAnswer::Missing,
    };
    let fmt = run_format(Some("7"), &bare).unwrap();
    assert_eq!((fmt.sample_rate, fmt.channels), (44_100, 2));
}

#[test]
fn stream_descriptions_are_packed_floats() {
    let d = f32_asbd(PROBE_RATE, PROBE_CHANNELS);
    assert_eq!(d.sample_rate, 44_100);
    assert_eq!(d.format_id, kAudioFormatLinearPCM);
    assert_eq!(d.format_flags, (1 << 0) | (1 << 3));
    assert_eq!((d.bytes_per_packet, d.frames_per_packet, d.bytes_per_frame), (8, 1, 8));
    assert_eq!((d.channels_per_frame, d.bits_per_channel), (2, 32));
    assert_eq!(f32_asbd(8_000, 0).bytes_per_frame, 4);
}

#[test]
fn queue_plans_follow_the_hint() {
    let p = plan(&StreamRequest::new(48_000, 2));
    assert_eq!((p.frames_per_buf, p.bytes_per_buf), (960, 7_680));
    assert_eq!(p.sw_latency_ns, 60_000_000);
    let p = plan(&StreamRequest::new(48_000, 20).with_buffer_frames(Some(16)));
    assert_eq!(p.format.channels, 8);
    assert_eq!((p.frames_per_buf, p.bytes_per_buf), (16, 512));
    // Massive hints saturate rather than overflow.
    let p = plan(&StreamRequest::new(48_000, 2).with_buffer_frames(Some(u32::MAX)));
    assert_eq!(p.bytes_per_buf, u32::MAX);
    let p = plan(&StreamRequest::new(0, 1));
    assert_eq!((p.frames_per_buf, p.sw_latency_ns), (64, 192_000_000_000));
}

#[test]
fn queue_probes_report_their_status() {
    assert!(probe_outcome(0, true).is_ok());
    assert_eq!(
        probe_outcome(-50, false).unwrap_err().message(),
        "coreaudio: open: AudioQueueNewOutput OSStatus=-50"
    );
    assert!(probe_outcome(0, false).is_err());
}

#[test]
fn routing_needs_both_frameworks() {
    assert!(routing_ready(true, true).is_ok());
    assert_eq!(
        routing_ready(false, false).unwrap_err().message(),
        "coreaudio: unsupported format: CoreAudio.framework HAL is required for per-device \
         routing but failed to load"
    );
    assert_eq!(
        routing_ready(true, false).unwrap_err().message(),
        "coreaudio: unsupported format: CoreFoundation.framework is required for per-device \
         routing but failed to load"
    );
}

const OK: QueueReply = QueueReply { status: 0, delivered: true };

/// Runs an opening in which the call with this number fails.
fn run_queue(device: Option<u32>, failing: Option<usize>) -> (QueueOpen, Vec<QueueCall>) {
    let mut o = QueueOpen::start(device);
    let mut calls = Vec::new();
    while o.call() != QueueCall::Nothing {
        let bad = failing == Some(calls.len());
        calls.push(o.call());
        o = o.step(if bad { QueueReply { status: -66_681, delivered: false } } else { OK });
    }
    (o, calls)
}

#[test]
fn queue_opening_routes_before_it_starts() {
    let (o, calls) = run_queue(Some(90), None);
    assert_eq!(o.stage, QueueStage::Running);
    assert_eq!(
        calls,
        vec![
            QueueCall::NewOutput,
            QueueCall::DeviceUid(90),
            QueueCall::SetDevice,
            QueueCall::ReleaseUid,
            QueueCall::AllocateBuffer,
            QueueCall::PrimeBuffer,
            QueueCall::AllocateBuffer,
            QueueCall::PrimeBuffer,
            QueueCall::AllocateBuffer,
            QueueCall::PrimeBuffer,
            QueueCall::Start,
        ]
    );
    let (o, calls) = run_queue(None, None);
    assert_eq!(o.stage, QueueStage::Running);
    assert_eq!(calls.len(), 8);
}

#[test]
fn queue_failures_clean_up_and_say_why() {
    let report = |o: &QueueOpen| open_error(o.failure.unwrap()).message();
    let (o, calls) = run_queue(Some(90), Some(0));
    assert_eq!(o.failure, Some(QueueFailure::NewOutput(-66_681)));
    assert_eq!(calls, vec![QueueCall::NewOutput, QueueCall::DropState]);
    assert_eq!(report(&o), "coreaudio: open: AudioQueueNewOutput OSStatus=-66681");

    let (o, calls) = run_queue(Some(90), Some(1));
    assert_eq!(calls[2..], [QueueCall::Dispose, QueueCall::DropState]);
    assert_eq!(
        report(&o),
        "coreaudio: unsupported format: AudioDeviceID 90 has no DeviceUID property — not an \
         output device or HAL refused the query"
    );

    let (o, calls) = run_queue(Some(90), Some(2));
    // The UID is released whether or not the queue took it.
    assert_eq!(calls[3..], [QueueCall::ReleaseUid, QueueCall::Dispose, QueueCall::DropState]);
    assert_eq!(
        report(&o),
        "coreaudio: open: AudioQueueSetProperty(CurrentDevice=90) OSStatus=-66681"
    );

    let (o, calls) = run_queue(None, Some(3));
    assert_eq!(calls[4..], [QueueCall::Dispose, QueueCall::DropState]);
    assert_eq!(report(&o), "coreaudio: open: AudioQueueAllocateBuffer OSStatus=-66681");

    let (o, _) = run_queue(None, Some(7));
    assert_eq!(o.stage, QueueStage::Failed);
    assert_eq!(report(&o), "coreaudio: open: AudioQueueStart OSStatus=-66681");
}

#[test]
fn queue_callback_fills_whole_frames() {
    let p = plan(&StreamRequest::new(48_000, 2));
    let mut clock = QueueClock::new(&p);
    assert_eq!(
        clock.fill(7_683, false),
        FillTask::Render(1_920, CallbackInfo { frames_played: 0 })
    );
    assert_eq!(clock.submit(7_683, false), 7_680);
    assert_eq!(clock.frames_played, 960);
    assert_eq!(clock.fill(7_680, true), FillTask::Silence(1_920));
    assert_eq!(clock.submit(7_680, true), 7_680);
    assert_eq!(clock.frames_played, 960);
}

#[test]
fn queue_latency_adds_the_hardware() {
    assert_eq!(latency(60_000_000, None, 48_000), Duration::from_millis(60));
    assert_eq!(latency(60_000_000, Some(4_800), 48_000), Duration::from_millis(160));
    assert_eq!(latency(1, Some(2), 0), Duration::from_nanos(2_000_000_001));
    assert_eq!(latency(u64::MAX, Some(1), 1), Duration::from_nanos(u64::MAX));
}
