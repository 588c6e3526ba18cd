//! Texts, units, errors, the stream handle and taking streams down.

use oxideav_sysaudio::driver::BackendKind;
use oxideav_sysaudio::stream::{clamp_gain, gain_stage, GainStage, UNITY_GAIN};
use oxideav_sysaudio::teardown::{teardown, TeardownCall};
use oxideav_sysaudio::text::{
    encode_utf16, first_line, has_nul, parse_u32, push_decimal, push_signed, push_status_hex,
    same_text,
};
use oxideav_sysaudio::time::{default_period_frames, frames_to_nanos, saturating_product};
use oxideav_sysaudio::{
    CallbackInfo, Device, Error, SampleFormat, Stream, StreamFormat, StreamImpl, StreamRequest,
};
use std::time::Duration;

#[test]
fn numbers_are_written_in_decimal() {
    let mut s = String::new();
    push_decimal(&mut s, 0);
    push_decimal(&mut s, 1_020);
    push_decimal(&mut s, u64::MAX);
    assert_eq!(s, format!("0{}{}", 1_020, u64::MAX));
    for n in [0, 1, -1, 42, -66_681, i32::MAX, i32::MIN] {
        let mut s = String::new();
        push_signed(&mut s, n);
        assert_eq!(s, format!("{n}"));
    }
    for code in [0, 1, -1, 0x8000_4005u32 as i32, i32::MIN] {
        let mut s = String::new();
        push_status_hex(&mut s, code);
        assert_eq!(s, format!("0x{:08X}", code as u32));
    }
}

#[test]
fn decimals_read_back() {
    for n in [0u32, 7, 10, 73, 65_536, u32::MAX] {
        assert_eq!(parse_u32(&format!("{n}")), Some(n));
    }
    for text in ["", "+", "-0", " 1", "1 ", "0x1", "4294967296", "99999999999999999999", "1_0"] {
        assert_eq!(parse_u32(text), text.parse::<u32>().ok(), "{text:?}");
    }
    for text in ["007", "+5", "00000000000000000001"] {
        assert_eq!(parse_u32(text), text.parse::<u32>().ok(), "{text:?}");
    }
}

#[test]
fn text_helpers() {
    assert!(same_text("", ""));
    assert!(same_text("\u{F6}x", "\u{F6}x"));
    assert!(!same_text("ab", "abc"));
    assert!(!same_text("abd", "abc"));
    assert!(has_nul("a\0"));
    assert!(!has_nul(""));
    for text in ["", "one", "one\ntwo", "\nx", "one\r\ntwo", "\n"] {
        assert_eq!(first_line(text).as_deref(), text.lines().next(), "{text:?}");
    }
    for text in ["", "abc", "\u{FFFF}\u{10000}\u{10FFFF}", "\u{D7FF}\u{E000}"] {
        let expect: Vec<u16> = text.encode_utf16().collect();
        assert_eq!(encode_utf16(text), expect);
    }
}

#[test]
fn frames_last_their_time() {
    assert_eq!(frames_to_nanos(48_000, 48_000), 1_000_000_000);
    assert_eq!(frames_to_nanos(1, 44_100), 22_675);
    assert_eq!(frames_to_nanos(5, 0), 5_000_000_000);
    assert_eq!(frames_to_nanos(u64::MAX, 2), u64::MAX / 2);
    assert_eq!(default_period_frames(48_000), 960);
    assert_eq!(default_period_frames(3_200), 64);
    assert_eq!(default_period_frames(0), 64);
    assert_eq!(saturating_product(1 << 40, 1 << 40), u64::MAX);
    assert_eq!(saturating_product(6, 7), 42);
}

#[test]
fn errors_report_in_one_line() {
    assert_eq!(Error::NotImplemented("asio").message(), "asio: backend not yet implemented");
    let runtime = Error::Runtime { backend: "pulse", detail: "gone".to_string() };
    assert_eq!(runtime.message(), "pulse: runtime: gone");
    assert!(runtime.source().is_none());
    let open = Error::DeviceOpen { backend: "alsa", detail: "busy".to_string() };
    assert_eq!(open.message(), "alsa: open: busy");
    let format = Error::UnsupportedFormat { backend: "wasapi", detail: "24 bit".to_string() };
    assert_eq!(format.message(), "wasapi: unsupported format: 24 bit");
    assert_eq!(
        Error::NoDriver("none".to_string()).message(),
        "no audio driver available: none"
    );
    let load = Error::LibraryLoad {
        backend: "alsa",
        soname: "libasound.so.2",
        source: libloading::Error::DlOpenUnknown,
    };
    assert_eq!(load.report_with("not found"), "alsa: loading libasound.so.2: not found");
    let symbol = Error::SymbolMissing {
        backend: "alsa",
        symbol: "snd_pcm_open",
        source: libloading::Error::DlSymUnknown,
    };
    assert_eq!(symbol.report_with("gone"), "alsa: symbol snd_pcm_open missing: gone");
    assert!(symbol.source().is_some());
}

#[test]
fn requests_are_built_up() {
    let req = StreamRequest::new(48_000, 2);
    assert_eq!(req.format, SampleFormat::F32);
    assert!(req.buffer_frames.is_none());
    assert!(req.device.is_none());
    let req = req.with_buffer_frames(Some(64)).with_device("x");
    assert_eq!(req.buffer_frames, Some(64));
    assert_eq!(req.device.as_deref(), Some("x"));
    let copy = req.clone();
    assert_eq!((copy.sample_rate, copy.channels), (48_000, 2));
    assert_eq!(copy.device, req.device);
    assert_eq!(req.with_buffer_frames(None).buffer_frames, None);
    let device = Device { id: "a".to_string(), name: "b".to_string(), is_default: true };
    assert_eq!(device.clone(), device);
}

#[test]
fn gains_are_clamped() {
    for gain in [0.0f32, 0.25, 1.0, 2.0, f32::INFINITY, f32::MIN_POSITIVE] {
        assert_eq!(clamp_gain(gain.to_bits()), gain.to_bits());
    }
    for gain in [-0.0f32, -0.5, f32::NEG_INFINITY, f32::NAN, -f32::NAN] {
        assert_eq!(clamp_gain(gain.to_bits()), 0);
    }
    assert_eq!(UNITY_GAIN, 1.0f32.to_bits());
    assert_eq!(gain_stage(UNITY_GAIN), GainStage::Bypass);
    assert_eq!(gain_stage(0.5f32.to_bits()), GainStage::Scale);
    assert_eq!(gain_stage(0), GainStage::Scale);
}

/// A backend that counts its calls.
#[derive(Default)]
struct Counting {
    stops: u32,
    refuse: bool,
}

impl StreamImpl for Counting {
    fn play(&mut self) -> Result<(), Error> {
        if self.refuse {
            Err(Error::NotImplemented("test"))
        } else {
            Ok(())
        }
    }
    fn pause(&mut self) -> Result<(), Error> {
        self.refuse = true;
        Ok(())
    }
    fn format(&self) -> StreamFormat {
        StreamFormat { sample_rate: 1, channels: 1, format: SampleFormat::F32 }
    }
    fn latency(&self) -> Option<Duration> {
        Some(Duration::from_millis(3))
    }
    fn stop(&mut self) {
        self.stops += 1;
    }
}

#[test]
fn a_refused_request_does_not_change_the_state() {
    let mut s = Stream::new(Counting::default());
    assert!(s.play().is_ok());
    assert!(s.pause().is_ok());
    assert!(!s.is_playing());
    assert!(s.play().is_err());
    assert!(!s.is_playing());
    assert_eq!(s.latency(), Some(Duration::from_millis(3)));
    assert_eq!(s.format().channels, 1);
}

#[test]
fn a_stream_is_stopped_once() {
    let mut s = Stream::new(Counting::default());
    s.shut_down();
    s.shut_down();
    assert_eq!(s.stop().stops, 1);
    assert_eq!(Stream::new(Counting::default()).stop().stops, 1);
}

#[test]
fn teardown_joins_before_it_releases() {
    let mut stopped = false;
    assert_eq!(
        teardown(BackendKind::Alsa, &mut stopped),
        vec![
            TeardownCall::RaiseStopFlag,
            TeardownCall::JoinWorker,
            TeardownCall::DropPcm,
            TeardownCall::ClosePcm,
        ]
    );
    assert!(stopped);
    assert!(teardown(BackendKind::Alsa, &mut stopped).is_empty());
    let mut stopped = false;
    assert_eq!(
        teardown(BackendKind::CoreAudio, &mut stopped),
        vec![TeardownCall::StopQueue, TeardownCall::DisposeQueue, TeardownCall::DropState]
    );
    let mut stopped = false;
    let wasapi = teardown(BackendKind::Wasapi, &mut stopped);
    assert_eq!(wasapi[2], TeardownCall::JoinWorker);
    assert_eq!(wasapi.last(), Some(&TeardownCall::Uninitialize));
}

#[test]
fn callback_info_is_plain_data() {
    assert_eq!(CallbackInfo { frames_played: 3 }, CallbackInfo { frames_played: 3 });
}
