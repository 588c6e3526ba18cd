//! The stream state machine, driven through the virtual mock backend with a
//! worker that the test turns by hand.

use std::cell::{Cell, RefCell};
use std::rc::Rc;
use std::time::Duration;

use oxideav_sysaudio::mock::{
    self, keep_rendered, push_captured, render, take_captured, CaptureSink, MockEvent, MockStream,
    MockTask, MockWorker,
};
use oxideav_sysaudio::{
    default_driver, driver_by_name, drivers, open, open_default, open_on, probe, Build,
    CallbackInfo, DefaultReport, Device, Driver, Error, Platform, SampleFormat, Stream,
    StreamFormat, StreamImpl, StreamRequest,
};

fn build_with_mock() -> Build {
    let mut build = Build::new(Platform::Linux);
    build.mock = true;
    build
}

fn mock_driver() -> Driver {
    driver_by_name(&build_with_mock(), "mock").expect("mock backend is compiled in")
}

fn nothing_works(_driver: Driver) -> Result<(), Error> {
    Err(Error::Runtime { backend: "test", detail: "no hardware".to_string() })
}

fn no_list(_driver: Driver) -> Result<Vec<Device>, Error> {
    unreachable!()
}

fn no_default(_driver: Driver) -> Result<DefaultReport, Error> {
    unreachable!()
}

fn no_format(_driver: Driver, _id: Option<String>) -> Result<StreamFormat, Error> {
    unreachable!()
}

/// The flags that the handle and the worker share.
struct Flags {
    playing: Cell<bool>,
    shutdown: Cell<bool>,
}

/// The handle's side: what the library decides is published to the flags.
struct Handle {
    inner: MockStream,
    flags: Rc<Flags>,
}

impl Handle {
    fn publish(&self) {
        self.flags.playing.set(self.inner.playing);
        self.flags.shutdown.set(self.inner.shutdown);
    }
}

impl StreamImpl for Handle {
    fn play(&mut self) -> Result<(), Error> {
        let reply = self.inner.play();
        self.publish();
        reply
    }
    fn pause(&mut self) -> Result<(), Error> {
        let reply = self.inner.pause();
        self.publish();
        reply
    }
    fn format(&self) -> StreamFormat {
        self.inner.format()
    }
    fn latency(&self) -> Option<Duration> {
        self.inner.latency()
    }
    fn stop(&mut self) {
        self.inner.stop();
        self.publish();
    }
}

/// The worker's side.
struct Rig {
    worker: MockWorker,
    flags: Rc<Flags>,
    sink: Rc<RefCell<CaptureSink>>,
    callback: Box<dyn FnMut(&mut [f32], &CallbackInfo)>,
    task: MockTask,
    slept_ns: u64,
    longest_ns: u64,
}

impl Rig {
    /// Takes one turn; false once the worker has left.
    fn turn(&mut self) -> bool {
        let event = match self.task {
            MockTask::ReadShutdown => MockEvent::Shutdown(self.flags.shutdown.get()),
            MockTask::ReadPlaying => MockEvent::Playing(self.flags.playing.get()),
            MockTask::Render { samples, info, capture } => {
                let callback = &mut self.callback;
                let left = render(samples as usize, info, |bits, info| {
                    let mut buf: Vec<f32> = bits.into_iter().map(f32::from_bits).collect();
                    callback(&mut buf, &info);
                    buf.into_iter().map(f32::to_bits).collect()
                });
                keep_rendered(&mut self.sink.borrow_mut(), capture, &left);
                MockEvent::Rendered
            }
            MockTask::Sleep(ns) => {
                self.slept_ns += ns;
                self.longest_ns = self.longest_ns.max(ns);
                MockEvent::Slept
            }
            MockTask::Exit => return false,
        };
        self.task = self.worker.step(event);
        true
    }

    fn turns(&mut self, n: usize) {
        for _ in 0..n {
            self.turn();
        }
    }
}

type Opened = Result<(Stream<Handle>, Rig), Error>;

fn start(
    sink: &Rc<RefCell<CaptureSink>>,
    req: &StreamRequest,
    callback: Box<dyn FnMut(&mut [f32], &CallbackInfo)>,
    slot: &Cell<Option<Rig>>,
) -> Result<Handle, Error> {
    let inner = mock::open(req)?;
    let flags = Rc::new(Flags {
        playing: Cell::new(inner.playing),
        shutdown: Cell::new(inner.shutdown),
    });
    slot.set(Some(Rig {
        worker: inner.worker(),
        flags: flags.clone(),
        sink: sink.clone(),
        callback,
        task: MockTask::ReadShutdown,
        slept_ns: 0,
        longest_ns: 0,
    }));
    Ok(Handle { inner, flags })
}

fn open_mock(req: StreamRequest, callback: impl FnMut(&mut [f32], &CallbackInfo) + 'static) -> Opened {
    let slot = Cell::new(None);
    let sink = Rc::new(RefCell::new(CaptureSink::new()));
    let stream = open(mock_driver(), req, |_, r| start(&sink, &r, Box::new(callback), &slot))?;
    Ok((stream, slot.take().expect("a rig was started")))
}

fn open_mock_on(
    device: &Device,
    req: StreamRequest,
    callback: impl FnMut(&mut [f32], &CallbackInfo) + 'static,
) -> Opened {
    let slot = Cell::new(None);
    let sink = Rc::new(RefCell::new(CaptureSink::new()));
    let stream = open_on(mock_driver(), device, req, |_, r| {
        start(&sink, &r, Box::new(callback), &slot)
    })?;
    Ok((stream, slot.take().expect("a rig was started")))
}

#[test]
fn mock_is_registered_last_and_probes() {
    // Preference contract: the mock never shadows a real backend, so
    // it must be the last entry of drivers() on every platform.
    for platform in [Platform::Linux, Platform::Windows, Platform::MacOs, Platform::Other] {
        let mut build = Build::new(platform);
        build.mock = true;
        let all = drivers(&build);
        assert_eq!(all.last().map(|d| d.name()), Some("mock"));
        // probe() always accepts it (no hardware needed).
        assert!(probe(&build, &nothing_works).iter().any(|d| d.name() == "mock"));
        assert_eq!(default_driver(&build, &nothing_works).map(|d| d.name()), Some("mock"));
    }
    assert!(!mock_driver().is_stub());
}

#[test]
fn enumeration_lists_three_devices_with_one_default() {
    let devs = mock_driver().output_devices(no_list).expect("mock enumerates");
    assert_eq!(devs.len(), 3);
    assert_eq!(devs.iter().filter(|d| d.is_default).count(), 1);
    let def = mock_driver()
        .default_output_device(no_default)
        .expect("no backend error")
        .expect("mock has a default device");
    assert_eq!(def.id, "mock:default");
    assert!(def.is_default);
    // The one-call shortcut and the enumeration must agree.
    assert_eq!(devs.into_iter().find(|d| d.is_default), Some(def));
}

#[test]
fn preferred_format_reports_and_rejects_alien_ids() {
    let fmt = mock_driver()
        .preferred_format(None, no_format)
        .expect("no backend error")
        .expect("mock introspects");
    assert_eq!(fmt.sample_rate, 48_000);
    assert_eq!(fmt.channels, 2);
    assert_eq!(fmt.format, SampleFormat::F32);
    let alien =
        Device { id: "mock:no-such-device".into(), name: "fake".into(), is_default: false };
    assert!(
        mock_driver().preferred_format(Some(&alien), no_format).is_err(),
        "a fabricated id must not produce a fabricated format"
    );
}

#[test]
fn stream_starts_playing_with_hinted_buffers_and_monotonic_clock() {
    //  1. streams start in the playing state -- no play() call below,
    //     yet callbacks arrive;
    //  2. the buffer hint is honoured verbatim and
    //     `CallbackInfo::frames_played` advances by exactly one period
    //     per callback, starting at zero.
    let seen: Rc<RefCell<Vec<(usize, u64)>>> = Rc::new(RefCell::new(Vec::new()));
    let seen_cb = seen.clone();
    let req = StreamRequest::new(48_000, 2).with_buffer_frames(Some(128));
    let (stream, mut rig) = open_mock(req, move |out, info| {
        seen_cb.borrow_mut().push((out.len(), info.frames_played));
    })
    .expect("mock open");
    assert_eq!(stream.format().sample_rate, 48_000);
    assert_eq!(stream.format().channels, 2);
    assert_eq!(stream.format().format, SampleFormat::F32);
    rig.turns(40);
    let snap = seen.borrow().clone();
    assert!(
        snap.len() >= 4,
        "no callbacks arrived -- stream did not start playing at open()"
    );
    for (len, _) in &snap {
        assert_eq!(*len, 128 * 2, "buffer length must be hint times channels");
    }
    assert_eq!(snap[0].1, 0, "frame clock must start at zero");
    for w in snap.windows(2) {
        assert_eq!(
            w[1].1,
            w[0].1 + 128,
            "frame clock must advance by one period per callback"
        );
    }
    drop(stream);
}

#[test]
fn pause_halts_the_clock_and_play_resumes_it() {
    let ticks = Rc::new(Cell::new(0u64));
    let t = ticks.clone();
    let req = StreamRequest::new(48_000, 1).with_buffer_frames(Some(64));
    let (mut stream, mut rig) =
        open_mock(req, move |_, _| t.set(t.get() + 1)).expect("mock open");
    rig.turns(40);
    assert!(ticks.get() >= 3);
    stream.pause().expect("mock pause");
    // One render may be in flight when pause() lands.
    rig.turns(4);
    let frozen = ticks.get();
    let clock = rig.worker.frames_played;
    rig.turns(120);
    assert_eq!(ticks.get(), frozen, "callback ran while paused");
    assert_eq!(rig.worker.frames_played, clock);
    stream.play().expect("mock play");
    rig.turns(40);
    assert!(ticks.get() > frozen, "callbacks did not resume after play()");
}

#[test]
fn stop_is_clean_and_drop_joins_the_worker() {
    // The worker sleeps in slices of at most 10 ms even with a 1-second
    // buffer hint, and leaves at the first look at the shutdown flag.
    let big = StreamRequest::new(48_000, 1).with_buffer_frames(Some(48_000));
    let ticks = Rc::new(Cell::new(0u64));
    let t = ticks.clone();
    let (s, mut rig) = open_mock(big, move |_, _| t.set(t.get() + 1)).expect("mock open");
    rig.turns(20);
    assert_eq!(ticks.get(), 1);
    assert!(rig.slept_ns < 1_000_000_000, "still within the first period");
    let handle = s.stop();
    assert!(handle.inner.shutdown);
    assert!(!handle.inner.playing);
    let before = rig.slept_ns;
    let mut turns = 0;
    while rig.turn() {
        turns += 1;
        assert!(turns < 4, "the worker did not leave");
    }
    assert!(rig.slept_ns - before <= 10_000_000, "stop() waited longer than a slice");
    assert!(rig.longest_ns <= 10_000_000);
    let frozen = ticks.get();
    rig.turns(80);
    assert_eq!(ticks.get(), frozen, "callback ran after the worker left");
}

#[test]
fn per_device_routing_accepts_known_and_rejects_fabricated_ids() {
    let devs = mock_driver().output_devices(no_list).expect("mock enumerates");
    let secondary =
        devs.iter().find(|d| d.id == "mock:secondary").expect("secondary device listed");
    let (s, _rig) = open_mock_on(secondary, StreamRequest::new(44_100, 2), |_, _| {})
        .expect("open on a real enumerated id");
    assert_eq!(s.format().sample_rate, 44_100);
    drop(s);

    let fake = Device { id: "not-a-mock-device".into(), name: "fake".into(), is_default: false };
    let err = match open_mock_on(&fake, StreamRequest::new(44_100, 2), |_, _| {}) {
        Ok(_) => panic!("fabricated id must not open"),
        Err(e) => e,
    };
    assert!(
        matches!(err, Error::DeviceOpen { backend: "mock", .. }),
        "expected DeviceOpen, got {}",
        err.message()
    );
    assert_eq!(err.message(), "mock: open: no such mock device: not-a-mock-device");
}

#[test]
fn latency_models_two_periods() {
    let req = StreamRequest::new(48_000, 2).with_buffer_frames(Some(240)); // 5 ms period
    let (s, _rig) = open_mock(req, |_, _| {}).expect("mock open");
    let lat = s.latency().expect("mock reports latency");
    let expect = Duration::from_secs_f64(2.0 * 240.0 / 48_000.0);
    let diff = if lat > expect { lat - expect } else { expect - lat };
    assert!(diff < Duration::from_micros(100), "latency {lat:?}, expected ~{expect:?}");
    assert_eq!(lat, Duration::from_millis(10));
}

#[test]
fn is_playing_tracks_transport_requests() {
    let (mut s, _rig) = open_mock(StreamRequest::new(8_000, 1), |_, _| {}).expect("mock open");
    assert!(s.is_playing(), "streams start in the playing state");
    s.pause().expect("mock pause");
    assert!(!s.is_playing());
    s.play().expect("mock play");
    assert!(s.is_playing());
    s.shut_down();
    assert!(!s.is_playing(), "a stopped stream does not play");
}

#[test]
fn volume_getter_defaults_and_clamps() {
    let (mut s, _rig) = open_mock(StreamRequest::new(8_000, 1), |_, _| {}).expect("mock open");
    assert_eq!(f32::from_bits(s.volume()), 1.0, "default volume is unity gain");
    s.set_volume(0.25f32.to_bits());
    assert_eq!(f32::from_bits(s.volume()), 0.25);
    s.set_volume(2.0f32.to_bits());
    assert_eq!(f32::from_bits(s.volume()), 2.0, "amplification above 1.0 is allowed");
    s.set_volume((-3.0f32).to_bits());
    assert_eq!(f32::from_bits(s.volume()), 0.0, "negative volume clamps to silence");
    s.set_volume(f32::NAN.to_bits());
    assert_eq!(f32::from_bits(s.volume()), 0.0, "NaN clamps to silence");
}

#[test]
fn capture_sink_sees_exactly_what_the_callback_rendered() {
    let devs = mock_driver().output_devices(no_list).expect("mock enumerates");
    let cap = devs.iter().find(|d| d.id == "mock:capture").expect("capture device listed");
    let req = StreamRequest::new(48_000, 1).with_buffer_frames(Some(64));
    let (s, mut rig) = open_mock_on(cap, req, |out, _| out.fill(0.5)).expect("mock open");
    let mut got: Vec<f32> = Vec::new();
    for _ in 0..20 {
        rig.turns(8);
        got.extend(take_captured(&mut rig.sink.borrow_mut()).into_iter().map(f32::from_bits));
    }
    assert!(got.len() >= 256, "capture sink stayed empty");
    drop(s);
    assert!(
        got.iter().all(|&x| x == 0.5),
        "captured samples differ from what the callback wrote"
    );
    assert_eq!(got.len() % 64, 0);
}

#[test]
fn other_devices_discard_what_is_rendered() {
    let (_s, mut rig) =
        open_mock(StreamRequest::new(48_000, 1), |out, _| out.fill(0.5)).expect("mock open");
    rig.turns(40);
    assert!(take_captured(&mut rig.sink.borrow_mut()).is_empty());
}

#[test]
fn capture_sink_is_capped() {
    let mut sink = CaptureSink::new();
    let chunk = vec![7u32; 3_000_000];
    push_captured(&mut sink, &chunk);
    push_captured(&mut sink, &chunk);
    push_captured(&mut sink, &[1, 2, 3]);
    let drained = take_captured(&mut sink);
    assert_eq!(drained.len(), 1 << 22);
    assert!(drained.iter().all(|&x| x == 7));
    push_captured(&mut sink, &[1, 2, 3]);
    assert_eq!(take_captured(&mut sink), vec![1, 2, 3]);
    assert!(take_captured(&mut sink).is_empty());
}

#[test]
fn zero_rates_and_channels_are_rejected_before_the_device() {
    let req = StreamRequest::new(0, 2).with_device("not-a-mock-device");
    let err = mock::open(&req).expect_err("zero rate");
    assert!(matches!(err, Error::UnsupportedFormat { backend: "mock", .. }));
    assert_eq!(
        err.message(),
        "mock: unsupported format: sample_rate=0 channels=2 — both must be non-zero"
    );
    assert!(mock::open(&StreamRequest::new(48_000, 0)).is_err());
}

#[test]
fn default_period_is_twenty_milliseconds_and_never_empty() {
    let s = mock::open(&StreamRequest::new(44_100, 2)).expect("mock open");
    assert_eq!(s.period_frames, 882);
    assert_eq!(s.period_ns, 20_000_000);
    let s = mock::open(&StreamRequest::new(49, 1)).expect("mock open");
    assert_eq!(s.period_frames, 1);
    assert_eq!(s.period_ns, 20_408_163);
    let req = StreamRequest::new(48_000, 1).with_buffer_frames(Some(0));
    assert_eq!(mock::open(&req).expect("mock open").period_frames, 1);
}

#[test]
fn periods_round_to_the_nearest_nanosecond() {
    for (frames, rate) in [(1u32, 1024u32), (3, 1024), (441, 44_100), (7, 48_000), (1, 3), (2, 3)] {
        let expect = Duration::from_secs_f64(f64::from(frames) / f64::from(rate));
        assert_eq!(
            u128::from(mock::period_to_nanos(frames, rate)),
            expect.as_nanos(),
            "{frames} frames at {rate} Hz"
        );
    }
}

#[test]
fn tiny_buffers_do_not_spin() {
    let req = StreamRequest::new(48_000, 1).with_buffer_frames(Some(1));
    let worker = mock::open(&req).expect("mock open").worker();
    assert_eq!(worker.tick_ns, 500_000);
}

#[test]
fn a_tick_sleeps_its_whole_length_in_slices() {
    let req = StreamRequest::new(48_000, 1).with_buffer_frames(Some(1_200)); // 25 ms
    let (_s, mut rig) = open_mock(req, |_, _| {}).expect("mock open");
    while rig.worker.frames_played < 1_200 {
        rig.turn();
    }
    while rig.worker.frames_played < 2_400 {
        rig.turn();
    }
    assert_eq!(rig.slept_ns, 25_000_000);
    assert_eq!(rig.longest_ns, 10_000_000);
}

#[test]
fn worker_spawn_failure_is_a_runtime_error() {
    assert_eq!(mock::spawn_error("out of threads").message(), "mock: runtime: worker spawn: out of threads");
}

#[test]
fn open_default_falls_through_to_the_mock() {
    let slot = Cell::new(None);
    let sink = Rc::new(RefCell::new(CaptureSink::new()));
    let stream = open_default(
        &build_with_mock(),
        &nothing_works,
        StreamRequest::new(48_000, 2),
        |d, r| {
            assert_eq!(d.name(), "mock");
            start(&sink, &r, Box::new(|_, _| {}), &slot)
        },
    )
    .expect("the mock always works");
    assert!(stream.is_playing());
}

#[test]
fn a_second_stop_changes_nothing() {
    let mut s = mock::open(&StreamRequest::new(48_000, 2)).expect("mock open");
    s.stop();
    let once = s;
    s.stop();
    assert_eq!(s, once);
}

#[test]
fn every_rendering_starts_from_a_zeroed_buffer() {
    let req = StreamRequest::new(48_000, 2).with_buffer_frames(Some(3)).with_device("mock:capture");
    let seen: Rc<RefCell<Vec<Vec<f32>>>> = Rc::new(RefCell::new(Vec::new()));
    let log = seen.clone();
    let (_s, mut rig) = open_mock(req, move |out, info| {
        log.borrow_mut().push(out.to_vec());
        out[0] = 1.0 + info.frames_played as f32;
    })
    .expect("mock open");
    while seen.borrow().len() < 3 {
        rig.turn();
    }
    assert!(seen.borrow().iter().all(|buf| buf == &vec![0.0; 6]));
    let got: Vec<f32> =
        take_captured(&mut rig.sink.borrow_mut()).into_iter().map(f32::from_bits).collect();
    let mut expect = vec![0.0; 18];
    expect[0] = 1.0;
    expect[6] = 4.0;
    expect[12] = 7.0;
    assert_eq!(got, expect);
}

#[test]
fn renderings_that_are_not_captured_are_discarded() {
    let mut sink = CaptureSink::new();
    let info = CallbackInfo { frames_played: 9 };
    let left = render(2, info, |mut bits, info| {
        assert_eq!(bits, vec![0, 0]);
        assert_eq!(info.frames_played, 9);
        bits[1] = 5;
        bits
    });
    assert_eq!(left, vec![0, 5]);
    keep_rendered(&mut sink, false, &left);
    assert!(take_captured(&mut sink).is_empty());
    keep_rendered(&mut sink, true, &left);
    keep_rendered(&mut sink, true, &left);
    assert_eq!(take_captured(&mut sink), vec![0, 5, 0, 5]);
}
