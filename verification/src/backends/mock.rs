//! Virtual mock backend: a hardware-free output that renders the callback
//! from a paced worker into a discard (or capture) sink.
//!
//! It exists so the crate's full stream state machine (open, play, pause,
//! stop, the frame clock, buffer-size hints, latency reporting, per-device
//! routing) is exercisable on machines that have no audio hardware and no
//! loadable audio library.
//!
//! # Behavioural model
//!
//! - Three virtual devices are enumerated: `mock:default` (tagged as the
//!   system default), `mock:secondary`, and `mock:capture`. Any other id
//!   fails to open, mirroring how real backends reject fabricated ids.
//! - Opening honours the requested rate and channels exactly and the
//!   `buffer_frames` hint verbatim (default: `sample_rate / 50`). A worker
//!   renders one period per tick, paced at roughly the period duration, and
//!   advances the frame clock only while playing. Streams start in the
//!   playing state.
//! - The latency models a fixed two-period software queue.
//! - Streams opened on `mock:capture` append every rendered sample to a
//!   [`CaptureSink`] that is drained via [`take_captured`]; the other
//!   devices discard the samples.

use std::time::Duration;
use vstd::prelude::*;
use vstd::string::*;

use crate::error::Error;
use crate::format::{CallbackInfo, Device, SampleFormat, StreamFormat, StreamRequest};
use crate::stream::StreamImpl;
use crate::text::{push_decimal, same_text};
use crate::time::nanos;

verus! {

/// The `(id, name, is_default)` entries of the three virtual devices.
pub open spec fn mock_entries() -> Seq<(Seq<char>, Seq<char>, bool)> {
    seq![
        ("mock:default"@, "Mock Default Output"@, true),
        ("mock:secondary"@, "Mock Secondary Output"@, false),
        ("mock:capture"@, "Mock Capture-Sink Output"@, false),
    ]
}

/// Whether a virtual device has this id.
pub open spec fn is_mock_device(id: Seq<char>) -> bool {
    exists|i: int| 0 <= i < mock_entries().len() && #[trigger] mock_entries()[i].0 == id
}

/// The id that a request resolves to: the named one, or the default.
pub open spec fn resolved_id(id: Option<Seq<char>>) -> Seq<char> {
    match id {
        Some(want) => want,
        None => "mock:default"@,
    }
}

/// The text of an optional id.
pub open spec fn id_text(id: Option<&str>) -> Option<Seq<char>> {
    match id {
        Some(want) => Some(want@),
        None => None,
    }
}

/// Resolve a requested device id to one of the virtual devices. `None`
/// means the default endpoint, like every real backend.
pub fn resolve(id: Option<&str>) -> (resolved: Result<&'static str, Error>)
    ensures
        match resolved {
            Ok(found) => is_mock_device(found@) && found@ == resolved_id(id_text(id)),
            Err(e) => {
                &&& id is Some
                &&& !is_mock_device(id->0@)
                &&& e.is_device_open("mock"@, "no such mock device: "@ + id->0@)
            },
        },
{
    assert(mock_entries()[0].0 == "mock:default"@);
    assert(mock_entries()[1].0 == "mock:secondary"@);
    assert(mock_entries()[2].0 == "mock:capture"@);
    match id {
        None => Ok("mock:default"),
        Some(want) => {
            if same_text(want, "mock:default") {
                Ok("mock:default")
            } else if same_text(want, "mock:secondary") {
                Ok("mock:secondary")
            } else if same_text(want, "mock:capture") {
                Ok("mock:capture")
            } else {
                let mut detail = "no such mock device: ".to_owned();
                detail.append(want);
                Err(Error::DeviceOpen { backend: "mock", detail })
            }
        },
    }
}

/// A probe of the mock always succeeds: it needs nothing from the host.
pub fn probe() -> (outcome: Result<(), Error>)
    ensures
        outcome is Ok,
{
    Ok(())
}

/// The three virtual devices.
pub fn output_devices() -> (list: Result<Vec<Device>, Error>)
    ensures
        list is Ok,
        crate::format::lists(list->Ok_0@, mock_entries()),
{
    let mut list: Vec<Device> = Vec::new();
    list.push(
        Device {
            id: "mock:default".to_owned(),
            name: "Mock Default Output".to_owned(),
            is_default: true,
        },
    );
    list.push(
        Device {
            id: "mock:secondary".to_owned(),
            name: "Mock Secondary Output".to_owned(),
            is_default: false,
        },
    );
    list.push(
        Device {
            id: "mock:capture".to_owned(),
            name: "Mock Capture-Sink Output".to_owned(),
            is_default: false,
        },
    );
    Ok(list)
}

/// What the mock reports as its native format, for the device `id` or for
/// the default one.
pub fn preferred_format(id: Option<&str>) -> (format: Result<StreamFormat, Error>)
    ensures
        match format {
            Ok(f) => is_mock_device(resolved_id(id_text(id))) && f == (StreamFormat {
                sample_rate: 48_000,
                channels: 2,
                format: SampleFormat::F32,
            }),
            Err(e) => id is Some && !is_mock_device(id->0@) && e.is_device_open(
                "mock"@,
                "no such mock device: "@ + id->0@,
            ),
        },
{
    match resolve(id) {
        Ok(_) => Ok(StreamFormat { sample_rate: 48_000, channels: 2, format: SampleFormat::F32 }),
        Err(e) => Err(e),
    }
}

/// The frames of one period: the hint, or 20 ms, but never none.
pub open spec fn period_frames(hint: Option<u32>, rate: u32) -> int {
    crate::time::at_least(
        match hint {
            Some(frames) => frames as int,
            None => (rate / 50) as int,
        },
        1,
    )
}

/// `n / d` rounded to the nearest whole number, a half to the even one.
pub open spec fn rounded_quotient(n: int, d: int) -> int {
    if 2 * (n % d) > d || (2 * (n % d) == d && (n / d) % 2 == 1) {
        n / d + 1
    } else {
        n / d
    }
}

/// How long a period lasts, in nanoseconds.
pub open spec fn period_nanos(frames: int, rate: int) -> int {
    rounded_quotient(frames * 1_000_000_000, rate)
}

/// The length of a period, rounded to the nearest nanosecond.
pub fn period_to_nanos(frames: u32, rate: u32) -> (ns: u64)
    requires
        rate > 0,
    ensures
        ns == period_nanos(frames as int, rate as int),
{
    let n: u64 = frames as u64 * 1_000_000_000;
    let d: u64 = rate as u64;
    let whole: u64 = n / d;
    let rest: u64 = n % d;
    proof {
        vstd::arithmetic::div_mod::lemma_div_is_ordered_by_denominator(n as int, 1, d as int);
        vstd::arithmetic::div_mod::lemma_div_basics(n as int);
        vstd::arithmetic::div_mod::lemma_mod_bound(n as int, d as int);
    }
    if 2 * rest > d || (2 * rest == d && whole % 2 == 1) {
        whole + 1
    } else {
        whole
    }
}

/// A period's length is the exact quotient to within half a nanosecond.
pub proof fn law_period_is_within_half_a_nanosecond(frames: u32, rate: u32)
    requires
        rate > 0,
    ensures
        -rate <= 2 * (period_nanos(frames as int, rate as int) * rate - frames * 1_000_000_000)
            <= rate,
{
    let n = frames * 1_000_000_000;
    let d = rate as int;
    vstd::arithmetic::div_mod::lemma_fundamental_div_mod(n, d);
    vstd::arithmetic::div_mod::lemma_mod_bound(n, d);
    let q = n / d;
    assert((q + 1) * d == d * q + d) by (nonlinear_arith);
    assert(q * d == d * q) by (nonlinear_arith);
}

/// The handle's side of a mock stream.
#[derive(Debug, Clone, Copy, PartialEq, Eq, Structural)]
pub struct MockStream {
    /// Whether the worker renders; read at every tick.
    pub playing: bool,
    /// Whether the worker is to leave; read at every slice of its sleep.
    pub shutdown: bool,
    pub fmt: StreamFormat,
    pub period_frames: u32,
    /// One rendering period, in nanoseconds.
    pub period_ns: u64,
    /// Whether what is rendered goes to the capture sink.
    pub capture: bool,
}

/// Opens a stream on the mock. Zero rates and zero channel counts are
/// rejected, then unknown devices; everything else is honoured exactly, and
/// the stream starts playing. The caller starts a worker for it, see
/// [`MockStream::worker`].
pub fn open(req: &StreamRequest) -> (opened: Result<MockStream, Error>)
    ensures
        match opened {
            Ok(stream) => {
                &&& req.sample_rate > 0
                &&& req.channels > 0
                &&& is_mock_device(resolved_id(req.device_id()))
                &&& stream.playing
                &&& !stream.shutdown
                &&& stream.fmt == (StreamFormat {
                    sample_rate: req.sample_rate,
                    channels: req.channels,
                    format: SampleFormat::F32,
                })
                &&& stream.period_frames == period_frames(req.buffer_frames, req.sample_rate)
                &&& stream.period_ns == period_nanos(
                    stream.period_frames as int,
                    req.sample_rate as int,
                )
                &&& stream.capture == (resolved_id(req.device_id()) == "mock:capture"@)
            },
            Err(e) => if req.sample_rate == 0 || req.channels == 0 {
                e.is_unsupported_format(
                    "mock"@,
                    "sample_rate="@ + crate::text::decimal(req.sample_rate as nat)
                        + " channels="@ + crate::text::decimal(req.channels as nat)
                        + " — both must be non-zero"@,
                )
            } else {
                &&& !is_mock_device(resolved_id(req.device_id()))
                &&& e.is_device_open(
                    "mock"@,
                    "no such mock device: "@ + resolved_id(req.device_id()),
                )
            },
        },
{
    if req.sample_rate == 0 || req.channels == 0 {
        let mut detail = "sample_rate=".to_owned();
        push_decimal(&mut detail, req.sample_rate as u64);
        detail.append(" channels=");
        push_decimal(&mut detail, req.channels as u64);
        detail.append(" — both must be non-zero");
        return Err(Error::UnsupportedFormat { backend: "mock", detail });
    }
    let wanted = match &req.device {
        Some(id) => Some(id.as_str()),
        None => None,
    };
    let device = match resolve(wanted) {
        Ok(d) => d,
        Err(e) => {
            return Err(e);
        },
    };
    let target: u32 = match req.buffer_frames {
        Some(frames) => frames,
        None => req.sample_rate / 50,
    };
    let frames: u32 = if target < 1 {
        1
    } else {
        target
    };
    Ok(
        MockStream {
            playing: true,
            shutdown: false,
            fmt: StreamFormat {
                sample_rate: req.sample_rate,
                channels: req.channels,
                format: SampleFormat::F32,
            },
            period_frames: frames,
            period_ns: period_to_nanos(frames, req.sample_rate),
            capture: same_text(device, "mock:capture"),
        },
    )
}

/// The error when the system could not start the worker thread.
pub fn spawn_error(reason: &str) -> (error: Error)
    ensures
        error.is_runtime("mock"@, "worker spawn: "@ + reason@),
{
    let mut detail = "worker spawn: ".to_owned();
    detail.append(reason);
    Error::Runtime { backend: "mock", detail }
}

impl MockStream {
    /// Twice the period, in nanoseconds.
    pub open spec fn two_periods(self) -> int {
        crate::time::at_most(2 * self.period_ns, u64::MAX as int)
    }

    /// The worker that renders this stream.
    pub fn worker(&self) -> (worker: MockWorker)
        ensures
            worker == MockWorker::started(*self),
    {
        MockWorker {
            period_frames: self.period_frames,
            channels: self.fmt.channels,
            capture: self.capture,
            tick_ns: if self.period_ns < MIN_TICK_NS {
                MIN_TICK_NS
            } else {
                self.period_ns
            },
            frames_played: 0,
            remaining_ns: 0,
        }
    }
}

impl StreamImpl for MockStream {
    open spec fn plays(before: Self, after: Self, reply: Result<(), Error>) -> bool {
        reply is Ok && after == (MockStream { playing: true, ..before })
    }

    open spec fn pauses(before: Self, after: Self, reply: Result<(), Error>) -> bool {
        reply is Ok && after == (MockStream { playing: false, ..before })
    }

    open spec fn stops(before: Self, after: Self) -> bool {
        after == (MockStream { playing: false, shutdown: true, ..before })
    }

    open spec fn reports_format(self, format: StreamFormat) -> bool {
        format == self.fmt
    }

    open spec fn reports_latency(self, latency: Option<Duration>) -> bool {
        latency == Some(crate::time::duration_of_nanos(self.two_periods() as u64))
    }

    fn play(&mut self) -> (reply: Result<(), Error>) {
        self.playing = true;
        Ok(())
    }

    fn pause(&mut self) -> (reply: Result<(), Error>) {
        self.playing = false;
        Ok(())
    }

    fn format(&self) -> (format: StreamFormat) {
        self.fmt
    }

    /// A fixed two-period software queue.
    fn latency(&self) -> (latency: Option<Duration>) {
        let doubled: u64 = self.period_ns.saturating_add(self.period_ns);
        Some(nanos(doubled))
    }

    fn stop(&mut self) {
        self.shutdown = true;
        self.playing = false;
    }
}

/// No latency of an opened stream is cut off: two periods always fit in the
/// 64 bits of a nanosecond count.
pub proof fn law_two_periods_fit(frames: u32, rate: u32)
    requires
        rate > 0,
    ensures
        0 <= 2 * period_nanos(frames as int, rate as int) <= u64::MAX,
{
    law_period_is_within_half_a_nanosecond(frames, rate);
    let p = period_nanos(frames as int, rate as int);
    let n = frames * 1_000_000_000;
    vstd::arithmetic::div_mod::lemma_div_is_ordered_by_denominator(n, 1, rate as int);
    vstd::arithmetic::div_mod::lemma_div_basics(n);
    vstd::arithmetic::div_mod::lemma_div_pos_is_pos(n, rate as int);
}

/// Stopping a second time changes nothing.
pub proof fn law_mock_stop_is_idempotent(before: MockStream, once: MockStream, twice: MockStream)
    requires
        MockStream::stops(before, once),
        MockStream::stops(once, twice),
    ensures
        twice == once,
{
}

/// The shortest tick: small buffer hints don't turn the worker into a busy
/// spin.
pub const MIN_TICK_NS: u64 = 500_000;

/// The longest the worker sleeps without looking at the shutdown flag.
pub const SLICE_NS: u64 = 10_000_000;

/// The worker's side of a mock stream.
#[derive(Debug, Clone, Copy, PartialEq, Eq, Structural)]
pub struct MockWorker {
    pub period_frames: u32,
    pub channels: u16,
    pub capture: bool,
    /// The time from one rendering to the next, in nanoseconds.
    pub tick_ns: u64,
    /// Frames rendered; the frame clock.
    pub frames_played: u64,
    /// What is left of the current sleep, in nanoseconds.
    pub remaining_ns: u64,
}

/// What the worker is told.
#[derive(Debug, Clone, Copy, PartialEq, Eq, Structural)]
pub enum MockEvent {
    /// The shutdown flag.
    Shutdown(bool),
    /// The playing flag.
    Playing(bool),
    /// The callback has filled the buffer, and what it rendered is captured
    /// if it is to be.
    Rendered,
    /// The slice of sleep is over.
    Slept,
}

/// What the worker does next.
#[derive(Debug, Clone, Copy, PartialEq, Eq, Structural)]
pub enum MockTask {
    /// Read the shutdown flag.
    ReadShutdown,
    /// Read the playing flag.
    ReadPlaying,
    /// Let the callback fill a zeroed buffer of that many samples, and
    /// capture it if asked.
    Render { samples: u64, info: CallbackInfo, capture: bool },
    /// Sleep that many nanoseconds.
    Sleep(u64),
    /// Leave the loop.
    Exit,
}

impl MockWorker {
    /// The worker of a stream that was just opened.
    pub open spec fn started(stream: MockStream) -> MockWorker {
        MockWorker {
            period_frames: stream.period_frames,
            channels: stream.fmt.channels,
            capture: stream.capture,
            tick_ns: crate::time::at_least(stream.period_ns as int, MIN_TICK_NS as int) as u64,
            frames_played: 0,
            remaining_ns: 0,
        }
    }

    /// The next slice of sleep.
    pub open spec fn slice(self) -> int {
        crate::time::at_most(self.remaining_ns as int, SLICE_NS as int)
    }

    /// The worker after an event: the clock advances by one period per
    /// rendering, and every tick ends in a sleep.
    pub open spec fn after(self, event: MockEvent) -> MockWorker {
        match event {
            MockEvent::Shutdown(_) => self,
            MockEvent::Playing(playing) => if playing {
                self
            } else {
                MockWorker { remaining_ns: self.tick_ns, ..self }
            },
            MockEvent::Rendered => MockWorker {
                frames_played: ((self.frames_played + self.period_frames)
                    % 0x1_0000_0000_0000_0000) as u64,
                remaining_ns: self.tick_ns,
                ..self
            },
            MockEvent::Slept => MockWorker {
                remaining_ns: (self.remaining_ns - self.slice()) as u64,
                ..self
            },
        }
    }

    /// What the worker does next when an event finds it in this state.
    pub open spec fn answer(self, event: MockEvent) -> MockTask {
        match event {
            MockEvent::Shutdown(shutdown) => if shutdown {
                MockTask::Exit
            } else if self.remaining_ns > 0 {
                MockTask::Sleep(self.slice() as u64)
            } else {
                MockTask::ReadPlaying
            },
            MockEvent::Playing(playing) => if playing {
                MockTask::Render {
                    samples: (self.period_frames * self.channels) as u64,
                    info: CallbackInfo { frames_played: self.frames_played },
                    capture: self.capture,
                }
            } else {
                MockTask::ReadShutdown
            },
            MockEvent::Rendered => MockTask::ReadShutdown,
            MockEvent::Slept => MockTask::ReadShutdown,
        }
    }

    /// One turn of the worker.
    pub fn step(&mut self, event: MockEvent) -> (task: MockTask)
        ensures
            *final(self) == old(self).after(event),
            task == old(self).answer(event),
    {
        let slice: u64 = if self.remaining_ns < SLICE_NS {
            self.remaining_ns
        } else {
            SLICE_NS
        };
        match event {
            MockEvent::Shutdown(shutdown) => {
                if shutdown {
                    MockTask::Exit
                } else if self.remaining_ns > 0 {
                    MockTask::Sleep(slice)
                } else {
                    MockTask::ReadPlaying
                }
            },
            MockEvent::Playing(playing) => {
                if playing {
                    proof {
                        assert(0 <= self.period_frames * self.channels <= 0xFFFF_FFFF * 0xFFFF)
                            by (nonlinear_arith)
                            requires
                                self.period_frames <= 0xFFFF_FFFF,
                                self.channels <= 0xFFFF,
                        ;
                    }
                    MockTask::Render {
                        samples: self.period_frames as u64 * self.channels as u64,
                        info: CallbackInfo { frames_played: self.frames_played },
                        capture: self.capture,
                    }
                } else {
                    self.remaining_ns = self.tick_ns;
                    MockTask::ReadShutdown
                }
            },
            MockEvent::Rendered => {
                self.frames_played = self.frames_played.wrapping_add(self.period_frames as u64);
                self.remaining_ns = self.tick_ns;
                MockTask::ReadShutdown
            },
            MockEvent::Slept => {
                self.remaining_ns = self.remaining_ns - slice;
                MockTask::ReadShutdown
            },
        }
    }

    /// The worker after a sequence of events.
    pub open spec fn after_all(self, events: Seq<MockEvent>) -> MockWorker
        decreases events.len(),
    {
        if events.len() == 0 {
            self
        } else {
            self.after_all(events.drop_last()).after(events.last())
        }
    }
}

/// How many renderings a sequence of events holds.
pub open spec fn renderings(events: Seq<MockEvent>) -> nat
    decreases events.len(),
{
    if events.len() == 0 {
        0
    } else {
        renderings(events.drop_last()) + (if events.last() is Rendered {
            1nat
        } else {
            0nat
        })
    }
}

/// The frame clock starts at zero and is one period for each rendering,
/// modulo its 64 bits; nothing else moves it.
pub proof fn law_mock_clock_counts_renderings(stream: MockStream, events: Seq<MockEvent>)
    ensures
        ({
            let worker = MockWorker::started(stream).after_all(events);
            &&& worker.period_frames == stream.period_frames
            &&& worker.frames_played == (renderings(events) * stream.period_frames)
                % 0x1_0000_0000_0000_0000
        }),
    decreases events.len(),
{
    if events.len() > 0 {
        let init = events.drop_last();
        let n = renderings(init) as int;
        let period = stream.period_frames as int;
        law_mock_clock_counts_renderings(stream, init);
        assert((n + 1) * period == n * period + period) by (nonlinear_arith);
    } else {
        assert(renderings(events) * stream.period_frames == 0) by (nonlinear_arith)
            requires
                renderings(events) == 0,
        ;
    }
}

/// Whether an event is what comes of a task.
pub open spec fn answers(task: MockTask, event: MockEvent) -> bool {
    match task {
        MockTask::ReadShutdown => event is Shutdown,
        MockTask::ReadPlaying => event is Playing,
        MockTask::Render { .. } => event is Rendered,
        MockTask::Sleep(_) => event is Slept,
        MockTask::Exit => false,
    }
}

/// What the worker of a stream is at after a sequence of events; it begins
/// by reading the shutdown flag.
pub open spec fn task_after(stream: MockStream, events: Seq<MockEvent>) -> MockTask {
    if events.len() == 0 {
        MockTask::ReadShutdown
    } else {
        MockWorker::started(stream).after_all(events.drop_last()).answer(events.last())
    }
}

/// Whether a sequence of events is a run of a stream's worker: each event is
/// what came of the task before it.
pub open spec fn is_run(stream: MockStream, events: Seq<MockEvent>) -> bool
    decreases events.len(),
{
    events.len() == 0 || is_run(stream, events.drop_last()) && answers(
        task_after(stream, events.drop_last()),
        events.last(),
    )
}

/// How many ticks of a sequence of events found the stream playing.
pub open spec fn playing_ticks(events: Seq<MockEvent>) -> nat
    decreases events.len(),
{
    if events.len() == 0 {
        0
    } else {
        playing_ticks(events.drop_last()) + (if events.last() == MockEvent::Playing(true) {
            1nat
        } else {
            0nat
        })
    }
}

/// Over any run of the worker the callback is called once for each tick that
/// found the stream playing, and at no other time; it is given one period of
/// samples, and a clock that was zero on the first call and has grown by
/// exactly one period with each call since. A shutdown that was read ends
/// the run.
pub proof fn law_mock_run_calls_the_callback_once_per_playing_tick(
    stream: MockStream,
    events: Seq<MockEvent>,
)
    requires
        is_run(stream, events),
    ensures
        ({
            let task = task_after(stream, events);
            &&& playing_ticks(events) == renderings(events) + (if task is Render {
                1int
            } else {
                0int
            })
            &&& task is Render <==> events.len() > 0 && events.last() == MockEvent::Playing(true)
            &&& task is Exit <==> events.len() > 0 && events.last() == MockEvent::Shutdown(true)
            &&& task matches MockTask::Render { samples, info, capture } ==> {
                &&& samples == stream.period_frames * stream.fmt.channels
                &&& info.frames_played == (renderings(events) * stream.period_frames)
                    % 0x1_0000_0000_0000_0000
                &&& capture == stream.capture
            }
            &&& forall|i: int|
                0 <= i < events.len() - 1 ==> #[trigger] events[i] != MockEvent::Shutdown(true)
        }),
    decreases events.len(),
{
    if events.len() > 0 {
        let init = events.drop_last();
        law_mock_run_calls_the_callback_once_per_playing_tick(stream, init);
        law_mock_clock_counts_renderings(stream, init);
        lemma_worker_keeps_its_shape(stream, init);
        assert(0 <= stream.period_frames * stream.fmt.channels <= 0xFFFF_FFFF * 0xFFFF)
            by (nonlinear_arith)
            requires
                stream.period_frames <= 0xFFFF_FFFF,
                stream.fmt.channels <= 0xFFFF,
        ;
        assert forall|i: int| 0 <= i < events.len() - 1 implies #[trigger] events[i]
            != MockEvent::Shutdown(true) by {
            assert(events[i] == init[i]);
            if i == init.len() - 1 {
                assert(init.last() == events[i]);
            }
        }
    }
}

proof fn lemma_worker_keeps_its_shape(stream: MockStream, events: Seq<MockEvent>)
    ensures
        ({
            let worker = MockWorker::started(stream).after_all(events);
            &&& worker.period_frames == stream.period_frames
            &&& worker.channels == stream.fmt.channels
            &&& worker.capture == stream.capture
        }),
    decreases events.len(),
{
    if events.len() > 0 {
        lemma_worker_keeps_its_shape(stream, events.drop_last());
    }
}

/// While paused the clock stands still and the callback is not run.
pub proof fn law_mock_pause_halts_the_clock(worker: MockWorker)
    ensures
        worker.after(MockEvent::Playing(false)).frames_played == worker.frames_played,
        !(worker.answer(MockEvent::Playing(false)) is Render),
{
}

/// A shutdown is seen at once: the worker leaves whatever it was doing, and
/// it never sleeps longer than a slice before it looks. So stopping never
/// waits out a full period of a large buffer.
pub proof fn law_mock_worker_leaves_promptly(worker: MockWorker, event: MockEvent)
    ensures
        worker.answer(MockEvent::Shutdown(true)) is Exit,
        worker.answer(event) matches MockTask::Sleep(ns) ==> 0 < ns <= SLICE_NS,
        event is Slept || event is Rendered || event == MockEvent::Playing(false)
            ==> worker.answer(event) is ReadShutdown,
{
}

/// How long a worker sleeps from here to its next look at the playing flag.
pub open spec fn time_asleep(worker: MockWorker) -> int
    decreases worker.remaining_ns,
{
    if worker.remaining_ns == 0 {
        0
    } else {
        worker.slice() + time_asleep(worker.after(MockEvent::Slept))
    }
}

/// The slices add up: a tick sleeps exactly its length.
pub proof fn law_mock_slices_add_up(worker: MockWorker)
    ensures
        time_asleep(worker) == worker.remaining_ns,
    decreases worker.remaining_ns,
{
    if worker.remaining_ns > 0 {
        law_mock_slices_add_up(worker.after(MockEvent::Slept));
    }
}

/// Exactly one of the virtual devices is the default, and it is the one that
/// a request without a device resolves to.
pub proof fn law_mock_has_one_default()
    ensures
        forall|i: int|
            0 <= i < mock_entries().len() ==> ((#[trigger] mock_entries()[i]).2 <==> i == 0),
        crate::format::has_one_default(mock_entries()),
        mock_entries()[0].0 == resolved_id(None),
        is_mock_device(resolved_id(None)),
{
    assert(mock_entries()[0].0 == "mock:default"@);
    assert(crate::format::is_the_one_default(mock_entries(), 0));
}

/// Every enumerated id resolves.
pub proof fn law_mock_ids_resolve(i: int)
    requires
        0 <= i < mock_entries().len(),
    ensures
        is_mock_device(mock_entries()[i].0),
{
}

/// Upper bound on how many samples the capture sink retains between drains.
pub const CAPTURE_CAP_SAMPLES: usize = 0x40_0000;

/// The sink fed by streams opened on `mock:capture`; its samples are f32 bit
/// patterns. Growth is capped at [`CAPTURE_CAP_SAMPLES`] so a forgotten
/// stream can't eat the heap.
#[derive(Debug)]
pub struct CaptureSink {
    samples: Vec<u32>,
}

impl View for CaptureSink {
    type V = Seq<u32>;

    closed spec fn view(&self) -> Seq<u32> {
        self.samples@
    }
}

/// What a sink holds after a chunk is pushed: the chunk is appended as far
/// as there is room.
pub open spec fn with_chunk(held: Seq<u32>, chunk: Seq<u32>) -> Seq<u32> {
    let room = crate::time::at_least(CAPTURE_CAP_SAMPLES - held.len(), 0);
    held + chunk.take(crate::time::at_most(room, chunk.len() as int))
}

impl CaptureSink {
    /// Whether the sink keeps to its bound.
    pub open spec fn wf(self) -> bool {
        self@.len() <= CAPTURE_CAP_SAMPLES
    }

    /// An empty sink.
    pub fn new() -> (sink: CaptureSink)
        ensures
            sink.wf(),
            sink@ == Seq::<u32>::empty(),
    {
        CaptureSink { samples: Vec::new() }
    }
}

/// Appends what was rendered, as far as there is room.
pub fn push_captured(sink: &mut CaptureSink, chunk: &[u32])
    requires
        old(sink).wf(),
    ensures
        final(sink).wf(),
        final(sink)@ == with_chunk(old(sink)@, chunk@),
{
    let room: usize = CAPTURE_CAP_SAMPLES - sink.samples.len();
    let take: usize = if room < chunk.len() {
        room
    } else {
        chunk.len()
    };
    let mut i: usize = 0;
    while i < take
        invariant
            i <= take <= chunk@.len(),
            sink.samples@ == old(sink).samples@ + chunk@.take(i as int),
        decreases take - i,
    {
        sink.samples.push(chunk[i]);
        i = i + 1;
        assert(chunk@.take(i as int) =~= chunk@.take(i - 1).push(chunk@[i - 1]));
    }
}

/// A buffer of that many zero samples, as bit patterns.
pub open spec fn blank(samples: nat) -> Seq<u32> {
    Seq::new(samples, |i: int| 0u32)
}

/// Whether `left` is what a callback can leave of a zeroed buffer of that
/// many samples.
pub open spec fn can_leave<C: FnOnce(Vec<u32>, CallbackInfo) -> Vec<u32>>(
    callback: C,
    samples: nat,
    info: CallbackInfo,
    left: Vec<u32>,
) -> bool {
    exists|buf: Vec<u32>| buf@ == blank(samples) && #[trigger] callback.ensures((buf, info), left)
}

/// Renders one period: the callback gets a zeroed buffer, and what it leaves
/// is what was rendered. Samples are f32 bit patterns.
pub fn render<C: FnOnce(Vec<u32>, CallbackInfo) -> Vec<u32>>(
    samples: usize,
    info: CallbackInfo,
    callback: C,
) -> (left: Vec<u32>)
    requires
        forall|buf: Vec<u32>| buf@ == blank(samples as nat) ==> #[trigger] callback.requires(
            (buf, info),
        ),
    ensures
        can_leave(callback, samples as nat, info, left),
{
    let mut buf: Vec<u32> = Vec::new();
    let mut i: usize = 0;
    while i < samples
        invariant
            i <= samples,
            buf@ == blank(i as nat),
        decreases samples - i,
    {
        buf.push(0);
        i = i + 1;
        assert(buf@ =~= blank(i as nat));
    }
    let ghost given = buf;
    let left = callback(buf, info);
    assert(callback.ensures((given, info), left));
    left
}

/// What a sink holds after a period was rendered: what the callback left of
/// it is appended, as far as there is room, if the stream is captured.
pub open spec fn after_rendering(held: Seq<u32>, capture: bool, left: Seq<u32>) -> Seq<u32> {
    if capture {
        with_chunk(held, left)
    } else {
        held
    }
}

/// Hands a rendered period to the sink, if it is to be captured; it is
/// discarded otherwise.
pub fn keep_rendered(sink: &mut CaptureSink, capture: bool, left: &[u32])
    requires
        old(sink).wf(),
    ensures
        final(sink).wf(),
        final(sink)@ == after_rendering(old(sink)@, capture, left@),
{
    if capture {
        push_captured(sink, left);
    }
}

/// What a sink holds after a sequence of renderings.
pub open spec fn after_renderings(
    held: Seq<u32>,
    capture: bool,
    lefts: Seq<Seq<u32>>,
) -> Seq<u32>
    decreases lefts.len(),
{
    if lefts.len() == 0 {
        held
    } else {
        after_rendering(
            after_renderings(held, capture, lefts.drop_last()),
            capture,
            lefts.last(),
        )
    }
}

/// All that a sequence of renderings left, end to end.
pub open spec fn all_left(lefts: Seq<Seq<u32>>) -> Seq<u32>
    decreases lefts.len(),
{
    if lefts.len() == 0 {
        seq![]
    } else {
        all_left(lefts.drop_last()) + lefts.last()
    }
}

/// A captured stream's sink holds exactly what the callback left, period
/// after period, as long as there is room; a stream that is not captured
/// leaves the sink alone.
pub proof fn law_capture_is_what_the_callback_left(held: Seq<u32>, lefts: Seq<Seq<u32>>)
    requires
        held.len() + all_left(lefts).len() <= CAPTURE_CAP_SAMPLES,
    ensures
        after_renderings(held, true, lefts) == held + all_left(lefts),
        after_renderings(held, false, lefts) == held,
    decreases lefts.len(),
{
    if lefts.len() > 0 {
        let last = lefts.last();
        law_capture_is_what_the_callback_left(held, lefts.drop_last());
        assert(last.take(last.len() as int) =~= last);
        assert(after_renderings(held, true, lefts) =~= held + all_left(lefts));
    } else {
        assert(held + all_left(lefts) =~= held);
    }
}

/// Drain and return everything captured since the previous drain.
pub fn take_captured(sink: &mut CaptureSink) -> (drained: Vec<u32>)
    ensures
        drained@ == old(sink)@,
        final(sink).wf(),
        final(sink)@ == Seq::<u32>::empty(),
{
    let mut drained: Vec<u32> = Vec::new();
    std::mem::swap(&mut drained, &mut sink.samples);
    drained
}

/// The sink sees exactly what was rendered: while there is room, pushing two
/// chunks is pushing them joined, and nothing is lost.
pub proof fn law_capture_keeps_what_was_rendered(
    held: Seq<u32>,
    first: Seq<u32>,
    second: Seq<u32>,
)
    requires
        held.len() + first.len() + second.len() <= CAPTURE_CAP_SAMPLES,
    ensures
        with_chunk(with_chunk(held, first), second) == held + first + second,
        with_chunk(held, first + second) == held + first + second,
{
    assert(first.take(first.len() as int) =~= first);
    assert(second.take(second.len() as int) =~= second);
    let both = first + second;
    assert(both.take(both.len() as int) =~= both);
    assert(with_chunk(held, both) =~= held + first + second);
}

/// The sink never grows beyond its bound, and never loses what it holds.
pub proof fn law_capture_is_bounded(held: Seq<u32>, chunk: Seq<u32>)
    requires
        held.len() <= CAPTURE_CAP_SAMPLES,
    ensures
        with_chunk(held, chunk).len() <= CAPTURE_CAP_SAMPLES,
        with_chunk(held, chunk).take(held.len() as int) == held,
{
    assert(with_chunk(held, chunk).take(held.len() as int) =~= held);
}

} // verus!
