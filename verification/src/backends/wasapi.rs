//! WASAPI output backend: the decisions behind the COM calls.
//!
//! Shared mode, event-driven. The device's mix format (almost always f32
//! stereo at the user's system sample rate) is accepted as-is; if the
//! device insists on S16 the samples are converted, anything else errors
//! out rather than guessing.

use std::time::Duration;
use vstd::prelude::*;
use vstd::string::*;

use crate::error::Error;
use crate::format::{CallbackInfo, Device, SampleFormat, StreamFormat, StreamRequest};
use crate::text::{decode_utf16_lossy, encode_utf16, push_decimal, push_status_hex};
use crate::time::{frames_to_nanos, nanos};

verus! {

/// `S_OK`.
pub const S_OK: i32 = 0;

/// `WAIT_OBJECT_0`.
pub const WAIT_OBJECT_0: u32 = 0;

/// `WAIT_TIMEOUT`.
pub const WAIT_TIMEOUT: u32 = 258;

/// `WAVE_FORMAT_PCM`.
pub const WAVE_FORMAT_PCM: u16 = 0x0001;

/// `WAVE_FORMAT_IEEE_FLOAT`.
pub const WAVE_FORMAT_IEEE_FLOAT: u16 = 0x0003;

/// `WAVE_FORMAT_EXTENSIBLE`.
pub const WAVE_FORMAT_EXTENSIBLE: u16 = 0xFFFE;

/// A COM class, interface or sub-format identifier.
#[derive(Debug, Clone, Copy)]
pub struct GUID {
    pub data1: u32,
    pub data2: u16,
    pub data3: u16,
    pub data4: [u8; 8],
}

impl GUID {
    /// Whether two identifiers agree in every field.
    pub open spec fn same(self, other: GUID) -> bool {
        self.data1 == other.data1 && self.data2 == other.data2 && self.data3 == other.data3
            && self.data4@ == other.data4@
    }

    /// Whether two identifiers are the same.
    pub fn matches(&self, other: &GUID) -> (same: bool)
        ensures
            same == self.same(*other),
    {
        if self.data1 != other.data1 || self.data2 != other.data2 || self.data3 != other.data3 {
            return false;
        }
        let mut i: usize = 0;
        while i < 8
            invariant
                i <= 8,
                forall|j: int| 0 <= j < i ==> self.data4@[j] == other.data4@[j],
            decreases 8 - i,
        {
            if self.data4[i] != other.data4[i] {
                return false;
            }
            i = i + 1;
        }
        assert(self.data4@ =~= other.data4@);
        true
    }
}

/// Assembles an identifier from its four fields.
pub fn guid(d1: u32, d2: u16, d3: u16, d4: [u8; 8]) -> (id: GUID)
    ensures
        id.data1 == d1,
        id.data2 == d2,
        id.data3 == d3,
        id.data4@ == d4@,
{
    GUID { data1: d1, data2: d2, data3: d3, data4: d4 }
}

/// The eight bytes that end every `KSDATAFORMAT_SUBTYPE_*` identifier of a
/// wave format.
pub open spec fn wave_subtype_tail() -> Seq<u8> {
    seq![0x80u8, 0x00u8, 0x00u8, 0xAAu8, 0x00u8, 0x38u8, 0x9Bu8, 0x71u8]
}

/// Whether `id` is the sub-format identifier of the wave format `tag`: the
/// tag itself, in the fixed frame all of them share.
pub open spec fn is_wave_subtype(id: GUID, tag: u16) -> bool {
    id.data1 == tag && id.data2 == 0 && id.data3 == 0x0010 && id.data4@ == wave_subtype_tail()
}

/// `KSDATAFORMAT_SUBTYPE_IEEE_FLOAT`.
pub fn subtype_ieee_float() -> (id: GUID)
    ensures
        is_wave_subtype(id, WAVE_FORMAT_IEEE_FLOAT),
{
    let id = guid(
        0x0000_0003,
        0x0000,
        0x0010,
        [0x80, 0x00, 0x00, 0xAA, 0x00, 0x38, 0x9B, 0x71],
    );
    assert(id.data4@ =~= wave_subtype_tail());
    id
}

/// `KSDATAFORMAT_SUBTYPE_PCM`.
pub fn subtype_pcm() -> (id: GUID)
    ensures
        is_wave_subtype(id, WAVE_FORMAT_PCM),
{
    let id = guid(
        0x0000_0001,
        0x0000,
        0x0010,
        [0x80, 0x00, 0x00, 0xAA, 0x00, 0x38, 0x9B, 0x71],
    );
    assert(id.data4@ =~= wave_subtype_tail());
    id
}

/// The wave format that a format block stands for: its tag, or for an
/// extensible block the tag in its sub-format identifier.
pub open spec fn is_wave(tag: u16, sub: GUID, format: u16) -> bool {
    tag == format || tag == WAVE_FORMAT_EXTENSIBLE && is_wave_subtype(sub, format)
}

/// Read the effective sample format out of a `WAVEFORMATEX`: whether it is
/// float, and its bits per sample. `sub` is the sub-format identifier of an
/// extensible block; other tags don't use it.
pub fn inspect_format(tag: u16, bits: u16, sub: &GUID) -> (layout: Option<(bool, u16)>)
    ensures
        layout == (if is_wave(tag, *sub, WAVE_FORMAT_IEEE_FLOAT) {
            Some((true, bits))
        } else if is_wave(tag, *sub, WAVE_FORMAT_PCM) {
            Some((false, bits))
        } else {
            None
        }),
{
    if tag == WAVE_FORMAT_IEEE_FLOAT {
        Some((true, bits))
    } else if tag == WAVE_FORMAT_PCM {
        Some((false, bits))
    } else if tag == WAVE_FORMAT_EXTENSIBLE {
        let float = subtype_ieee_float();
        let pcm = subtype_pcm();
        assert(sub.same(float) <==> is_wave_subtype(*sub, WAVE_FORMAT_IEEE_FLOAT));
        assert(sub.same(pcm) <==> is_wave_subtype(*sub, WAVE_FORMAT_PCM));
        if sub.matches(&float) {
            Some((true, bits))
        } else if sub.matches(&pcm) {
            Some((false, bits))
        } else {
            None
        }
    } else {
        None
    }
}

/// The buffer duration asked for when the caller gives no hint: 200 ms, in
/// units of 100 ns.
pub const DEFAULT_BUFFER_DURATION: i64 = 2_000_000;

/// The buffer duration for a hint, in units of 100 ns: the hint's length at
/// the mix rate, rounded down, but at least one unit and at most what the
/// type holds. A rate of zero counts as one.
pub open spec fn hinted_duration(frames: u32, rate: u32) -> int {
    crate::time::at_most(
        crate::time::at_least(
            frames * 10_000_000 / crate::time::at_least(rate as int, 1),
            1,
        ),
        i64::MAX as int,
    )
}

/// The buffer duration to ask `IAudioClient::Initialize` for.
pub fn buffer_duration(hint: Option<u32>, rate: u32) -> (duration: i64)
    ensures
        duration == match hint {
            Some(frames) => hinted_duration(frames, rate),
            None => DEFAULT_BUFFER_DURATION as int,
        },
{
    match hint {
        Some(frames) => {
            let divisor: u64 = if rate == 0 {
                1
            } else {
                rate as u64
            };
            let product: u64 = frames as u64 * 10_000_000;
            let ticks: u64 = product / divisor;
            proof {
                vstd::arithmetic::div_mod::lemma_div_is_ordered_by_denominator(
                    product as int,
                    1,
                    divisor as int,
                );
            }
            assert(ticks <= product);
            if ticks == 0 {
                1
            } else {
                ticks as i64
            }
        },
        None => DEFAULT_BUFFER_DURATION,
    }
}

/// The frames that a play cursor stands for: the cursor converted from its
/// own frequency to the stream's rate, rounded down.
pub open spec fn cursor_frames(position: u64, frequency: u64, sample_rate: u32) -> int {
    position * crate::time::at_least(sample_rate as int, 1) / crate::time::at_least(
        frequency as int,
        1,
    )
}

/// The frames written and not yet played.
pub open spec fn in_flight(
    frames_written: u64,
    position: u64,
    frequency: u64,
    sample_rate: u32,
) -> int {
    crate::time::at_least(frames_written - cursor_frames(position, frequency, sample_rate), 0)
}

/// The time that the frames in flight take, in nanoseconds.
pub open spec fn clock_latency(
    frames_written: u64,
    position: u64,
    frequency: u64,
    sample_rate: u32,
) -> int {
    crate::time::at_most(
        in_flight(frames_written, position, frequency, sample_rate) * 1_000_000_000
            / crate::time::at_least(sample_rate as int, 1),
        u64::MAX as int,
    )
}

/// Compute end-to-end output latency in nanoseconds from an
/// `IAudioClock::GetPosition` reading.
///
/// * `frames_written`: how many sample frames were given to WASAPI via
///   `IAudioRenderClient::ReleaseBuffer`.
/// * `position`: the value `GetPosition` just returned. Counts in
///   `frequency` units per second, advances as the device drains its
///   pipeline, and *includes* hardware-side delay.
/// * `frequency`: the cached `IAudioClock::GetFrequency` result; zero is
///   taken as one.
/// * `sample_rate`: the stream's rate, used to convert the position back
///   into frames. WASAPI does *not* require `frequency == sample_rate`.
pub fn compute_clock_latency_ns(
    frames_written: u64,
    position: u64,
    frequency: u64,
    sample_rate: u32,
) -> (ns: u64)
    ensures
        ns == clock_latency(frames_written, position, frequency, sample_rate),
{
    let freq: u128 = if frequency == 0 {
        1
    } else {
        frequency as u128
    };
    let rate: u128 = if sample_rate == 0 {
        1
    } else {
        sample_rate as u128
    };
    assert(position * rate <= 0xFFFF_FFFF_FFFF_FFFF * 0xFFFF_FFFF) by (nonlinear_arith)
        requires
            position <= 0xFFFF_FFFF_FFFF_FFFF,
            rate <= 0xFFFF_FFFF,
    ;
    let cursor: u128 = position as u128 * rate / freq;
    let played: u64 = if cursor > 0xFFFF_FFFF_FFFF_FFFF {
        u64::MAX
    } else {
        cursor as u64
    };
    let waiting: u64 = frames_written.saturating_sub(played);
    let ns: u128 = waiting as u128 * 1_000_000_000 / rate;
    if ns > 0xFFFF_FFFF_FFFF_FFFF {
        u64::MAX
    } else {
        ns as u64
    }
}

/// `GetStreamLatency`'s reading in nanoseconds; a negative one is none.
pub fn stream_latency_nanos(reference_time: i64) -> (ns: u64)
    requires
        reference_time * 100 <= u64::MAX,
    ensures
        ns == crate::time::at_least(reference_time as int, 0) * 100,
{
    if reference_time > 0 {
        reference_time as u64 * 100
    } else {
        0
    }
}

/// The live latency before the worker has published one.
pub const NO_LIVE_LATENCY: u64 = u64::MAX;

/// The driver-side estimate that stands in for a live reading: the stream
/// latency and the frames queued ahead.
pub open spec fn estimated_latency(stream_latency_ns: u64, padding: u64, sample_rate: u32) -> int {
    stream_latency_ns + crate::time::frames_nanos(padding as int, sample_rate as int)
}

/// Current output latency. Prefers the worker's live clock-derived figure,
/// which covers the full mix-engine, driver and endpoint pipeline; until
/// there is one, the static stream latency plus the queued frames.
pub fn latency(
    live: u64,
    stream_latency_ns: u64,
    padding: u64,
    sample_rate: u32,
) -> (latency: Duration)
    requires
        live == NO_LIVE_LATENCY ==> estimated_latency(stream_latency_ns, padding, sample_rate)
            <= u64::MAX,
    ensures
        latency == crate::time::duration_of_nanos(
            if live != NO_LIVE_LATENCY {
                live
            } else {
                estimated_latency(stream_latency_ns, padding, sample_rate) as u64
            },
        ),
{
    if live != NO_LIVE_LATENCY {
        nanos(live)
    } else {
        nanos(stream_latency_ns + frames_to_nanos(padding, sample_rate))
    }
}

/// A clock that has caught up with everything written, or is ahead of it,
/// means no latency at all.
pub proof fn law_clock_latency_is_zero_when_caught_up(
    frames_written: u64,
    position: u64,
    frequency: u64,
    sample_rate: u32,
)
    requires
        frames_written <= cursor_frames(position, frequency, sample_rate),
    ensures
        clock_latency(frames_written, position, frequency, sample_rate) == 0,
{
}

/// When the clock ticks at the sample rate, the latency is that of the
/// frames between what was written and the cursor.
pub proof fn law_clock_latency_at_the_sample_rate(
    frames_written: u64,
    position: u64,
    sample_rate: u32,
)
    requires
        sample_rate > 0,
        position <= frames_written,
    ensures
        cursor_frames(position, sample_rate as u64, sample_rate) == position,
        clock_latency(frames_written, position, sample_rate as u64, sample_rate)
            == crate::time::at_most(
            (frames_written - position) * 1_000_000_000 / (sample_rate as int),
            u64::MAX as int,
        ),
{
    vstd::arithmetic::div_mod::lemma_div_by_multiple(position as int, sample_rate as int);
}

/// The mix format of an endpoint, as far as it matters.
#[derive(Debug, Clone, Copy, PartialEq, Eq)]
pub struct MixFormat {
    pub channels: u16,
    pub sample_rate: u32,
    /// What [`inspect_format`] makes of the format block.
    pub layout: Option<(bool, u16)>,
}

/// What a call gave back.
#[derive(Debug, Clone, Copy, PartialEq, Eq)]
pub struct WasapiReply {
    /// The HRESULT; any value but `S_OK` counts as a failure.
    pub code: i32,
    /// Whether the object, block or handle asked for is there (not NULL).
    pub present: bool,
    /// A frame count or a clock frequency.
    pub count: u64,
    /// What `GetStreamLatency` reported.
    pub reference_time: i64,
    /// What `GetMixFormat` reported.
    pub mix: MixFormat,
}

impl WasapiReply {
    /// Whether the call succeeded and delivered what it was asked for.
    pub open spec fn delivered(self) -> bool {
        self.code == S_OK && self.present
    }
}

/// Where the activation of an endpoint stands.
#[derive(Debug, Clone, Copy, PartialEq, Eq, Structural)]
pub enum ActivateStage {
    CreateEnumerator,
    GetEndpoint,
    ReleaseEnumerator,
    Activate,
    ReleaseDevice,
    GetMixFormat,
    ReleaseClient,
    Ready,
    Failed,
}

/// The call that an activation or an opening makes next.
#[derive(Debug, Clone, Copy, PartialEq, Eq, Structural)]
pub enum WasapiCall {
    CreateEnumerator,
    GetDefaultAudioEndpoint,
    /// `IMMDeviceEnumerator::GetDevice` with the requested id.
    GetDevice,
    ReleaseEnumerator,
    Activate,
    ReleaseDevice,
    GetMixFormat,
    Initialize { duration: i64 },
    FreeMixFormat,
    CreateEvent,
    SetEventHandle,
    GetBufferSize,
    GetRenderClient,
    Start,
    GetStreamLatency,
    GetClock,
    GetFrequency,
    ReleaseClock,
    SpawnWorker,
    ReleaseRender,
    CloseEvent,
    ReleaseClient,
    Nothing,
}

/// The call that stopped an activation, and its HRESULT.
#[derive(Debug, Clone, Copy, PartialEq, Eq, Structural)]
pub struct ActivateFailure {
    pub call: WasapiCall,
    pub code: i32,
}

/// An activation in progress: enumerator, endpoint, audio client, and the
/// client's mix format.
#[derive(Debug, Clone, Copy, PartialEq, Eq)]
pub struct Activation {
    pub stage: ActivateStage,
    /// Whether the request names an endpoint; otherwise the default
    /// console endpoint is used.
    pub routed: bool,
    pub failure: Option<ActivateFailure>,
    pub mix: Option<MixFormat>,
}

/// What of COM and Win32 is held.
#[derive(Debug, Clone, Copy, PartialEq, Eq, Structural)]
pub struct WasapiHeld {
    pub enumerator: bool,
    pub device: bool,
    pub client: bool,
    pub mix: bool,
    pub event: bool,
    pub render: bool,
    pub clock: bool,
}

impl WasapiHeld {
    /// Nothing held.
    pub open spec fn nothing() -> WasapiHeld {
        WasapiHeld {
            enumerator: false,
            device: false,
            client: false,
            mix: false,
            event: false,
            render: false,
            clock: false,
        }
    }

    /// What is held once `call` has given `reply`.
    pub open spec fn after(self, call: WasapiCall, reply: WasapiReply) -> WasapiHeld {
        match call {
            WasapiCall::CreateEnumerator => WasapiHeld { enumerator: reply.delivered(), ..self },
            WasapiCall::GetDefaultAudioEndpoint => WasapiHeld {
                device: reply.delivered(),
                ..self
            },
            WasapiCall::GetDevice => WasapiHeld { device: reply.delivered(), ..self },
            WasapiCall::ReleaseEnumerator => WasapiHeld { enumerator: false, ..self },
            WasapiCall::Activate => WasapiHeld { client: reply.delivered(), ..self },
            WasapiCall::ReleaseDevice => WasapiHeld { device: false, ..self },
            WasapiCall::GetMixFormat => WasapiHeld { mix: reply.delivered(), ..self },
            WasapiCall::FreeMixFormat => WasapiHeld { mix: false, ..self },
            WasapiCall::CreateEvent => WasapiHeld { event: reply.present, ..self },
            WasapiCall::GetRenderClient => WasapiHeld { render: reply.delivered(), ..self },
            WasapiCall::GetClock => WasapiHeld { clock: reply.present, ..self },
            WasapiCall::ReleaseClock => WasapiHeld { clock: false, ..self },
            WasapiCall::ReleaseRender => WasapiHeld { render: false, ..self },
            WasapiCall::CloseEvent => WasapiHeld { event: false, ..self },
            WasapiCall::ReleaseClient => WasapiHeld { client: false, ..self },
            _ => self,
        }
    }

    /// Whether `call` may be made with this held: what it works on is
    /// there, and what it acquires is not yet.
    pub open spec fn allows(self, call: WasapiCall) -> bool {
        match call {
            WasapiCall::CreateEnumerator => self == Self::nothing(),
            WasapiCall::GetDefaultAudioEndpoint => self.enumerator && !self.device,
            WasapiCall::GetDevice => self.enumerator && !self.device,
            WasapiCall::ReleaseEnumerator => self.enumerator,
            WasapiCall::Activate => self.device && !self.client,
            WasapiCall::ReleaseDevice => self.device,
            WasapiCall::GetMixFormat => self.client && !self.mix,
            WasapiCall::Initialize { .. } => self.client && self.mix,
            WasapiCall::FreeMixFormat => self.mix,
            WasapiCall::CreateEvent => self.client && !self.event,
            WasapiCall::SetEventHandle => self.client && self.event,
            WasapiCall::GetBufferSize => self.client && self.event,
            WasapiCall::GetRenderClient => self.client && !self.render,
            WasapiCall::Start => self.client && self.event && self.render,
            WasapiCall::GetStreamLatency => self.client,
            WasapiCall::GetClock => self.client && !self.clock,
            WasapiCall::GetFrequency => self.clock,
            WasapiCall::ReleaseClock => self.clock,
            WasapiCall::SpawnWorker => self.client && self.event && self.render,
            WasapiCall::ReleaseRender => self.render,
            WasapiCall::CloseEvent => self.event,
            WasapiCall::ReleaseClient => self.client,
            WasapiCall::Nothing => true,
        }
    }
}

impl Activation {
    /// The activation for `req`, before any call.
    pub open spec fn started(req: StreamRequest) -> Activation {
        Activation {
            stage: ActivateStage::CreateEnumerator,
            routed: req.device_id() is Some,
            failure: None,
            mix: None,
        }
    }

    /// The call that the current stage makes.
    pub open spec fn due(self) -> WasapiCall {
        match self.stage {
            ActivateStage::CreateEnumerator => WasapiCall::CreateEnumerator,
            ActivateStage::GetEndpoint => if self.routed {
                WasapiCall::GetDevice
            } else {
                WasapiCall::GetDefaultAudioEndpoint
            },
            ActivateStage::ReleaseEnumerator => WasapiCall::ReleaseEnumerator,
            ActivateStage::Activate => WasapiCall::Activate,
            ActivateStage::ReleaseDevice => WasapiCall::ReleaseDevice,
            ActivateStage::GetMixFormat => WasapiCall::GetMixFormat,
            ActivateStage::ReleaseClient => WasapiCall::ReleaseClient,
            ActivateStage::Ready => WasapiCall::Nothing,
            ActivateStage::Failed => WasapiCall::Nothing,
        }
    }

    /// The failure that an undelivered reply at this stage means.
    pub open spec fn failure_of(self, reply: WasapiReply) -> Option<ActivateFailure> {
        if reply.delivered() {
            None
        } else {
            Some(ActivateFailure { call: self.due(), code: reply.code })
        }
    }

    /// The activation after the current stage's call gave `reply`. The
    /// enumerator is released once the endpoint has been asked for, and the
    /// endpoint once it has been activated, whatever came of it.
    pub open spec fn after(self, reply: WasapiReply) -> Activation {
        match self.stage {
            ActivateStage::CreateEnumerator => Activation {
                stage: if reply.delivered() {
                    ActivateStage::GetEndpoint
                } else {
                    ActivateStage::Failed
                },
                failure: self.failure_of(reply),
                ..self
            },
            ActivateStage::GetEndpoint => Activation {
                stage: ActivateStage::ReleaseEnumerator,
                failure: self.failure_of(reply),
                ..self
            },
            ActivateStage::ReleaseEnumerator => Activation {
                stage: if self.failure is None {
                    ActivateStage::Activate
                } else {
                    ActivateStage::Failed
                },
                ..self
            },
            ActivateStage::Activate => Activation {
                stage: ActivateStage::ReleaseDevice,
                failure: self.failure_of(reply),
                ..self
            },
            ActivateStage::ReleaseDevice => Activation {
                stage: if self.failure is None {
                    ActivateStage::GetMixFormat
                } else {
                    ActivateStage::Failed
                },
                ..self
            },
            ActivateStage::GetMixFormat => if reply.delivered() {
                Activation { stage: ActivateStage::Ready, mix: Some(reply.mix), ..self }
            } else {
                Activation {
                    stage: ActivateStage::ReleaseClient,
                    failure: self.failure_of(reply),
                    ..self
                }
            },
            ActivateStage::ReleaseClient => Activation { stage: ActivateStage::Failed, ..self },
            ActivateStage::Ready => self,
            ActivateStage::Failed => self,
        }
    }

    /// Begins the activation of the endpoint that `req` asks for.
    pub fn start(req: &StreamRequest) -> (activation: Activation)
        ensures
            activation == Activation::started(*req),
    {
        Activation {
            stage: ActivateStage::CreateEnumerator,
            routed: req.device.is_some(),
            failure: None,
            mix: None,
        }
    }

    /// The call to make next.
    pub fn call(&self) -> (call: WasapiCall)
        ensures
            call == self.due(),
    {
        match self.stage {
            ActivateStage::CreateEnumerator => WasapiCall::CreateEnumerator,
            ActivateStage::GetEndpoint => if self.routed {
                WasapiCall::GetDevice
            } else {
                WasapiCall::GetDefaultAudioEndpoint
            },
            ActivateStage::ReleaseEnumerator => WasapiCall::ReleaseEnumerator,
            ActivateStage::Activate => WasapiCall::Activate,
            ActivateStage::ReleaseDevice => WasapiCall::ReleaseDevice,
            ActivateStage::GetMixFormat => WasapiCall::GetMixFormat,
            ActivateStage::ReleaseClient => WasapiCall::ReleaseClient,
            ActivateStage::Ready => WasapiCall::Nothing,
            ActivateStage::Failed => WasapiCall::Nothing,
        }
    }

    /// Takes the reply to the current call.
    pub fn step(self, reply: WasapiReply) -> (next: Activation)
        ensures
            next == self.after(reply),
    {
        let delivered = reply.code == S_OK && reply.present;
        let failure = if delivered {
            None
        } else {
            Some(ActivateFailure { call: self.call(), code: reply.code })
        };
        let mut next = self;
        match self.stage {
            ActivateStage::CreateEnumerator => {
                next.failure = failure;
                next.stage = if delivered {
                    ActivateStage::GetEndpoint
                } else {
                    ActivateStage::Failed
                };
            },
            ActivateStage::GetEndpoint => {
                next.failure = failure;
                next.stage = ActivateStage::ReleaseEnumerator;
            },
            ActivateStage::ReleaseEnumerator => {
                next.stage = if self.failure.is_none() {
                    ActivateStage::Activate
                } else {
                    ActivateStage::Failed
                };
            },
            ActivateStage::Activate => {
                next.failure = failure;
                next.stage = ActivateStage::ReleaseDevice;
            },
            ActivateStage::ReleaseDevice => {
                next.stage = if self.failure.is_none() {
                    ActivateStage::GetMixFormat
                } else {
                    ActivateStage::Failed
                };
            },
            ActivateStage::GetMixFormat => {
                if delivered {
                    next.mix = Some(reply.mix);
                    next.stage = ActivateStage::Ready;
                } else {
                    next.failure = failure;
                    next.stage = ActivateStage::ReleaseClient;
                }
            },
            ActivateStage::ReleaseClient => {
                next.stage = ActivateStage::Failed;
            },
            ActivateStage::Ready | ActivateStage::Failed => {},
        }
        next
    }

    /// The activation after a sequence of replies.
    pub open spec fn after_all(req: StreamRequest, replies: Seq<WasapiReply>) -> Activation
        decreases replies.len(),
    {
        if replies.len() == 0 {
            Activation::started(req)
        } else {
            Self::after_all(req, replies.drop_last()).after(replies.last())
        }
    }

    /// What the calls made so far have left held.
    pub open spec fn held_after_all(req: StreamRequest, replies: Seq<WasapiReply>) -> WasapiHeld
        decreases replies.len(),
    {
        if replies.len() == 0 {
            WasapiHeld::nothing()
        } else {
            Self::held_after_all(req, replies.drop_last()).after(
                Self::after_all(req, replies.drop_last()).due(),
                replies.last(),
            )
        }
    }

    /// What an activation at this stage holds.
    pub open spec fn holds(self) -> WasapiHeld {
        match self.stage {
            ActivateStage::CreateEnumerator => WasapiHeld::nothing(),
            ActivateStage::GetEndpoint => WasapiHeld {
                enumerator: true,
                ..WasapiHeld::nothing()
            },
            ActivateStage::ReleaseEnumerator => WasapiHeld {
                enumerator: true,
                device: self.failure is None,
                ..WasapiHeld::nothing()
            },
            ActivateStage::Activate => WasapiHeld { device: true, ..WasapiHeld::nothing() },
            ActivateStage::ReleaseDevice => WasapiHeld {
                device: true,
                client: self.failure is None,
                ..WasapiHeld::nothing()
            },
            ActivateStage::GetMixFormat => WasapiHeld { client: true, ..WasapiHeld::nothing() },
            ActivateStage::ReleaseClient => WasapiHeld { client: true, ..WasapiHeld::nothing() },
            ActivateStage::Ready => WasapiHeld {
                client: true,
                mix: true,
                ..WasapiHeld::nothing()
            },
            ActivateStage::Failed => WasapiHeld::nothing(),
        }
    }
}

/// Whatever the system replies, a failed activation holds nothing, a
/// finished one holds the client and its mix format and nothing else, and
/// every call works on something that is held. An activation is over after
/// at most seven replies, and failed exactly when it has a failure to
/// report.
pub proof fn law_wasapi_activation_releases_what_it_holds(
    req: StreamRequest,
    replies: Seq<WasapiReply>,
)
    ensures
        ({
            let activation = Activation::after_all(req, replies);
            let held = Activation::held_after_all(req, replies);
            &&& held == activation.holds()
            &&& held.allows(activation.due())
            &&& activation.routed == (req.device_id() is Some)
            &&& activation.stage is Ready ==> activation.failure is None && activation.mix is Some
            &&& activation.stage is Failed ==> activation.failure is Some
            &&& replies.len() >= 7 ==> (activation.stage is Ready || activation.stage is Failed)
        }),
    decreases replies.len(),
{
    lemma_activation_progress(req, replies);
    if replies.len() > 0 {
        law_wasapi_activation_releases_what_it_holds(req, replies.drop_last());
    }
}

spec fn activation_remaining(stage: ActivateStage) -> int {
    match stage {
        ActivateStage::CreateEnumerator => 7,
        ActivateStage::GetEndpoint => 6,
        ActivateStage::ReleaseEnumerator => 5,
        ActivateStage::Activate => 4,
        ActivateStage::ReleaseDevice => 3,
        ActivateStage::GetMixFormat => 2,
        ActivateStage::ReleaseClient => 1,
        ActivateStage::Ready => 0,
        ActivateStage::Failed => 0,
    }
}

proof fn lemma_activation_progress(req: StreamRequest, replies: Seq<WasapiReply>)
    ensures
        ({
            let activation = Activation::after_all(req, replies);
            &&& activation_remaining(activation.stage) == 0 || activation_remaining(
                activation.stage,
            ) + replies.len() <= 7
            &&& match activation.stage {
                ActivateStage::ReleaseEnumerator => true,
                ActivateStage::ReleaseDevice => true,
                ActivateStage::ReleaseClient => activation.failure is Some,
                ActivateStage::Failed => activation.failure is Some,
                _ => activation.failure is None,
            }
        }),
    decreases replies.len(),
{
    if replies.len() > 0 {
        lemma_activation_progress(req, replies.drop_last());
    }
}

/// The name under which a call's failure is reported.
pub open spec fn failed_call(call: WasapiCall) -> Seq<char> {
    match call {
        WasapiCall::CreateEnumerator => "CoCreateInstance(MMDeviceEnumerator)"@,
        WasapiCall::GetDefaultAudioEndpoint => "GetDefaultAudioEndpoint"@,
        WasapiCall::GetDevice => "IMMDeviceEnumerator::GetDevice"@,
        WasapiCall::Activate => "IMMDevice::Activate"@,
        WasapiCall::GetMixFormat => "GetMixFormat"@,
        WasapiCall::Initialize { .. } => "IAudioClient::Initialize"@,
        WasapiCall::SetEventHandle => "SetEventHandle"@,
        WasapiCall::GetBufferSize => "GetBufferSize"@,
        WasapiCall::GetRenderClient => "GetService(IAudioRenderClient)"@,
        WasapiCall::Start => "IAudioClient::Start"@,
        _ => ""@,
    }
}

fn failed_call_name(call: WasapiCall) -> (name: &'static str)
    ensures
        name@ == failed_call(call),
{
    match call {
        WasapiCall::CreateEnumerator => "CoCreateInstance(MMDeviceEnumerator)",
        WasapiCall::GetDefaultAudioEndpoint => "GetDefaultAudioEndpoint",
        WasapiCall::GetDevice => "IMMDeviceEnumerator::GetDevice",
        WasapiCall::Activate => "IMMDevice::Activate",
        WasapiCall::GetMixFormat => "GetMixFormat",
        WasapiCall::Initialize { .. } => "IAudioClient::Initialize",
        WasapiCall::SetEventHandle => "SetEventHandle",
        WasapiCall::GetBufferSize => "GetBufferSize",
        WasapiCall::GetRenderClient => "GetService(IAudioRenderClient)",
        WasapiCall::Start => "IAudioClient::Start",
        _ => "",
    }
}

/// The report of a call that returned this HRESULT.
pub open spec fn hresult_report(call: WasapiCall, code: i32) -> Seq<char> {
    failed_call(call) + " HRESULT="@ + crate::text::status_hex(code)
}

fn report_hresult(call: WasapiCall, code: i32) -> (report: String)
    ensures
        report@ == hresult_report(call, code),
{
    let mut out = String::new();
    out.append(failed_call_name(call));
    out.append(" HRESULT=");
    push_status_hex(&mut out, code);
    assert(out@ =~= hresult_report(call, code));
    out
}

/// The error a failed activation is reported with.
pub fn activation_error(failure: ActivateFailure) -> (error: Error)
    ensures
        error.is_device_open("wasapi"@, hresult_report(failure.call, failure.code)),
{
    Error::DeviceOpen { backend: "wasapi", detail: report_hresult(failure.call, failure.code) }
}

/// Where the opening of an activated client stands.
#[derive(Debug, Clone, Copy, PartialEq, Eq, Structural)]
pub enum OpenStage {
    Initialize,
    FreeMixFormat,
    CreateEvent,
    SetEventHandle,
    GetBufferSize,
    GetRenderClient,
    Start,
    GetStreamLatency,
    GetClock,
    GetFrequency,
    ReleaseClock,
    Spawn,
    Running,
    ReleaseRender,
    CloseEvent,
    ReleaseClient,
    Failed,
    /// The worker could not be started. The error goes to the caller as it
    /// is; nothing more is called.
    SpawnFailed,
}

/// Why an opening failed.
#[derive(Debug, Clone, Copy, PartialEq, Eq, Structural)]
pub enum OpenFailure {
    /// The mix format is neither float nor PCM.
    NoLayout,
    /// The mix format is one, but not f32 or s16.
    BadLayout { float: bool, bits: u16 },
    /// This call returned this HRESULT.
    Call { call: WasapiCall, code: i32 },
    /// `CreateEventA` returned NULL.
    NoEvent,
    /// The worker thread could not be started.
    Spawn,
}

/// An opening in progress, from an activated client to a running worker.
#[derive(Debug, Clone, Copy, PartialEq, Eq)]
pub struct WasapiOpen {
    pub stage: OpenStage,
    pub failure: Option<OpenFailure>,
    pub mix: MixFormat,
    /// The buffer duration to ask for, in units of 100 ns.
    pub duration: i64,
    /// Whether the device takes f32 samples; otherwise it takes s16.
    pub float: bool,
    pub buffer_frames: u64,
    /// What `GetStreamLatency` reported, in units of 100 ns.
    pub stream_latency: i64,
    /// The frequency of the stream's clock; zero when it has none.
    pub clock_frequency: u64,
}

/// Why a mix format cannot be played, if it cannot: only 32-bit float and
/// 16-bit PCM are.
pub open spec fn layout_failure(layout: Option<(bool, u16)>) -> Option<OpenFailure> {
    match layout {
        None => Some(OpenFailure::NoLayout),
        Some((float, bits)) => if float && bits == 32 || !float && bits == 16 {
            None
        } else {
            Some(OpenFailure::BadLayout { float, bits })
        },
    }
}

impl WasapiOpen {
    /// The opening of an activated client with this mix format, before any
    /// call.
    pub open spec fn started(hint: Option<u32>, mix: MixFormat) -> WasapiOpen {
        WasapiOpen {
            stage: if layout_failure(mix.layout) is None {
                OpenStage::Initialize
            } else {
                OpenStage::FreeMixFormat
            },
            failure: layout_failure(mix.layout),
            mix,
            duration: match hint {
                Some(frames) => hinted_duration(frames, mix.sample_rate) as i64,
                None => DEFAULT_BUFFER_DURATION,
            },
            float: mix.layout == Some((true, 32u16)),
            buffer_frames: 0,
            stream_latency: 0,
            clock_frequency: 0,
        }
    }

    /// The call that the current stage makes.
    pub open spec fn due(self) -> WasapiCall {
        match self.stage {
            OpenStage::Initialize => WasapiCall::Initialize { duration: self.duration },
            OpenStage::FreeMixFormat => WasapiCall::FreeMixFormat,
            OpenStage::CreateEvent => WasapiCall::CreateEvent,
            OpenStage::SetEventHandle => WasapiCall::SetEventHandle,
            OpenStage::GetBufferSize => WasapiCall::GetBufferSize,
            OpenStage::GetRenderClient => WasapiCall::GetRenderClient,
            OpenStage::Start => WasapiCall::Start,
            OpenStage::GetStreamLatency => WasapiCall::GetStreamLatency,
            OpenStage::GetClock => WasapiCall::GetClock,
            OpenStage::GetFrequency => WasapiCall::GetFrequency,
            OpenStage::ReleaseClock => WasapiCall::ReleaseClock,
            OpenStage::Spawn => WasapiCall::SpawnWorker,
            OpenStage::ReleaseRender => WasapiCall::ReleaseRender,
            OpenStage::CloseEvent => WasapiCall::CloseEvent,
            OpenStage::ReleaseClient => WasapiCall::ReleaseClient,
            OpenStage::Running => WasapiCall::Nothing,
            OpenStage::Failed => WasapiCall::Nothing,
            OpenStage::SpawnFailed => WasapiCall::Nothing,
        }
    }

    /// The opening gone to `stage` because the current call failed.
    pub open spec fn failed_to(self, stage: OpenStage, reply: WasapiReply) -> WasapiOpen {
        WasapiOpen {
            stage,
            failure: Some(OpenFailure::Call { call: self.due(), code: reply.code }),
            ..self
        }
    }

    /// The opening after the current stage's call gave `reply`. A failure
    /// releases what is held, newest first; the stream latency and the
    /// clock are optional.
    pub open spec fn after(self, reply: WasapiReply) -> WasapiOpen {
        match self.stage {
            OpenStage::Initialize => if reply.code == S_OK {
                WasapiOpen { stage: OpenStage::FreeMixFormat, ..self }
            } else {
                self.failed_to(OpenStage::FreeMixFormat, reply)
            },
            OpenStage::FreeMixFormat => WasapiOpen {
                stage: if self.failure is None {
                    OpenStage::CreateEvent
                } else {
                    OpenStage::ReleaseClient
                },
                ..self
            },
            OpenStage::CreateEvent => if reply.present {
                WasapiOpen { stage: OpenStage::SetEventHandle, ..self }
            } else {
                WasapiOpen {
                    stage: OpenStage::ReleaseClient,
                    failure: Some(OpenFailure::NoEvent),
                    ..self
                }
            },
            OpenStage::SetEventHandle => if reply.code == S_OK {
                WasapiOpen { stage: OpenStage::GetBufferSize, ..self }
            } else {
                self.failed_to(OpenStage::CloseEvent, reply)
            },
            OpenStage::GetBufferSize => if reply.code == S_OK {
                WasapiOpen {
                    stage: OpenStage::GetRenderClient,
                    buffer_frames: reply.count,
                    ..self
                }
            } else {
                self.failed_to(OpenStage::CloseEvent, reply)
            },
            OpenStage::GetRenderClient => if reply.delivered() {
                WasapiOpen { stage: OpenStage::Start, ..self }
            } else {
                self.failed_to(OpenStage::CloseEvent, reply)
            },
            OpenStage::Start => if reply.code == S_OK {
                WasapiOpen { stage: OpenStage::GetStreamLatency, ..self }
            } else {
                self.failed_to(OpenStage::ReleaseRender, reply)
            },
            OpenStage::GetStreamLatency => WasapiOpen {
                stage: OpenStage::GetClock,
                stream_latency: reply.reference_time,
                ..self
            },
            OpenStage::GetClock => WasapiOpen {
                stage: if reply.delivered() {
                    OpenStage::GetFrequency
                } else if reply.present {
                    OpenStage::ReleaseClock
                } else {
                    OpenStage::Spawn
                },
                ..self
            },
            OpenStage::GetFrequency => if reply.code == S_OK && reply.count != 0 {
                WasapiOpen { stage: OpenStage::Spawn, clock_frequency: reply.count, ..self }
            } else {
                WasapiOpen { stage: OpenStage::ReleaseClock, ..self }
            },
            OpenStage::ReleaseClock => WasapiOpen { stage: OpenStage::Spawn, ..self },
            OpenStage::Spawn => if reply.code == S_OK {
                WasapiOpen { stage: OpenStage::Running, ..self }
            } else {
                WasapiOpen {
                    stage: OpenStage::SpawnFailed,
                    failure: Some(OpenFailure::Spawn),
                    ..self
                }
            },
            OpenStage::ReleaseRender => WasapiOpen { stage: OpenStage::CloseEvent, ..self },
            OpenStage::CloseEvent => WasapiOpen { stage: OpenStage::ReleaseClient, ..self },
            OpenStage::ReleaseClient => WasapiOpen { stage: OpenStage::Failed, ..self },
            OpenStage::Running => self,
            OpenStage::Failed => self,
            OpenStage::SpawnFailed => self,
        }
    }

    /// Begins the opening of an activated client.
    pub fn start(hint: Option<u32>, mix: MixFormat) -> (opening: WasapiOpen)
        ensures
            opening == WasapiOpen::started(hint, mix),
    {
        let (failure, float) = match mix.layout {
            None => (Some(OpenFailure::NoLayout), false),
            Some((float, bits)) => {
                let is_f32 = float && bits == 32;
                let is_s16 = !float && bits == 16;
                if is_f32 || is_s16 {
                    (None, is_f32)
                } else {
                    (Some(OpenFailure::BadLayout { float, bits }), false)
                }
            },
        };
        WasapiOpen {
            stage: if failure.is_none() {
                OpenStage::Initialize
            } else {
                OpenStage::FreeMixFormat
            },
            failure,
            mix,
            duration: buffer_duration(hint, mix.sample_rate),
            float,
            buffer_frames: 0,
            stream_latency: 0,
            clock_frequency: 0,
        }
    }

    /// The call to make next.
    pub fn call(&self) -> (call: WasapiCall)
        ensures
            call == self.due(),
    {
        match self.stage {
            OpenStage::Initialize => WasapiCall::Initialize { duration: self.duration },
            OpenStage::FreeMixFormat => WasapiCall::FreeMixFormat,
            OpenStage::CreateEvent => WasapiCall::CreateEvent,
            OpenStage::SetEventHandle => WasapiCall::SetEventHandle,
            OpenStage::GetBufferSize => WasapiCall::GetBufferSize,
            OpenStage::GetRenderClient => WasapiCall::GetRenderClient,
            OpenStage::Start => WasapiCall::Start,
            OpenStage::GetStreamLatency => WasapiCall::GetStreamLatency,
            OpenStage::GetClock => WasapiCall::GetClock,
            OpenStage::GetFrequency => WasapiCall::GetFrequency,
            OpenStage::ReleaseClock => WasapiCall::ReleaseClock,
            OpenStage::Spawn => WasapiCall::SpawnWorker,
            OpenStage::ReleaseRender => WasapiCall::ReleaseRender,
            OpenStage::CloseEvent => WasapiCall::CloseEvent,
            OpenStage::ReleaseClient => WasapiCall::ReleaseClient,
            OpenStage::Running | OpenStage::Failed | OpenStage::SpawnFailed => WasapiCall::Nothing,
        }
    }

    /// Takes the reply to the current call.
    pub fn step(self, reply: WasapiReply) -> (next: WasapiOpen)
        ensures
            next == self.after(reply),
    {
        let ok = reply.code == S_OK;
        let failure = Some(OpenFailure::Call { call: self.call(), code: reply.code });
        let mut next = self;
        match self.stage {
            OpenStage::Initialize => {
                next.stage = OpenStage::FreeMixFormat;
                if !ok {
                    next.failure = failure;
                }
            },
            OpenStage::FreeMixFormat => {
                next.stage = if self.failure.is_none() {
                    OpenStage::CreateEvent
                } else {
                    OpenStage::ReleaseClient
                };
            },
            OpenStage::CreateEvent => {
                if reply.present {
                    next.stage = OpenStage::SetEventHandle;
                } else {
                    next.stage = OpenStage::ReleaseClient;
                    next.failure = Some(OpenFailure::NoEvent);
                }
            },
            OpenStage::SetEventHandle => {
                if ok {
                    next.stage = OpenStage::GetBufferSize;
                } else {
                    next.stage = OpenStage::CloseEvent;
                    next.failure = failure;
                }
            },
            OpenStage::GetBufferSize => {
                if ok {
                    next.stage = OpenStage::GetRenderClient;
                    next.buffer_frames = reply.count;
                } else {
                    next.stage = OpenStage::CloseEvent;
                    next.failure = failure;
                }
            },
            OpenStage::GetRenderClient => {
                if ok && reply.present {
                    next.stage = OpenStage::Start;
                } else {
                    next.stage = OpenStage::CloseEvent;
                    next.failure = failure;
                }
            },
            OpenStage::Start => {
                if ok {
                    next.stage = OpenStage::GetStreamLatency;
                } else {
                    next.stage = OpenStage::ReleaseRender;
                    next.failure = failure;
                }
            },
            OpenStage::GetStreamLatency => {
                next.stage = OpenStage::GetClock;
                next.stream_latency = reply.reference_time;
            },
            OpenStage::GetClock => {
                next.stage = if !reply.present {
                    OpenStage::Spawn
                } else if ok {
                    OpenStage::GetFrequency
                } else {
                    OpenStage::ReleaseClock
                };
            },
            OpenStage::GetFrequency => {
                if ok && reply.count != 0 {
                    next.stage = OpenStage::Spawn;
                    next.clock_frequency = reply.count;
                } else {
                    next.stage = OpenStage::ReleaseClock;
                }
            },
            OpenStage::ReleaseClock => {
                next.stage = OpenStage::Spawn;
            },
            OpenStage::Spawn => {
                if ok {
                    next.stage = OpenStage::Running;
                } else {
                    next.stage = OpenStage::SpawnFailed;
                    next.failure = Some(OpenFailure::Spawn);
                }
            },
            OpenStage::ReleaseRender => {
                next.stage = OpenStage::CloseEvent;
            },
            OpenStage::CloseEvent => {
                next.stage = OpenStage::ReleaseClient;
            },
            OpenStage::ReleaseClient => {
                next.stage = OpenStage::Failed;
            },
            OpenStage::Running | OpenStage::Failed | OpenStage::SpawnFailed => {},
        }
        next
    }

    /// The format the stream runs at: the mix format's.
    pub fn format(&self) -> (format: StreamFormat)
        ensures
            format == (StreamFormat {
                sample_rate: self.mix.sample_rate,
                channels: self.mix.channels,
                format: SampleFormat::F32,
            }),
    {
        mix_stream_format(&self.mix)
    }

    /// The opening after a sequence of replies.
    pub open spec fn after_all(
        hint: Option<u32>,
        mix: MixFormat,
        replies: Seq<WasapiReply>,
    ) -> WasapiOpen
        decreases replies.len(),
    {
        if replies.len() == 0 {
            WasapiOpen::started(hint, mix)
        } else {
            Self::after_all(hint, mix, replies.drop_last()).after(replies.last())
        }
    }

    /// What is held after a sequence of replies; an opening begins with
    /// what the activation left.
    pub open spec fn held_after_all(
        hint: Option<u32>,
        mix: MixFormat,
        replies: Seq<WasapiReply>,
    ) -> WasapiHeld
        decreases replies.len(),
    {
        if replies.len() == 0 {
            WasapiHeld { client: true, mix: true, ..WasapiHeld::nothing() }
        } else {
            Self::held_after_all(hint, mix, replies.drop_last()).after(
                Self::after_all(hint, mix, replies.drop_last()).due(),
                replies.last(),
            )
        }
    }

    /// What an opening at this stage holds.
    pub open spec fn holds(self) -> WasapiHeld {
        let client = WasapiHeld { client: true, ..WasapiHeld::nothing() };
        let with_event = WasapiHeld { event: true, ..client };
        let with_render = WasapiHeld { render: true, ..with_event };
        match self.stage {
            OpenStage::Initialize => WasapiHeld { mix: true, ..client },
            OpenStage::FreeMixFormat => WasapiHeld { mix: true, ..client },
            OpenStage::CreateEvent => client,
            OpenStage::SetEventHandle => with_event,
            OpenStage::GetBufferSize => with_event,
            OpenStage::GetRenderClient => with_event,
            OpenStage::Start => with_render,
            OpenStage::GetStreamLatency => with_render,
            OpenStage::GetClock => with_render,
            OpenStage::GetFrequency => WasapiHeld { clock: true, ..with_render },
            OpenStage::ReleaseClock => WasapiHeld { clock: true, ..with_render },
            OpenStage::Spawn => WasapiHeld { clock: self.clock_frequency != 0, ..with_render },
            OpenStage::Running => WasapiHeld { clock: self.clock_frequency != 0, ..with_render },
            OpenStage::SpawnFailed => WasapiHeld {
                clock: self.clock_frequency != 0,
                ..with_render
            },
            OpenStage::ReleaseRender => with_render,
            OpenStage::CloseEvent => with_event,
            OpenStage::ReleaseClient => client,
            OpenStage::Failed => WasapiHeld::nothing(),
        }
    }

    /// Whether the opening is over, one way or the other.
    pub open spec fn settled(self) -> bool {
        self.stage is Running || self.stage is Failed || self.stage is SpawnFailed
    }
}

/// The format an unconstrained request would get: the mix format's rate and
/// channels.
pub fn mix_stream_format(mix: &MixFormat) -> (format: StreamFormat)
    ensures
        format == (StreamFormat {
            sample_rate: mix.sample_rate,
            channels: mix.channels,
            format: SampleFormat::F32,
        }),
{
    StreamFormat {
        sample_rate: mix.sample_rate,
        channels: mix.channels,
        format: SampleFormat::F32,
    }
}

spec fn open_remaining(stage: OpenStage) -> int {
    match stage {
        OpenStage::Initialize => 12,
        OpenStage::FreeMixFormat => 11,
        OpenStage::CreateEvent => 10,
        OpenStage::SetEventHandle => 9,
        OpenStage::GetBufferSize => 8,
        OpenStage::GetRenderClient => 7,
        OpenStage::Start => 6,
        OpenStage::GetStreamLatency => 5,
        OpenStage::GetClock => 4,
        OpenStage::GetFrequency => 3,
        OpenStage::ReleaseClock => 2,
        OpenStage::Spawn => 1,
        OpenStage::ReleaseRender => 3,
        OpenStage::CloseEvent => 2,
        OpenStage::ReleaseClient => 1,
        OpenStage::Running => 0,
        OpenStage::Failed => 0,
        OpenStage::SpawnFailed => 0,
    }
}

/// Whatever the system replies, the opening holds exactly what its stage
/// says and every call works on something that is held: a failed opening
/// has released everything, a running one holds the client, the event, the
/// render service, and a clock exactly when it has a frequency for it. (A
/// worker that cannot be started is the one failure that releases nothing.)
/// The opening is over after at most twelve replies, keeps the mix format it
/// began with, and runs exactly when nothing has failed.
pub proof fn law_wasapi_open_releases_what_it_holds(
    hint: Option<u32>,
    mix: MixFormat,
    replies: Seq<WasapiReply>,
)
    ensures
        ({
            let opening = WasapiOpen::after_all(hint, mix, replies);
            let held = WasapiOpen::held_after_all(hint, mix, replies);
            &&& held == opening.holds()
            &&& held.allows(opening.due())
            &&& opening.mix == mix
            &&& opening.stage is Failed ==> opening.failure is Some && held
                == WasapiHeld::nothing()
            &&& opening.stage is SpawnFailed ==> opening.failure == Some(OpenFailure::Spawn)
            &&& opening.stage is Running ==> opening.failure is None
            &&& replies.len() >= 12 ==> opening.settled()
        }),
    decreases replies.len(),
{
    lemma_open_progress(hint, mix, replies);
    if replies.len() > 0 {
        law_wasapi_open_releases_what_it_holds(hint, mix, replies.drop_last());
        lemma_open_progress(hint, mix, replies.drop_last());
    }
}

proof fn lemma_open_progress(hint: Option<u32>, mix: MixFormat, replies: Seq<WasapiReply>)
    ensures
        ({
            let opening = WasapiOpen::after_all(hint, mix, replies);
            &&& opening.settled() || open_remaining(opening.stage) + replies.len() <= 12
            &&& match opening.stage {
                OpenStage::FreeMixFormat => true,
                OpenStage::ReleaseRender => opening.failure is Some,
                OpenStage::CloseEvent => opening.failure is Some,
                OpenStage::ReleaseClient => opening.failure is Some,
                OpenStage::Failed => opening.failure is Some,
                OpenStage::SpawnFailed => opening.failure == Some(OpenFailure::Spawn),
                _ => opening.failure is None,
            }
            &&& match opening.stage {
                OpenStage::Spawn => true,
                OpenStage::Running => true,
                OpenStage::SpawnFailed => true,
                _ => opening.clock_frequency == 0,
            }
        }),
    decreases replies.len(),
{
    if replies.len() > 0 {
        lemma_open_progress(hint, mix, replies.drop_last());
    }
}

/// A stream runs only on a mix format that the worker can feed, and then
/// feeds it what it takes.
pub proof fn law_wasapi_runs_only_playable_formats(
    hint: Option<u32>,
    mix: MixFormat,
    replies: Seq<WasapiReply>,
)
    ensures
        WasapiOpen::after_all(hint, mix, replies).stage is Running ==> mix.layout == Some(
            (true, 32u16),
        ) || mix.layout == Some((false, 16u16)),
        WasapiOpen::after_all(hint, mix, replies).float == (mix.layout == Some((true, 32u16))),
    decreases replies.len(),
{
    lemma_open_progress(hint, mix, replies);
    lemma_bad_layout_stays(hint, mix, replies);
    if replies.len() > 0 {
        law_wasapi_runs_only_playable_formats(hint, mix, replies.drop_last());
    }
}

proof fn lemma_bad_layout_stays(hint: Option<u32>, mix: MixFormat, replies: Seq<WasapiReply>)
    ensures
        layout_failure(mix.layout) is Some ==> {
            let opening = WasapiOpen::after_all(hint, mix, replies);
            &&& opening.failure == layout_failure(mix.layout)
            &&& opening.stage is FreeMixFormat || opening.stage is ReleaseClient || opening.stage
                is Failed
        },
    decreases replies.len(),
{
    if replies.len() > 0 {
        lemma_bad_layout_stays(hint, mix, replies.drop_last());
    }
}

/// The report of a mix format that cannot be played.
pub open spec fn layout_report(float: bool, bits: u16) -> Seq<char> {
    "mix format bits_per_sample="@ + crate::text::decimal(bits as nat) + " is_float="@ + (if float {
        "true"@
    } else {
        "false"@
    })
}

/// The error a failed opening is reported with. `spawn_error` is what the
/// system says of a worker thread that could not be started.
pub fn open_error(failure: OpenFailure, spawn_error: &str) -> (error: Error)
    ensures
        match failure {
            OpenFailure::NoLayout => error.is_unsupported_format(
                "wasapi"@,
                "mix format is neither IEEE_FLOAT nor PCM"@,
            ),
            OpenFailure::BadLayout { float, bits } => error.is_unsupported_format(
                "wasapi"@,
                layout_report(float, bits),
            ),
            OpenFailure::Call { call, code } => error.is_device_open(
                "wasapi"@,
                hresult_report(call, code),
            ),
            OpenFailure::NoEvent => error.is_device_open("wasapi"@, "CreateEventA returned NULL"@),
            OpenFailure::Spawn => error.is_runtime("wasapi"@, "spawn worker: "@ + spawn_error@),
        },
{
    match failure {
        OpenFailure::NoLayout => Error::UnsupportedFormat {
            backend: "wasapi",
            detail: "mix format is neither IEEE_FLOAT nor PCM".to_owned(),
        },
        OpenFailure::BadLayout { float, bits } => {
            let mut detail = String::new();
            detail.append("mix format bits_per_sample=");
            push_decimal(&mut detail, bits as u64);
            detail.append(" is_float=");
            detail.append(
                if float {
                    "true"
                } else {
                    "false"
                },
            );
            assert(detail@ =~= layout_report(float, bits));
            Error::UnsupportedFormat { backend: "wasapi", detail }
        },
        OpenFailure::Call { call, code } => Error::DeviceOpen {
            backend: "wasapi",
            detail: report_hresult(call, code),
        },
        OpenFailure::NoEvent => Error::DeviceOpen {
            backend: "wasapi",
            detail: "CreateEventA returned NULL".to_owned(),
        },
        OpenFailure::Spawn => {
            let mut detail = String::new();
            detail.append("spawn worker: ");
            detail.append(spawn_error);
            assert(detail@ =~= "spawn worker: "@ + spawn_error@);
            Error::Runtime { backend: "wasapi", detail }
        },
    }
}

/// The worker's side of a running stream.
#[derive(Debug, Clone, Copy, PartialEq, Eq, Structural)]
pub struct WasapiWorker {
    pub buffer_frames: u32,
    pub sample_rate: u32,
    /// The frequency of the stream's clock; zero when it has none.
    pub clock_frequency: u64,
    /// Frames rendered and handed over while not paused; the frame clock.
    pub frames_played: u64,
    /// All frames handed over, silence included.
    pub frames_written: u64,
    /// The latest `GetCurrentPadding` reading, in frames.
    pub padding_frames: u64,
    /// The frames being rendered in this turn.
    pub available: u32,
    /// The latest clock-derived latency, or [`NO_LIVE_LATENCY`].
    pub clock_latency_ns: u64,
}

/// What the worker is told.
#[derive(Debug, Clone, Copy, PartialEq, Eq, Structural)]
pub enum WasapiEvent {
    /// The stop flag, read at the top of the loop.
    StopFlag(bool),
    /// What waiting for the buffer event returned.
    Waited(u32),
    /// What `GetCurrentPadding` returned and reported.
    Padding { code: i32, frames: u32 },
    /// What `GetBuffer` returned, and whether it delivered a buffer.
    Buffer { code: i32, present: bool },
    /// The pause flag, read before the buffer is filled.
    PauseFlag(bool),
    /// What `ReleaseBuffer` returned, and the pause flag read after it.
    Released { code: i32, paused: bool },
    /// What `IAudioClock::GetPosition` returned and reported.
    Position { code: i32, position: u64 },
}

/// What the worker does next.
#[derive(Debug, Clone, Copy, PartialEq, Eq, Structural)]
pub enum WasapiTask {
    /// Read the stop flag.
    ReadStopFlag,
    /// Wait for the buffer event, at most 100 ms so that a stop is noticed.
    Wait,
    /// Read `GetCurrentPadding`.
    ReadPadding,
    /// Get a buffer of this many frames.
    GetBuffer(u32),
    /// Read the pause flag.
    ReadPauseFlag,
    /// Fill this many frames with silence and release the buffer.
    Silence(u32),
    /// Run the callback for this many frames, convert if the device needs
    /// it, and release the buffer.
    Render(u32, CallbackInfo),
    /// Read `IAudioClock::GetPosition`.
    ReadPosition,
    /// Leave the loop.
    Exit,
}

impl WasapiWorker {
    /// The room that a padding reading leaves in the buffer.
    pub open spec fn room(self, padding: u32) -> u32 {
        crate::time::at_least(self.buffer_frames - padding, 0) as u32
    }

    /// The worker after an event. The clock advances by the frames handed
    /// over, but not while paused; the frames written, which the device
    /// plays out, advance either way.
    pub open spec fn after(self, event: WasapiEvent) -> WasapiWorker {
        match event {
            WasapiEvent::Padding { code, frames } if code == S_OK => WasapiWorker {
                padding_frames: frames as u64,
                available: self.room(frames),
                ..self
            },
            WasapiEvent::Released { code, paused } if code == S_OK => WasapiWorker {
                frames_played: if paused {
                    self.frames_played
                } else {
                    ((self.frames_played + self.available) % 0x1_0000_0000_0000_0000) as u64
                },
                frames_written: ((self.frames_written + self.available)
                    % 0x1_0000_0000_0000_0000) as u64,
                ..self
            },
            WasapiEvent::Position { code, position } if code == S_OK => WasapiWorker {
                clock_latency_ns: clock_latency(
                    self.frames_written,
                    position,
                    self.clock_frequency,
                    self.sample_rate,
                ) as u64,
                ..self
            },
            _ => self,
        }
    }

    /// What the worker does next when an event finds it in this state.
    pub open spec fn answer(self, event: WasapiEvent) -> WasapiTask {
        match event {
            WasapiEvent::StopFlag(stop) => if stop {
                WasapiTask::Exit
            } else {
                WasapiTask::Wait
            },
            WasapiEvent::Waited(w) => if w == WAIT_OBJECT_0 || w == WAIT_TIMEOUT {
                WasapiTask::ReadPadding
            } else {
                WasapiTask::Exit
            },
            WasapiEvent::Padding { code, frames } => if code != S_OK {
                WasapiTask::Exit
            } else if self.room(frames) == 0 {
                WasapiTask::ReadStopFlag
            } else {
                WasapiTask::GetBuffer(self.room(frames))
            },
            WasapiEvent::Buffer { code, present } => if code == S_OK && present {
                WasapiTask::ReadPauseFlag
            } else {
                WasapiTask::Exit
            },
            WasapiEvent::PauseFlag(paused) => if paused {
                WasapiTask::Silence(self.available)
            } else {
                WasapiTask::Render(
                    self.available,
                    CallbackInfo { frames_played: self.frames_played },
                )
            },
            WasapiEvent::Released { code, .. } => if code != S_OK {
                WasapiTask::Exit
            } else if self.clock_frequency != 0 {
                WasapiTask::ReadPosition
            } else {
                WasapiTask::ReadStopFlag
            },
            WasapiEvent::Position { .. } => WasapiTask::ReadStopFlag,
        }
    }

    /// A worker for a running stream, its clock at zero and no latency
    /// published yet.
    pub fn new(buffer_frames: u32, sample_rate: u32, clock_frequency: u64) -> (worker: WasapiWorker)
        ensures
            worker == (WasapiWorker {
                buffer_frames,
                sample_rate,
                clock_frequency,
                frames_played: 0,
                frames_written: 0,
                padding_frames: 0,
                available: 0,
                clock_latency_ns: NO_LIVE_LATENCY,
            }),
    {
        WasapiWorker {
            buffer_frames,
            sample_rate,
            clock_frequency,
            frames_played: 0,
            frames_written: 0,
            padding_frames: 0,
            available: 0,
            clock_latency_ns: NO_LIVE_LATENCY,
        }
    }

    /// One turn of the worker.
    pub fn step(&mut self, event: WasapiEvent) -> (task: WasapiTask)
        ensures
            *final(self) == old(self).after(event),
            task == old(self).answer(event),
    {
        match event {
            WasapiEvent::StopFlag(stop) => {
                if stop {
                    WasapiTask::Exit
                } else {
                    WasapiTask::Wait
                }
            },
            WasapiEvent::Waited(w) => {
                if w != WAIT_OBJECT_0 && w != WAIT_TIMEOUT {
                    WasapiTask::Exit
                } else {
                    WasapiTask::ReadPadding
                }
            },
            WasapiEvent::Padding { code, frames } => {
                if code != S_OK {
                    return WasapiTask::Exit;
                }
                self.padding_frames = frames as u64;
                self.available = self.buffer_frames.saturating_sub(frames);
                if self.available == 0 {
                    WasapiTask::ReadStopFlag
                } else {
                    WasapiTask::GetBuffer(self.available)
                }
            },
            WasapiEvent::Buffer { code, present } => {
                if code != S_OK || !present {
                    WasapiTask::Exit
                } else {
                    WasapiTask::ReadPauseFlag
                }
            },
            WasapiEvent::PauseFlag(paused) => {
                if paused {
                    WasapiTask::Silence(self.available)
                } else {
                    WasapiTask::Render(
                        self.available,
                        CallbackInfo { frames_played: self.frames_played },
                    )
                }
            },
            WasapiEvent::Released { code, paused } => {
                if code != S_OK {
                    return WasapiTask::Exit;
                }
                self.frames_written = self.frames_written.wrapping_add(self.available as u64);
                if !paused {
                    self.frames_played = self.frames_played.wrapping_add(self.available as u64);
                }
                if self.clock_frequency != 0 {
                    WasapiTask::ReadPosition
                } else {
                    WasapiTask::ReadStopFlag
                }
            },
            WasapiEvent::Position { code, position } => {
                if code == S_OK {
                    self.clock_latency_ns = compute_clock_latency_ns(
                        self.frames_written,
                        position,
                        self.clock_frequency,
                        self.sample_rate,
                    );
                }
                WasapiTask::ReadStopFlag
            },
        }
    }

    /// The worker after a sequence of events.
    pub open spec fn after_all(self, events: Seq<WasapiEvent>) -> WasapiWorker
        decreases events.len(),
    {
        if events.len() == 0 {
            self
        } else {
            self.after_all(events.drop_last()).after(events.last())
        }
    }
}

/// A worker never renders past the end of its buffer, and its buffer, rate
/// and clock frequency never change.
pub proof fn law_wasapi_worker_stays_in_its_buffer(worker: WasapiWorker, events: Seq<WasapiEvent>)
    requires
        worker.available <= worker.buffer_frames,
    ensures
        worker.after_all(events).available <= worker.buffer_frames,
        worker.after_all(events).buffer_frames == worker.buffer_frames,
        worker.after_all(events).sample_rate == worker.sample_rate,
        worker.after_all(events).clock_frequency == worker.clock_frequency,
    decreases events.len(),
{
    if events.len() > 0 {
        law_wasapi_worker_stays_in_its_buffer(worker, events.drop_last());
    }
}

impl WasapiWorker {
    /// The frames handed over in a sequence of events that finds the worker
    /// in this state: those of every buffer released, or only of the ones
    /// released while not paused.
    pub open spec fn released_frames(self, events: Seq<WasapiEvent>, unpaused_only: bool) -> nat
        decreases events.len(),
    {
        if events.len() == 0 {
            0
        } else {
            self.released_frames(events.drop_last(), unpaused_only) + match events.last() {
                WasapiEvent::Released { code, paused } if code == S_OK && !(unpaused_only
                    && paused) => self.after_all(events.drop_last()).available as nat,
                _ => 0nat,
            }
        }
    }
}

/// After any events the frame clock has advanced by the frames handed over
/// while not paused, and the frames written by all that were handed over,
/// both modulo their 64 bits.
pub proof fn law_wasapi_clock_counts_released_frames(
    worker: WasapiWorker,
    events: Seq<WasapiEvent>,
)
    ensures
        worker.after_all(events).frames_played == (worker.frames_played + worker.released_frames(
            events,
            true,
        )) % 0x1_0000_0000_0000_0000,
        worker.after_all(events).frames_written == (worker.frames_written + worker.released_frames(
            events,
            false,
        )) % 0x1_0000_0000_0000_0000,
    decreases events.len(),
{
    if events.len() > 0 {
        let init = events.drop_last();
        let before = worker.after_all(init);
        let room = before.available as int;
        law_wasapi_clock_counts_released_frames(worker, init);
        crate::time::lemma_count_wraps(
            worker.frames_played + worker.released_frames(init, true),
            room,
        );
        crate::time::lemma_count_wraps(
            worker.frames_written + worker.released_frames(init, false),
            room,
        );
        assert(worker.after_all(events) == before.after(events.last()));
    }
}

/// The latency that a worker publishes is that of everything it has handed
/// over, silence included: a reading of the cursor at `position` gives the
/// time of the frames written and not yet played.
pub proof fn law_wasapi_latency_covers_what_was_written(
    worker: WasapiWorker,
    events: Seq<WasapiEvent>,
    position: u64,
)
    requires
        worker.frames_written + worker.released_frames(events, false) <= u64::MAX,
    ensures
        worker.after_all(events.push(WasapiEvent::Position { code: S_OK, position })).clock_latency_ns
            == clock_latency(
            (worker.frames_written + worker.released_frames(events, false)) as u64,
            position,
            worker.clock_frequency,
            worker.sample_rate,
        ),
{
    law_wasapi_clock_counts_released_frames(worker, events);
    lemma_worker_keeps_its_stream(worker, events);
    let reading = WasapiEvent::Position { code: S_OK, position };
    assert(events.push(reading).drop_last() =~= events);
    lemma_clock_latency_fits(
        worker.after_all(events).frames_written,
        position,
        worker.clock_frequency,
        worker.sample_rate,
    );
}

proof fn lemma_worker_keeps_its_stream(worker: WasapiWorker, events: Seq<WasapiEvent>)
    ensures
        worker.after_all(events).sample_rate == worker.sample_rate,
        worker.after_all(events).clock_frequency == worker.clock_frequency,
    decreases events.len(),
{
    if events.len() > 0 {
        lemma_worker_keeps_its_stream(worker, events.drop_last());
    }
}

proof fn lemma_clock_latency_fits(
    frames_written: u64,
    position: u64,
    frequency: u64,
    sample_rate: u32,
)
    ensures
        0 <= clock_latency(frames_written, position, frequency, sample_rate) <= u64::MAX,
{
    let waiting = in_flight(frames_written, position, frequency, sample_rate);
    vstd::arithmetic::div_mod::lemma_div_pos_is_pos(
        waiting * 1_000_000_000,
        crate::time::at_least(sample_rate as int, 1),
    );
}

/// While the pause flag stays up the frame clock stands still, and nothing
/// but silence is rendered.
pub proof fn law_wasapi_pause_halts_the_clock(worker: WasapiWorker, event: WasapiEvent)
    requires
        event matches WasapiEvent::Released { paused, .. } ==> paused,
        event matches WasapiEvent::PauseFlag(paused) ==> paused,
    ensures
        worker.after(event).frames_played == worker.frames_played,
        !(worker.answer(event) is Render),
{
}

/// A stream without a clock never publishes a live latency, so the static
/// estimate stays in use.
pub proof fn law_wasapi_without_a_clock_never_reads_one(worker: WasapiWorker, event: WasapiEvent)
    requires
        worker.clock_frequency == 0,
    ensures
        !(worker.answer(event) is ReadPosition),
        !(event is Position) ==> worker.after(event).clock_latency_ns == worker.clock_latency_ns,
{
}

/// An endpoint found by an enumeration: its id, and its friendly name where
/// the property store has one, both as UTF-16.
#[derive(Debug)]
pub struct Endpoint {
    pub id: Vec<u16>,
    pub name: Option<Vec<u16>>,
}

impl Endpoint {
    /// The device entry an endpoint comes to. Without a friendly name the
    /// label is empty; the endpoint with the default id is the default.
    pub open spec fn entry(self, default_id: Option<Seq<u16>>) -> (Seq<char>, Seq<char>, bool) {
        (
            crate::text::utf16_lossy(self.id@),
            match self.name {
                Some(name) => crate::text::utf16_lossy(name@),
                None => ""@,
            },
            default_id == Some(self.id@),
        )
    }
}

fn same_units(a: &Vec<u16>, b: &Vec<u16>) -> (same: bool)
    ensures
        same == (a@ == b@),
{
    if a.len() != b.len() {
        return false;
    }
    let mut i: usize = 0;
    while i < a.len()
        invariant
            i <= a@.len(),
            a@.len() == b@.len(),
            forall|j: int| 0 <= j < i ==> a@[j] == b@[j],
        decreases a@.len() - i,
    {
        if a[i] != b[i] {
            return false;
        }
        i = i + 1;
    }
    assert(a@ =~= b@);
    true
}

/// The id of the default endpoint, if there is one, as a sequence.
pub open spec fn units_of(id: Option<Vec<u16>>) -> Option<Seq<u16>> {
    match id {
        Some(units) => Some(units@),
        None => None,
    }
}

/// The devices of an enumeration: one for each active render endpoint, the
/// one that `GetDefaultAudioEndpoint` returned tagged as the default.
pub fn list_endpoints(
    endpoints: &Vec<Endpoint>,
    default_id: &Option<Vec<u16>>,
) -> (devices: Vec<Device>)
    ensures
        crate::format::lists(
            devices@,
            endpoints@.map_values(|e: Endpoint| e.entry(units_of(*default_id))),
        ),
{
    let mut devices: Vec<Device> = Vec::new();
    let ghost entries = endpoints@.map_values(|e: Endpoint| e.entry(units_of(*default_id)));
    let mut i: usize = 0;
    while i < endpoints.len()
        invariant
            i <= endpoints@.len(),
            devices@.len() == i,
            entries == endpoints@.map_values(|e: Endpoint| e.entry(units_of(*default_id))),
            forall|j: int|
                0 <= j < i ==> (#[trigger] devices@[j]).is(
                    entries[j].0,
                    entries[j].1,
                    entries[j].2,
                ),
        decreases endpoints@.len() - i,
    {
        let endpoint = &endpoints[i];
        let name = match &endpoint.name {
            Some(units) => decode_utf16_lossy(units.as_slice()),
            None => "".to_owned(),
        };
        let is_default = match default_id {
            Some(id) => same_units(id, &endpoint.id),
            None => false,
        };
        devices.push(Device { id: decode_utf16_lossy(endpoint.id.as_slice()), name, is_default });
        i = i + 1;
    }
    devices
}

/// The id of an endpoint as `IMMDeviceEnumerator::GetDevice` takes it:
/// UTF-16, with a terminating zero.
pub fn endpoint_id_units(id: &str) -> (units: Vec<u16>)
    ensures
        units@ == crate::text::utf16_units(id@).push(0u16),
{
    let mut units = encode_utf16(id);
    units.push(0);
    units
}

/// An enumerated id can be piped straight back into an opening: what
/// `GetDevice` is handed is the endpoint's own id, as long as that is
/// well-formed UTF-16.
pub proof fn law_wasapi_ids_route_back(endpoint: Endpoint, default_id: Option<Seq<u16>>)
    requires
        crate::text::valid_utf16(endpoint.id@),
    ensures
        crate::text::utf16_units(endpoint.entry(default_id).0).push(0u16) == endpoint.id@.push(
            0u16,
        ),
{
    crate::text::law_utf16_round_trips(endpoint.id@);
}

/// Where exactly one of the endpoints is the one that the system calls
/// default, exactly one device of the list is the default.
pub proof fn law_wasapi_exactly_one_default(
    endpoints: Seq<Endpoint>,
    default_id: Option<Seq<u16>>,
    k: int,
)
    requires
        0 <= k < endpoints.len(),
        default_id == Some(endpoints[k].id@),
        forall|j: int|
            0 <= j < endpoints.len() && j != k ==> default_id != Some(
                (#[trigger] endpoints[j]).id@,
            ),
    ensures
        crate::format::has_one_default(endpoints.map_values(|e: Endpoint| e.entry(default_id))),
{
    let list = endpoints.map_values(|e: Endpoint| e.entry(default_id));
    assert(list[k] == endpoints[k].entry(default_id));
    assert forall|j: int| 0 <= j < list.len() && j != k implies !(#[trigger] list[j]).2 by {
        assert(list[j] == endpoints[j].entry(default_id));
    }
    assert(crate::format::is_the_one_default(list, k));
}

/// When the endpoints' ids differ from one another, at most one device of
/// the list is the default: the one the system calls default.
pub proof fn law_wasapi_at_most_one_default(
    endpoints: Seq<Endpoint>,
    default_id: Option<Seq<u16>>,
    i: int,
    j: int,
)
    requires
        0 <= i < j < endpoints.len(),
        endpoints[i].id@ != endpoints[j].id@,
    ensures
        !(endpoints[i].entry(default_id).2 && endpoints[j].entry(default_id).2),
        endpoints[i].entry(default_id).2 <==> default_id == Some(endpoints[i].id@),
{
}

} // verus!
