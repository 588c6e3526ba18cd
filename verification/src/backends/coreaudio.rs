//! CoreAudio output backend via the AudioQueue API: the decisions behind
//! the `AudioQueue*` calls.
//!
//! AudioQueue is the highest-level output API CoreAudio ships: it is handed
//! a stream description, a callback and three buffers, and invokes the
//! callback from a thread of its own whenever a buffer returns empty.

use std::time::Duration;
use vstd::prelude::*;
use vstd::string::*;

use crate::backends::alsa::clamp_channels;
use crate::error::Error;
use crate::format::{CallbackInfo, SampleFormat, StreamFormat, StreamRequest};
use crate::text::{push_decimal, push_signed};
use crate::time::{default_period_frames, frames_to_nanos, nanos, saturating_product};

use super::hal::kAudioFormatLinearPCM;
use super::hal_format::device_of_id;

verus! {

/// The samples are floating point.
#[allow(non_upper_case_globals)]
pub const kAudioFormatFlagIsFloat: u32 = 1;

/// The samples fill their frames.
#[allow(non_upper_case_globals)]
pub const kAudioFormatFlagIsPacked: u32 = 8;

/// `kAudioFormatFlagIsFloat` and `kAudioFormatFlagIsPacked` together.
pub const FLOAT_PACKED: u32 = 9;

/// How many buffers are kept in flight. Three is the canonical value: two is
/// too tight under scheduling pressure, four adds unnecessary latency.
pub const NUM_BUFFERS: u32 = 3;

/// The rate a probe asks for.
pub const PROBE_RATE: u32 = 44_100;

/// The channel count a probe asks for.
pub const PROBE_CHANNELS: u16 = 2;

/// The fields of an `AudioStreamBasicDescription`, with the rate as a whole
/// number.
#[derive(Debug, Clone, Copy, PartialEq, Eq, Structural)]
pub struct StreamDescription {
    pub sample_rate: u32,
    pub format_id: u32,
    pub format_flags: u32,
    pub bytes_per_packet: u32,
    pub frames_per_packet: u32,
    pub bytes_per_frame: u32,
    pub channels_per_frame: u32,
    pub bits_per_channel: u32,
}

/// The description of interleaved, packed f32 samples. A channel count of
/// zero counts as one.
pub fn f32_asbd(rate: u32, channels: u16) -> (asbd: StreamDescription)
    ensures
        ({
            let ch = crate::time::at_least(channels as int, 1);
            &&& asbd.sample_rate == rate
            &&& asbd.format_id == kAudioFormatLinearPCM
            &&& asbd.format_flags == kAudioFormatFlagIsFloat + kAudioFormatFlagIsPacked
            &&& asbd.bytes_per_packet == 4 * ch
            &&& asbd.frames_per_packet == 1
            &&& asbd.bytes_per_frame == 4 * ch
            &&& asbd.channels_per_frame == ch
            &&& asbd.bits_per_channel == 32
        }),
{
    let ch: u32 = if channels < 1 {
        1
    } else {
        channels as u32
    };
    StreamDescription {
        sample_rate: rate,
        format_id: kAudioFormatLinearPCM,
        format_flags: FLOAT_PACKED,
        bytes_per_packet: 4 * ch,
        frames_per_packet: 1,
        bytes_per_frame: 4 * ch,
        channels_per_frame: ch,
        bits_per_channel: 32,
    }
}

/// The text `<call> OSStatus=<status>`.
pub open spec fn status_text(call: Seq<char>, status: i32) -> Seq<char> {
    call + " OSStatus="@ + crate::text::signed_decimal(status as int)
}

fn describe_status(call: &str, status: i32) -> (text: String)
    ensures
        text@ == status_text(call@, status),
{
    let mut text = String::new();
    text.append(call);
    text.append(" OSStatus=");
    push_signed(&mut text, status);
    assert(text@ =~= status_text(call@, status));
    text
}

/// The outcome of a probe: the status of the throw-away
/// `AudioQueueNewOutput`, and whether it delivered a queue.
pub fn probe_outcome(status: i32, delivered: bool) -> (outcome: Result<(), Error>)
    ensures
        match outcome {
            Ok(_) => status == 0 && delivered,
            Err(e) => !(status == 0 && delivered) && e.is_device_open(
                "coreaudio"@,
                status_text("AudioQueueNewOutput"@, status),
            ),
        },
{
    if status != 0 || !delivered {
        Err(
            Error::DeviceOpen {
                backend: "coreaudio",
                detail: describe_status("AudioQueueNewOutput", status),
            },
        )
    } else {
        Ok(())
    }
}

/// The device that a request routes to, if it names one.
pub fn requested_device(req: &StreamRequest) -> (device: Result<Option<u32>, Error>)
    ensures
        match device {
            Ok(Some(d)) => req.device_id() is Some && crate::text::parsed_u32(req.device_id()->0)
                == Some(d),
            Ok(None) => req.device_id() is None,
            Err(e) => {
                &&& req.device_id() is Some
                &&& crate::text::parsed_u32(req.device_id()->0) is None
                &&& e.is_unsupported_format(
                    "coreaudio"@,
                    super::hal_format::not_numeric(req.device_id()->0),
                )
            },
        },
{
    match &req.device {
        None => Ok(None),
        Some(id) => match device_of_id(id.as_str()) {
            Ok(device) => Ok(Some(device)),
            Err(e) => Err(e),
        },
    }
}

/// Whether a queue can be routed to a device: that takes the HAL, and then
/// CoreFoundation. Routing to the system default instead would defeat the
/// purpose of naming a device.
pub fn routing_ready(hal_loaded: bool, cf_loaded: bool) -> (ready: Result<(), Error>)
    ensures
        match ready {
            Ok(_) => hal_loaded && cf_loaded,
            Err(e) => if !hal_loaded {
                e.is_unsupported_format(
                    "coreaudio"@,
                    "CoreAudio.framework HAL is required for per-device routing but failed to load"@,
                )
            } else {
                !cf_loaded && e.is_unsupported_format(
                    "coreaudio"@,
                    "CoreFoundation.framework is required for per-device routing but failed to load"@,
                )
            },
        },
{
    if !hal_loaded {
        return Err(
            Error::UnsupportedFormat {
                backend: "coreaudio",
                detail:
                    "CoreAudio.framework HAL is required for per-device routing but failed to load".to_owned(),
            },
        );
    }
    if !cf_loaded {
        return Err(
            Error::UnsupportedFormat {
                backend: "coreaudio",
                detail:
                    "CoreFoundation.framework is required for per-device routing but failed to load".to_owned(),
            },
        );
    }
    Ok(())
}

/// What a queue is opened with.
#[derive(Debug, Clone, Copy, PartialEq, Eq, Structural)]
pub struct QueuePlan {
    pub format: StreamFormat,
    pub description: StreamDescription,
    pub frames_per_buf: u32,
    pub bytes_per_buf: u32,
    /// The software-side latency floor: all buffers in flight, in
    /// nanoseconds.
    pub sw_latency_ns: u64,
}

/// The frames of one buffer: the hint as it is, or 20 ms.
pub open spec fn buffer_frames(req: StreamRequest) -> int {
    match req.buffer_frames {
        Some(frames) => frames as int,
        None => crate::time::default_period(req.sample_rate as int),
    }
}

/// Plans the opening of `req`. A buffer too large for the 32 bits of its
/// byte size saturates.
pub fn plan(req: &StreamRequest) -> (plan: QueuePlan)
    ensures
        plan.format == (StreamFormat {
            sample_rate: req.sample_rate,
            channels: crate::backends::alsa::clamped_channels(req.channels),
            format: SampleFormat::F32,
        }),
        plan.description.sample_rate == req.sample_rate,
        plan.description.format_id == kAudioFormatLinearPCM,
        plan.description.format_flags == kAudioFormatFlagIsFloat + kAudioFormatFlagIsPacked,
        plan.description.channels_per_frame == plan.format.channels,
        plan.description.bytes_per_frame == 4 * plan.format.channels,
        plan.description.bytes_per_packet == 4 * plan.format.channels,
        plan.description.frames_per_packet == 1,
        plan.description.bits_per_channel == 32,
        plan.frames_per_buf == buffer_frames(*req),
        plan.bytes_per_buf == crate::time::at_most(
            buffer_frames(*req) * plan.format.channels * 4,
            u32::MAX as int,
        ),
        plan.sw_latency_ns == crate::time::frames_nanos(
            NUM_BUFFERS * buffer_frames(*req),
            req.sample_rate as int,
        ),
{
    let channels = clamp_channels(req.channels);
    let frames_per_buf: u32 = match req.buffer_frames {
        Some(frames) => frames,
        None => default_period_frames(req.sample_rate),
    };
    let bytes: u64 = saturating_product(frames_per_buf as u64, channels as u64 * 4);
    proof {
        assert(frames_per_buf * (channels * 4) == frames_per_buf * channels * 4)
            by (nonlinear_arith);
        assert(0 <= frames_per_buf * (channels * 4) <= 0xFFFF_FFFF * 32) by (nonlinear_arith)
            requires
                channels <= 8,
        ;
        assert(NUM_BUFFERS * frames_per_buf == 3 * frames_per_buf) by (nonlinear_arith)
            requires
                NUM_BUFFERS == 3,
        ;
    }
    let bytes_per_buf: u32 = if bytes > 0xFFFF_FFFF {
        u32::MAX
    } else {
        bytes as u32
    };
    QueuePlan {
        format: StreamFormat {
            sample_rate: req.sample_rate,
            channels,
            format: SampleFormat::F32,
        },
        description: f32_asbd(req.sample_rate, channels),
        frames_per_buf,
        bytes_per_buf,
        sw_latency_ns: frames_to_nanos(NUM_BUFFERS as u64 * frames_per_buf as u64, req.sample_rate),
    }
}

/// Where the opening of a queue stands.
#[derive(Debug, Clone, Copy, PartialEq, Eq, Structural)]
pub enum QueueStage {
    NewOutput,
    DeviceUid,
    SetDevice,
    ReleaseUid,
    Allocate,
    Prime,
    Start,
    Running,
    DisposeOnError,
    DropOnError,
    Failed,
}

/// The call that an opening makes next.
#[derive(Debug, Clone, Copy, PartialEq, Eq, Structural)]
pub enum QueueCall {
    /// `AudioQueueNewOutput`, with the callback state.
    NewOutput,
    /// `kAudioDevicePropertyDeviceUID` of the device, from the HAL.
    DeviceUid(u32),
    /// `AudioQueueSetProperty(kAudioQueueProperty_CurrentDevice)`, with the
    /// UID.
    SetDevice,
    /// `CFRelease` of the UID: the HAL handed over a reference of its own.
    ReleaseUid,
    /// `AudioQueueAllocateBuffer`.
    AllocateBuffer,
    /// Fill the buffer with silence to its full capacity and
    /// `AudioQueueEnqueueBuffer` it.
    PrimeBuffer,
    /// `AudioQueueStart`.
    Start,
    /// `AudioQueueDispose`, immediately.
    Dispose,
    /// Drop the callback state.
    DropState,
    Nothing,
}

/// What a call returned: its status, and whether it delivered what it was
/// asked for.
#[derive(Debug, Clone, Copy, PartialEq, Eq, Structural)]
pub struct QueueReply {
    pub status: i32,
    pub delivered: bool,
}

/// The call that an opening failed at, and the status it returned.
#[derive(Debug, Clone, Copy, PartialEq, Eq, Structural)]
pub enum QueueFailure {
    NewOutput(i32),
    /// The device has no UID.
    DeviceUid(u32),
    SetDevice { device: u32, status: i32 },
    Allocate(i32),
    Start(i32),
}

/// An opening in progress.
#[derive(Debug, Clone, Copy, PartialEq, Eq, Structural)]
pub struct QueueOpen {
    pub stage: QueueStage,
    /// The device that the queue is to be routed to.
    pub device: Option<u32>,
    /// The status of the routing, until the UID is released.
    pub routing_status: i32,
    /// Buffers enqueued so far.
    pub primed: u32,
    pub failure: Option<QueueFailure>,
}

impl QueueOpen {
    /// The opening for a device, before any call.
    pub open spec fn started(device: Option<u32>) -> QueueOpen {
        QueueOpen {
            stage: QueueStage::NewOutput,
            device,
            routing_status: 0,
            primed: 0,
            failure: None,
        }
    }

    /// The device that is routed to, zero when there is none.
    pub open spec fn target(self) -> u32 {
        match self.device {
            Some(d) => d,
            None => 0,
        }
    }

    /// The call that the current stage makes.
    pub open spec fn due(self) -> QueueCall {
        match self.stage {
            QueueStage::NewOutput => QueueCall::NewOutput,
            QueueStage::DeviceUid => QueueCall::DeviceUid(self.target()),
            QueueStage::SetDevice => QueueCall::SetDevice,
            QueueStage::ReleaseUid => QueueCall::ReleaseUid,
            QueueStage::Allocate => QueueCall::AllocateBuffer,
            QueueStage::Prime => QueueCall::PrimeBuffer,
            QueueStage::Start => QueueCall::Start,
            QueueStage::DisposeOnError => QueueCall::Dispose,
            QueueStage::DropOnError => QueueCall::DropState,
            QueueStage::Running => QueueCall::Nothing,
            QueueStage::Failed => QueueCall::Nothing,
        }
    }

    /// The opening stopped by a failure: from there it disposes of the
    /// queue, if there is one, and drops the callback state.
    pub open spec fn stopped_by(self, failure: QueueFailure) -> QueueOpen {
        QueueOpen {
            stage: if failure is NewOutput {
                QueueStage::DropOnError
            } else {
                QueueStage::DisposeOnError
            },
            failure: Some(failure),
            ..self
        }
    }

    /// The opening after the current call's reply.
    pub open spec fn after(self, reply: QueueReply) -> QueueOpen {
        let ok = reply.status == 0 && reply.delivered;
        match self.stage {
            QueueStage::NewOutput => if !ok {
                self.stopped_by(QueueFailure::NewOutput(reply.status))
            } else if self.device is Some {
                QueueOpen { stage: QueueStage::DeviceUid, ..self }
            } else {
                QueueOpen { stage: QueueStage::Allocate, ..self }
            },
            QueueStage::DeviceUid => if !ok {
                self.stopped_by(QueueFailure::DeviceUid(self.target()))
            } else {
                QueueOpen { stage: QueueStage::SetDevice, ..self }
            },
            QueueStage::SetDevice => QueueOpen {
                stage: QueueStage::ReleaseUid,
                routing_status: reply.status,
                ..self
            },
            QueueStage::ReleaseUid => if self.routing_status != 0 {
                self.stopped_by(
                    QueueFailure::SetDevice { device: self.target(), status: self.routing_status },
                )
            } else {
                QueueOpen { stage: QueueStage::Allocate, ..self }
            },
            QueueStage::Allocate => if !ok {
                self.stopped_by(QueueFailure::Allocate(reply.status))
            } else {
                QueueOpen { stage: QueueStage::Prime, ..self }
            },
            QueueStage::Prime => {
                let primed = if self.primed < NUM_BUFFERS {
                    (self.primed + 1) as u32
                } else {
                    self.primed
                };
                QueueOpen {
                    stage: if primed < NUM_BUFFERS {
                        QueueStage::Allocate
                    } else {
                        QueueStage::Start
                    },
                    primed,
                    ..self
                }
            },
            QueueStage::Start => if reply.status != 0 {
                self.stopped_by(QueueFailure::Start(reply.status))
            } else {
                QueueOpen { stage: QueueStage::Running, ..self }
            },
            QueueStage::DisposeOnError => QueueOpen { stage: QueueStage::DropOnError, ..self },
            QueueStage::DropOnError => QueueOpen { stage: QueueStage::Failed, ..self },
            QueueStage::Running => self,
            QueueStage::Failed => self,
        }
    }

    /// Begins the opening of a queue that is to be routed to `device`, or
    /// to follow the system default.
    pub fn start(device: Option<u32>) -> (opening: QueueOpen)
        ensures
            opening == QueueOpen::started(device),
    {
        QueueOpen {
            stage: QueueStage::NewOutput,
            device,
            routing_status: 0,
            primed: 0,
            failure: None,
        }
    }

    /// The call to make next.
    pub fn call(&self) -> (call: QueueCall)
        ensures
            call == self.due(),
    {
        match self.stage {
            QueueStage::NewOutput => QueueCall::NewOutput,
            QueueStage::DeviceUid => QueueCall::DeviceUid(self.routed_device()),
            QueueStage::SetDevice => QueueCall::SetDevice,
            QueueStage::ReleaseUid => QueueCall::ReleaseUid,
            QueueStage::Allocate => QueueCall::AllocateBuffer,
            QueueStage::Prime => QueueCall::PrimeBuffer,
            QueueStage::Start => QueueCall::Start,
            QueueStage::DisposeOnError => QueueCall::Dispose,
            QueueStage::DropOnError => QueueCall::DropState,
            QueueStage::Running | QueueStage::Failed => QueueCall::Nothing,
        }
    }

    fn routed_device(&self) -> (device: u32)
        ensures
            device == self.target(),
    {
        match self.device {
            Some(d) => d,
            None => 0,
        }
    }

    fn stop_by(self, failure: QueueFailure) -> (next: QueueOpen)
        ensures
            next == self.stopped_by(failure),
    {
        let mut next = self;
        next.stage = match failure {
            QueueFailure::NewOutput(_) => QueueStage::DropOnError,
            _ => QueueStage::DisposeOnError,
        };
        next.failure = Some(failure);
        next
    }

    /// Takes the reply to the current call.
    pub fn step(self, reply: QueueReply) -> (next: QueueOpen)
        ensures
            next == self.after(reply),
    {
        let ok = reply.status == 0 && reply.delivered;
        let mut next = self;
        match self.stage {
            QueueStage::NewOutput => {
                if !ok {
                    return self.stop_by(QueueFailure::NewOutput(reply.status));
                }
                next.stage = if self.device.is_some() {
                    QueueStage::DeviceUid
                } else {
                    QueueStage::Allocate
                };
            },
            QueueStage::DeviceUid => {
                if !ok {
                    return self.stop_by(QueueFailure::DeviceUid(self.routed_device()));
                }
                next.stage = QueueStage::SetDevice;
            },
            QueueStage::SetDevice => {
                next.stage = QueueStage::ReleaseUid;
                next.routing_status = reply.status;
            },
            QueueStage::ReleaseUid => {
                if self.routing_status != 0 {
                    return self.stop_by(
                        QueueFailure::SetDevice {
                            device: self.routed_device(),
                            status: self.routing_status,
                        },
                    );
                }
                next.stage = QueueStage::Allocate;
            },
            QueueStage::Allocate => {
                if !ok {
                    return self.stop_by(QueueFailure::Allocate(reply.status));
                }
                next.stage = QueueStage::Prime;
            },
            QueueStage::Prime => {
                if self.primed < NUM_BUFFERS {
                    next.primed = self.primed + 1;
                }
                next.stage = if next.primed < NUM_BUFFERS {
                    QueueStage::Allocate
                } else {
                    QueueStage::Start
                };
            },
            QueueStage::Start => {
                if reply.status != 0 {
                    return self.stop_by(QueueFailure::Start(reply.status));
                }
                next.stage = QueueStage::Running;
            },
            QueueStage::DisposeOnError => {
                next.stage = QueueStage::DropOnError;
            },
            QueueStage::DropOnError => {
                next.stage = QueueStage::Failed;
            },
            QueueStage::Running | QueueStage::Failed => {},
        }
        next
    }

    /// The opening after a sequence of replies.
    pub open spec fn after_all(device: Option<u32>, replies: Seq<QueueReply>) -> QueueOpen
        decreases replies.len(),
    {
        if replies.len() == 0 {
            QueueOpen::started(device)
        } else {
            Self::after_all(device, replies.drop_last()).after(replies.last())
        }
    }

    /// What the calls made so far have left held.
    pub open spec fn held_after_all(device: Option<u32>, replies: Seq<QueueReply>) -> QueueHeld
        decreases replies.len(),
    {
        if replies.len() == 0 {
            QueueHeld { state: true, queue: false, uid: false, routed: false, buffers: 0, primed: 0 }
        } else {
            Self::held_after_all(device, replies.drop_last()).after(
                Self::after_all(device, replies.drop_last()).due(),
                replies.last(),
            )
        }
    }

    /// Whether the opening is over, one way or the other.
    pub open spec fn settled(self) -> bool {
        self.stage is Running || self.stage is Failed
    }

    /// An upper bound on the replies still needed.
    pub open spec fn remaining(self) -> int {
        match self.stage {
            QueueStage::NewOutput => 13,
            QueueStage::DeviceUid => 12,
            QueueStage::SetDevice => 11,
            QueueStage::ReleaseUid => 10,
            QueueStage::Allocate => 9 - 2 * self.primed,
            QueueStage::Prime => 8 - 2 * self.primed,
            QueueStage::Start => 3,
            QueueStage::DisposeOnError => 2,
            QueueStage::DropOnError => 1,
            QueueStage::Running => 0,
            QueueStage::Failed => 0,
        }
    }
}

/// The error a failed opening is reported with.
pub fn open_error(failure: QueueFailure) -> (error: Error)
    ensures
        match failure {
            QueueFailure::NewOutput(status) => error.is_device_open(
                "coreaudio"@,
                status_text("AudioQueueNewOutput"@, status),
            ),
            QueueFailure::DeviceUid(device) => error.is_unsupported_format(
                "coreaudio"@,
                "AudioDeviceID "@ + crate::text::decimal(device as nat)
                    + " has no DeviceUID property — not an output device or HAL refused the query"@,
            ),
            QueueFailure::SetDevice { device, status } => error.is_device_open(
                "coreaudio"@,
                status_text(
                    "AudioQueueSetProperty(CurrentDevice="@ + crate::text::decimal(device as nat)
                        + ")"@,
                    status,
                ),
            ),
            QueueFailure::Allocate(status) => error.is_device_open(
                "coreaudio"@,
                status_text("AudioQueueAllocateBuffer"@, status),
            ),
            QueueFailure::Start(status) => error.is_device_open(
                "coreaudio"@,
                status_text("AudioQueueStart"@, status),
            ),
        },
{
    let detail = match failure {
        QueueFailure::NewOutput(status) => describe_status("AudioQueueNewOutput", status),
        QueueFailure::Allocate(status) => describe_status("AudioQueueAllocateBuffer", status),
        QueueFailure::Start(status) => describe_status("AudioQueueStart", status),
        QueueFailure::DeviceUid(device) => {
            let mut text = "AudioDeviceID ".to_owned();
            push_decimal(&mut text, device as u64);
            text.append(
                " has no DeviceUID property — not an output device or HAL refused the query",
            );
            return Error::UnsupportedFormat { backend: "coreaudio", detail: text };
        },
        QueueFailure::SetDevice { device, status } => {
            let mut call = "AudioQueueSetProperty(CurrentDevice=".to_owned();
            push_decimal(&mut call, device as u64);
            call.append(")");
            describe_status(call.as_str(), status)
        },
    };
    Error::DeviceOpen { backend: "coreaudio", detail }
}

/// What an opening holds of CoreAudio and of the heap.
#[derive(Debug, Clone, Copy, PartialEq, Eq, Structural)]
pub struct QueueHeld {
    /// The callback state.
    pub state: bool,
    pub queue: bool,
    /// A reference to the device UID.
    pub uid: bool,
    /// Whether the queue is bound to the device.
    pub routed: bool,
    /// Buffers of the queue.
    pub buffers: u32,
    /// Buffers handed to the queue.
    pub primed: u32,
}

impl QueueHeld {
    /// What is held once `call` has returned `reply`. Disposing of a queue
    /// frees its buffers.
    pub open spec fn after(self, call: QueueCall, reply: QueueReply) -> QueueHeld {
        let ok = reply.status == 0 && reply.delivered;
        match call {
            QueueCall::NewOutput => QueueHeld { queue: ok, ..self },
            QueueCall::DeviceUid(_) => QueueHeld { uid: ok, ..self },
            QueueCall::SetDevice => QueueHeld { routed: reply.status == 0, ..self },
            QueueCall::ReleaseUid => QueueHeld { uid: false, ..self },
            QueueCall::AllocateBuffer => if ok {
                QueueHeld { buffers: (self.buffers + 1) as u32, ..self }
            } else {
                self
            },
            QueueCall::PrimeBuffer => QueueHeld { primed: (self.primed + 1) as u32, ..self },
            QueueCall::Dispose => QueueHeld {
                queue: false,
                routed: false,
                buffers: 0,
                primed: 0,
                ..self
            },
            QueueCall::DropState => QueueHeld { state: false, ..self },
            QueueCall::Start => self,
            QueueCall::Nothing => self,
        }
    }

    /// Whether `call` may be made with this held, for a queue that is to be
    /// routed to `device`: nothing is acquired or released twice, the queue
    /// is routed before any buffer is handed to it, it is started with every
    /// buffer handed to it, and the callback state outlives the queue.
    pub open spec fn allows(self, call: QueueCall, device: Option<u32>) -> bool {
        match call {
            QueueCall::NewOutput => self.state && !self.queue,
            QueueCall::DeviceUid(d) => self.queue && !self.uid && device == Some(d),
            QueueCall::SetDevice => self.queue && self.uid && self.primed == 0,
            QueueCall::ReleaseUid => self.uid,
            QueueCall::AllocateBuffer => self.queue && self.buffers == self.primed && self.buffers
                < NUM_BUFFERS && (device is Some ==> self.routed),
            QueueCall::PrimeBuffer => self.queue && self.buffers == self.primed + 1,
            QueueCall::Start => self.queue && self.primed == NUM_BUFFERS && self.buffers
                == NUM_BUFFERS && (device is Some ==> self.routed),
            QueueCall::Dispose => self.queue && !self.uid,
            QueueCall::DropState => self.state && !self.queue,
            QueueCall::Nothing => !self.uid,
        }
    }

    /// What an opening at this stage holds.
    pub open spec fn fits(self, opening: QueueOpen) -> bool {
        &&& self.state == !(opening.stage is Failed)
        &&& self.queue == !(opening.stage is NewOutput || opening.stage is DropOnError
            || opening.stage is Failed)
        &&& self.uid == (opening.stage is SetDevice || opening.stage is ReleaseUid)
        &&& self.queue && !(opening.stage is DisposeOnError) ==> self.primed == opening.primed
            && self.buffers == opening.primed + (if opening.stage is Prime {
            1int
        } else {
            0int
        })
        &&& opening.stage is ReleaseUid ==> self.routed == (opening.routing_status == 0)
        &&& opening.stage is Allocate || opening.stage is Prime || opening.stage is Start
            || opening.stage is Running ==> (opening.device is Some ==> self.routed)
    }
}

/// Whatever CoreAudio replies, the next call is one that may be made with
/// what is held. So a failed opening has released everything, each thing
/// once and the callback state after the queue that calls it; a running
/// queue has all its buffers, holds no UID, and plays through the device it
/// was asked to play through.
pub proof fn law_queue_open_releases_what_it_holds(device: Option<u32>, replies: Seq<QueueReply>)
    ensures
        ({
            let opening = QueueOpen::after_all(device, replies);
            let held = QueueOpen::held_after_all(device, replies);
            &&& held.allows(opening.due(), device)
            &&& opening.stage is Failed ==> !held.state && !held.queue && !held.uid
            &&& opening.stage is Running ==> held.state && held.queue && !held.uid && held.primed
                == NUM_BUFFERS && (device is Some ==> held.routed)
        }),
{
    lemma_queue_open_fits(device, replies);
}

/// The bookkeeping behind the release law: each stage holds what it should.
proof fn lemma_queue_open_fits(device: Option<u32>, replies: Seq<QueueReply>)
    ensures
        ({
            let opening = QueueOpen::after_all(device, replies);
            &&& QueueOpen::held_after_all(device, replies).fits(opening)
            &&& opening.device == device
            &&& opening.stage is DeviceUid || opening.stage is SetDevice
                || opening.stage is ReleaseUid ==> device is Some
            &&& match opening.stage {
                QueueStage::NewOutput => opening.primed == 0,
                QueueStage::DeviceUid => opening.primed == 0,
                QueueStage::SetDevice => opening.primed == 0,
                QueueStage::ReleaseUid => opening.primed == 0,
                QueueStage::Allocate => opening.primed < NUM_BUFFERS,
                QueueStage::Prime => opening.primed < NUM_BUFFERS,
                QueueStage::Start => opening.primed == NUM_BUFFERS,
                QueueStage::Running => opening.primed == NUM_BUFFERS,
                _ => opening.primed <= NUM_BUFFERS,
            }
        }),
    decreases replies.len(),
{
    if replies.len() > 0 {
        lemma_queue_open_fits(device, replies.drop_last());
    }
}

/// Every opening is over after at most thirteen replies.
pub proof fn law_queue_open_settles(device: Option<u32>, replies: Seq<QueueReply>)
    ensures
        replies.len() >= 13 ==> QueueOpen::after_all(device, replies).settled(),
{
    lemma_queue_open_remaining(device, replies);
}

proof fn lemma_queue_open_remaining(device: Option<u32>, replies: Seq<QueueReply>)
    ensures
        ({
            let opening = QueueOpen::after_all(device, replies);
            opening.settled() || 1 <= opening.remaining() <= 13 - replies.len()
        }),
    decreases replies.len(),
{
    if replies.len() > 0 {
        lemma_queue_open_fits(device, replies.drop_last());
        lemma_queue_open_remaining(device, replies.drop_last());
    }
}

/// A failure is recorded exactly when the opening is failing or has failed.
/// A routing failure names the device that was asked for.
pub proof fn law_queue_open_reports_its_failure(device: Option<u32>, replies: Seq<QueueReply>)
    ensures
        ({
            let opening = QueueOpen::after_all(device, replies);
            &&& (opening.stage is Failed || opening.stage is DisposeOnError
                || opening.stage is DropOnError) == (opening.failure is Some)
            &&& opening.failure matches Some(f) ==> match f {
                QueueFailure::DeviceUid(d) => device == Some(d),
                QueueFailure::SetDevice { device: d, status } => device == Some(d) && status != 0,
                QueueFailure::Start(status) => status != 0,
                _ => true,
            }
        }),
    decreases replies.len(),
{
    if replies.len() > 0 {
        lemma_queue_open_fits(device, replies.drop_last());
        law_queue_open_reports_its_failure(device, replies.drop_last());
    }
}

/// Once a call has failed, nothing that comes back later changes what the
/// opening reports.
pub proof fn law_queue_open_keeps_its_failure(opening: QueueOpen, reply: QueueReply)
    requires
        opening.stage is Failed || opening.stage is DisposeOnError || opening.stage is DropOnError,
    ensures
        opening.after(reply).failure == opening.failure,
        !(opening.after(reply).stage is Running),
{
}

/// What the callback does with a buffer.
#[derive(Debug, Clone, Copy, PartialEq, Eq, Structural)]
pub enum FillTask {
    /// Fill that many samples with silence.
    Silence(usize),
    /// Let the user's callback fill that many samples.
    Render(usize, CallbackInfo),
}

/// The audio thread's side of a running queue.
#[derive(Debug, Clone, Copy, PartialEq, Eq, Structural)]
pub struct QueueClock {
    pub channels: u16,
    /// Frames submitted while not paused; the frame clock.
    pub frames_played: u64,
}

/// How many whole frames of f32 samples fit in a buffer.
pub open spec fn whole_frames(capacity: u32, channels: u16) -> int {
    capacity as int / (4 * channels)
}

impl QueueClock {
    /// The clock after a buffer is submitted: it advances by the buffer's
    /// frames, but not while paused.
    pub open spec fn after(self, capacity: u32, paused: bool) -> QueueClock {
        if paused {
            self
        } else {
            QueueClock {
                frames_played: ((self.frames_played + whole_frames(capacity, self.channels))
                    % 0x1_0000_0000_0000_0000) as u64,
                ..self
            }
        }
    }

    /// A clock that stands at zero.
    pub fn new(plan: &QueuePlan) -> (clock: QueueClock)
        ensures
            clock == (QueueClock { channels: plan.format.channels, frames_played: 0 }),
    {
        QueueClock { channels: plan.format.channels, frames_played: 0 }
    }

    /// What to fill a returned buffer with: as many whole frames as fit, of
    /// silence while paused.
    pub fn fill(&self, capacity: u32, paused: bool) -> (task: FillTask)
        requires
            self.channels >= 1,
        ensures
            task == (if paused {
                FillTask::Silence(
                    (whole_frames(capacity, self.channels) * self.channels) as usize,
                )
            } else {
                FillTask::Render(
                    (whole_frames(capacity, self.channels) * self.channels) as usize,
                    CallbackInfo { frames_played: self.frames_played },
                )
            }),
    {
        let channels: u32 = self.channels as u32;
        let frames: u32 = capacity / (4 * channels);
        proof {
            lemma_samples_fit(capacity, self.channels);
        }
        let samples: usize = (frames * channels) as usize;
        if paused {
            FillTask::Silence(samples)
        } else {
            FillTask::Render(samples, CallbackInfo { frames_played: self.frames_played })
        }
    }

    /// How many bytes of the buffer to submit, once it is filled. `paused`
    /// is read again here.
    pub fn submit(&mut self, capacity: u32, paused: bool) -> (bytes: u32)
        requires
            old(self).channels >= 1,
        ensures
            *final(self) == old(self).after(capacity, paused),
            bytes == whole_frames(capacity, old(self).channels) * old(self).channels * 4,
    {
        let channels: u32 = self.channels as u32;
        let frames: u32 = capacity / (4 * channels);
        proof {
            lemma_samples_fit(capacity, self.channels);
        }
        if !paused {
            self.frames_played = self.frames_played.wrapping_add(frames as u64);
        }
        frames * channels * 4
    }
}

proof fn lemma_samples_fit(capacity: u32, channels: u16)
    requires
        channels >= 1,
    ensures
        0 <= whole_frames(capacity, channels) * channels * 4 <= capacity,
        capacity - whole_frames(capacity, channels) * channels * 4 < 4 * channels,
{
    let wide = 4 * channels;
    let frames = capacity as int / wide;
    assert(frames * channels * 4 == wide * frames) by (nonlinear_arith)
        requires
            wide == 4 * channels,
    ;
    vstd::arithmetic::div_mod::lemma_fundamental_div_mod(capacity as int, wide);
    vstd::arithmetic::div_mod::lemma_mod_bound(capacity as int, wide);
    assert(wide * frames >= 0) by (nonlinear_arith)
        requires
            wide >= 0,
            frames >= 0,
    ;
}

/// The bytes submitted are whole frames, stay within the buffer, and leave
/// less than one frame of it unused.
pub proof fn law_submitted_bytes_fill_the_buffer(capacity: u32, channels: u16)
    requires
        channels >= 1,
    ensures
        ({
            let bytes = whole_frames(capacity, channels) * channels * 4;
            &&& 0 <= bytes <= capacity
            &&& bytes % (4 * channels) == 0
            &&& capacity - bytes < 4 * channels
        }),
{
    lemma_samples_fit(capacity, channels);
    let frames = whole_frames(capacity, channels);
    let wide = 4 * channels;
    assert(frames * channels * 4 == frames * wide) by (nonlinear_arith)
        requires
            wide == 4 * channels,
    ;
    vstd::arithmetic::div_mod::lemma_mod_multiples_basic(frames, wide);
}

/// A buffer that the callback submitted: its capacity in bytes, and the
/// pause flag as it was read then.
pub struct Submission {
    pub capacity: u32,
    pub paused: bool,
}

impl QueueClock {
    /// The clock after a sequence of buffers.
    pub open spec fn after_all(self, buffers: Seq<Submission>) -> QueueClock
        decreases buffers.len(),
    {
        if buffers.len() == 0 {
            self
        } else {
            self.after_all(buffers.drop_last()).after(
                buffers.last().capacity,
                buffers.last().paused,
            )
        }
    }
}

/// The frames that a sequence of buffers submitted while not paused.
pub open spec fn submitted_frames(buffers: Seq<Submission>, channels: u16) -> int
    decreases buffers.len(),
{
    if buffers.len() == 0 {
        0
    } else {
        submitted_frames(buffers.drop_last(), channels) + (if buffers.last().paused {
            0
        } else {
            whole_frames(buffers.last().capacity, channels)
        })
    }
}

/// After any buffers the frame clock has advanced by the frames submitted
/// while not paused, modulo its 64 bits.
pub proof fn law_queue_clock_counts_submitted_frames(clock: QueueClock, buffers: Seq<Submission>)
    ensures
        clock.after_all(buffers).channels == clock.channels,
        clock.after_all(buffers).frames_played == (clock.frames_played + submitted_frames(
            buffers,
            clock.channels,
        )) % 0x1_0000_0000_0000_0000,
    decreases buffers.len(),
{
    if buffers.len() > 0 {
        let init = buffers.drop_last();
        law_queue_clock_counts_submitted_frames(clock, init);
        crate::time::lemma_count_wraps(
            clock.frames_played + submitted_frames(init, clock.channels),
            whole_frames(buffers.last().capacity, clock.channels),
        );
    }
}

/// While paused the clock stands still.
pub proof fn law_queue_pause_halts_the_clock(clock: QueueClock, capacity: u32)
    ensures
        clock.after(capacity, true) == clock,
{
}

/// The latency of a running stream in nanoseconds: the software floor, and
/// the hardware's frames on top when the HAL reports them.
pub open spec fn latency_nanos(sw_latency_ns: u64, hw_frames: Option<u32>, rate: u32) -> int {
    match hw_frames {
        Some(frames) => crate::time::at_most(
            sw_latency_ns + crate::time::frames_nanos(frames as int, rate as int),
            u64::MAX as int,
        ),
        None => sw_latency_ns as int,
    }
}

/// The latency of a running stream. When the HAL is missing or has no
/// answer, that is the software floor, so the caller always gets some
/// answer.
pub fn latency(sw_latency_ns: u64, hw_frames: Option<u32>, rate: u32) -> (latency: Duration)
    ensures
        latency == crate::time::duration_of_nanos(
            latency_nanos(sw_latency_ns, hw_frames, rate) as u64,
        ),
{
    let total: u64 = match hw_frames {
        Some(frames) => sw_latency_ns.saturating_add(frames_to_nanos(frames as u64, rate)),
        None => sw_latency_ns,
    };
    nanos(total)
}

/// The software floor is a lower bound on the latency, whatever the HAL
/// reports.
pub proof fn law_latency_never_below_the_floor(
    sw_latency_ns: u64,
    hw_frames: Option<u32>,
    rate: u32,
)
    ensures
        sw_latency_ns <= latency_nanos(sw_latency_ns, hw_frames, rate) <= u64::MAX,
{
    if let Some(frames) = hw_frames {
        crate::time::law_frames_nanos_monotonic(0, frames as u64, rate);
        assert(crate::time::frames_nanos(0, rate as int) == 0) by {
            vstd::arithmetic::div_mod::lemma_div_basics(crate::time::at_least(rate as int, 1));
        }
    }
}

} // verus!
