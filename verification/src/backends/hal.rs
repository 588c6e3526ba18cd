//! CoreAudio HAL queries: which properties are asked for, which answers
//! count, and what they add up to.

use vstd::prelude::*;
use vstd::string::*;

use crate::error::Error;
use crate::format::Device;
use crate::text::{push_decimal, text_of_c_buffer};

verus! {

/// `AudioObjectPropertyAddress`: the (selector, scope, element) triple every
/// `AudioObjectGetPropertyData*` call takes.
#[allow(non_snake_case)]
#[derive(Debug, Clone, Copy, PartialEq, Eq, Structural)]
pub struct AudioObjectPropertyAddress {
    pub mSelector: u32,
    pub mScope: u32,
    pub mElement: u32,
}

/// The number that four bytes spell, most significant first.
pub open spec fn big_endian(b: Seq<u8>) -> int {
    b[0] * 0x100_0000 + b[1] * 0x1_0000 + b[2] * 0x100 + b[3]
}

/// FourCC helper: packs four characters big-endian, as Apple's headers do.
pub fn four_cc(b: &[u8; 4]) -> (code: u32)
    ensures
        code == big_endian(b@),
{
    b[0] as u32 * 0x100_0000 + b[1] as u32 * 0x1_0000 + b[2] as u32 * 0x100 + b[3] as u32
}

/// The HAL's root object.
#[allow(non_upper_case_globals)]
pub const kAudioObjectSystemObject: u32 = 1;

/// `'dOut'`.
#[allow(non_upper_case_globals)]
pub const kAudioHardwarePropertyDefaultOutputDevice: u32 = 0x644F_7574;

/// `'dev#'`: all audio devices known to the HAL.
#[allow(non_upper_case_globals)]
pub const kAudioHardwarePropertyDevices: u32 = 0x6465_7623;

/// `'name'`: the friendly name as a plain C string, which spares decoding a
/// `CFString`.
#[allow(non_upper_case_globals)]
pub const kAudioDevicePropertyDeviceName: u32 = 0x6E61_6D65;

/// `'glob'`.
#[allow(non_upper_case_globals)]
pub const kAudioObjectPropertyScopeGlobal: u32 = 0x676C_6F62;

/// `'outp'`.
#[allow(non_upper_case_globals)]
pub const kAudioObjectPropertyScopeOutput: u32 = 0x6F75_7470;

/// The main element.
#[allow(non_upper_case_globals)]
pub const kAudioObjectPropertyElementMain: u32 = 0;

/// `'ltnc'`.
#[allow(non_upper_case_globals)]
pub const kAudioDevicePropertyLatency: u32 = 0x6C74_6E63;

/// `'fsiz'`.
#[allow(non_upper_case_globals)]
pub const kAudioDevicePropertyBufferFrameSize: u32 = 0x6673_697A;

/// `'saft'`.
#[allow(non_upper_case_globals)]
pub const kAudioDevicePropertySafetyOffset: u32 = 0x7361_6674;

/// `'stm#'`.
#[allow(non_upper_case_globals)]
pub const kAudioDevicePropertyStreams: u32 = 0x7374_6D23;

/// `'ltnc'`, on a stream.
#[allow(non_upper_case_globals)]
pub const kAudioStreamPropertyLatency: u32 = 0x6C74_6E63;

/// `'uid '`: the persistent device identifier, a `CFString`.
#[allow(non_upper_case_globals)]
pub const kAudioDevicePropertyDeviceUID: u32 = 0x7569_6420;

/// `'aqcd'`: the queue property that binds a queue to a device UID.
#[allow(non_upper_case_globals)]
pub const kAudioQueueProperty_CurrentDevice: u32 = 0x6171_6364;

/// `'nsrt'`: the rate the device is running at.
#[allow(non_upper_case_globals)]
pub const kAudioDevicePropertyNominalSampleRate: u32 = 0x6E73_7274;

/// `'sfmt'`: a stream's current effective format.
#[allow(non_upper_case_globals)]
pub const kAudioStreamPropertyVirtualFormat: u32 = 0x7366_6D74;

/// `'lpcm'`.
#[allow(non_upper_case_globals)]
pub const kAudioFormatLinearPCM: u32 = 0x6C70_636D;

/// The size of an `AudioObjectID`, in bytes.
pub const OBJECT_ID_BYTES: u32 = 4;

/// The size of an `AudioStreamBasicDescription`, in bytes.
pub const ASBD_BYTES: u32 = 40;

/// The address of a property on the main element.
pub fn address(selector: u32, scope: u32) -> (addr: AudioObjectPropertyAddress)
    ensures
        addr.mSelector == selector,
        addr.mScope == scope,
        addr.mElement == kAudioObjectPropertyElementMain,
{
    AudioObjectPropertyAddress {
        mSelector: selector,
        mScope: scope,
        mElement: kAudioObjectPropertyElementMain,
    }
}

/// A 32-bit answer: it counts when the getter succeeded and wrote exactly
/// four bytes.
pub fn accept_u32(status: i32, size: u32, value: u32) -> (answer: Option<u32>)
    ensures
        answer == (if status == 0 && size == 4 {
            Some(value)
        } else {
            None
        }),
{
    if status == 0 && size == 4 {
        Some(value)
    } else {
        None
    }
}

/// A 64-bit float answer, as its bit pattern: it counts when the getter
/// succeeded and wrote exactly eight bytes.
pub fn accept_f64_bits(status: i32, size: u32, bits: u64) -> (answer: Option<u64>)
    ensures
        answer == (if status == 0 && size == 8 {
            Some(bits)
        } else {
            None
        }),
{
    if status == 0 && size == 8 {
        Some(bits)
    } else {
        None
    }
}

/// The channel count of a stream format answer: it counts when the getter
/// succeeded and wrote a whole format block.
pub fn accept_channels(status: i32, size: u32, channels: u32) -> (answer: Option<u32>)
    ensures
        answer == (if status == 0 && size == ASBD_BYTES {
            Some(channels)
        } else {
            None
        }),
{
    if status == 0 && size == ASBD_BYTES {
        Some(channels)
    } else {
        None
    }
}

/// Whether a device-UID answer counts: the getter succeeded and wrote one
/// pointer, which is not null.
pub fn accept_uid(status: i32, size: u32, pointer_bytes: u32, present: bool) -> (ok: bool)
    ensures
        ok == (status == 0 && present && size == pointer_bytes),
{
    status == 0 && present && size == pointer_bytes
}

/// The default output device: zero when the query fails.
pub fn default_device(status: i32, device: u32) -> (id: u32)
    ensures
        id == (if status != 0 {
            0
        } else {
            device
        }),
{
    if status != 0 {
        0
    } else {
        device
    }
}

/// How many object ids a variable-length answer holds: none unless the size
/// query succeeded and reported at least one.
pub fn object_count(status: i32, size: u32) -> (count: usize)
    ensures
        count == (if status != 0 || size < OBJECT_ID_BYTES {
            0
        } else {
            (size / OBJECT_ID_BYTES) as usize
        }),
{
    if status != 0 || size < OBJECT_ID_BYTES {
        0
    } else {
        (size / OBJECT_ID_BYTES) as usize
    }
}

/// The first stream of a stream-list answer, unless the query failed or the
/// list is empty or begins with no object.
pub fn first_stream(status: i32, streams: &Vec<u32>) -> (stream: Option<u32>)
    ensures
        stream == (if status == 0 && streams@.len() > 0 && streams@[0] != 0 {
            Some(streams@[0])
        } else {
            None
        }),
{
    if status != 0 || streams.len() == 0 || streams[0] == 0 {
        None
    } else {
        Some(streams[0])
    }
}

/// The objects of a list that are objects at all.
pub open spec fn known_objects(ids: Seq<u32>) -> Seq<u32> {
    ids.filter(|id: u32| id != 0)
}

/// The devices of a device-list answer: none when the query failed, else
/// every id that is not zero, in order.
pub fn all_devices(status: i32, ids: &Vec<u32>) -> (devices: Vec<u32>)
    ensures
        devices@ == (if status != 0 {
            seq![]
        } else {
            known_objects(ids@)
        }),
{
    let mut devices: Vec<u32> = Vec::new();
    if status != 0 {
        assert(devices@ =~= seq![]);
        return devices;
    }
    let ghost known = |id: u32| id != 0;
    let mut i: usize = 0;
    proof {
        reveal(Seq::filter);
        assert(ids@.take(0) =~= Seq::<u32>::empty());
    }
    while i < ids.len()
        invariant
            i <= ids@.len(),
            known == |id: u32| id != 0,
            devices@ == ids@.take(i as int).filter(known),
        decreases ids@.len() - i,
    {
        proof {
            reveal(Seq::filter);
            let prefix = ids@.take(i + 1);
            assert(prefix.drop_last() =~= ids@.take(i as int));
            assert(prefix.last() == ids@[i as int]);
        }
        if ids[i] != 0 {
            devices.push(ids[i]);
        }
        i = i + 1;
    }
    assert(ids@.take(i as int) =~= ids@);
    devices
}

/// Whether a device can play: its output scope has at least one stream.
/// Pure-input devices report none.
pub fn is_output_device(status: i32, size: u32) -> (output: bool)
    ensures
        output == (status == 0 && size >= OBJECT_ID_BYTES),
{
    status == 0 && size >= OBJECT_ID_BYTES
}

/// The most bytes that are read of a device name.
pub const NAME_CAP: u32 = 4096;

/// How large a buffer to read a device name into; none when the HAL reports
/// no name. Capped defensively: a sane device name is well under 1 KiB.
pub fn name_capacity(status: i32, size: u32) -> (capacity: Option<u32>)
    ensures
        capacity == (if status != 0 || size == 0 {
            None
        } else {
            Some(crate::time::at_most(size as int, NAME_CAP as int) as u32)
        }),
{
    if status != 0 || size == 0 {
        None
    } else if size > NAME_CAP {
        Some(NAME_CAP)
    } else {
        Some(size)
    }
}

/// The friendly name in a buffer that the HAL wrote: a C string, or nothing
/// when the getter failed.
pub fn device_name(status: i32, buf: &[u8]) -> (name: String)
    ensures
        name@ == (if status != 0 {
            ""@
        } else {
            crate::text::c_buffer_text(buf@)
        }),
{
    if status != 0 {
        "".to_owned()
    } else {
        text_of_c_buffer(buf)
    }
}

/// A device that the HAL knows: its id, whether it can play, and its name.
#[derive(Debug)]
pub struct HalDevice {
    pub id: u32,
    pub output: bool,
    pub name: String,
}

impl HalDevice {
    /// The device entry this comes to: the id in decimal as the opaque
    /// token, and the default tag for the system's default output.
    pub open spec fn entry(self, default: u32) -> (Seq<char>, Seq<char>, bool) {
        (crate::text::decimal(self.id as nat), self.name@, self.id == default && default != 0)
    }
}

/// The entries of the devices that can play, in order.
pub open spec fn output_entries(devices: Seq<HalDevice>, default: u32) -> Seq<
    (Seq<char>, Seq<char>, bool),
>
    decreases devices.len(),
{
    if devices.len() == 0 {
        seq![]
    } else if devices.last().output {
        output_entries(devices.drop_last(), default).push(devices.last().entry(default))
    } else {
        output_entries(devices.drop_last(), default)
    }
}

/// The decimal token of an object id.
pub fn id_token(id: u32) -> (token: String)
    ensures
        token@ == crate::text::decimal(id as nat),
{
    let mut token = String::new();
    push_decimal(&mut token, id as u64);
    assert(token@ =~= crate::text::decimal(id as nat));
    token
}

/// Enumerate output-capable devices: keeps the ones with output streams,
/// labels each with its name, and tags the system default. `loaded` says
/// whether the HAL could be loaded at all.
pub fn enumerate_output_devices(
    loaded: bool,
    devices: &Vec<HalDevice>,
    default: u32,
) -> (list: Result<Vec<Device>, Error>)
    ensures
        match list {
            Ok(l) => loaded && crate::format::lists(l@, output_entries(devices@, default)),
            Err(e) => !loaded && e.is_not_implemented("coreaudio"@),
        },
{
    if !loaded {
        return Err(Error::NotImplemented("coreaudio"));
    }
    let mut list: Vec<Device> = Vec::new();
    let mut i: usize = 0;
    assert(devices@.take(0) =~= Seq::<HalDevice>::empty());
    while i < devices.len()
        invariant
            i <= devices@.len(),
            crate::format::lists(list@, output_entries(devices@.take(i as int), default)),
        decreases devices@.len() - i,
    {
        let device = &devices[i];
        proof {
            let prefix = devices@.take(i + 1);
            assert(prefix.drop_last() =~= devices@.take(i as int));
            assert(prefix.last() == devices@[i as int]);
        }
        if device.output {
            list.push(
                Device {
                    id: id_token(device.id),
                    name: device.name.clone(),
                    is_default: device.id == default && default != 0,
                },
            );
        }
        i = i + 1;
    }
    assert(devices@.take(i as int) =~= devices@);
    Ok(list)
}

/// The default output device by one direct query instead of a walk over
/// every device. `name` is the name of the device `default`.
pub fn default_output_device(
    loaded: bool,
    default: u32,
    name: String,
) -> (device: Result<Option<Device>, Error>)
    ensures
        match device {
            Ok(Some(d)) => loaded && default != 0 && d.is(
                crate::text::decimal(default as nat),
                name@,
                true,
            ),
            Ok(None) => loaded && default == 0,
            Err(e) => !loaded && e.is_not_implemented("coreaudio"@),
        },
{
    if !loaded {
        return Err(Error::NotImplemented("coreaudio"));
    }
    if default == 0 {
        return Ok(None);
    }
    Ok(Some(Device { id: id_token(default), name, is_default: true }))
}

/// The enumeration and the direct query agree: the one device that the
/// enumeration tags as default has the id and the name that the direct
/// query reports. And when the HAL lists a playing default output, the
/// enumeration tags it.
pub proof fn law_default_query_matches_enumeration(devices: Seq<HalDevice>, default: u32, i: int)
    requires
        0 <= i < devices.len(),
        devices[i].output,
        devices[i].id == default,
        default != 0,
    ensures
        output_entries(devices, default).contains(
            (crate::text::decimal(default as nat), devices[i].name@, true),
        ),
    decreases devices.len(),
{
    let init = devices.drop_last();
    if i == devices.len() - 1 {
        assert(output_entries(devices, default).last() == devices[i].entry(default));
    } else {
        law_default_query_matches_enumeration(init, default, i);
        let entry = (crate::text::decimal(default as nat), devices[i].name@, true);
        let k = choose|k: int|
            0 <= k < output_entries(init, default).len() && output_entries(init, default)[k]
                == entry;
        assert(output_entries(devices, default)[k] == entry);
    }
}

/// Only the default output is tagged: a tagged entry has the id that the
/// direct query reports.
pub proof fn law_only_the_default_is_tagged(devices: Seq<HalDevice>, default: u32, i: int)
    requires
        0 <= i < output_entries(devices, default).len(),
        output_entries(devices, default)[i].2,
    ensures
        default != 0,
        output_entries(devices, default)[i].0 == crate::text::decimal(default as nat),
        exists|k: int|
            0 <= k < devices.len() && (#[trigger] devices[k]).id == default && devices[k].output
                && output_entries(devices, default)[i].1 == devices[k].name@,
    decreases devices.len(),
{
    if devices.len() > 0 {
        let init = devices.drop_last();
        if i < output_entries(init, default).len() {
            law_only_the_default_is_tagged(init, default, i);
            let k = choose|k: int|
                0 <= k < init.len() && (#[trigger] init[k]).id == default && init[k].output
                    && output_entries(init, default)[i].1 == init[k].name@;
            assert(devices[k].id == default);
        } else {
            assert(devices[devices.len() - 1].id == default);
        }
    }
}

/// When the HAL lists every device once, at most one entry is tagged as the
/// default.
pub proof fn law_hal_at_most_one_default(devices: Seq<HalDevice>, default: u32, i: int, j: int)
    requires
        0 <= i < j < output_entries(devices, default).len(),
        forall|a: int, b: int|
            0 <= a < b < devices.len() ==> (#[trigger] devices[a]).id != (#[trigger] devices[b]).id,
    ensures
        !(output_entries(devices, default)[i].2 && output_entries(devices, default)[j].2),
    decreases devices.len(),
{
    if devices.len() > 0 {
        let init = devices.drop_last();
        if j < output_entries(init, default).len() {
            law_hal_at_most_one_default(init, default, i, j);
        } else if output_entries(devices, default)[i].2 {
            law_only_the_default_is_tagged(init, default, i);
            let k = choose|k: int| 0 <= k < init.len() && (#[trigger] init[k]).id == default;
            assert(devices[k].id != devices[devices.len() - 1].id);
        }
    }
}

/// Whether a device is the system's default output, and can play.
pub open spec fn is_playing_default(device: HalDevice, default: u32) -> bool {
    device.output && device.id == default && default != 0
}

proof fn lemma_no_default_among(devices: Seq<HalDevice>, default: u32)
    requires
        forall|j: int| 0 <= j < devices.len() ==> !is_playing_default(#[trigger] devices[j], default),
    ensures
        forall|j: int|
            0 <= j < output_entries(devices, default).len() ==> !(#[trigger] output_entries(
                devices,
                default,
            )[j]).2,
    decreases devices.len(),
{
    if devices.len() > 0 {
        let shorter = output_entries(devices.drop_last(), default);
        assert(!is_playing_default(devices[devices.len() - 1], default));
        lemma_no_default_among(devices.drop_last(), default);
        assert forall|j: int| 0 <= j < output_entries(devices, default).len() implies !(
        #[trigger] output_entries(devices, default)[j]).2 by {
            if j < shorter.len() {
                assert(output_entries(devices, default)[j] == shorter[j]);
            }
        }
    }
}

/// Where the HAL lists the default output once, as a device that can play,
/// exactly one device of the enumeration is the default.
pub proof fn law_hal_exactly_one_default(devices: Seq<HalDevice>, default: u32, k: int)
    requires
        0 <= k < devices.len(),
        is_playing_default(devices[k], default),
        forall|j: int|
            0 <= j < devices.len() && j != k ==> !is_playing_default(
                #[trigger] devices[j],
                default,
            ),
    ensures
        crate::format::has_one_default(output_entries(devices, default)),
    decreases devices.len(),
{
    let init = devices.drop_last();
    let last = devices.len() - 1;
    let list = output_entries(devices, default);
    let shorter = output_entries(init, default);
    if k == last {
        assert forall|j: int| 0 <= j < init.len() implies !is_playing_default(
            #[trigger] init[j],
            default,
        ) by {
            assert(init[j] == devices[j]);
        }
        lemma_no_default_among(init, default);
        assert forall|j: int| 0 <= j < list.len() && j != list.len() - 1 implies !(
        #[trigger] list[j]).2 by {
            assert(list[j] == shorter[j]);
        }
        assert(crate::format::is_the_one_default(list, list.len() - 1));
    } else {
        assert forall|j: int| 0 <= j < init.len() && j != k implies !is_playing_default(
            #[trigger] init[j],
            default,
        ) by {
            assert(init[j] == devices[j]);
        }
        assert(init[k] == devices[k]);
        law_hal_exactly_one_default(init, default, k);
        assert(!is_playing_default(devices[last], default));
        let i = choose|i: int| crate::format::is_the_one_default(shorter, i);
        assert forall|j: int| 0 <= j < list.len() && j != i implies !(#[trigger] list[j]).2 by {
            if j < shorter.len() {
                assert(list[j] == shorter[j]);
            }
        }
        assert(list[i] == shorter[i]);
        assert(crate::format::is_the_one_default(list, i));
    }
}

/// Every id that the enumeration hands out reads back as the device it came
/// from, so it can be piped straight into an opening.
pub proof fn law_enumerated_ids_route_back(devices: Seq<HalDevice>, default: u32, i: int)
    requires
        0 <= i < output_entries(devices, default).len(),
    ensures
        exists|k: int|
            0 <= k < devices.len() && (#[trigger] devices[k]).output && crate::text::parsed_u32(
                output_entries(devices, default)[i].0,
            ) == Some(devices[k].id),
    decreases devices.len(),
{
    if devices.len() > 0 {
        let init = devices.drop_last();
        if i < output_entries(init, default).len() {
            law_enumerated_ids_route_back(init, default, i);
            let k = choose|k: int|
                0 <= k < init.len() && (#[trigger] init[k]).output && crate::text::parsed_u32(
                    output_entries(init, default)[i].0,
                ) == Some(init[k].id);
            assert(devices[k].output);
        } else {
            let last = devices.len() - 1;
            crate::text::law_decimal_reads_back(devices[last].id);
            assert(devices[last].output);
        }
    }
}

/// A question to the HAL.
#[derive(Debug, Clone, Copy, PartialEq, Eq, Structural)]
pub enum HalQuery {
    /// The current default output device; zero counts as no answer.
    DefaultOutput,
    /// A 32-bit property of an object.
    Value { object: u32, selector: u32, scope: u32 },
    /// The first output stream of a device.
    FirstStream(u32),
    /// Nothing more.
    Nothing,
}

/// Where the query of the hardware latency stands.
#[derive(Debug, Clone, Copy, PartialEq, Eq, Structural)]
pub enum LatencyStage {
    Default,
    DeviceLatencyOutput,
    DeviceLatencyGlobal,
    BufferOutput,
    BufferGlobal,
    SafetyOffset,
    Stream,
    StreamLatency,
    Done,
    /// There is no device to query.
    Unresolved,
}

/// A query of the hardware-side latency in progress: device latency, buffer
/// frame size, safety offset and stream latency.
#[derive(Debug, Clone, Copy, PartialEq, Eq, Structural)]
pub struct LatencyQuery {
    pub stage: LatencyStage,
    pub device: u32,
    pub device_latency: u32,
    pub buffer_frames: u32,
    pub safety_offset: u32,
    pub stream: u32,
    pub stream_latency: u32,
}

impl LatencyQuery {
    /// The query for a queue bound to `bound_device`, or following the
    /// default output when it is bound to none.
    pub open spec fn started(bound_device: Option<u32>) -> LatencyQuery {
        let device = match bound_device {
            Some(d) => d,
            None => 0,
        };
        LatencyQuery {
            stage: if device != 0 {
                LatencyStage::DeviceLatencyOutput
            } else {
                LatencyStage::Default
            },
            device,
            device_latency: 0,
            buffer_frames: 0,
            safety_offset: 0,
            stream: 0,
            stream_latency: 0,
        }
    }

    /// The question that the current stage asks.
    pub open spec fn due(self) -> HalQuery {
        match self.stage {
            LatencyStage::Default => HalQuery::DefaultOutput,
            LatencyStage::DeviceLatencyOutput => HalQuery::Value {
                object: self.device,
                selector: kAudioDevicePropertyLatency,
                scope: kAudioObjectPropertyScopeOutput,
            },
            LatencyStage::DeviceLatencyGlobal => HalQuery::Value {
                object: self.device,
                selector: kAudioDevicePropertyLatency,
                scope: kAudioObjectPropertyScopeGlobal,
            },
            LatencyStage::BufferOutput => HalQuery::Value {
                object: self.device,
                selector: kAudioDevicePropertyBufferFrameSize,
                scope: kAudioObjectPropertyScopeOutput,
            },
            LatencyStage::BufferGlobal => HalQuery::Value {
                object: self.device,
                selector: kAudioDevicePropertyBufferFrameSize,
                scope: kAudioObjectPropertyScopeGlobal,
            },
            LatencyStage::SafetyOffset => HalQuery::Value {
                object: self.device,
                selector: kAudioDevicePropertySafetyOffset,
                scope: kAudioObjectPropertyScopeOutput,
            },
            LatencyStage::Stream => HalQuery::FirstStream(self.device),
            LatencyStage::StreamLatency => HalQuery::Value {
                object: self.stream,
                selector: kAudioStreamPropertyLatency,
                scope: kAudioObjectPropertyScopeGlobal,
            },
            LatencyStage::Done => HalQuery::Nothing,
            LatencyStage::Unresolved => HalQuery::Nothing,
        }
    }

    /// The query after an answer. A property that the output scope does not
    /// answer is asked on the global scope where that makes sense, and
    /// counts as zero when nobody answers.
    pub open spec fn after(self, answer: Option<u32>) -> LatencyQuery {
        let value = match answer {
            Some(v) => v,
            None => 0,
        };
        match self.stage {
            LatencyStage::Default => if value == 0 {
                LatencyQuery { stage: LatencyStage::Unresolved, ..self }
            } else {
                LatencyQuery {
                    stage: LatencyStage::DeviceLatencyOutput,
                    device: value,
                    ..self
                }
            },
            LatencyStage::DeviceLatencyOutput => LatencyQuery {
                stage: if answer is Some {
                    LatencyStage::BufferOutput
                } else {
                    LatencyStage::DeviceLatencyGlobal
                },
                device_latency: value,
                ..self
            },
            LatencyStage::DeviceLatencyGlobal => LatencyQuery {
                stage: LatencyStage::BufferOutput,
                device_latency: value,
                ..self
            },
            LatencyStage::BufferOutput => LatencyQuery {
                stage: if answer is Some {
                    LatencyStage::SafetyOffset
                } else {
                    LatencyStage::BufferGlobal
                },
                buffer_frames: value,
                ..self
            },
            LatencyStage::BufferGlobal => LatencyQuery {
                stage: LatencyStage::SafetyOffset,
                buffer_frames: value,
                ..self
            },
            LatencyStage::SafetyOffset => LatencyQuery {
                stage: LatencyStage::Stream,
                safety_offset: value,
                ..self
            },
            LatencyStage::Stream => match answer {
                Some(stream) => LatencyQuery {
                    stage: LatencyStage::StreamLatency,
                    stream,
                    ..self
                },
                None => LatencyQuery { stage: LatencyStage::Done, ..self },
            },
            LatencyStage::StreamLatency => LatencyQuery {
                stage: LatencyStage::Done,
                stream_latency: value,
                ..self
            },
            LatencyStage::Done => self,
            LatencyStage::Unresolved => self,
        }
    }

    /// The sum of the four parts, saturating.
    pub open spec fn total(self) -> u32 {
        crate::time::at_most(
            self.device_latency + self.buffer_frames + self.safety_offset + self.stream_latency,
            u32::MAX as int,
        ) as u32
    }

    /// Begins the query.
    pub fn start(bound_device: Option<u32>) -> (query: LatencyQuery)
        ensures
            query == LatencyQuery::started(bound_device),
    {
        let device: u32 = match bound_device {
            Some(d) => d,
            None => 0,
        };
        LatencyQuery {
            stage: if device != 0 {
                LatencyStage::DeviceLatencyOutput
            } else {
                LatencyStage::Default
            },
            device,
            device_latency: 0,
            buffer_frames: 0,
            safety_offset: 0,
            stream: 0,
            stream_latency: 0,
        }
    }

    /// The question to ask next.
    pub fn ask(&self) -> (query: HalQuery)
        ensures
            query == self.due(),
    {
        let (object, selector, scope) = match self.stage {
            LatencyStage::Default => {
                return HalQuery::DefaultOutput;
            },
            LatencyStage::Stream => {
                return HalQuery::FirstStream(self.device);
            },
            LatencyStage::Done | LatencyStage::Unresolved => {
                return HalQuery::Nothing;
            },
            LatencyStage::DeviceLatencyOutput => (
                self.device,
                kAudioDevicePropertyLatency,
                kAudioObjectPropertyScopeOutput,
            ),
            LatencyStage::DeviceLatencyGlobal => (
                self.device,
                kAudioDevicePropertyLatency,
                kAudioObjectPropertyScopeGlobal,
            ),
            LatencyStage::BufferOutput => (
                self.device,
                kAudioDevicePropertyBufferFrameSize,
                kAudioObjectPropertyScopeOutput,
            ),
            LatencyStage::BufferGlobal => (
                self.device,
                kAudioDevicePropertyBufferFrameSize,
                kAudioObjectPropertyScopeGlobal,
            ),
            LatencyStage::SafetyOffset => (
                self.device,
                kAudioDevicePropertySafetyOffset,
                kAudioObjectPropertyScopeOutput,
            ),
            LatencyStage::StreamLatency => (
                self.stream,
                kAudioStreamPropertyLatency,
                kAudioObjectPropertyScopeGlobal,
            ),
        };
        HalQuery::Value { object, selector, scope }
    }

    /// Takes the answer to the current question.
    pub fn step(self, answer: Option<u32>) -> (next: LatencyQuery)
        ensures
            next == self.after(answer),
    {
        let value: u32 = match answer {
            Some(v) => v,
            None => 0,
        };
        let mut next = self;
        match self.stage {
            LatencyStage::Default => {
                if value == 0 {
                    next.stage = LatencyStage::Unresolved;
                } else {
                    next.stage = LatencyStage::DeviceLatencyOutput;
                    next.device = value;
                }
            },
            LatencyStage::DeviceLatencyOutput => {
                next.stage = if answer.is_some() {
                    LatencyStage::BufferOutput
                } else {
                    LatencyStage::DeviceLatencyGlobal
                };
                next.device_latency = value;
            },
            LatencyStage::DeviceLatencyGlobal => {
                next.stage = LatencyStage::BufferOutput;
                next.device_latency = value;
            },
            LatencyStage::BufferOutput => {
                next.stage = if answer.is_some() {
                    LatencyStage::SafetyOffset
                } else {
                    LatencyStage::BufferGlobal
                };
                next.buffer_frames = value;
            },
            LatencyStage::BufferGlobal => {
                next.stage = LatencyStage::SafetyOffset;
                next.buffer_frames = value;
            },
            LatencyStage::SafetyOffset => {
                next.stage = LatencyStage::Stream;
                next.safety_offset = value;
            },
            LatencyStage::Stream => {
                if answer.is_some() {
                    next.stage = LatencyStage::StreamLatency;
                    next.stream = value;
                } else {
                    next.stage = LatencyStage::Done;
                }
            },
            LatencyStage::StreamLatency => {
                next.stage = LatencyStage::Done;
                next.stream_latency = value;
            },
            LatencyStage::Done | LatencyStage::Unresolved => {},
        }
        next
    }

    /// The total hardware-side latency in frames, once the query is done;
    /// `None` when there was no device to ask, and while it goes on.
    pub fn frames(&self) -> (frames: Option<u32>)
        ensures
            frames == (if self.stage is Done {
                Some(self.total())
            } else {
                None
            }),
    {
        match self.stage {
            LatencyStage::Done => Some(
                self.device_latency.saturating_add(self.buffer_frames).saturating_add(
                    self.safety_offset,
                ).saturating_add(self.stream_latency),
            ),
            _ => None,
        }
    }

    /// An upper bound on the questions still to ask.
    pub open spec fn remaining(self) -> nat {
        match self.stage {
            LatencyStage::Default => 8,
            LatencyStage::DeviceLatencyOutput => 7,
            LatencyStage::DeviceLatencyGlobal => 6,
            LatencyStage::BufferOutput => 5,
            LatencyStage::BufferGlobal => 4,
            LatencyStage::SafetyOffset => 3,
            LatencyStage::Stream => 2,
            LatencyStage::StreamLatency => 1,
            LatencyStage::Done => 0,
            LatencyStage::Unresolved => 0,
        }
    }

    /// The query carried to its end against a HAL that answers every
    /// question with `hal`.
    pub open spec fn settle(self, hal: spec_fn(HalQuery) -> Option<u32>) -> LatencyQuery
        decreases self.remaining(),
    {
        if self.remaining() == 0 {
            self
        } else {
            self.after(hal(self.due())).settle(hal)
        }
    }
}

/// A property of a device: the output scope's answer, else the global
/// scope's, else zero.
pub open spec fn scoped_value(
    hal: spec_fn(HalQuery) -> Option<u32>,
    object: u32,
    selector: u32,
) -> int {
    match hal(HalQuery::Value { object, selector, scope: kAudioObjectPropertyScopeOutput }) {
        Some(v) => v as int,
        None => match hal(
            HalQuery::Value { object, selector, scope: kAudioObjectPropertyScopeGlobal },
        ) {
            Some(v) => v as int,
            None => 0,
        },
    }
}

/// The latency of a device's first output stream, or zero.
pub open spec fn stream_value(hal: spec_fn(HalQuery) -> Option<u32>, device: u32) -> int {
    match hal(HalQuery::FirstStream(device)) {
        Some(stream) => match hal(
            HalQuery::Value {
                object: stream,
                selector: kAudioStreamPropertyLatency,
                scope: kAudioObjectPropertyScopeGlobal,
            },
        ) {
            Some(v) => v as int,
            None => 0,
        },
        None => 0,
    }
}

/// The safety offset of a device on the output scope, or zero.
pub open spec fn safety_value(hal: spec_fn(HalQuery) -> Option<u32>, device: u32) -> int {
    match hal(
        HalQuery::Value {
            object: device,
            selector: kAudioDevicePropertySafetyOffset,
            scope: kAudioObjectPropertyScopeOutput,
        },
    ) {
        Some(v) => v as int,
        None => 0,
    }
}

/// The hardware latency of a device: device latency, buffer frame size,
/// safety offset and stream latency, saturating.
pub open spec fn hardware_latency(hal: spec_fn(HalQuery) -> Option<u32>, device: u32) -> int {
    crate::time::at_most(
        scoped_value(hal, device, kAudioDevicePropertyLatency) + scoped_value(
            hal,
            device,
            kAudioDevicePropertyBufferFrameSize,
        ) + safety_value(hal, device) + stream_value(hal, device),
        u32::MAX as int,
    )
}

/// The device to ask: the one the queue is bound to, else the default
/// output, if there is one.
pub open spec fn queried_device(
    hal: spec_fn(HalQuery) -> Option<u32>,
    bound_device: Option<u32>,
) -> Option<u32> {
    match bound_device {
        Some(d) if d != 0 => Some(d),
        _ => match hal(HalQuery::DefaultOutput) {
            Some(d) if d != 0 => Some(d),
            _ => None,
        },
    }
}

/// Whatever the HAL answers, the query comes to an end, and its result is
/// the hardware latency of the device that the queue plays through: the sum
/// of the four parts, a missing one counting as zero.
pub proof fn law_latency_query_sums_the_pipeline(
    hal: spec_fn(HalQuery) -> Option<u32>,
    bound_device: Option<u32>,
)
    ensures
        ({
            let end = LatencyQuery::started(bound_device).settle(hal);
            match queried_device(hal, bound_device) {
                Some(device) => end.stage is Done && end.device == device && end.total()
                    == hardware_latency(hal, device),
                None => end.stage is Unresolved,
            }
        }),
{
    reveal_with_fuel(LatencyQuery::settle, 9);
}

} // verus!
