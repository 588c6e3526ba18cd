//! What is asked of the CoreAudio HAL, and what its answers come to.

#![allow(unused_imports)]

use crate::backends::hal::{
    accept_channels, accept_f64_bits, accept_u32, accept_uid, address, all_devices,
    default_device, default_output_device, device_name, enumerate_output_devices, first_stream,
    four_cc, id_token, is_output_device, name_capacity, object_count, AudioObjectPropertyAddress,
    HalDevice, HalQuery, LatencyQuery, LatencyStage,
};
use crate::backends::hal_format::{
    device_of_id, round_f64, FormatAnswer, FormatQuery, FormatQuestion, FormatStage,
};
use crate::error::Error;
use crate::format::{Device, StreamFormat};
use crate::text::{parse_u32, text_of_c_buffer};
use vstd::arithmetic::power2::pow2;
use vstd::prelude::*;
use vstd::string::*;

verus! {

/// Four bytes are packed with the first in the highest place.
pub proof fn law_four_bytes_are_packed_in_order(b: [u8; 4], code: u32)
    requires
        call_ensures(four_cc, (&b,), code),
    ensures
        code / 0x100_0000 == b@[0],
        code / 0x1_0000 % 0x100 == b@[1],
        code / 0x100 % 0x100 == b@[2],
        code % 0x100 == b@[3],
{
    let low = b@[1] * 0x1_0000 + b@[2] * 0x100 + b@[3];
    let middle = b@[0] * 0x100 + b@[1];
    let high = b@[0] * 0x1_0000 + b@[1] * 0x100 + b@[2];
    assert(code == b@[0] * 0x100_0000 + low);
    assert(0 <= low < 0x100_0000);
    assert(code == middle * 0x1_0000 + (b@[2] * 0x100 + b@[3]));
    assert(code / 0x1_0000 == middle);
    assert(code == high * 0x100 + b@[3]);
    assert(code / 0x100 == high);
    assert(high == middle * 0x100 + b@[2]);
}

/// The constants spell the four characters that Apple's headers give them.
pub proof fn law_property_codes_spell_their_names()
    ensures
        crate::backends::hal::kAudioObjectSystemObject == 1,
        crate::backends::hal::kAudioHardwarePropertyDefaultOutputDevice == 0x644F_7574,
        crate::backends::hal::kAudioHardwarePropertyDevices == 0x6465_7623,
        crate::backends::hal::kAudioDevicePropertyDeviceName == 0x6E61_6D65,
        crate::backends::hal::kAudioObjectPropertyScopeGlobal == 0x676C_6F62,
        crate::backends::hal::kAudioObjectPropertyScopeOutput == 0x6F75_7470,
        crate::backends::hal::kAudioObjectPropertyElementMain == 0,
        crate::backends::hal::kAudioDevicePropertyLatency == 0x6C74_6E63,
        crate::backends::hal::kAudioDevicePropertyBufferFrameSize == 0x6673_697A,
        crate::backends::hal::kAudioDevicePropertySafetyOffset == 0x7361_6674,
        crate::backends::hal::kAudioDevicePropertyStreams == 0x7374_6D23,
        crate::backends::hal::kAudioStreamPropertyLatency == 0x6C74_6E63,
        crate::backends::hal::kAudioDevicePropertyDeviceUID == 0x7569_6420,
        crate::backends::hal::kAudioQueueProperty_CurrentDevice == 0x6171_6364,
        crate::backends::hal::kAudioDevicePropertyNominalSampleRate == 0x6E73_7274,
        crate::backends::hal::kAudioStreamPropertyVirtualFormat == 0x7366_6D74,
        crate::backends::hal::kAudioFormatLinearPCM == 0x6C70_636D,
        crate::backends::hal::OBJECT_ID_BYTES == 4,
        crate::backends::hal::ASBD_BYTES == 40,
        crate::backends::hal::NAME_CAP == 4096,
        crate::backends::coreaudio::kAudioFormatFlagIsFloat == 1,
        crate::backends::coreaudio::kAudioFormatFlagIsPacked == 8,
        crate::backends::coreaudio::NUM_BUFFERS == 3,
        crate::backends::coreaudio::PROBE_RATE == 44_100,
        crate::backends::coreaudio::PROBE_CHANNELS == 2,
        crate::backends::hal_format::DEFAULT_CHANNELS == 2,
{
}

/// A property is addressed on the main element.
pub proof fn law_properties_are_on_the_main_element(
    selector: u32,
    scope: u32,
    addr: AudioObjectPropertyAddress,
)
    requires
        call_ensures(address, (selector, scope), addr),
    ensures
        addr.mSelector == selector && addr.mScope == scope && addr.mElement == 0,
{
}

/// An answer counts when the getter succeeded and wrote as many bytes as
/// such an answer has, and is then what it wrote.
pub proof fn law_whole_answers_count(
    status: i32,
    size: u32,
    value: u32,
    bits: u64,
    pointer_bytes: u32,
    present: bool,
    number: Option<u32>,
    rate: Option<u64>,
    channels: Option<u32>,
    uid: bool,
)
    requires
        call_ensures(accept_u32, (status, size, value), number),
        call_ensures(accept_f64_bits, (status, size, bits), rate),
        call_ensures(accept_channels, (status, size, value), channels),
        call_ensures(accept_uid, (status, size, pointer_bytes, present), uid),
    ensures
        number is Some <==> status == 0 && size == 4,
        number matches Some(v) ==> v == value,
        rate is Some <==> status == 0 && size == 8,
        rate matches Some(v) ==> v == bits,
        channels is Some <==> status == 0 && size == 40,
        channels matches Some(v) ==> v == value,
        uid <==> status == 0 && present && size == pointer_bytes,
{
}

/// The default device is the one that the HAL reports, and none when the
/// query fails.
pub proof fn law_the_default_device_is_the_reported_one(status: i32, device: u32, id: u32)
    requires
        call_ensures(default_device, (status, device), id),
    ensures
        status == 0 ==> id == device,
        status != 0 ==> id == 0,
{
}

/// A list has as many objects as its bytes hold whole ids; a device that has
/// one stream at least can play.
pub proof fn law_object_lists_are_counted_in_ids(
    status: i32,
    size: u32,
    count: usize,
    plays: bool,
)
    requires
        call_ensures(object_count, (status, size), count),
        call_ensures(is_output_device, (status, size), plays),
    ensures
        status == 0 ==> count * 4 <= size < (count + 1) * 4,
        status != 0 ==> count == 0,
        plays <==> count > 0,
{
}

/// The first stream is the head of the list, if that is an object.
pub proof fn law_the_first_stream_heads_the_list(
    status: i32,
    streams: Vec<u32>,
    stream: Option<u32>,
)
    requires
        call_ensures(first_stream, (status, &streams), stream),
    ensures
        stream is Some <==> status == 0 && streams@.len() > 0 && streams@[0] != 0,
        stream matches Some(s) ==> s == streams@[0],
{
}

/// One id more at the end adds that device at the end, unless it is zero; a
/// failed query lists nothing.
pub proof fn law_each_id_adds_its_device(
    status: i32,
    none: Vec<u32>,
    ids: Vec<u32>,
    longer: Vec<u32>,
    id: u32,
    empty: Vec<u32>,
    devices: Vec<u32>,
    grown: Vec<u32>,
)
    requires
        none@.len() == 0,
        longer@ == ids@.push(id),
        call_ensures(all_devices, (status, &none), empty),
        call_ensures(all_devices, (status, &ids), devices),
        call_ensures(all_devices, (status, &longer), grown),
    ensures
        empty@.len() == 0,
        status != 0 ==> devices@.len() == 0,
        status == 0 && id != 0 ==> grown@ == devices@.push(id),
        status == 0 && id == 0 ==> grown@ == devices@,
{
    reveal(Seq::filter);
    assert(longer@.drop_last() =~= ids@);
    assert(none@ =~= Seq::<u32>::empty());
}

/// A name is read into a buffer of the reported size, but of 4096 bytes at
/// most; a name of no bytes is not read.
pub proof fn law_names_are_read_up_to_a_page(status: i32, size: u32, capacity: Option<u32>)
    requires
        call_ensures(name_capacity, (status, size), capacity),
    ensures
        capacity is Some <==> status == 0 && size > 0,
        capacity matches Some(n) ==> (size <= 4096 ==> n == size) && (size > 4096 ==> n == 4096),
{
}

/// A name is the C string in the buffer, and nothing when the getter failed.
pub proof fn law_names_are_c_strings(status: i32, buf: &[u8], name: String, text: String)
    requires
        call_ensures(device_name, (status, buf), name),
        call_ensures(text_of_c_buffer, (buf,), text),
    ensures
        status == 0 ==> name@ == text@,
        status != 0 ==> name@.len() == 0,
{
    reveal_strlit("");
}

/// The token of a device is its number in decimal, which reads back as it.
pub proof fn law_tokens_read_back(id: u32, token: String, text: &str, number: Option<u32>)
    requires
        call_ensures(id_token, (id,), token),
        text@ == token@,
        call_ensures(parse_u32, (text,), number),
    ensures
        number == Some(id),
        token@ == crate::text::decimal(id as nat),
{
    crate::text::law_decimal_reads_back(id);
}

/// One device more at the end adds its entry at the end of the list if it
/// can play, under its number and name and as the default exactly when it is
/// the default output; without a HAL there is no list.
pub proof fn law_each_playing_device_is_listed(
    loaded: bool,
    default: u32,
    none: Vec<HalDevice>,
    devices: Vec<HalDevice>,
    longer: Vec<HalDevice>,
    device: HalDevice,
    empty: Result<Vec<Device>, Error>,
    list: Result<Vec<Device>, Error>,
    grown: Result<Vec<Device>, Error>,
)
    requires
        none@.len() == 0,
        longer@ == devices@.push(device),
        call_ensures(enumerate_output_devices, (loaded, &none, default), empty),
        call_ensures(enumerate_output_devices, (loaded, &devices, default), list),
        call_ensures(enumerate_output_devices, (loaded, &longer, default), grown),
    ensures
        list is Ok <==> loaded,
        list matches Err(e) ==> (e matches Error::NotImplemented(backend) && backend@
            == "coreaudio"@),
        loaded ==> empty is Ok && list is Ok && grown is Ok && {
            let before = list->Ok_0@;
            let after = grown->Ok_0@;
            &&& empty->Ok_0@.len() == 0
            &&& after.len() == before.len() + (if device.output {
                1int
            } else {
                0int
            })
            &&& forall|i: int|
                0 <= i < before.len() ==> crate::laws::alsa::alike(#[trigger] after[i], before[i])
            &&& device.output ==> after.last().id@ == crate::text::decimal(device.id as nat)
                && after.last().name@ == device.name@ && (after.last().is_default <==> device.id
                == default && default != 0)
        },
{
    if loaded {
        assert(longer@.drop_last() =~= devices@);
        let before = list->Ok_0@;
        let after = grown->Ok_0@;
        let short = crate::backends::hal::output_entries(devices@, default);
        let long = crate::backends::hal::output_entries(longer@, default);
        assert forall|i: int| 0 <= i < before.len() implies crate::laws::alsa::alike(
            #[trigger] after[i],
            before[i],
        ) by {
            assert(after[i].is(long[i].0, long[i].1, long[i].2));
            assert(before[i].is(short[i].0, short[i].1, short[i].2));
            assert(long[i] == short[i]);
        }
        if device.output {
            let n = after.len() - 1;
            assert(after[n].is(long[n].0, long[n].1, long[n].2));
        }
    }
}

/// The default output has its number and name, and is tagged as the default;
/// there is none exactly when the HAL reports none.
pub proof fn law_the_default_output_is_tagged(
    loaded: bool,
    default: u32,
    name: String,
    device: Result<Option<Device>, Error>,
)
    requires
        call_ensures(default_output_device, (loaded, default, name), device),
    ensures
        device is Ok <==> loaded,
        device matches Err(e) ==> (e matches Error::NotImplemented(backend) && backend@
            == "coreaudio"@),
        loaded ==> (device->Ok_0 is Some <==> default != 0),
        loaded && default != 0 ==> {
            let d = device->Ok_0->0;
            d.id@ == crate::text::decimal(default as nat) && d.name@ == name@ && d.is_default
        },
{
}

/// A latency query is driven by its model.
pub proof fn law_latency_queries_follow_their_model(
    bound: Option<u32>,
    first: LatencyQuery,
    at: LatencyQuery,
    question: HalQuery,
    answer: Option<u32>,
    next: LatencyQuery,
)
    requires
        call_ensures(LatencyQuery::start, (bound,), first),
        call_ensures(LatencyQuery::ask, (&at,), question),
        call_ensures(LatencyQuery::step, (at, answer), next),
    ensures
        first == LatencyQuery::started(bound),
        question == at.due(),
        next == at.after(answer),
{
}

/// The answer to a question, or zero when there is none.
pub open spec fn answered(answer: Option<u32>) -> int {
    match answer {
        Some(v) => v as int,
        None => 0,
    }
}

/// The answer on the output scope, or else on the global one, or else zero.
pub open spec fn answered_on_a_scope(
    hal: spec_fn(HalQuery) -> Option<u32>,
    object: u32,
    selector: u32,
) -> int {
    let output = hal(HalQuery::Value { object, selector, scope: 0x6F75_7470 });
    if output is Some {
        answered(output)
    } else {
        answered(hal(HalQuery::Value { object, selector, scope: 0x676C_6F62 }))
    }
}

/// The reported hardware latency is the device's latency, its buffer, its
/// safety offset and its first stream's latency added up, each as the HAL
/// answers it and none for what it does not answer, of the device that is
/// bound or else of the default output; there is none without a device.
pub proof fn law_hardware_latency_adds_up_the_answers(
    hal: spec_fn(HalQuery) -> Option<u32>,
    bound: Option<u32>,
    device: u32,
    frames: Option<u32>,
)
    requires
        bound matches Some(b) ==> (b != 0 ==> device == b),
        bound is None || bound == Some(0u32) ==> device == answered(hal(HalQuery::DefaultOutput)),
        call_ensures(
            LatencyQuery::frames,
            (&LatencyQuery::started(bound).settle(hal),),
            frames,
        ),
    ensures
        frames is Some <==> device != 0,
        LatencyQuery::started(bound).settle(hal).due() is Nothing,
        device != 0 ==> {
            let stream = hal(HalQuery::FirstStream(device));
            let sum = answered_on_a_scope(hal, device, 0x6C74_6E63) + answered_on_a_scope(
                hal,
                device,
                0x6673_697A,
            ) + answered(
                hal(HalQuery::Value { object: device, selector: 0x7361_6674, scope: 0x6F75_7470 }),
            ) + (match stream {
                Some(s) => answered(
                    hal(HalQuery::Value { object: s, selector: 0x6C74_6E63, scope: 0x676C_6F62 }),
                ),
                None => 0,
            });
            &&& sum <= 0xFFFF_FFFF ==> frames == Some(sum as u32)
            &&& sum > 0xFFFF_FFFF ==> frames == Some(0xFFFF_FFFFu32)
        },
{
    reveal_with_fuel(LatencyQuery::settle, 9);
}

/// Nothing is reported while there is still something to ask.
pub proof fn law_latency_is_reported_at_the_end(query: LatencyQuery, frames: Option<u32>)
    requires
        call_ensures(LatencyQuery::frames, (&query,), frames),
    ensures
        !(query.due() is Nothing) ==> frames is None,
{
}

/// An f64 that is positive and finite rounds to the nearest whole number, a
/// half upwards, as far as 32 bits go; what is negative or no number is
/// zero, and infinity the largest.
pub proof fn law_rates_round_to_the_nearest(
    bits: u64,
    exponent: int,
    fraction: int,
    rounded: u32,
)
    requires
        call_ensures(round_f64, (bits,), rounded),
        bits < 0x8000_0000_0000_0000 ==> bits == exponent * 0x10_0000_0000_0000 + fraction,
        0 <= fraction < 0x10_0000_0000_0000,
        0 <= exponent <= 2047,
    ensures
        bits >= 0x8000_0000_0000_0000 ==> rounded == 0,
        bits < 0x8000_0000_0000_0000 && exponent == 2047 ==> (fraction == 0 ==> rounded
            == 0xFFFF_FFFF) && (fraction > 0 ==> rounded == 0),
        bits < 0x8000_0000_0000_0000 && 1075 <= exponent < 2047 ==> rounded == 0xFFFF_FFFF,
        bits < 0x8000_0000_0000_0000 && exponent == 0 ==> rounded == 0,
        bits < 0x8000_0000_0000_0000 && 1 <= exponent < 1075 ==> {
            let unit = pow2((1075 - exponent) as nat) as int;
            let doubled = 2 * (0x10_0000_0000_0000 + fraction);
            &&& rounded < 0xFFFF_FFFF ==> (2 * rounded - 1) * unit <= doubled < (2 * rounded + 1)
                * unit
            &&& rounded == 0xFFFF_FFFF ==> doubled >= (2 * rounded - 1) * unit
        },
{
    if bits < 0x8000_0000_0000_0000 {
        assert(bits as int / 0x10_0000_0000_0000 == exponent);
        assert(bits as int % 0x10_0000_0000_0000 == fraction);
        if exponent == 0 {
            vstd::arithmetic::power2::lemma2_to64();
            vstd::arithmetic::power2::lemma_pow2_strictly_increases(54, 1074);
            vstd::arithmetic::power2::lemma_pow2_adds(32, 22);
            let unit = pow2(1074) as int;
            vstd::arithmetic::power2::lemma_pow2_unfold(1075);
            vstd::arithmetic::div_mod::lemma_basic_div(2 * fraction + unit, 2 * unit);
        } else if exponent < 1075 {
            let scale = (1075 - exponent) as nat;
            let unit = pow2(scale) as int;
            vstd::arithmetic::power2::lemma_pow2_pos(scale);
            vstd::arithmetic::power2::lemma_pow2_unfold(scale + 1);
            let doubled = 2 * (0x10_0000_0000_0000 + fraction);
            let q = (doubled + unit) / (2 * unit);
            crate::laws::time::lemma_quotient_bounds(doubled + unit, 2 * unit);
            vstd::arithmetic::div_mod::lemma_div_pos_is_pos(doubled + unit, 2 * unit);
            assert(q * (2 * unit) == (2 * q - 1) * unit + unit) by (nonlinear_arith);
            assert((q + 1) * (2 * unit) == (2 * q + 1) * unit + unit) by (nonlinear_arith);
            if q > 0xFFFF_FFFF {
                assert((2 * q - 1) * unit >= (2 * 0xFFFF_FFFF - 1) * unit) by (nonlinear_arith)
                    requires
                        q > 0xFFFF_FFFF,
                        unit > 0,
                ;
            }
        }
    }
}

/// An id names the device whose number it reads as; one that does not read
/// as a number is refused.
pub proof fn law_ids_name_the_device_they_read_as(
    id: &str,
    number: Option<u32>,
    device: Result<u32, Error>,
)
    requires
        call_ensures(device_of_id, (id,), device),
        call_ensures(parse_u32, (id,), number),
    ensures
        match number {
            Some(n) => device is Ok && device->Ok_0 == n,
            None => device matches Err(Error::UnsupportedFormat { backend, detail }) && backend@
                == "coreaudio"@ && detail@ == "device id "@ + crate::text::debug_quoted(id@)
                + " is not a numeric AudioDeviceID (must come from output_devices() on the same coreaudio backend)"@,
        },
{
}

/// A query begins with the device's rate when its id reads as a number, and
/// with the default output when there is no id; it is refused without a HAL,
/// and for any other id.
pub proof fn law_format_queries_begin_with_their_device(
    loaded: bool,
    text: &str,
    number: Option<u32>,
    named: Result<FormatQuery, Error>,
    unnamed: Result<FormatQuery, Error>,
)
    requires
        call_ensures(FormatQuery::start, (loaded, Some(text)), named),
        call_ensures(FormatQuery::start, (loaded, None), unnamed),
        call_ensures(parse_u32, (text,), number),
    ensures
        named is Ok <==> loaded && number is Some,
        unnamed is Ok <==> loaded,
        named matches Ok(q) ==> q == FormatQuery::started(number),
        unnamed matches Ok(q) ==> q == FormatQuery::started(None),
        named matches Err(e) ==> if loaded {
            e matches Error::UnsupportedFormat { backend, detail } && backend@ == "coreaudio"@
                && detail@ == "device id "@ + crate::text::debug_quoted(text@)
                + " is not a numeric AudioDeviceID (must come from output_devices() on the same coreaudio backend)"@
        } else {
            e matches Error::NotImplemented(backend) && backend@ == "coreaudio"@
        },
        unnamed matches Err(e) ==> (e matches Error::NotImplemented(backend) && backend@
            == "coreaudio"@),
{
}

/// A format query is driven by its model.
pub proof fn law_format_queries_follow_their_model(
    at: FormatQuery,
    question: FormatQuestion,
    answer: FormatAnswer,
    next: FormatQuery,
)
    requires
        call_ensures(FormatQuery::ask, (&at,), question),
        call_ensures(FormatQuery::step, (at, answer), next),
    ensures
        question == at.due(),
        next == at.after(answer),
{
}

/// The channel count that the first stream answers with is what is reported,
/// from one to the most that sixteen bits hold; of a larger count the low
/// sixteen bits are, and two where those are zero.
pub proof fn law_the_answered_channels_are_reported(
    query: FormatQuery,
    count: u32,
    high: int,
    low: int,
    next: FormatQuery,
    outcome: Result<StreamFormat, Error>,
)
    requires
        query.due() is Channels,
        count == high * 0x1_0000 + low,
        0 <= low <= 0xFFFF,
        call_ensures(FormatQuery::step, (query, FormatAnswer::Number(count)), next),
        call_ensures(FormatQuery::outcome, (&next,), outcome),
    ensures
        outcome is Ok,
        1 <= count <= 0xFFFF ==> outcome->Ok_0.channels == count,
        low > 0 ==> outcome->Ok_0.channels == low,
        low == 0 ==> outcome->Ok_0.channels == 2,
{
}

/// The rate that a device answers with, on the output scope or else on the
/// global one.
pub open spec fn answered_rate(
    hal: spec_fn(FormatQuestion) -> FormatAnswer,
    device: u32,
) -> Option<u64> {
    match hal(FormatQuestion::Rate { device, scope: 0x6F75_7470 }) {
        FormatAnswer::Rate(r) => Some(r),
        _ => match hal(FormatQuestion::Rate { device, scope: 0x676C_6F62 }) {
            FormatAnswer::Rate(r) => Some(r),
            _ => None,
        },
    }
}

/// What is reported of a device is the rate that it answers with, rounded,
/// and the channels of its first stream, or two when it has none or does not
/// say. Without a rate it is refused.
pub proof fn law_a_named_devices_format_is_reported(
    hal: spec_fn(FormatQuestion) -> FormatAnswer,
    device: u32,
    outcome: Result<StreamFormat, Error>,
    rounded: u32,
)
    requires
        answered_rate(hal, device) is Some ==> call_ensures(
            round_f64,
            (answered_rate(hal, device)->0,),
            rounded,
        ),
        call_ensures(
            FormatQuery::outcome,
            (&FormatQuery::started(Some(device)).settle(hal),),
            outcome,
        ),
    ensures
        FormatQuery::started(Some(device)).settle(hal).due() is Nothing,
        outcome is Ok <==> answered_rate(hal, device) is Some,
        outcome matches Err(e) ==> (e matches Error::UnsupportedFormat { backend, detail }
            && backend@ == "coreaudio"@ && detail@
            == "HAL has no NominalSampleRate for AudioDeviceID "@ + crate::text::decimal(
            device as nat,
        ) + " — not an output device or query refused"@),
        outcome matches Ok(format) ==> {
            &&& format.sample_rate == rounded
            &&& format.format is F32
            &&& match hal(FormatQuestion::FirstStream(device)) {
                FormatAnswer::Number(stream) => match hal(FormatQuestion::Channels(stream)) {
                    FormatAnswer::Number(n) => 1 <= n <= 0xFFFF ==> format.channels == n,
                    _ => format.channels == 2,
                },
                _ => format.channels == 2,
            }
        },
{
    reveal_with_fuel(FormatQuery::settle, 6);
}

/// The default output's format is that of the device that the HAL names as
/// the default; when it names none, that is the error.
pub proof fn law_the_default_outputs_format_is_its_devices(
    hal: spec_fn(FormatQuestion) -> FormatAnswer,
    outcome: Result<StreamFormat, Error>,
)
    requires
        call_ensures(
            FormatQuery::outcome,
            (&FormatQuery::started(None).settle(hal),),
            outcome,
        ),
    ensures
        FormatQuery::started(None).settle(hal).due() is Nothing,
        match hal(FormatQuestion::DefaultOutput) {
            FormatAnswer::Number(d) => if d != 0 {
                FormatQuery::started(None).settle(hal) == FormatQuery::started(Some(d)).settle(hal)
            } else {
                outcome matches Err(Error::DeviceOpen { backend, detail }) && backend@
                    == "coreaudio"@ && detail@
                    == "kAudioHardwarePropertyDefaultOutputDevice query failed"@
            },
            _ => outcome matches Err(Error::DeviceOpen { backend, detail }) && backend@
                == "coreaudio"@ && detail@
                == "kAudioHardwarePropertyDefaultOutputDevice query failed"@,
        },
{
    reveal_with_fuel(FormatQuery::settle, 7);
}

} // verus!
