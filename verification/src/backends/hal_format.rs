//! What the HAL says of a device's native format: the rate it is running
//! at, and the channel count of its first output stream.

use vstd::arithmetic::power2::pow2;
use vstd::prelude::*;
use vstd::string::*;

use crate::error::Error;
use crate::format::{SampleFormat, StreamFormat};
use crate::text::{parse_u32, push_decimal, quote_debug};

use super::hal::{kAudioObjectPropertyScopeGlobal, kAudioObjectPropertyScopeOutput};

verus! {

/// The exponent field of an f64 bit pattern.
pub open spec fn f64_exponent(bits: u64) -> int {
    (bits as int / 0x10_0000_0000_0000) % 2048
}

/// The fraction field of an f64 bit pattern.
pub open spec fn f64_fraction(bits: u64) -> int {
    bits as int % 0x10_0000_0000_0000
}

/// The significand of a finite f64: its magnitude is
/// `f64_significand / 2^f64_scale`, as long as that scale is not negative.
pub open spec fn f64_significand(bits: u64) -> int {
    if f64_exponent(bits) == 0 {
        f64_fraction(bits)
    } else {
        0x10_0000_0000_0000 + f64_fraction(bits)
    }
}

/// The scale of a finite f64, see [`f64_significand`].
pub open spec fn f64_scale(bits: u64) -> int {
    if f64_exponent(bits) == 0 {
        1074
    } else {
        1075 - f64_exponent(bits)
    }
}

/// The f64 with this bit pattern, rounded to the nearest 32-bit number, a
/// half upwards: zero for everything negative and for NaN, and the largest
/// 32-bit number for everything above it.
pub open spec fn rounded_f64(bits: u64) -> int {
    if bits >= 0x8000_0000_0000_0000 {
        0
    } else if f64_exponent(bits) == 2047 {
        if f64_fraction(bits) == 0 {
            u32::MAX as int
        } else {
            0
        }
    } else if f64_scale(bits) <= 0 {
        u32::MAX as int
    } else {
        crate::time::at_most(
            (2 * f64_significand(bits) + pow2(f64_scale(bits) as nat)) / pow2(
                (f64_scale(bits) + 1) as nat,
            ) as int,
            u32::MAX as int,
        )
    }
}

/// Rounds an f64, given as its bit pattern, to the nearest `u32`. Rates are
/// advertised as exact decimals, but a reading that is off by one unit in
/// the last place is still tolerated rather than truncated.
pub fn round_f64(bits: u64) -> (rounded: u32)
    ensures
        rounded == rounded_f64(bits),
{
    if bits >= 0x8000_0000_0000_0000 {
        return 0;
    }
    let exponent: u64 = (bits / 0x10_0000_0000_0000) % 2048;
    let fraction: u64 = bits % 0x10_0000_0000_0000;
    if exponent == 2047 {
        return if fraction == 0 {
            u32::MAX
        } else {
            0
        };
    }
    if exponent >= 1075 {
        return u32::MAX;
    }
    let significand: u64 = if exponent == 0 {
        fraction
    } else {
        0x10_0000_0000_0000 + fraction
    };
    let scale: u64 = if exponent == 0 {
        1074
    } else {
        1075 - exponent
    };
    if scale >= 54 {
        proof {
            assert(pow2(54) == 0x40_0000_0000_0000) by {
                vstd::arithmetic::power2::lemma2_to64();
                vstd::arithmetic::power2::lemma_pow2_adds(32, 22);
            }
            if scale > 54 {
                vstd::arithmetic::power2::lemma_pow2_strictly_increases(54, scale as nat);
            }
            let unit = pow2(scale as nat) as int;
            vstd::arithmetic::power2::lemma_pow2_unfold((scale + 1) as nat);
            assert(pow2((scale + 1) as nat) == 2 * unit);
            vstd::arithmetic::div_mod::lemma_basic_div(2 * significand + unit, 2 * unit);
        }
        return 0;
    }
    let mut unit: u64 = 1;
    let mut k: u64 = 0;
    proof {
        vstd::arithmetic::power2::lemma2_to64();
    }
    while k < scale
        invariant
            k <= scale < 54,
            unit == pow2(k as nat),
            unit <= 0x20_0000_0000_0000,
        decreases scale - k,
    {
        proof {
            vstd::arithmetic::power2::lemma_pow2_unfold((k + 1) as nat);
            assert(pow2(53) == 0x20_0000_0000_0000) by {
                vstd::arithmetic::power2::lemma2_to64();
                vstd::arithmetic::power2::lemma_pow2_adds(32, 21);
            }
            if k + 1 < 53 {
                vstd::arithmetic::power2::lemma_pow2_strictly_increases((k + 1) as nat, 53);
            }
        }
        unit = unit * 2;
        k = k + 1;
    }
    proof {
        vstd::arithmetic::power2::lemma_pow2_unfold((scale + 1) as nat);
        vstd::arithmetic::power2::lemma_pow2_pos(scale as nat);
    }
    let rounded: u64 = (2 * significand + unit) / (2 * unit);
    if rounded > 0xFFFF_FFFF {
        u32::MAX
    } else {
        rounded as u32
    }
}

/// A rate that is a whole number is reported as it is, and one that is less
/// than half a unit away from it is reported as that number.
pub proof fn law_near_whole_rates_round_to_it(bits: u64, n: u32)
    requires
        bits < 0x8000_0000_0000_0000,
        f64_exponent(bits) != 2047,
        f64_scale(bits) > 0,
        ({
            let unit = pow2(f64_scale(bits) as nat);
            -(unit as int) < 2 * (f64_significand(bits) - n * unit) < unit
        }),
    ensures
        rounded_f64(bits) == n,
{
    let unit = pow2(f64_scale(bits) as nat) as int;
    let m = f64_significand(bits);
    vstd::arithmetic::power2::lemma_pow2_unfold((f64_scale(bits) + 1) as nat);
    vstd::arithmetic::power2::lemma_pow2_pos(f64_scale(bits) as nat);
    let rest = 2 * m + unit - 2 * (n * unit);
    assert(n * (2 * unit) == 2 * (n * unit)) by (nonlinear_arith);
    vstd::arithmetic::div_mod::lemma_fundamental_div_mod_converse(
        2 * m + unit,
        2 * unit,
        n as int,
        rest,
    );
}

/// The rejection of a device id that is no decimal number.
pub open spec fn not_numeric(id: Seq<char>) -> Seq<char> {
    "device id "@ + crate::text::debug_quoted(id)
        + " is not a numeric AudioDeviceID (must come from output_devices() on the same coreaudio backend)"@
}

/// The device that an opaque id names: the id is the decimal
/// `AudioDeviceID`. Anything else, such as an id of another backend, is
/// rejected rather than routed to the system default.
pub fn device_of_id(id: &str) -> (device: Result<u32, Error>)
    ensures
        match device {
            Ok(d) => crate::text::parsed_u32(id@) == Some(d),
            Err(e) => crate::text::parsed_u32(id@) is None && e.is_unsupported_format(
                "coreaudio"@,
                not_numeric(id@),
            ),
        },
{
    match parse_u32(id) {
        Some(device) => Ok(device),
        None => {
            let mut detail = "device id ".to_owned();
            let quoted = quote_debug(id);
            detail.append(quoted.as_str());
            detail.append(
                " is not a numeric AudioDeviceID (must come from output_devices() on the same coreaudio backend)",
            );
            Err(Error::UnsupportedFormat { backend: "coreaudio", detail })
        },
    }
}

/// A question about a device's format.
#[derive(Debug, Clone, Copy, PartialEq, Eq, Structural)]
pub enum FormatQuestion {
    /// The current default output device.
    DefaultOutput,
    /// The nominal sample rate of a device, on a scope.
    Rate { device: u32, scope: u32 },
    /// The first output stream of a device.
    FirstStream(u32),
    /// The channel count in the virtual format of a stream.
    Channels(u32),
    /// Nothing more.
    Nothing,
}

/// An answer of the HAL.
#[derive(Debug, Clone, Copy, PartialEq, Eq, Structural)]
pub enum FormatAnswer {
    /// The property is missing, has the wrong size, or the getter failed.
    Missing,
    /// An object id or a channel count.
    Number(u32),
    /// A rate, as the bit pattern of an f64.
    Rate(u64),
}

/// Where the query of a device's format stands.
#[derive(Debug, Clone, Copy, PartialEq, Eq, Structural)]
pub enum FormatStage {
    Default,
    RateOutput,
    RateGlobal,
    Stream,
    Channels,
    Done,
    /// There is no default output device.
    NoDefault,
    /// The device has no nominal sample rate.
    NoRate,
}

/// A query of a device's format in progress.
#[derive(Debug, Clone, Copy, PartialEq, Eq, Structural)]
pub struct FormatQuery {
    pub stage: FormatStage,
    pub device: u32,
    /// The rate, as the bit pattern of an f64.
    pub rate: u64,
    pub stream: u32,
    pub channels: u16,
}

/// The channel count when nobody says.
pub const DEFAULT_CHANNELS: u16 = 2;

/// The channel count that a stream format comes to: its low sixteen bits,
/// unless they are zero.
pub open spec fn format_channels(count: u32) -> u16 {
    if count % 0x1_0000 == 0 {
        DEFAULT_CHANNELS
    } else {
        (count % 0x1_0000) as u16
    }
}

impl FormatQuery {
    /// The query for the device `device`, or for the default output.
    pub open spec fn started(device: Option<u32>) -> FormatQuery {
        FormatQuery {
            stage: if device is Some {
                FormatStage::RateOutput
            } else {
                FormatStage::Default
            },
            device: match device {
                Some(d) => d,
                None => 0,
            },
            rate: 0,
            stream: 0,
            channels: DEFAULT_CHANNELS,
        }
    }

    /// The question that the current stage asks.
    pub open spec fn due(self) -> FormatQuestion {
        match self.stage {
            FormatStage::Default => FormatQuestion::DefaultOutput,
            FormatStage::RateOutput => FormatQuestion::Rate {
                device: self.device,
                scope: kAudioObjectPropertyScopeOutput,
            },
            FormatStage::RateGlobal => FormatQuestion::Rate {
                device: self.device,
                scope: kAudioObjectPropertyScopeGlobal,
            },
            FormatStage::Stream => FormatQuestion::FirstStream(self.device),
            FormatStage::Channels => FormatQuestion::Channels(self.stream),
            FormatStage::Done => FormatQuestion::Nothing,
            FormatStage::NoDefault => FormatQuestion::Nothing,
            FormatStage::NoRate => FormatQuestion::Nothing,
        }
    }

    /// The query after an answer. The rate is asked on the output scope,
    /// then on the global one, and must be there; the channel count need
    /// not.
    pub open spec fn after(self, answer: FormatAnswer) -> FormatQuery {
        match self.stage {
            FormatStage::Default => match answer {
                FormatAnswer::Number(d) if d != 0 => FormatQuery {
                    stage: FormatStage::RateOutput,
                    device: d,
                    ..self
                },
                _ => FormatQuery { stage: FormatStage::NoDefault, ..self },
            },
            FormatStage::RateOutput => match answer {
                FormatAnswer::Rate(r) => FormatQuery {
                    stage: FormatStage::Stream,
                    rate: r,
                    ..self
                },
                _ => FormatQuery { stage: FormatStage::RateGlobal, ..self },
            },
            FormatStage::RateGlobal => match answer {
                FormatAnswer::Rate(r) => FormatQuery {
                    stage: FormatStage::Stream,
                    rate: r,
                    ..self
                },
                _ => FormatQuery { stage: FormatStage::NoRate, ..self },
            },
            FormatStage::Stream => match answer {
                FormatAnswer::Number(s) => FormatQuery {
                    stage: FormatStage::Channels,
                    stream: s,
                    ..self
                },
                _ => FormatQuery { stage: FormatStage::Done, ..self },
            },
            FormatStage::Channels => match answer {
                FormatAnswer::Number(n) => FormatQuery {
                    stage: FormatStage::Done,
                    channels: format_channels(n),
                    ..self
                },
                _ => FormatQuery { stage: FormatStage::Done, ..self },
            },
            FormatStage::Done => self,
            FormatStage::NoDefault => self,
            FormatStage::NoRate => self,
        }
    }

    /// Begins the query for the endpoint with this opaque id, or for the
    /// default output when there is none. `loaded` says whether the HAL
    /// could be loaded at all.
    pub fn start(loaded: bool, id: Option<&str>) -> (query: Result<FormatQuery, Error>)
        ensures
            match query {
                Ok(q) => loaded && match id {
                    Some(text) => crate::text::parsed_u32(text@) is Some && q
                        == FormatQuery::started(crate::text::parsed_u32(text@)),
                    None => q == FormatQuery::started(None),
                },
                Err(e) => if loaded {
                    &&& id is Some
                    &&& crate::text::parsed_u32(id->0@) is None
                    &&& e.is_unsupported_format("coreaudio"@, not_numeric(id->0@))
                } else {
                    e.is_not_implemented("coreaudio"@)
                },
            },
    {
        if !loaded {
            return Err(Error::NotImplemented("coreaudio"));
        }
        match id {
            None => Ok(
                FormatQuery {
                    stage: FormatStage::Default,
                    device: 0,
                    rate: 0,
                    stream: 0,
                    channels: DEFAULT_CHANNELS,
                },
            ),
            Some(text) => match device_of_id(text) {
                Ok(device) => Ok(
                    FormatQuery {
                        stage: FormatStage::RateOutput,
                        device,
                        rate: 0,
                        stream: 0,
                        channels: DEFAULT_CHANNELS,
                    },
                ),
                Err(e) => Err(e),
            },
        }
    }

    /// The question to ask next.
    pub fn ask(&self) -> (question: FormatQuestion)
        ensures
            question == self.due(),
    {
        match self.stage {
            FormatStage::Default => FormatQuestion::DefaultOutput,
            FormatStage::RateOutput => FormatQuestion::Rate {
                device: self.device,
                scope: kAudioObjectPropertyScopeOutput,
            },
            FormatStage::RateGlobal => FormatQuestion::Rate {
                device: self.device,
                scope: kAudioObjectPropertyScopeGlobal,
            },
            FormatStage::Stream => FormatQuestion::FirstStream(self.device),
            FormatStage::Channels => FormatQuestion::Channels(self.stream),
            FormatStage::Done | FormatStage::NoDefault | FormatStage::NoRate => {
                FormatQuestion::Nothing
            },
        }
    }

    /// Takes the answer to the current question.
    pub fn step(self, answer: FormatAnswer) -> (next: FormatQuery)
        ensures
            next == self.after(answer),
    {
        let mut next = self;
        match self.stage {
            FormatStage::Default => match answer {
                FormatAnswer::Number(d) if d != 0 => {
                    next.stage = FormatStage::RateOutput;
                    next.device = d;
                },
                _ => {
                    next.stage = FormatStage::NoDefault;
                },
            },
            FormatStage::RateOutput => match answer {
                FormatAnswer::Rate(r) => {
                    next.stage = FormatStage::Stream;
                    next.rate = r;
                },
                _ => {
                    next.stage = FormatStage::RateGlobal;
                },
            },
            FormatStage::RateGlobal => match answer {
                FormatAnswer::Rate(r) => {
                    next.stage = FormatStage::Stream;
                    next.rate = r;
                },
                _ => {
                    next.stage = FormatStage::NoRate;
                },
            },
            FormatStage::Stream => match answer {
                FormatAnswer::Number(s) => {
                    next.stage = FormatStage::Channels;
                    next.stream = s;
                },
                _ => {
                    next.stage = FormatStage::Done;
                },
            },
            FormatStage::Channels => {
                next.stage = FormatStage::Done;
                if let FormatAnswer::Number(n) = answer {
                    let low: u32 = n % 0x1_0000;
                    next.channels = if low == 0 {
                        DEFAULT_CHANNELS
                    } else {
                        low as u16
                    };
                }
            },
            FormatStage::Done | FormatStage::NoDefault | FormatStage::NoRate => {},
        }
        next
    }

    /// The format that the query comes to: the device's rate and its first
    /// output stream's channels, or why there is none.
    pub open spec fn comes_to(self, outcome: Result<StreamFormat, Error>) -> bool {
        match outcome {
            Ok(format) => self.stage is Done && format == (StreamFormat {
                sample_rate: rounded_f64(self.rate) as u32,
                channels: self.channels,
                format: SampleFormat::F32,
            }),
            Err(e) => match self.stage {
                FormatStage::NoDefault => e.is_device_open(
                    "coreaudio"@,
                    "kAudioHardwarePropertyDefaultOutputDevice query failed"@,
                ),
                FormatStage::NoRate => e.is_unsupported_format(
                    "coreaudio"@,
                    "HAL has no NominalSampleRate for AudioDeviceID "@ + crate::text::decimal(
                        self.device as nat,
                    ) + " — not an output device or query refused"@,
                ),
                _ => false,
            },
        }
    }

    /// The outcome of a query that is over.
    pub fn outcome(&self) -> (outcome: Result<StreamFormat, Error>)
        requires
            self.due() is Nothing,
        ensures
            self.comes_to(outcome),
    {
        match self.stage {
            FormatStage::NoDefault => Err(
                Error::DeviceOpen {
                    backend: "coreaudio",
                    detail: "kAudioHardwarePropertyDefaultOutputDevice query failed".to_owned(),
                },
            ),
            FormatStage::NoRate => {
                let mut detail = "HAL has no NominalSampleRate for AudioDeviceID ".to_owned();
                push_decimal(&mut detail, self.device as u64);
                detail.append(" — not an output device or query refused");
                Err(Error::UnsupportedFormat { backend: "coreaudio", detail })
            },
            _ => Ok(
                StreamFormat {
                    sample_rate: round_f64(self.rate),
                    channels: self.channels,
                    format: SampleFormat::F32,
                },
            ),
        }
    }

    /// An upper bound on the questions still to ask.
    pub open spec fn remaining(self) -> nat {
        match self.stage {
            FormatStage::Default => 5,
            FormatStage::RateOutput => 4,
            FormatStage::RateGlobal => 3,
            FormatStage::Stream => 2,
            FormatStage::Channels => 1,
            FormatStage::Done => 0,
            FormatStage::NoDefault => 0,
            FormatStage::NoRate => 0,
        }
    }

    /// The query carried to its end against a HAL that answers every
    /// question with `hal`.
    pub open spec fn settle(self, hal: spec_fn(FormatQuestion) -> FormatAnswer) -> FormatQuery
        decreases self.remaining(),
    {
        if self.remaining() == 0 {
            self
        } else {
            self.after(hal(self.due())).settle(hal)
        }
    }
}

/// The rate that a HAL gives for a device: the output scope's answer, else
/// the global scope's.
pub open spec fn scoped_rate(hal: spec_fn(FormatQuestion) -> FormatAnswer, device: u32) -> Option<
    u64,
> {
    match hal(FormatQuestion::Rate { device, scope: kAudioObjectPropertyScopeOutput }) {
        FormatAnswer::Rate(r) => Some(r),
        _ => match hal(FormatQuestion::Rate { device, scope: kAudioObjectPropertyScopeGlobal }) {
            FormatAnswer::Rate(r) => Some(r),
            _ => None,
        },
    }
}

/// The channel count that a HAL gives for a device: that of its first output
/// stream, or two.
pub open spec fn stream_channels(
    hal: spec_fn(FormatQuestion) -> FormatAnswer,
    device: u32,
) -> u16 {
    match hal(FormatQuestion::FirstStream(device)) {
        FormatAnswer::Number(stream) => match hal(FormatQuestion::Channels(stream)) {
            FormatAnswer::Number(n) => format_channels(n),
            _ => DEFAULT_CHANNELS,
        },
        _ => DEFAULT_CHANNELS,
    }
}

/// The device that a query is about: the named one, else the default output.
pub open spec fn format_device(
    hal: spec_fn(FormatQuestion) -> FormatAnswer,
    device: Option<u32>,
) -> Option<u32> {
    match device {
        Some(d) => Some(d),
        None => match hal(FormatQuestion::DefaultOutput) {
            FormatAnswer::Number(d) if d != 0 => Some(d),
            _ => None,
        },
    }
}

/// Whatever the HAL answers, the query comes to an end, and what it reports
/// is the rate and the channel count of the device asked about. A reported
/// channel count is never zero.
pub proof fn law_format_query_reports_the_device(
    hal: spec_fn(FormatQuestion) -> FormatAnswer,
    device: Option<u32>,
)
    ensures
        ({
            let end = FormatQuery::started(device).settle(hal);
            &&& end.due() is Nothing
            &&& match format_device(hal, device) {
                None => end.stage is NoDefault,
                Some(d) => end.device == d && match scoped_rate(hal, d) {
                    None => end.stage is NoRate,
                    Some(rate) => end.stage is Done && end.rate == rate && end.channels
                        == stream_channels(hal, d) && end.channels > 0,
                },
            }
        }),
{
    reveal_with_fuel(FormatQuery::settle, 6);
}

} // verus!
