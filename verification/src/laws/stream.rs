//! The stream handle.

#![allow(unused_imports)]

use crate::error::Error;
use crate::format::StreamFormat;
use crate::stream::{clamp_gain, gain_stage, GainStage, Stream, StreamImpl};
use std::time::Duration;
use vstd::prelude::*;

verus! {

/// Every gain that is a number and not negative is kept bit for bit; what is
/// negative or not a number is silence.
pub proof fn law_playable_gains_are_kept(bits: u32, gain: u32)
    requires
        call_ensures(clamp_gain, (bits,), gain),
    ensures
        bits <= 0x7F80_0000 ==> gain == bits,
        bits > 0x7F80_0000 ==> gain == 0,
{
}

/// The volume that is read back is the one that was set, bit for bit, as
/// long as it is a number and not negative; otherwise it is silence. Nothing
/// else about the stream changes.
pub proof fn law_the_volume_reads_back<I: StreamImpl>(
    stream: &mut Stream<I>,
    bits: u32,
    read: u32,
    playing_before: bool,
    playing_after: bool,
)
    requires
        call_ensures(Stream::<I>::is_playing, (&*stream,), playing_before),
        call_ensures(Stream::<I>::set_volume, (stream, bits), ()),
        call_ensures(Stream::<I>::volume, (final(stream),), read),
        call_ensures(Stream::<I>::is_playing, (final(stream),), playing_after),
    ensures
        bits <= 0x7F80_0000 ==> read == bits,
        bits > 0x7F80_0000 ==> read == 0,
        playing_after == playing_before,
        final(stream).backend() == old(stream).backend(),
        final(stream).is_stopped() == old(stream).is_stopped(),
{
}

/// Unity gain bypasses the multiplication, and no other gain does.
pub proof fn law_only_unity_gain_is_bypassed(gain: u32, stage: GainStage)
    requires
        call_ensures(gain_stage, (gain,), stage),
    ensures
        stage is Bypass <==> gain == 0x3F80_0000,
        stage is Scale <==> gain != 0x3F80_0000,
{
}

/// A stream starts playing, at a volume of `1.0`, over the backend it was
/// given, and not stopped.
pub proof fn law_streams_start_playing<I: StreamImpl>(
    inner: I,
    stream: Stream<I>,
    playing: bool,
    volume: u32,
)
    requires
        call_ensures(Stream::<I>::new, (inner,), stream),
        call_ensures(Stream::<I>::is_playing, (&stream,), playing),
        call_ensures(Stream::<I>::volume, (&stream,), volume),
    ensures
        playing,
        volume == 0x3F80_0000,
        stream.backend() == inner,
        !stream.is_stopped(),
{
}

/// A play that the backend accepts leaves the stream playing, one that it
/// refuses leaves it as it was; the backend's reply is handed on, and the
/// volume stays.
pub proof fn law_play_follows_the_backend<I: StreamImpl>(
    stream: &mut Stream<I>,
    reply: Result<(), Error>,
    before: bool,
    after: bool,
)
    requires
        call_ensures(Stream::<I>::is_playing, (&*stream,), before),
        call_ensures(Stream::<I>::play, (stream,), reply),
        call_ensures(Stream::<I>::is_playing, (final(stream),), after),
    ensures
        I::plays(old(stream).backend(), final(stream).backend(), reply),
        reply is Ok && !old(stream).is_stopped() ==> after,
        reply is Err ==> after == before,
        final(stream).gain() == old(stream).gain(),
        final(stream).is_stopped() == old(stream).is_stopped(),
{
}

/// A pause that the backend accepts leaves the stream not playing, one that
/// it refuses leaves it as it was; the backend's reply is handed on, and the
/// volume stays.
pub proof fn law_pause_follows_the_backend<I: StreamImpl>(
    stream: &mut Stream<I>,
    reply: Result<(), Error>,
    before: bool,
    after: bool,
)
    requires
        call_ensures(Stream::<I>::is_playing, (&*stream,), before),
        call_ensures(Stream::<I>::pause, (stream,), reply),
        call_ensures(Stream::<I>::is_playing, (final(stream),), after),
    ensures
        I::pauses(old(stream).backend(), final(stream).backend(), reply),
        reply is Ok ==> !after,
        reply is Err ==> after == before,
        final(stream).gain() == old(stream).gain(),
        final(stream).is_stopped() == old(stream).is_stopped(),
{
}

/// A stream that was shut down is not playing, whatever was asked of it
/// before. The backend is told to stop the first time and left alone after
/// that.
pub proof fn law_a_stream_stops_once<I: StreamImpl>(stream: &mut Stream<I>, playing: bool)
    requires
        call_ensures(Stream::<I>::shut_down, (stream,), ()),
        call_ensures(Stream::<I>::is_playing, (final(stream),), playing),
    ensures
        !playing,
        final(stream).is_stopped(),
        final(stream).gain() == old(stream).gain(),
        !old(stream).is_stopped() ==> I::stops(old(stream).backend(), final(stream).backend()),
        old(stream).is_stopped() ==> final(stream).backend() == old(stream).backend(),
{
}

/// Ending a stream hands back the backend's side, stopped once.
pub proof fn law_an_ended_stream_hands_its_backend_back<I: StreamImpl>(stream: Stream<I>, inner: I)
    requires
        call_ensures(Stream::<I>::stop, (stream,), inner),
    ensures
        !stream.is_stopped() ==> I::stops(stream.backend(), inner),
        stream.is_stopped() ==> inner == stream.backend(),
{
}

/// The format and the latency of a stream are what its backend reports.
pub proof fn law_streams_report_their_backend<I: StreamImpl>(
    stream: Stream<I>,
    format: StreamFormat,
    latency: Option<Duration>,
)
    requires
        call_ensures(Stream::<I>::format, (&stream,), format),
        call_ensures(Stream::<I>::latency, (&stream,), latency),
    ensures
        stream.backend().reports_format(format),
        stream.backend().reports_latency(latency),
{
}

} // verus!
