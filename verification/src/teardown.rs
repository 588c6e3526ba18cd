//! Taking a running stream down: which calls are made, and in which order.
//!
//! Whatever reads the callback state or the native handles is brought to a
//! halt first; only then is anything released.

use vstd::prelude::*;

use crate::driver::BackendKind;

verus! {

/// A step of taking a stream down.
#[derive(Debug, Clone, Copy, PartialEq, Eq, Structural)]
pub enum TeardownCall {
    /// Raise the flag that the worker reads at every turn.
    RaiseStopFlag,
    /// Set the buffer event, so that a waiting worker wakes up.
    WakeWorker,
    /// Wait until the worker thread has ended.
    JoinWorker,
    /// `snd_pcm_drop`.
    DropPcm,
    /// `snd_pcm_close`.
    ClosePcm,
    /// `pa_simple_flush`.
    FlushConnection,
    /// `pa_simple_free`.
    FreeConnection,
    /// `IAudioClient::Stop`.
    StopClient,
    /// Release the `IAudioClock`, if there is one.
    ReleaseClock,
    /// Release the `IAudioRenderClient`.
    ReleaseRender,
    /// Release the `IAudioClient`.
    ReleaseClient,
    /// `CloseHandle` of the buffer event.
    CloseEvent,
    /// `CoUninitialize`.
    Uninitialize,
    /// `AudioQueueStop`, immediately: the callback won't fire again.
    StopQueue,
    /// `AudioQueueDispose`, immediately.
    DisposeQueue,
    /// Drop the callback state.
    DropState,
    /// `close` of the character device.
    CloseDevice,
}

/// The steps of taking a backend's stream down.
pub open spec fn teardown_calls(kind: BackendKind) -> Seq<TeardownCall> {
    match kind {
        BackendKind::Alsa => seq![
            TeardownCall::RaiseStopFlag,
            TeardownCall::JoinWorker,
            TeardownCall::DropPcm,
            TeardownCall::ClosePcm,
        ],
        BackendKind::Pulse => seq![
            TeardownCall::RaiseStopFlag,
            TeardownCall::JoinWorker,
            TeardownCall::FlushConnection,
            TeardownCall::FreeConnection,
        ],
        BackendKind::Wasapi => seq![
            TeardownCall::RaiseStopFlag,
            TeardownCall::WakeWorker,
            TeardownCall::JoinWorker,
            TeardownCall::StopClient,
            TeardownCall::ReleaseClock,
            TeardownCall::ReleaseRender,
            TeardownCall::ReleaseClient,
            TeardownCall::CloseEvent,
            TeardownCall::Uninitialize,
        ],
        BackendKind::CoreAudio => seq![
            TeardownCall::StopQueue,
            TeardownCall::DisposeQueue,
            TeardownCall::DropState,
        ],
        BackendKind::Oss => seq![
            TeardownCall::RaiseStopFlag,
            TeardownCall::JoinWorker,
            TeardownCall::CloseDevice,
        ],
        BackendKind::Mock => seq![TeardownCall::RaiseStopFlag, TeardownCall::JoinWorker],
        BackendKind::PipeWire => seq![],
        BackendKind::Asio => seq![],
    }
}

/// What stopping a stream does: everything the first time, nothing after
/// that.
pub fn teardown(kind: BackendKind, stopped: &mut bool) -> (calls: Vec<TeardownCall>)
    ensures
        *final(stopped),
        calls@ == (if *old(stopped) {
            seq![]
        } else {
            teardown_calls(kind)
        }),
{
    if *stopped {
        return Vec::new();
    }
    *stopped = true;
    match kind {
        BackendKind::Alsa => vec![
            TeardownCall::RaiseStopFlag,
            TeardownCall::JoinWorker,
            TeardownCall::DropPcm,
            TeardownCall::ClosePcm,
        ],
        BackendKind::Pulse => vec![
            TeardownCall::RaiseStopFlag,
            TeardownCall::JoinWorker,
            TeardownCall::FlushConnection,
            TeardownCall::FreeConnection,
        ],
        BackendKind::Wasapi => vec![
            TeardownCall::RaiseStopFlag,
            TeardownCall::WakeWorker,
            TeardownCall::JoinWorker,
            TeardownCall::StopClient,
            TeardownCall::ReleaseClock,
            TeardownCall::ReleaseRender,
            TeardownCall::ReleaseClient,
            TeardownCall::CloseEvent,
            TeardownCall::Uninitialize,
        ],
        BackendKind::CoreAudio => vec![
            TeardownCall::StopQueue,
            TeardownCall::DisposeQueue,
            TeardownCall::DropState,
        ],
        BackendKind::Oss => vec![
            TeardownCall::RaiseStopFlag,
            TeardownCall::JoinWorker,
            TeardownCall::CloseDevice,
        ],
        BackendKind::Mock => vec![TeardownCall::RaiseStopFlag, TeardownCall::JoinWorker],
        BackendKind::PipeWire | BackendKind::Asio => Vec::new(),
    }
}

/// Whether a step brings to a halt what runs the callback.
pub open spec fn halts(call: TeardownCall) -> bool {
    call is JoinWorker || call is StopQueue
}

/// Whether a step only asks the worker to halt.
pub open spec fn asks(call: TeardownCall) -> bool {
    call is RaiseStopFlag || call is WakeWorker
}

/// Nothing is stopped, released or dropped before the callback has come to a
/// halt, and nothing is asked of the worker after it has. No step is made
/// twice.
pub proof fn law_teardown_halts_before_it_releases(kind: BackendKind, i: int, j: int)
    requires
        0 <= i < j < teardown_calls(kind).len(),
    ensures
        halts(teardown_calls(kind)[j]) ==> asks(teardown_calls(kind)[i]),
        asks(teardown_calls(kind)[j]) ==> asks(teardown_calls(kind)[i]),
        teardown_calls(kind)[i] != teardown_calls(kind)[j],
{
}

/// Taking down any stream brings its callback to a halt.
pub proof fn law_teardown_halts_the_callback(kind: BackendKind)
    requires
        !crate::driver::is_placeholder(kind),
    ensures
        exists|i: int|
            0 <= i < teardown_calls(kind).len() && #[trigger] halts(teardown_calls(kind)[i]),
{
    let calls = teardown_calls(kind);
    let i: int = if kind is Wasapi {
        2
    } else if kind is CoreAudio {
        0
    } else {
        1
    };
    assert(halts(calls[i]));
}

} // verus!
