//! Taking streams down.

#![allow(unused_imports)]

use crate::driver::BackendKind;
use crate::teardown::{teardown, TeardownCall};
use vstd::prelude::*;

verus! {

/// Whether the step `a` is made, and `b` after it.
pub open spec fn comes_before(calls: Seq<TeardownCall>, a: TeardownCall, b: TeardownCall) -> bool {
    exists|i: int, j: int| 0 <= i < j < calls.len() && #[trigger] calls[i] == a && #[trigger]
        calls[j] == b
}

/// A second stop of any stream does nothing.
pub proof fn law_a_second_teardown_does_nothing(
    kind: BackendKind,
    stopped: &mut bool,
    calls: Vec<TeardownCall>,
)
    requires
        call_ensures(teardown, (kind, stopped), calls),
    ensures
        *final(stopped),
        *old(stopped) ==> calls@.len() == 0,
{
}

/// The first stop of a stream makes each step that its backend needs, in an
/// order in which nothing is used after it was given up: the worker is asked
/// to leave and waited for, playback is stopped, and what was acquired is
/// released, the newest first.
pub proof fn law_a_teardown_releases_everything_in_order(
    kind: BackendKind,
    stopped: &mut bool,
    calls: Vec<TeardownCall>,
)
    requires
        call_ensures(teardown, (kind, stopped), calls),
        !*old(stopped),
    ensures
        kind is Alsa ==> calls@.len() == 4 && comes_before(
            calls@,
            TeardownCall::RaiseStopFlag,
            TeardownCall::JoinWorker,
        ) && comes_before(calls@, TeardownCall::JoinWorker, TeardownCall::DropPcm) && comes_before(
            calls@,
            TeardownCall::DropPcm,
            TeardownCall::ClosePcm,
        ),
        kind is Pulse ==> calls@.len() == 4 && comes_before(
            calls@,
            TeardownCall::RaiseStopFlag,
            TeardownCall::JoinWorker,
        ) && comes_before(calls@, TeardownCall::JoinWorker, TeardownCall::FlushConnection)
            && comes_before(calls@, TeardownCall::FlushConnection, TeardownCall::FreeConnection),
        kind is Wasapi ==> calls@.len() == 9 && comes_before(
            calls@,
            TeardownCall::RaiseStopFlag,
            TeardownCall::WakeWorker,
        ) && comes_before(calls@, TeardownCall::WakeWorker, TeardownCall::JoinWorker)
            && comes_before(calls@, TeardownCall::JoinWorker, TeardownCall::StopClient)
            && comes_before(calls@, TeardownCall::StopClient, TeardownCall::ReleaseClock)
            && comes_before(calls@, TeardownCall::ReleaseClock, TeardownCall::ReleaseRender)
            && comes_before(calls@, TeardownCall::ReleaseRender, TeardownCall::ReleaseClient)
            && comes_before(calls@, TeardownCall::ReleaseClient, TeardownCall::CloseEvent)
            && comes_before(calls@, TeardownCall::CloseEvent, TeardownCall::Uninitialize),
        kind is CoreAudio ==> calls@.len() == 3 && comes_before(
            calls@,
            TeardownCall::StopQueue,
            TeardownCall::DisposeQueue,
        ) && comes_before(calls@, TeardownCall::DisposeQueue, TeardownCall::DropState),
        kind is Oss ==> calls@.len() == 3 && comes_before(
            calls@,
            TeardownCall::RaiseStopFlag,
            TeardownCall::JoinWorker,
        ) && comes_before(calls@, TeardownCall::JoinWorker, TeardownCall::CloseDevice),
        kind is Mock ==> calls@.len() == 2 && comes_before(
            calls@,
            TeardownCall::RaiseStopFlag,
            TeardownCall::JoinWorker,
        ),
        kind is PipeWire || kind is Asio ==> calls@.len() == 0,
{
    if kind is Alsa || kind is Pulse {
        assert(comes_before(calls@, calls@[0], calls@[1]));
        assert(comes_before(calls@, calls@[1], calls@[2]));
        assert(comes_before(calls@, calls@[2], calls@[3]));
    } else if kind is Wasapi {
        assert(comes_before(calls@, calls@[0], calls@[1]));
        assert(comes_before(calls@, calls@[1], calls@[2]));
        assert(comes_before(calls@, calls@[2], calls@[3]));
        assert(comes_before(calls@, calls@[3], calls@[4]));
        assert(comes_before(calls@, calls@[4], calls@[5]));
        assert(comes_before(calls@, calls@[5], calls@[6]));
        assert(comes_before(calls@, calls@[6], calls@[7]));
        assert(comes_before(calls@, calls@[7], calls@[8]));
    } else if kind is CoreAudio || kind is Oss {
        assert(comes_before(calls@, calls@[0], calls@[1]));
        assert(comes_before(calls@, calls@[1], calls@[2]));
    } else if kind is Mock {
        assert(comes_before(calls@, calls@[0], calls@[1]));
    }
}

} // verus!
