//! Which drivers there are, which of them work, and what they are asked.

#![allow(unused_imports)]

use crate::driver::{
    default_driver, driver_by_name, drivers, open, open_default, open_on, output_devices,
    pick_default, probe, BackendKind, Build, DefaultReport, Driver, DriverStatus, Platform,
};
use crate::error::Error;
use crate::format::{Device, StreamFormat, StreamRequest};
use crate::stream::{Stream, StreamImpl};
use vstd::prelude::*;
use vstd::string::*;

verus! {

/// Every backend is enabled by default but the mock.
pub proof fn law_builds_enable_everything_but_the_mock(platform: Platform, build: Build)
    requires
        call_ensures(Build::new, (platform,), build),
    ensures
        build.platform == platform,
        build.pipewire && build.pulse && build.alsa && build.oss && build.wasapi && build.asio
            && build.coreaudio,
        !build.mock,
{
}

/// A driver goes by its backend's short name.
pub open spec fn goes_by(kind: BackendKind, name: Seq<char>) -> bool {
    match kind {
        BackendKind::PipeWire => name == "pipewire"@,
        BackendKind::Pulse => name == "pulse"@,
        BackendKind::Alsa => name == "alsa"@,
        BackendKind::Oss => name == "oss"@,
        BackendKind::Wasapi => name == "wasapi"@,
        BackendKind::Asio => name == "asio"@,
        BackendKind::CoreAudio => name == "coreaudio"@,
        BackendKind::Mock => name == "mock"@,
    }
}

/// What a driver says of itself.
pub proof fn law_drivers_describe_themselves(
    driver: Driver,
    name: &'static str,
    description: &'static str,
    stub: bool,
    status: DriverStatus,
    ready: bool,
)
    requires
        call_ensures(Driver::name, (&driver,), name),
        call_ensures(Driver::description, (&driver,), description),
        call_ensures(Driver::is_stub, (&driver,), stub),
        call_ensures(DriverStatus::is_ready, (&status,), ready),
    ensures
        goes_by(driver.kind, name@),
        stub <==> driver.kind is PipeWire || driver.kind is Asio,
        ready <==> status == DriverStatus::Ready,
        match driver.kind {
            BackendKind::PipeWire => description@ == "PipeWire (stub — not yet implemented)"@,
            BackendKind::Pulse => description@
                == "PulseAudio (libpulse-simple.so.0 via libloading)"@,
            BackendKind::Alsa => description@ == "ALSA (libasound.so.2 via libloading)"@,
            BackendKind::Oss => description@ == "OSS (/dev/dsp via libc through libloading)"@,
            BackendKind::Wasapi => description@
                == "WASAPI (ole32.dll + mmdevapi via libloading, shared mode, event-driven)"@,
            BackendKind::Asio => description@ == "ASIO (stub — not yet implemented)"@,
            BackendKind::CoreAudio => description@
                == "CoreAudio (AudioToolbox.framework via libloading, AudioQueue output)"@,
            BackendKind::Mock => description@
                == "Virtual test output — no hardware; renders to a discard/capture sink"@,
        },
{
}

/// Whether a build has a backend: it is enabled, and of the platform; the
/// mock is of every platform.
pub open spec fn offers(build: Build, kind: BackendKind) -> bool {
    match kind {
        BackendKind::PipeWire => build.platform is Linux && build.pipewire,
        BackendKind::Pulse => build.platform is Linux && build.pulse,
        BackendKind::Alsa => build.platform is Linux && build.alsa,
        BackendKind::Oss => build.platform is Linux && build.oss,
        BackendKind::Wasapi => build.platform is Windows && build.wasapi,
        BackendKind::Asio => build.platform is Windows && build.asio,
        BackendKind::CoreAudio => build.platform is MacOs && build.coreaudio,
        BackendKind::Mock => build.mock,
    }
}

/// The place of a backend in the order of preference; the mock comes last.
pub open spec fn place(kind: BackendKind) -> int {
    match kind {
        BackendKind::PipeWire => 1,
        BackendKind::Pulse => 2,
        BackendKind::Alsa => 3,
        BackendKind::Oss => 4,
        BackendKind::Wasapi => 1,
        BackendKind::Asio => 2,
        BackendKind::CoreAudio => 1,
        BackendKind::Mock => 5,
    }
}

/// Whether a list of drivers is in the order of preference, each once.
pub open spec fn in_order(list: Seq<Driver>) -> bool {
    forall|i: int, j: int|
        0 <= i < j < list.len() ==> place((#[trigger] list[i]).kind) < place(
            (#[trigger] list[j]).kind,
        )
}

proof fn lemma_enabled(build: Build, kinds: Seq<BackendKind>, d: Driver)
    requires
        forall|i: int, j: int|
            0 <= i < j < kinds.len() ==> place(#[trigger] kinds[i]) < place(#[trigger] kinds[j]),
    ensures
        crate::driver::enabled(build, kinds).contains(d) <==> kinds.contains(d.kind) && build.has(
            d.kind,
        ),
        in_order(crate::driver::enabled(build, kinds)),
        forall|i: int|
            0 <= i < crate::driver::enabled(build, kinds).len() && kinds.len() > 0 ==> place(
                (#[trigger] crate::driver::enabled(build, kinds)[i]).kind,
            ) <= place(kinds.last()),
    decreases kinds.len(),
{
    let list = crate::driver::enabled(build, kinds);
    if kinds.len() > 0 {
        let init = kinds.drop_last();
        let shorter = crate::driver::enabled(build, init);
        assert forall|i: int, j: int| 0 <= i < j < init.len() implies place(#[trigger] init[i])
            < place(#[trigger] init[j]) by {
            assert(init[i] == kinds[i] && init[j] == kinds[j]);
        }
        lemma_enabled(build, init, d);
        if init.len() > 0 {
            assert(place(kinds[init.len() - 1]) < place(kinds[kinds.len() - 1]));
            assert(init.last() == kinds[init.len() - 1]);
        }
        assert forall|i: int, j: int| 0 <= i < j < list.len() implies place(
            (#[trigger] list[i]).kind,
        ) < place((#[trigger] list[j]).kind) by {
            assert(list[i] == shorter[i]);
            if j < shorter.len() {
                assert(list[j] == shorter[j]);
            }
        }
        assert forall|i: int| 0 <= i < list.len() implies place((#[trigger] list[i]).kind) <= place(
            kinds.last(),
        ) by {
            if i < shorter.len() {
                assert(list[i] == shorter[i]);
            }
        }
        if list.contains(d) {
            let k = choose|k: int| 0 <= k < list.len() && list[k] == d;
            if k < shorter.len() {
                assert(shorter[k] == d);
                let m = choose|m: int| 0 <= m < init.len() && init[m] == d.kind;
                assert(kinds[m] == d.kind);
            } else {
                assert(kinds[kinds.len() - 1] == d.kind);
            }
        }
        if kinds.contains(d.kind) && build.has(d.kind) {
            let m = choose|m: int| 0 <= m < kinds.len() && kinds[m] == d.kind;
            if m < init.len() {
                assert(init[m] == d.kind);
                let k = choose|k: int| 0 <= k < shorter.len() && shorter[k] == d;
                assert(list[k] == d);
            } else {
                assert(list[list.len() - 1] == d);
            }
        }
    }
}

proof fn lemma_driver_list(build: Build, d: Driver)
    ensures
        crate::driver::driver_list(build).contains(d) <==> offers(build, d.kind),
        in_order(crate::driver::driver_list(build)),
{
    let kinds = crate::driver::preference(build.platform).push(BackendKind::Mock);
    lemma_enabled(build, kinds, d);
    let n = kinds.len();
    match build.platform {
        Platform::Linux => {
            assert(kinds[0] is PipeWire && kinds[1] is Pulse && kinds[2] is Alsa && kinds[3] is Oss
                && kinds[4] is Mock && n == 5);
        },
        Platform::Windows => {
            assert(kinds[0] is Wasapi && kinds[1] is Asio && kinds[2] is Mock && n == 3);
        },
        Platform::MacOs => {
            assert(kinds[0] is CoreAudio && kinds[1] is Mock && n == 2);
        },
        Platform::Other => {
            assert(kinds[0] is Mock && n == 1);
        },
    }
}

/// The drivers of a build are those that it has, each once, in the order of
/// preference.
pub proof fn law_the_drivers_are_those_of_the_build(build: Build, list: Vec<Driver>, d: Driver)
    requires
        call_ensures(drivers, (&build,), list),
    ensures
        list@.contains(d) <==> offers(build, d.kind),
        in_order(list@),
{
    lemma_driver_list(build, d);
}

/// A name finds the driver that goes by it, if the build has it, and no
/// other.
pub proof fn law_names_find_their_driver(
    build: Build,
    name: &str,
    found: Option<Driver>,
    kind: BackendKind,
)
    requires
        call_ensures(driver_by_name, (&build, name), found),
    ensures
        found matches Some(d) ==> offers(build, d.kind) && goes_by(d.kind, name@),
        offers(build, kind) && goes_by(kind, name@) ==> found == Some(Driver { kind }),
{
    if let Some(d) = found {
        lemma_driver_list(build, d);
        if goes_by(kind, name@) {
            crate::driver::law_names_are_unique(d.kind, kind);
        }
    }
    let d = Driver { kind };
    lemma_driver_list(build, d);
    if offers(build, kind) && goes_by(kind, name@) {
        let list = crate::driver::driver_list(build);
        let i = choose|i: int| 0 <= i < list.len() && list[i] == d;
        assert(crate::driver::name_of(list[i].kind) == name@);
    }
}

/// Whether a driver answers a probe, when its backend does so as `works`
/// says: a stub never does, and the mock always.
pub open spec fn answers(works: spec_fn(Driver) -> bool, d: Driver) -> bool {
    match d.kind {
        BackendKind::PipeWire => false,
        BackendKind::Asio => false,
        BackendKind::Mock => true,
        _ => works(d),
    }
}

/// Whether probing a backend succeeds as `works` says.
pub open spec fn goes_as<F: Fn(Driver) -> Result<(), Error>>(
    attempt: F,
    works: spec_fn(Driver) -> bool,
) -> bool {
    forall|d: Driver, reply: Result<(), Error>| #[trigger]
        attempt.ensures((d,), reply) ==> (reply is Ok <==> works(d))
}

/// A driver's probe is its backend's, but a stub's is that there is nothing
/// yet and the mock's always works; its status says the same.
pub proof fn law_a_drivers_status_is_its_probe<F: Fn(Driver) -> Result<(), Error>>(
    driver: Driver,
    attempt: F,
    works: spec_fn(Driver) -> bool,
    reply: Result<(), Error>,
    status: DriverStatus,
)
    requires
        goes_as(attempt, works),
        call_ensures(Driver::probe::<F>, (&driver, &attempt), reply),
        call_ensures(Driver::status::<F>, (&driver, &attempt), status),
    ensures
        reply is Ok <==> answers(works, driver),
        driver.kind is PipeWire || driver.kind is Asio ==> (reply matches Err(
            Error::NotImplemented(name),
        ) && goes_by(driver.kind, name@)),
        !(driver.kind is PipeWire || driver.kind is Asio || driver.kind is Mock)
            ==> attempt.ensures((driver,), reply),
        driver.kind is PipeWire || driver.kind is Asio <==> status is Stub,
        status is Ready <==> answers(works, driver),
{
}

proof fn lemma_kept_is_in_order(list: Seq<Driver>, ok: Seq<bool>)
    requires
        ok.len() == list.len(),
        in_order(list),
    ensures
        in_order(crate::driver::kept(list, ok)),
        forall|i: int|
            0 <= i < crate::driver::kept(list, ok).len() && list.len() > 0 ==> place(
                (#[trigger] crate::driver::kept(list, ok)[i]).kind,
            ) <= place(list.last().kind),
    decreases list.len(),
{
    if list.len() > 0 {
        let init = list.drop_last();
        let shorter = crate::driver::kept(init, ok.drop_last());
        let all = crate::driver::kept(list, ok);
        assert forall|i: int, j: int| 0 <= i < j < init.len() implies place(
            (#[trigger] init[i]).kind,
        ) < place((#[trigger] init[j]).kind) by {
            assert(init[i] == list[i] && init[j] == list[j]);
        }
        lemma_kept_is_in_order(init, ok.drop_last());
        if init.len() > 0 {
            assert(place(list[init.len() - 1].kind) < place(list[list.len() - 1].kind));
            assert(init.last() == list[init.len() - 1]);
        }
        assert forall|i: int, j: int| 0 <= i < j < all.len() implies place((#[trigger] all[i]).kind)
            < place((#[trigger] all[j]).kind) by {
            assert(all[i] == shorter[i]);
            if j < shorter.len() {
                assert(all[j] == shorter[j]);
            }
        }
        assert forall|i: int| 0 <= i < all.len() implies place((#[trigger] all[i]).kind) <= place(
            list.last().kind,
        ) by {
            if i < shorter.len() {
                assert(all[i] == shorter[i]);
            }
        }
    }
}

proof fn lemma_probe_result<F: Fn(Driver) -> Result<(), Error>>(
    build: Build,
    attempt: F,
    works: spec_fn(Driver) -> bool,
    ok: Seq<bool>,
    d: Driver,
)
    requires
        goes_as(attempt, works),
        crate::driver::answered(crate::driver::driver_list(build), attempt, ok),
    ensures
        crate::driver::kept(crate::driver::driver_list(build), ok).contains(d) <==> offers(
            build,
            d.kind,
        ) && answers(works, d),
        in_order(crate::driver::kept(crate::driver::driver_list(build), ok)),
{
    let all = crate::driver::driver_list(build);
    lemma_driver_list(build, d);
    lemma_kept_is_in_order(all, ok);
    crate::driver::law_probe_keeps_what_answers(all, ok, d);
    assert forall|i: int| 0 <= i < all.len() implies (ok[i] <==> answers(
        works,
        #[trigger] all[i],
    )) by {
        assert(crate::driver::can_answer(all[i], attempt, ok[i]));
    }
    if all.contains(d) {
        let i = choose|i: int| 0 <= i < all.len() && all[i] == d;
        assert(ok[i] <==> answers(works, all[i]));
    }
}

/// A probe lists exactly the drivers of the build that answer, each once, in
/// the order of preference.
pub proof fn law_a_probe_lists_what_works<F: Fn(Driver) -> Result<(), Error>>(
    build: Build,
    attempt: F,
    works: spec_fn(Driver) -> bool,
    list: Vec<Driver>,
    d: Driver,
)
    requires
        goes_as(attempt, works),
        call_ensures(probe::<F>, (&build, &attempt), list),
    ensures
        list@.contains(d) <==> offers(build, d.kind) && answers(works, d),
        in_order(list@),
{
    let ok = choose|ok: Seq<bool>| #[trigger]
        crate::driver::answered(crate::driver::driver_list(build), attempt, ok) && list@
            == crate::driver::kept(crate::driver::driver_list(build), ok);
    lemma_probe_result(build, attempt, works, ok, d);
}

proof fn lemma_first_is_preferred<F: Fn(Driver) -> Result<(), Error>>(
    build: Build,
    attempt: F,
    works: spec_fn(Driver) -> bool,
    ok: Seq<bool>,
    d: Driver,
)
    requires
        goes_as(attempt, works),
        crate::driver::answered(crate::driver::driver_list(build), attempt, ok),
    ensures
        match crate::driver::first_of(
            crate::driver::kept(crate::driver::driver_list(build), ok),
        ) {
            Some(first) => {
                &&& offers(build, first.kind) && answers(works, first)
                &&& offers(build, d.kind) && answers(works, d) ==> place(first.kind) <= place(
                    d.kind,
                )
            },
            None => !(offers(build, d.kind) && answers(works, d)),
        },
{
    let list = crate::driver::kept(crate::driver::driver_list(build), ok);
    lemma_probe_result(build, attempt, works, ok, d);
    if list.len() > 0 {
        lemma_probe_result(build, attempt, works, ok, list[0]);
        assert(list.contains(list[0]));
        if list.contains(d) {
            let k = choose|k: int| 0 <= k < list.len() && list[k] == d;
            if k > 0 {
                assert(place(list[0].kind) < place(list[k].kind));
            }
        }
    }
}

/// The default driver answers, and no driver that is preferred to it does;
/// there is none exactly when none answers.
pub proof fn law_the_default_driver_is_the_most_preferred<F: Fn(Driver) -> Result<(), Error>>(
    build: Build,
    attempt: F,
    works: spec_fn(Driver) -> bool,
    driver: Option<Driver>,
    d: Driver,
)
    requires
        goes_as(attempt, works),
        call_ensures(default_driver::<F>, (&build, &attempt), driver),
    ensures
        match driver {
            Some(first) => {
                &&& offers(build, first.kind) && answers(works, first)
                &&& offers(build, d.kind) && answers(works, d) ==> place(first.kind) <= place(
                    d.kind,
                )
            },
            None => !(offers(build, d.kind) && answers(works, d)),
        },
{
    let ok = choose|ok: Seq<bool>| #[trigger]
        crate::driver::answered(crate::driver::driver_list(build), attempt, ok) && driver
            == crate::driver::first_of(
            crate::driver::kept(crate::driver::driver_list(build), ok),
        );
    lemma_first_is_preferred(build, attempt, works, ok, d);
}

/// What opening a request on a driver can come to: a stub has nothing to
/// open yet; any other backend is asked for exactly the request, its error
/// is the error, and its stream plays at unity gain.
pub open spec fn opens_as<I: StreamImpl, F: FnOnce(Driver, StreamRequest) -> Result<I, Error>>(
    driver: Driver,
    req: StreamRequest,
    backend: F,
    opened: Result<Stream<I>, Error>,
) -> bool {
    if driver.kind is PipeWire || driver.kind is Asio {
        opened matches Err(Error::NotImplemented(name)) && goes_by(driver.kind, name@)
    } else {
        match opened {
            Ok(stream) => {
                &&& backend.ensures((driver, req), Ok(stream.backend()))
                &&& stream.wants_playing()
                &&& !stream.is_stopped()
                &&& stream.gain() == 0x3F80_0000
            },
            Err(e) => backend.ensures((driver, req), Err(e)),
        }
    }
}

/// Opening asks the driver's backend for exactly what was requested.
pub proof fn law_opening_asks_for_the_request<
    I: StreamImpl,
    F: FnOnce(Driver, StreamRequest) -> Result<I, Error>,
>(driver: Driver, req: StreamRequest, backend: F, opened: Result<Stream<I>, Error>)
    requires
        call_ensures(open::<I, F>, (driver, req, backend), opened),
    ensures
        opens_as(driver, req, backend, opened),
{
}

/// Opening on a device asks for the request with that device's id, and
/// nothing else changed.
pub proof fn law_opening_on_a_device_asks_for_it<
    I: StreamImpl,
    F: FnOnce(Driver, StreamRequest) -> Result<I, Error>,
>(driver: Driver, device: Device, req: StreamRequest, backend: F, opened: Result<Stream<I>, Error>)
    requires
        call_ensures(open_on::<I, F>, (driver, &device, req, backend), opened),
    ensures
        exists|asked: StreamRequest|
            {
                &&& #[trigger] opens_as(driver, asked, backend, opened)
                &&& asked.device is Some && asked.device->0@ == device.id@
                &&& asked.sample_rate == req.sample_rate
                &&& asked.channels == req.channels
                &&& asked.format == req.format
                &&& asked.buffer_frames == req.buffer_frames
            },
{
    let asked = choose|r: StreamRequest| #[trigger]
        crate::driver::routed(req, device, r) && crate::driver::opens(driver, r, backend, opened);
    assert(opens_as(driver, asked, backend, opened));
}

/// Opening the default opens the most preferred driver that answers, and
/// says so when there is none.
pub proof fn law_the_default_is_what_is_opened<
    I: StreamImpl,
    P: Fn(Driver) -> Result<(), Error>,
    F: FnOnce(Driver, StreamRequest) -> Result<I, Error>,
>(
    build: Build,
    attempt: P,
    works: spec_fn(Driver) -> bool,
    req: StreamRequest,
    backend: F,
    opened: Result<Stream<I>, Error>,
    d: Driver,
)
    requires
        goes_as(attempt, works),
        offers(build, d.kind) && answers(works, d),
        forall|e: BackendKind|
            offers(build, e) && answers(works, Driver { kind: e }) ==> place(d.kind)
                <= #[trigger] place(e),
        call_ensures(open_default::<I, P, F>, (&build, &attempt, req, backend), opened),
    ensures
        opens_as(d, req, backend, opened),
{
    let all = crate::driver::driver_list(build);
    let ok = choose|ok: Seq<bool>| #[trigger]
        crate::driver::answered(all, attempt, ok) && match crate::driver::first_of(
            crate::driver::kept(all, ok),
        ) {
            Some(first) => crate::driver::opens(first, req, backend, opened),
            None => opened matches Err(Error::NoDriver(s)) && s@
                == "probe() returned no working backend"@,
        };
    lemma_first_is_preferred(build, attempt, works, ok, d);
    let first = crate::driver::first_of(crate::driver::kept(all, ok))->0;
    assert(place(d.kind) <= place(first.kind));
    assert(first.kind == d.kind);
}

/// Where no driver answers, nothing is opened.
pub proof fn law_nothing_is_opened_without_a_driver<
    I: StreamImpl,
    P: Fn(Driver) -> Result<(), Error>,
    F: FnOnce(Driver, StreamRequest) -> Result<I, Error>,
>(
    build: Build,
    attempt: P,
    works: spec_fn(Driver) -> bool,
    req: StreamRequest,
    backend: F,
    opened: Result<Stream<I>, Error>,
)
    requires
        goes_as(attempt, works),
        forall|d: Driver| #[trigger] offers(build, d.kind) ==> !answers(works, d),
        call_ensures(open_default::<I, P, F>, (&build, &attempt, req, backend), opened),
    ensures
        opened matches Err(Error::NoDriver(s)) && s@ == "probe() returned no working backend"@,
{
    let all = crate::driver::driver_list(build);
    let ok = choose|ok: Seq<bool>| #[trigger]
        crate::driver::answered(all, attempt, ok) && match crate::driver::first_of(
            crate::driver::kept(all, ok),
        ) {
            Some(first) => crate::driver::opens(first, req, backend, opened),
            None => opened matches Err(Error::NoDriver(s)) && s@
                == "probe() returned no working backend"@,
        };
    let d = Driver { kind: BackendKind::Mock };
    lemma_first_is_preferred(build, attempt, works, ok, d);
    if let Some(first) = crate::driver::first_of(crate::driver::kept(all, ok)) {
        assert(offers(build, first.kind));
    }
}

/// The default of a list is the first entry that is tagged as one.
pub proof fn law_the_first_tagged_device_is_picked(
    devices: Vec<Device>,
    picked: Option<Device>,
    n: int,
)
    requires
        call_ensures(pick_default, (&devices,), picked),
        0 <= n <= devices@.len(),
        forall|i: int| 0 <= i < n ==> !(#[trigger] devices@[i]).is_default,
        n < devices@.len() ==> devices@[n].is_default,
    ensures
        n < devices@.len() ==> picked == Some(devices@[n]),
        n == devices@.len() ==> picked is None,
{
    lemma_first_tagged(devices@, n as nat);
}

proof fn lemma_first_tagged(devices: Seq<Device>, n: nat)
    requires
        n <= devices.len(),
        forall|i: int| 0 <= i < n ==> !(#[trigger] devices[i]).is_default,
        n < devices.len() ==> devices[n as int].is_default,
    ensures
        crate::driver::first_default_index(devices) == n,
    decreases n,
{
    if n > 0 {
        let rest = devices.drop_first();
        assert(!devices[0].is_default);
        assert forall|i: int| 0 <= i < n - 1 implies !(#[trigger] rest[i]).is_default by {
            assert(rest[i] == devices[i + 1]);
        }
        lemma_first_tagged(rest, (n - 1) as nat);
    }
}

/// What listing a driver's devices can come to: the mock's are its three;
/// those of ALSA, WASAPI and CoreAudio are what the backend lists, or none
/// where it has no way to; the other backends have no way to.
pub open spec fn lists_as<F: FnOnce(Driver) -> Result<Vec<Device>, Error>>(
    driver: Driver,
    enumerate: F,
    list: Result<Vec<Device>, Error>,
) -> bool {
    match driver.kind {
        BackendKind::Alsa | BackendKind::Wasapi | BackendKind::CoreAudio => exists|
            reply: Result<Vec<Device>, Error>,
        | #[trigger]
            enumerate.ensures((driver,), reply) && match reply {
                Ok(l) => list is Ok && list->Ok_0 == l,
                Err(Error::NotImplemented(_)) => list is Ok && list->Ok_0@.len() == 0,
                Err(e) => list is Err && list->Err_0 == e,
            },
        BackendKind::Mock => {
            &&& list is Ok
            &&& list->Ok_0@.len() == 3
            &&& list->Ok_0@[0].id@ == "mock:default"@ && list->Ok_0@[0].is_default
            &&& list->Ok_0@[1].id@ == "mock:secondary"@ && !list->Ok_0@[1].is_default
            &&& list->Ok_0@[2].id@ == "mock:capture"@ && !list->Ok_0@[2].is_default
        },
        _ => list is Ok && list->Ok_0@.len() == 0,
    }
}

/// A driver's devices are what its backend lists, whichever form is called.
pub proof fn law_devices_are_what_the_backend_lists<
    F: FnOnce(Driver) -> Result<Vec<Device>, Error>,
>(
    driver: Driver,
    enumerate: F,
    method: Result<Vec<Device>, Error>,
    free: Result<Vec<Device>, Error>,
)
    requires
        call_ensures(Driver::output_devices::<F>, (&driver, enumerate), method),
        call_ensures(output_devices::<F>, (driver, enumerate), free),
    ensures
        lists_as(driver, enumerate, method),
        lists_as(driver, enumerate, free),
{
    lemma_listed(driver, enumerate, method);
    lemma_listed(driver, enumerate, free);
}

proof fn lemma_listed<F: FnOnce(Driver) -> Result<Vec<Device>, Error>>(
    driver: Driver,
    enumerate: F,
    list: Result<Vec<Device>, Error>,
)
    requires
        driver.listed(enumerate, list),
    ensures
        lists_as(driver, enumerate, list),
{
    if driver.kind is Mock {
        let l = list->Ok_0@;
        let e = crate::backends::mock::mock_entries();
        assert(l[0].is(e[0].0, e[0].1, e[0].2));
        assert(l[1].is(e[1].0, e[1].1, e[1].2));
        assert(l[2].is(e[2].0, e[2].1, e[2].2));
    } else if driver.kind is Alsa || driver.kind is Wasapi || driver.kind is CoreAudio {
        let reply = choose|reply: Result<Vec<Device>, Error>| #[trigger]
            enumerate.ensures((driver,), reply) && match reply {
                Ok(l) => list == Ok::<Vec<Device>, Error>(l),
                Err(Error::NotImplemented(_)) => list matches Ok(l) && l@ == Seq::<Device>::empty(),
                Err(e) => list == Err::<Vec<Device>, Error>(e),
            };
        assert(enumerate.ensures((driver,), reply));
    }
}

/// The default device is what the backend reports, or the first tagged one
/// of what it lists; there is none where the backend has no way to tell.
pub proof fn law_the_default_device_is_what_the_backend_reports<
    F: FnOnce(Driver) -> Result<DefaultReport, Error>,
>(driver: Driver, query: F, device: Result<Option<Device>, Error>)
    requires
        call_ensures(Driver::default_output_device::<F>, (&driver, query), device),
    ensures
        match driver.kind {
            BackendKind::Alsa | BackendKind::Wasapi | BackendKind::CoreAudio => exists|
                reply: Result<DefaultReport, Error>,
            | #[trigger]
                query.ensures((driver,), reply) && match reply {
                    Ok(DefaultReport::Direct(d)) => device is Ok && device->Ok_0 == d,
                    Ok(DefaultReport::Listed(l)) => device is Ok && match device->Ok_0 {
                        Some(d) => exists|n: int|
                            {
                                &&& 0 <= n < l@.len()
                                &&& d == #[trigger] l@[n]
                                &&& d.is_default
                                &&& forall|i: int| 0 <= i < n ==> !(#[trigger] l@[i]).is_default
                            },
                        None => forall|i: int|
                            0 <= i < l@.len() ==> !(#[trigger] l@[i]).is_default,
                    },
                    Err(Error::NotImplemented(_)) => device is Ok && device->Ok_0 is None,
                    Err(e) => device is Err && device->Err_0 == e,
                },
            BackendKind::Mock => device is Ok && device->Ok_0 is Some && device->Ok_0->0.id@
                == "mock:default"@ && device->Ok_0->0.name@ == "Mock Default Output"@
                && device->Ok_0->0.is_default,
            _ => device is Ok && device->Ok_0 is None,
        },
{
    if driver.kind is Alsa || driver.kind is Wasapi || driver.kind is CoreAudio {
        let reply = choose|reply: Result<DefaultReport, Error>| #[trigger]
            query.ensures((driver,), reply) && match reply {
                Ok(DefaultReport::Listed(l)) => device == Ok::<Option<Device>, Error>(
                    crate::driver::default_of(l@),
                ),
                Ok(DefaultReport::Direct(d)) => device == Ok::<Option<Device>, Error>(d),
                Err(Error::NotImplemented(_)) => device matches Ok(d) && d is None,
                Err(e) => device == Err::<Option<Device>, Error>(e),
            };
        assert(query.ensures((driver,), reply));
        if let Ok(DefaultReport::Listed(l)) = reply {
            lemma_default_of(l@);
        }
    }
}

proof fn lemma_default_of(devices: Seq<Device>)
    ensures
        ({
            let n = crate::driver::first_default_index(devices) as int;
            &&& 0 <= n <= devices.len()
            &&& n < devices.len() ==> devices[n].is_default
            &&& forall|i: int| 0 <= i < n ==> !(#[trigger] devices[i]).is_default
        }),
    decreases devices.len(),
{
    if devices.len() > 0 && !devices[0].is_default {
        let rest = devices.drop_first();
        lemma_default_of(rest);
        let m = crate::driver::first_default_index(rest) as int;
        assert forall|i: int| 0 <= i < m + 1 implies !(#[trigger] devices[i]).is_default by {
            if i > 0 {
                assert(rest[i - 1] == devices[i]);
            }
        }
        if m < rest.len() {
            assert(rest[m] == devices[m + 1]);
        }
    }
}

/// The native format is what the backend reports for the device's id, or for
/// the default; there is none where the backend has no way to tell; the
/// mock's is 48 kHz stereo for a device it has.
pub proof fn law_the_native_format_is_what_the_backend_reports<
    F: FnOnce(Driver, Option<String>) -> Result<StreamFormat, Error>,
>(driver: Driver, device: Option<&Device>, query: F, format: Result<Option<StreamFormat>, Error>)
    requires
        call_ensures(Driver::preferred_format::<F>, (&driver, device, query), format),
    ensures
        match driver.kind {
            BackendKind::Alsa | BackendKind::Wasapi | BackendKind::CoreAudio => exists|
                id: Option<String>,
                reply: Result<StreamFormat, Error>,
            | #[trigger]
                query.ensures((driver, id), reply) && (match device {
                    Some(d) => id == Some(d.id),
                    None => id is None,
                }) && match reply {
                    Ok(f) => format is Ok && format->Ok_0 == Some(f),
                    Err(Error::NotImplemented(_)) => format is Ok && format->Ok_0 is None,
                    Err(e) => format is Err && format->Err_0 == e,
                },
            BackendKind::Mock => if device is None || crate::laws::mock::is_virtual(
                device->0.id@,
            ) {
                format is Ok && format->Ok_0 is Some && format->Ok_0->0.sample_rate == 48_000
                    && format->Ok_0->0.channels == 2 && format->Ok_0->0.format is F32
            } else {
                format matches Err(Error::DeviceOpen { backend, detail }) && backend@ == "mock"@
                    && detail@ == "no such mock device: "@ + device->0.id@
            },
            _ => format is Ok && format->Ok_0 is None,
        },
{
    if driver.kind is Mock {
        if let Some(d) = device {
            crate::laws::mock::lemma_virtual_devices(d.id@);
        }
    } else if driver.kind is Alsa || driver.kind is Wasapi || driver.kind is CoreAudio {
        let reply = choose|reply: Result<StreamFormat, Error>| #[trigger]
            query.ensures((driver, crate::driver::id_of(device)), reply) && match reply {
                Ok(f) => format == Ok::<Option<StreamFormat>, Error>(Some(f)),
                Err(Error::NotImplemented(_)) => format matches Ok(f) && f is None,
                Err(e) => format == Err::<Option<StreamFormat>, Error>(e),
            };
        assert(query.ensures((driver, crate::driver::id_of(device)), reply));
    }
}

} // verus!
