//! Driver probing and explicit selection.
//!
//! [`probe`] returns the subset of compiled-in backends whose shared library
//! loads and whose device opens cleanly, ordered by platform preference.
//! [`default_driver`] is the first entry of that list. Callers that need to
//! force a specific backend pass a [`Driver`] to [`open`]; [`drivers`]
//! enumerates every compiled-in backend (including ones whose library isn't
//! installed).
//!
//! What a backend does when it is probed, asked or opened is the caller's: a
//! function that makes the native calls is handed in.

use vstd::prelude::*;

use crate::backends::mock;
use crate::error::Error;
use crate::format::{Device, StreamFormat, StreamRequest};
use crate::stream::{Stream, StreamImpl, UNITY_GAIN};
use crate::text::same_text;

verus! {

/// The backends there are.
#[derive(Debug, Clone, Copy, PartialEq, Eq, Structural)]
pub enum BackendKind {
    PipeWire,
    Pulse,
    Alsa,
    Oss,
    Wasapi,
    Asio,
    CoreAudio,
    Mock,
}

/// The platforms there are backends for.
#[derive(Debug, Clone, Copy, PartialEq, Eq, Structural)]
pub enum Platform {
    Linux,
    Windows,
    MacOs,
    Other,
}

/// What is compiled in: the platform, and the backends that are enabled.
/// Disabling a backend omits it entirely.
#[derive(Debug, Clone, Copy, PartialEq, Eq, Structural)]
pub struct Build {
    pub platform: Platform,
    pub pipewire: bool,
    pub pulse: bool,
    pub alsa: bool,
    pub oss: bool,
    pub wasapi: bool,
    pub asio: bool,
    pub coreaudio: bool,
    pub mock: bool,
}

impl Build {
    /// Every backend is enabled by default, except for the mock.
    pub fn new(platform: Platform) -> (build: Build)
        ensures
            build == (Build {
                platform,
                pipewire: true,
                pulse: true,
                alsa: true,
                oss: true,
                wasapi: true,
                asio: true,
                coreaudio: true,
                mock: false,
            }),
    {
        Build {
            platform,
            pipewire: true,
            pulse: true,
            alsa: true,
            oss: true,
            wasapi: true,
            asio: true,
            coreaudio: true,
            mock: false,
        }
    }

    /// Whether a backend is enabled.
    pub open spec fn has(self, kind: BackendKind) -> bool {
        match kind {
            BackendKind::PipeWire => self.pipewire,
            BackendKind::Pulse => self.pulse,
            BackendKind::Alsa => self.alsa,
            BackendKind::Oss => self.oss,
            BackendKind::Wasapi => self.wasapi,
            BackendKind::Asio => self.asio,
            BackendKind::CoreAudio => self.coreaudio,
            BackendKind::Mock => self.mock,
        }
    }

    fn includes(&self, kind: BackendKind) -> (included: bool)
        ensures
            included == self.has(kind),
    {
        match kind {
            BackendKind::PipeWire => self.pipewire,
            BackendKind::Pulse => self.pulse,
            BackendKind::Alsa => self.alsa,
            BackendKind::Oss => self.oss,
            BackendKind::Wasapi => self.wasapi,
            BackendKind::Asio => self.asio,
            BackendKind::CoreAudio => self.coreaudio,
            BackendKind::Mock => self.mock,
        }
    }
}

/// Handle to a backend. Call [`drivers`] or [`probe`] to get one; pass it to
/// [`open`] to open a stream.
#[derive(Debug, Clone, Copy, PartialEq, Eq, Structural)]
pub struct Driver {
    pub kind: BackendKind,
}

/// Whether a backend is ready for use.
#[derive(Debug, Clone, Copy, PartialEq, Eq, Structural)]
pub enum DriverStatus {
    /// It probed successfully.
    Ready,
    /// It is implemented, but did not probe: its library isn't installed or
    /// its device does not open.
    Unavailable,
    /// It is not implemented yet.
    Stub,
}

impl DriverStatus {
    /// Whether the backend can be opened.
    pub fn is_ready(&self) -> (ready: bool)
        ensures
            ready == (*self is Ready),
    {
        match self {
            DriverStatus::Ready => true,
            _ => false,
        }
    }
}

/// What a backend says of the default device: a list to look it up in, or
/// the device itself when the backend has a cheaper way to ask.
#[derive(Debug)]
pub enum DefaultReport {
    Listed(Vec<Device>),
    Direct(Option<Device>),
}

/// The position of the first device of a list that is tagged as the default,
/// or the length of the list.
pub open spec fn first_default_index(devices: Seq<Device>) -> nat
    decreases devices.len(),
{
    if devices.len() == 0 || devices[0].is_default {
        0
    } else {
        1 + first_default_index(devices.drop_first())
    }
}

/// The first device of a list that is tagged as the default.
pub open spec fn default_of(devices: Seq<Device>) -> Option<Device> {
    let i = first_default_index(devices);
    if i < devices.len() {
        Some(devices[i as int])
    } else {
        None
    }
}

proof fn lemma_first_default_index(devices: Seq<Device>, n: nat)
    requires
        n <= devices.len(),
        forall|i: int| 0 <= i < n ==> !(#[trigger] devices[i]).is_default,
        n < devices.len() ==> devices[n as int].is_default,
    ensures
        first_default_index(devices) == n,
    decreases n,
{
    if n > 0 {
        let rest = devices.drop_first();
        assert(!devices[0].is_default);
        assert forall|i: int| 0 <= i < n - 1 implies !(#[trigger] rest[i]).is_default by {
            assert(rest[i] == devices[i + 1]);
        }
        lemma_first_default_index(rest, (n - 1) as nat);
    }
}

/// Picks the default out of a list of devices: none when the list is empty
/// or no entry is tagged.
pub fn pick_default(devices: &Vec<Device>) -> (device: Option<Device>)
    ensures
        device == default_of(devices@),
{
    let mut i: usize = 0;
    while i < devices.len()
        invariant
            i <= devices@.len(),
            forall|k: int| 0 <= k < i ==> !(#[trigger] devices@[k]).is_default,
        decreases devices@.len() - i,
    {
        if devices[i].is_default {
            proof {
                lemma_first_default_index(devices@, i as nat);
            }
            return Some(devices[i].clone());
        }
        i = i + 1;
    }
    proof {
        lemma_first_default_index(devices@, i as nat);
    }
    None
}

/// Of a list with exactly one default, that one is picked.
pub proof fn law_the_one_default_is_picked(
    devices: Seq<Device>,
    entries: Seq<(Seq<char>, Seq<char>, bool)>,
    i: int,
)
    requires
        crate::format::lists(devices, entries),
        crate::format::is_the_one_default(entries, i),
    ensures
        default_of(devices) == Some(devices[i]),
{
    assert(devices[i].is(entries[i].0, entries[i].1, entries[i].2));
    assert forall|j: int| 0 <= j < i implies !(#[trigger] devices[j]).is_default by {
        assert(devices[j].is(entries[j].0, entries[j].1, entries[j].2));
    }
    lemma_first_default_index(devices, i as nat);
}

/// The short name of a backend.
pub open spec fn name_of(kind: BackendKind) -> Seq<char> {
    match kind {
        BackendKind::PipeWire => "pipewire"@,
        BackendKind::Pulse => "pulse"@,
        BackendKind::Alsa => "alsa"@,
        BackendKind::Oss => "oss"@,
        BackendKind::Wasapi => "wasapi"@,
        BackendKind::Asio => "asio"@,
        BackendKind::CoreAudio => "coreaudio"@,
        BackendKind::Mock => "mock"@,
    }
}

/// The id of a device, if there is one.
pub open spec fn id_of(device: Option<&Device>) -> Option<String> {
    match device {
        Some(d) => Some(d.id),
        None => None,
    }
}

/// Whether a backend is a placeholder.
pub open spec fn is_placeholder(kind: BackendKind) -> bool {
    kind is PipeWire || kind is Asio
}

/// Whether a backend can list its devices and report its native format. The
/// PulseAudio "simple" API exposes no sink introspection, and OSS has no way
/// to read a setting without writing it.
pub open spec fn can_introspect(kind: BackendKind) -> bool {
    kind is Alsa || kind is Wasapi || kind is CoreAudio || kind is Mock
}

impl Driver {
    /// The short name: `"alsa"`, `"pulse"`, `"wasapi"`, ...
    pub fn name(&self) -> (name: &'static str)
        ensures
            name@ == name_of(self.kind),
    {
        match self.kind {
            BackendKind::PipeWire => "pipewire",
            BackendKind::Pulse => "pulse",
            BackendKind::Alsa => "alsa",
            BackendKind::Oss => "oss",
            BackendKind::Wasapi => "wasapi",
            BackendKind::Asio => "asio",
            BackendKind::CoreAudio => "coreaudio",
            BackendKind::Mock => "mock",
        }
    }

    /// What the backend is and what it goes through.
    pub fn description(&self) -> (description: &'static str)
        ensures
            description@ == match self.kind {
                BackendKind::PipeWire => "PipeWire (stub — not yet implemented)"@,
                BackendKind::Pulse => "PulseAudio (libpulse-simple.so.0 via libloading)"@,
                BackendKind::Alsa => "ALSA (libasound.so.2 via libloading)"@,
                BackendKind::Oss => "OSS (/dev/dsp via libc through libloading)"@,
                BackendKind::Wasapi => {
                    "WASAPI (ole32.dll + mmdevapi via libloading, shared mode, event-driven)"@
                },
                BackendKind::Asio => "ASIO (stub — not yet implemented)"@,
                BackendKind::CoreAudio => {
                    "CoreAudio (AudioToolbox.framework via libloading, AudioQueue output)"@
                },
                BackendKind::Mock => {
                    "Virtual test output — no hardware; renders to a discard/capture sink"@
                },
            },
    {
        match self.kind {
            BackendKind::PipeWire => "PipeWire (stub — not yet implemented)",
            BackendKind::Pulse => "PulseAudio (libpulse-simple.so.0 via libloading)",
            BackendKind::Alsa => "ALSA (libasound.so.2 via libloading)",
            BackendKind::Oss => "OSS (/dev/dsp via libc through libloading)",
            BackendKind::Wasapi => {
                "WASAPI (ole32.dll + mmdevapi via libloading, shared mode, event-driven)"
            },
            BackendKind::Asio => "ASIO (stub — not yet implemented)",
            BackendKind::CoreAudio => {
                "CoreAudio (AudioToolbox.framework via libloading, AudioQueue output)"
            },
            BackendKind::Mock => {
                "Virtual test output — no hardware; renders to a discard/capture sink"
            },
        }
    }

    /// Whether the backend ships as a placeholder, so that every call into it
    /// fails regardless of the host. That tells "not implemented yet" apart
    /// from "library not installed", which look the same to a probe.
    pub fn is_stub(&self) -> (stub: bool)
        ensures
            stub == is_placeholder(self.kind),
    {
        match self.kind {
            BackendKind::PipeWire | BackendKind::Asio => true,
            _ => false,
        }
    }

    fn introspects(&self) -> (can: bool)
        ensures
            can == can_introspect(self.kind),
    {
        match self.kind {
            BackendKind::Alsa
            | BackendKind::Wasapi
            | BackendKind::CoreAudio
            | BackendKind::Mock => true,
            _ => false,
        }
    }

    /// Whether `reply` is what probing this backend can come to: a stub
    /// always fails, the mock never does, and any other backend goes by
    /// `attempt`.
    pub open spec fn probed<F: Fn(Driver) -> Result<(), Error>>(
        self,
        attempt: F,
        reply: Result<(), Error>,
    ) -> bool {
        if is_placeholder(self.kind) {
            reply matches Err(e) && e.is_not_implemented(name_of(self.kind))
        } else if self.kind is Mock {
            reply is Ok
        } else {
            attempt.ensures((self,), reply)
        }
    }

    /// Checks that the backend is usable right now. `attempt` loads the
    /// shared library and opens a throw-away handle.
    pub fn probe<F: Fn(Driver) -> Result<(), Error>>(&self, attempt: &F) -> (reply: Result<
        (),
        Error,
    >)
        requires
            attempt.requires((*self,)),
        ensures
            self.probed(*attempt, reply),
    {
        if self.is_stub() {
            return Err(Error::NotImplemented(self.name()));
        }
        match self.kind {
            BackendKind::Mock => mock::probe(),
            _ => attempt(*self),
        }
    }

    /// The status of the backend: a stub is one whatever the host has.
    pub fn status<F: Fn(Driver) -> Result<(), Error>>(&self, attempt: &F) -> (status: DriverStatus)
        requires
            attempt.requires((*self,)),
        ensures
            is_placeholder(self.kind) ==> status is Stub,
            !is_placeholder(self.kind) ==> exists|reply: Result<(), Error>|
                #[trigger] self.probed(*attempt, reply) && status == (if reply is Ok {
                    DriverStatus::Ready
                } else {
                    DriverStatus::Unavailable
                }),
    {
        if self.is_stub() {
            return DriverStatus::Stub;
        }
        match self.probe(attempt) {
            Ok(_) => DriverStatus::Ready,
            Err(_) => DriverStatus::Unavailable,
        }
    }

    /// Whether `list` is what listing devices through `enumerate` can come
    /// to.
    pub open spec fn listed<F: FnOnce(Driver) -> Result<Vec<Device>, Error>>(
        self,
        enumerate: F,
        list: Result<Vec<Device>, Error>,
    ) -> bool {
        if !can_introspect(self.kind) {
            list matches Ok(l) && l@ == Seq::<Device>::empty()
        } else if self.kind is Mock {
            list matches Ok(l) && crate::format::lists(l@, mock::mock_entries())
        } else {
            exists|reply: Result<Vec<Device>, Error>| #[trigger]
                enumerate.ensures((self,), reply) && match reply {
                    Ok(l) => list == Ok::<Vec<Device>, Error>(l),
                    Err(Error::NotImplemented(_)) => list matches Ok(l) && l@ == Seq::<
                        Device,
                    >::empty(),
                    Err(e) => list == Err::<Vec<Device>, Error>(e),
                }
        }
    }

    /// The playback devices that the backend can see. One that has no way to
    /// enumerate has an empty list rather than an error, so callers can
    /// union device lists across drivers.
    pub fn output_devices<F: FnOnce(Driver) -> Result<Vec<Device>, Error>>(
        &self,
        enumerate: F,
    ) -> (list: Result<Vec<Device>, Error>)
        requires
            enumerate.requires((*self,)),
        ensures
            self.listed(enumerate, list),
    {
        if !self.introspects() {
            return Ok(Vec::new());
        }
        match self.kind {
            BackendKind::Mock => mock::output_devices(),
            _ => {
                let reply = enumerate(*self);
                assert(enumerate.ensures((*self,), reply));
                match reply {
                    Err(Error::NotImplemented(_)) => Ok(Vec::new()),
                    other => other,
                }
            },
        }
    }

    /// Whether `device` is what asking for the default device through
    /// `query` can come to.
    pub open spec fn defaulted<F: FnOnce(Driver) -> Result<DefaultReport, Error>>(
        self,
        query: F,
        device: Result<Option<Device>, Error>,
    ) -> bool {
        if !can_introspect(self.kind) {
            device matches Ok(d) && d is None
        } else if self.kind is Mock {
            device matches Ok(Some(d)) && d.is("mock:default"@, "Mock Default Output"@, true)
        } else {
            exists|reply: Result<DefaultReport, Error>| #[trigger]
                query.ensures((self,), reply) && match reply {
                    Ok(DefaultReport::Listed(l)) => device == Ok::<Option<Device>, Error>(
                        default_of(l@),
                    ),
                    Ok(DefaultReport::Direct(d)) => device == Ok::<Option<Device>, Error>(d),
                    Err(Error::NotImplemented(_)) => device matches Ok(d) && d is None,
                    Err(e) => device == Err::<Option<Device>, Error>(e),
                }
        }
    }

    /// The device that a plain `open()` would currently bind to. A backend
    /// that lists its devices answers with the list, out of which the tagged
    /// entry is taken.
    pub fn default_output_device<F: FnOnce(Driver) -> Result<DefaultReport, Error>>(
        &self,
        query: F,
    ) -> (device: Result<Option<Device>, Error>)
        requires
            query.requires((*self,)),
        ensures
            self.defaulted(query, device),
    {
        if !self.introspects() {
            return Ok(None);
        }
        if let BackendKind::Mock = self.kind {
            return match mock::output_devices() {
                Ok(l) => {
                    proof {
                        assert(l@[0].is(
                            mock::mock_entries()[0].0,
                            mock::mock_entries()[0].1,
                            mock::mock_entries()[0].2,
                        ));
                        lemma_first_default_index(l@, 0);
                    }
                    Ok(pick_default(&l))
                },
                Err(e) => Err(e),
            };
        }
        let reply = query(*self);
        assert(query.ensures((*self,), reply));
        match reply {
            Ok(DefaultReport::Listed(l)) => Ok(pick_default(&l)),
            Ok(DefaultReport::Direct(d)) => Ok(d),
            Err(Error::NotImplemented(_)) => Ok(None),
            Err(e) => Err(e),
        }
    }

    /// Whether `format` is what asking for the native format of `device`
    /// through `query` can come to.
    pub open spec fn prefers<F: FnOnce(Driver, Option<String>) -> Result<StreamFormat, Error>>(
        self,
        device: Option<&Device>,
        query: F,
        format: Result<Option<StreamFormat>, Error>,
    ) -> bool {
        if !can_introspect(self.kind) {
            format matches Ok(f) && f is None
        } else if self.kind is Mock {
            if device is None || mock::is_mock_device(device->0.id@) {
                format matches Ok(Some(f)) && f.sample_rate == 48_000 && f.channels == 2
                    && f.format is F32
            } else {
                format matches Err(e) && e.is_device_open(
                    "mock"@,
                    "no such mock device: "@ + device->0.id@,
                )
            }
        } else {
            exists|reply: Result<StreamFormat, Error>| #[trigger]
                query.ensures((self, id_of(device)), reply) && match reply {
                    Ok(f) => format == Ok::<Option<StreamFormat>, Error>(Some(f)),
                    Err(Error::NotImplemented(_)) => format matches Ok(f) && f is None,
                    Err(e) => format == Err::<Option<StreamFormat>, Error>(e),
                }
        }
    }

    /// What `open()` would agree on for an unconstrained request, without
    /// committing a stream: for the system default, or for `device`.
    pub fn preferred_format<F: FnOnce(Driver, Option<String>) -> Result<StreamFormat, Error>>(
        &self,
        device: Option<&Device>,
        query: F,
    ) -> (format: Result<Option<StreamFormat>, Error>)
        requires
            forall|id: Option<String>| #[trigger] query.requires((*self, id)),
        ensures
            self.prefers(device, query, format),
    {
        if !self.introspects() {
            return Ok(None);
        }
        if let BackendKind::Mock = self.kind {
            let id = match device {
                Some(d) => Some(d.id.as_str()),
                None => None,
            };
            proof {
                mock::law_mock_has_one_default();
            }
            return match mock::preferred_format(id) {
                Ok(f) => Ok(Some(f)),
                Err(e) => Err(e),
            };
        }
        let id = match device {
            Some(d) => Some(d.id.clone()),
            None => None,
        };
        assert(id == id_of(device));
        let reply = query(*self, id);
        assert(query.ensures((*self, id_of(device)), reply));
        match reply {
            Ok(f) => Ok(Some(f)),
            Err(Error::NotImplemented(_)) => Ok(None),
            Err(e) => Err(e),
        }
    }
}

/// The backends of a platform, in order of preference.
pub open spec fn preference(platform: Platform) -> Seq<BackendKind> {
    match platform {
        Platform::Linux => seq![
            BackendKind::PipeWire,
            BackendKind::Pulse,
            BackendKind::Alsa,
            BackendKind::Oss,
        ],
        Platform::Windows => seq![BackendKind::Wasapi, BackendKind::Asio],
        Platform::MacOs => seq![BackendKind::CoreAudio],
        Platform::Other => seq![],
    }
}

/// The drivers of a sequence of backends that are enabled, in order.
pub open spec fn enabled(build: Build, kinds: Seq<BackendKind>) -> Seq<Driver>
    decreases kinds.len(),
{
    if kinds.len() == 0 {
        seq![]
    } else if build.has(kinds.last()) {
        enabled(build, kinds.drop_last()).push(Driver { kind: kinds.last() })
    } else {
        enabled(build, kinds.drop_last())
    }
}

/// The compiled-in drivers: the platform's backends in order of preference,
/// and the mock last, so that a real backend still wins whenever one works.
pub open spec fn driver_list(build: Build) -> Seq<Driver> {
    enabled(build, preference(build.platform).push(BackendKind::Mock))
}

/// Every backend compiled in, including stubs and backends whose shared
/// library isn't installed.
pub fn drivers(build: &Build) -> (list: Vec<Driver>)
    ensures
        list@ == driver_list(*build),
{
    let kinds: Vec<BackendKind> = match build.platform {
        Platform::Linux => vec![
            BackendKind::PipeWire,
            BackendKind::Pulse,
            BackendKind::Alsa,
            BackendKind::Oss,
            BackendKind::Mock,
        ],
        Platform::Windows => vec![BackendKind::Wasapi, BackendKind::Asio, BackendKind::Mock],
        Platform::MacOs => vec![BackendKind::CoreAudio, BackendKind::Mock],
        Platform::Other => vec![BackendKind::Mock],
    };
    assert(kinds@ =~= preference(build.platform).push(BackendKind::Mock));
    let mut list: Vec<Driver> = Vec::new();
    let mut i: usize = 0;
    assert(kinds@.take(0) =~= Seq::<BackendKind>::empty());
    while i < kinds.len()
        invariant
            i <= kinds@.len(),
            list@ == enabled(*build, kinds@.take(i as int)),
        decreases kinds@.len() - i,
    {
        proof {
            let prefix = kinds@.take(i + 1);
            assert(prefix.drop_last() =~= kinds@.take(i as int));
            assert(prefix.last() == kinds@[i as int]);
        }
        if build.includes(kinds[i]) {
            list.push(Driver { kind: kinds[i] });
        }
        i = i + 1;
    }
    assert(kinds@.take(i as int) =~= kinds@);
    list
}

/// The drivers of a list for which `ok` says so, in order.
pub open spec fn kept(list: Seq<Driver>, ok: Seq<bool>) -> Seq<Driver>
    decreases list.len(),
{
    if list.len() == 0 || ok.len() != list.len() {
        seq![]
    } else if ok.last() {
        kept(list.drop_last(), ok.drop_last()).push(list.last())
    } else {
        kept(list.drop_last(), ok.drop_last())
    }
}

/// Whether probing a driver can come to success or failure as `ok` says.
pub open spec fn can_answer<F: Fn(Driver) -> Result<(), Error>>(
    driver: Driver,
    attempt: F,
    ok: bool,
) -> bool {
    exists|reply: Result<(), Error>| #[trigger]
        driver.probed(attempt, reply) && (reply is Ok) == ok
}

/// Whether probing each driver of a list can come to what `ok` says.
pub open spec fn answered<F: Fn(Driver) -> Result<(), Error>>(
    list: Seq<Driver>,
    attempt: F,
    ok: Seq<bool>,
) -> bool {
    &&& ok.len() == list.len()
    &&& forall|i: int| 0 <= i < list.len() ==> can_answer(#[trigger] list[i], attempt, ok[i])
}

/// Backends that probe successfully, in the platform's preferred order.
/// Errors during probing are swallowed: a failed backend is simply absent
/// from the result.
pub fn probe<F: Fn(Driver) -> Result<(), Error>>(build: &Build, attempt: &F) -> (list: Vec<Driver>)
    requires
        forall|d: Driver| #[trigger] attempt.requires((d,)),
    ensures
        exists|ok: Seq<bool>|
            #[trigger] answered(driver_list(*build), *attempt, ok) && list@ == kept(
                driver_list(*build),
                ok,
            ),
{
    let all = drivers(build);
    let mut list: Vec<Driver> = Vec::new();
    let mut i: usize = 0;
    let ghost mut ok: Seq<bool> = seq![];
    assert(all@.take(0) =~= Seq::<Driver>::empty());
    while i < all.len()
        invariant
            i <= all@.len(),
            all@ == driver_list(*build),
            forall|d: Driver| #[trigger] attempt.requires((d,)),
            answered(all@.take(i as int), *attempt, ok),
            list@ == kept(all@.take(i as int), ok),
        decreases all@.len() - i,
    {
        let reply = all[i].probe(attempt);
        assert(all@[i as int].probed(*attempt, reply));
        proof {
            let before = all@.take(i as int);
            let prefix = all@.take(i + 1);
            let longer = ok.push(reply is Ok);
            assert(prefix.drop_last() =~= before);
            assert(prefix.last() == all@[i as int]);
            assert(longer.drop_last() =~= ok);
            assert(can_answer(all@[i as int], *attempt, reply is Ok));
            assert forall|k: int| 0 <= k < prefix.len() implies can_answer(
                #[trigger] prefix[k],
                *attempt,
                longer[k],
            ) by {
                if k < before.len() {
                    assert(before[k] == prefix[k]);
                }
            }
            ok = longer;
        }
        if reply.is_ok() {
            list.push(all[i]);
        }
        i = i + 1;
    }
    assert(all@.take(i as int) =~= all@);
    list
}

/// The first entry of a list.
pub open spec fn first_of(list: Seq<Driver>) -> Option<Driver> {
    if list.len() > 0 {
        Some(list[0])
    } else {
        None
    }
}

/// First driver returned by [`probe`], or `None` if nothing works.
pub fn default_driver<F: Fn(Driver) -> Result<(), Error>>(build: &Build, attempt: &F) -> (driver:
    Option<Driver>)
    requires
        forall|d: Driver| #[trigger] attempt.requires((d,)),
    ensures
        exists|ok: Seq<bool>|
            #[trigger] answered(driver_list(*build), *attempt, ok) && driver == first_of(
                kept(driver_list(*build), ok),
            ),
{
    let list = probe(build, attempt);
    if list.len() > 0 {
        Some(list[0])
    } else {
        None
    }
}

/// Whether a list has a driver of this name.
pub open spec fn is_named(list: Seq<Driver>, name: Seq<char>) -> bool {
    exists|i: int| 0 <= i < list.len() && name_of(#[trigger] list[i].kind) == name
}

/// Look up a backend by its short name. Unlike [`probe`] this does not
/// attempt to open the device: the caller gets a handle even for backends
/// that will later fail to open. `None` if no compiled-in backend has that
/// name.
pub fn driver_by_name(build: &Build, name: &str) -> (driver: Option<Driver>)
    ensures
        match driver {
            Some(d) => driver_list(*build).contains(d) && name_of(d.kind) == name@,
            None => !is_named(driver_list(*build), name@),
        },
{
    let all = drivers(build);
    let mut i: usize = 0;
    while i < all.len()
        invariant
            i <= all@.len(),
            all@ == driver_list(*build),
            forall|k: int| 0 <= k < i ==> name_of(#[trigger] all@[k].kind) != name@,
        decreases all@.len() - i,
    {
        if same_text(all[i].name(), name) {
            assert(driver_list(*build).contains(all@[i as int]));
            return Some(all[i]);
        }
        i = i + 1;
    }
    None
}

/// Whether a stream was just opened over `inner`: it plays, at unity gain.
pub open spec fn fresh<I: StreamImpl>(stream: Stream<I>, inner: I) -> bool {
    stream.backend() == inner && stream.wants_playing() && !stream.is_stopped() && stream.gain()
        == UNITY_GAIN
}

/// Whether `opened` is what opening `req` on a driver through `backend` can
/// come to: a stub refuses, any other backend is asked for exactly this.
pub open spec fn opens<I: StreamImpl, F: FnOnce(Driver, StreamRequest) -> Result<I, Error>>(
    driver: Driver,
    req: StreamRequest,
    backend: F,
    opened: Result<Stream<I>, Error>,
) -> bool {
    if is_placeholder(driver.kind) {
        opened matches Err(e) && e.is_not_implemented(name_of(driver.kind))
    } else {
        match opened {
            Ok(stream) => backend.ensures((driver, req), Ok(stream.backend())) && fresh(
                stream,
                stream.backend(),
            ),
            Err(e) => backend.ensures((driver, req), Err(e)),
        }
    }
}

/// Open an output stream on the given driver. `backend` makes the native
/// calls and starts whatever runs the callback.
pub fn open<I: StreamImpl, F: FnOnce(Driver, StreamRequest) -> Result<I, Error>>(
    driver: Driver,
    req: StreamRequest,
    backend: F,
) -> (opened: Result<Stream<I>, Error>)
    requires
        backend.requires((driver, req)),
    ensures
        opens(driver, req, backend, opened),
{
    if driver.is_stub() {
        return Err(Error::NotImplemented(driver.name()));
    }
    match backend(driver, req) {
        Ok(inner) => Ok(Stream::new(inner)),
        Err(e) => Err(e),
    }
}

/// The request that opening on a device comes to.
pub open spec fn routed(req: StreamRequest, device: Device, routed: StreamRequest) -> bool {
    routed.device_id() == Some(device.id@) && routed == (StreamRequest {
        device: routed.device,
        ..req
    })
}

/// Open an output stream on a device that the same driver enumerated.
pub fn open_on<I: StreamImpl, F: FnOnce(Driver, StreamRequest) -> Result<I, Error>>(
    driver: Driver,
    device: &Device,
    req: StreamRequest,
    backend: F,
) -> (opened: Result<Stream<I>, Error>)
    requires
        forall|r: StreamRequest| #[trigger] backend.requires((driver, r)),
    ensures
        exists|r: StreamRequest| #[trigger]
            routed(req, *device, r) && opens(driver, r, backend, opened),
{
    let bound = req.with_device(device.id.as_str());
    assert(routed(req, *device, bound));
    open(driver, bound, backend)
}

/// Open an output stream on the first driver that probes successfully.
pub fn open_default<
    I: StreamImpl,
    P: Fn(Driver) -> Result<(), Error>,
    F: FnOnce(Driver, StreamRequest) -> Result<I, Error>,
>(build: &Build, attempt: &P, req: StreamRequest, backend: F) -> (opened: Result<Stream<I>, Error>)
    requires
        forall|d: Driver| #[trigger] attempt.requires((d,)),
        forall|d: Driver| #[trigger] backend.requires((d, req)),
    ensures
        exists|ok: Seq<bool>|
            #[trigger] answered(driver_list(*build), *attempt, ok) && match first_of(
                kept(driver_list(*build), ok),
            ) {
                Some(d) => opens(d, req, backend, opened),
                None => opened matches Err(Error::NoDriver(s)) && s@
                    == "probe() returned no working backend"@,
            },
{
    match default_driver(build, attempt) {
        Some(d) => open(d, req, backend),
        None => Err(Error::NoDriver("probe() returned no working backend".to_owned())),
    }
}

/// The free form of [`Driver::output_devices`].
pub fn output_devices<F: FnOnce(Driver) -> Result<Vec<Device>, Error>>(
    driver: Driver,
    enumerate: F,
) -> (list: Result<Vec<Device>, Error>)
    requires
        enumerate.requires((driver,)),
    ensures
        driver.listed(enumerate, list),
{
    driver.output_devices(enumerate)
}

/// No two backends have the same name.
pub proof fn law_names_are_unique(a: BackendKind, b: BackendKind)
    requires
        name_of(a) == name_of(b),
    ensures
        a == b,
{
    reveal_strlit("pipewire");
    reveal_strlit("pulse");
    reveal_strlit("alsa");
    reveal_strlit("oss");
    reveal_strlit("wasapi");
    reveal_strlit("asio");
    reveal_strlit("coreaudio");
    reveal_strlit("mock");
    let name = name_of(a);
    assert(name_of(b)[0] == name[0]);
    assert(name_of(b)[1] == name[1]);
    assert(name_of(b).len() == name.len());
}

/// Every compiled-in driver is found by its name: whatever a lookup of that
/// name returns is that driver.
pub proof fn law_lookup_round_trips(build: Build, i: int, found: Driver)
    requires
        0 <= i < driver_list(build).len(),
        name_of(found.kind) == name_of(driver_list(build)[i].kind),
    ensures
        is_named(driver_list(build), name_of(driver_list(build)[i].kind)),
        found == driver_list(build)[i],
{
    law_names_are_unique(found.kind, driver_list(build)[i].kind);
}

/// The mock is last, and there only when it is compiled in: it never shadows
/// a real backend.
pub proof fn law_mock_is_last(build: Build, i: int)
    requires
        0 <= i < driver_list(build).len(),
    ensures
        driver_list(build)[i].kind is Mock <==> build.mock && i == driver_list(build).len() - 1,
        build.mock ==> driver_list(build).last().kind is Mock,
{
    let natives = preference(build.platform);
    assert(natives.push(BackendKind::Mock).drop_last() =~= natives);
    if i < enabled(build, natives).len() {
        lemma_enabled_comes_from(build, natives, i);
    }
}

/// A compiled-in mock is always listed.
pub proof fn law_mock_is_listed(build: Build)
    requires
        build.mock,
    ensures
        driver_list(build).len() > 0,
        driver_list(build).last() == (Driver { kind: BackendKind::Mock }),
{
}

proof fn lemma_enabled_comes_from(build: Build, kinds: Seq<BackendKind>, i: int)
    requires
        0 <= i < enabled(build, kinds).len(),
    ensures
        exists|k: int| 0 <= k < kinds.len() && #[trigger] kinds[k] == enabled(build, kinds)[i].kind,
        build.has(enabled(build, kinds)[i].kind),
    decreases kinds.len(),
{
    if kinds.len() > 0 {
        let init = kinds.drop_last();
        if i < enabled(build, init).len() {
            lemma_enabled_comes_from(build, init, i);
            let k = choose|k: int|
                0 <= k < init.len() && #[trigger] init[k] == enabled(build, init)[i].kind;
            assert(kinds[k] == enabled(build, kinds)[i].kind);
        } else {
            assert(kinds[kinds.len() - 1] == enabled(build, kinds)[i].kind);
        }
    }
}

/// Every platform that is supported has at least one backend compiled in by
/// default.
pub proof fn law_platforms_have_drivers(build: Build)
    requires
        !(build.platform is Other),
        forall|kind: BackendKind| !(kind is Mock) ==> #[trigger] build.has(kind),
    ensures
        driver_list(build).len() >= preference(build.platform).len() > 0,
{
    let natives = preference(build.platform);
    assert(natives.push(BackendKind::Mock).drop_last() =~= natives);
    reveal_with_fuel(enabled, 6);
    assert(natives.len() > 0);
    lemma_all_enabled(build, natives);
}

proof fn lemma_all_enabled(build: Build, kinds: Seq<BackendKind>)
    requires
        forall|i: int| 0 <= i < kinds.len() ==> build.has(#[trigger] kinds[i]),
    ensures
        enabled(build, kinds).len() == kinds.len(),
    decreases kinds.len(),
{
    if kinds.len() > 0 {
        lemma_all_enabled(build, kinds.drop_last());
    }
}

/// A probe keeps exactly the drivers that answered: each one it returns is
/// one of the list that did, and one that did is returned.
pub proof fn law_probe_keeps_what_answers(list: Seq<Driver>, ok: Seq<bool>, driver: Driver)
    requires
        ok.len() == list.len(),
    ensures
        kept(list, ok).contains(driver) <==> exists|i: int|
            0 <= i < list.len() && #[trigger] list[i] == driver && ok[i],
    decreases list.len(),
{
    if list.len() > 0 {
        let init = list.drop_last();
        let last = list.len() - 1;
        law_probe_keeps_what_answers(init, ok.drop_last(), driver);
        if kept(init, ok.drop_last()).contains(driver) {
            let i = choose|i: int|
                0 <= i < init.len() && #[trigger] init[i] == driver && ok.drop_last()[i];
            assert(list[i] == driver && ok[i]);
            let k = choose|k: int|
                0 <= k < kept(init, ok.drop_last()).len() && kept(init, ok.drop_last())[k]
                    == driver;
            assert(kept(list, ok)[k] == driver);
        } else {
            assert(forall|i: int|
                0 <= i < init.len() ==> !(#[trigger] init[i] == driver && ok.drop_last()[i]));
            if exists|i: int| 0 <= i < list.len() && #[trigger] list[i] == driver && ok[i] {
                let i = choose|i: int|
                    0 <= i < list.len() && #[trigger] list[i] == driver && ok[i];
                if i < last {
                    assert(init[i] == driver && ok.drop_last()[i]);
                }
                assert(kept(list, ok)[kept(list, ok).len() - 1] == driver);
            }
            if kept(list, ok).contains(driver) {
                let k = choose|k: int|
                    0 <= k < kept(list, ok).len() && kept(list, ok)[k] == driver;
                if k < kept(init, ok.drop_last()).len() {
                    assert(kept(init, ok.drop_last())[k] == driver);
                } else {
                    assert(list[last] == driver && ok[last]);
                }
            }
        }
    }
}

/// The default driver is the first in the order of preference that answers:
/// every driver before it failed to. There is none only when none answers.
pub proof fn law_default_is_the_first_that_answers(list: Seq<Driver>, ok: Seq<bool>)
    requires
        ok.len() == list.len(),
    ensures
        match first_of(kept(list, ok)) {
            Some(d) => exists|i: int|
                0 <= i < list.len() && #[trigger] list[i] == d && ok[i] && forall|j: int|
                    0 <= j < i ==> !ok[j],
            None => forall|j: int| 0 <= j < list.len() ==> !ok[j],
        },
    decreases list.len(),
{
    if list.len() > 0 {
        let init = list.drop_last();
        let tail = ok.drop_last();
        law_default_is_the_first_that_answers(init, tail);
        match first_of(kept(init, tail)) {
            Some(d) => {
                let i = choose|i: int|
                    0 <= i < init.len() && #[trigger] init[i] == d && tail[i] && forall|j: int|
                        0 <= j < i ==> !tail[j];
                assert(first_of(kept(list, ok)) == Some(d));
                assert(list[i] == d);
                assert forall|j: int| 0 <= j < i implies !ok[j] by {
                    assert(!tail[j]);
                }
            },
            None => {
                assert forall|j: int| 0 <= j < init.len() implies !ok[j] by {
                    assert(!tail[j]);
                }
                let last = list.len() - 1;
                if ok[last] {
                    assert(first_of(kept(list, ok)) == Some(list[last]));
                }
            },
        }
    }
}

/// No stub ever answers a probe, so auto-selection falls through it to the
/// next backend that works.
pub proof fn law_stubs_never_probe<F: Fn(Driver) -> Result<(), Error>>(
    build: Build,
    attempt: F,
    ok: Seq<bool>,
    i: int,
)
    requires
        answered(driver_list(build), attempt, ok),
        0 <= i < driver_list(build).len(),
        is_placeholder(driver_list(build)[i].kind),
    ensures
        !ok[i],
{
    assert(can_answer(driver_list(build)[i], attempt, ok[i]));
}

/// A compiled-in mock always answers a probe, so a build with one always has
/// a default driver, and opening the default never finds no driver.
pub proof fn law_mock_always_probes<F: Fn(Driver) -> Result<(), Error>>(
    build: Build,
    attempt: F,
    ok: Seq<bool>,
)
    requires
        build.mock,
        answered(driver_list(build), attempt, ok),
    ensures
        kept(driver_list(build), ok).len() > 0,
        kept(driver_list(build), ok).last() == (Driver { kind: BackendKind::Mock }),
        first_of(kept(driver_list(build), ok)) is Some,
{
    let list = driver_list(build);
    law_mock_is_listed(build);
    let last = list.len() - 1;
    assert(can_answer(list[last], attempt, ok[last]));
}

} // verus!
