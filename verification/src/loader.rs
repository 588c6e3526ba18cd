//! Loading a backend's shared libraries: which files are tried, which
//! symbols are resolved, and what a failure is reported as.
//!
//! Every native audio API is loaded at run time, so nothing here is decided
//! by the linker: a library that is not installed, or lacks a symbol, is an
//! error value.

use vstd::prelude::*;

use crate::error::Error;

verus! {

/// A library to load: the names to try, in order, and the name it is
/// reported under.
#[derive(Debug)]
pub struct LibraryPlan {
    pub soname: &'static str,
    pub candidates: Vec<&'static str>,
}

/// A symbol to resolve in one of the libraries. Playback goes on without an
/// optional one.
#[derive(Debug, Clone, Copy)]
pub struct SymbolPlan {
    pub name: &'static str,
    /// The index of its library in the plan.
    pub library: usize,
    pub required: bool,
}

/// What a backend loads: every library first, then every symbol.
#[derive(Debug)]
pub struct LoadPlan {
    pub backend: &'static str,
    pub libraries: Vec<LibraryPlan>,
    pub symbols: Vec<SymbolPlan>,
}

impl LoadPlan {
    /// Every library has a name to try, and every symbol a library.
    pub open spec fn wf(self) -> bool {
        &&& self.libraries@.len() > 0
        &&& forall|i: int|
            0 <= i < self.libraries@.len() ==> (#[trigger] self.libraries@[i]).candidates@.len() > 0
        &&& forall|i: int|
            0 <= i < self.symbols@.len() ==> (#[trigger] self.symbols@[i]).library
                < self.libraries@.len()
    }
}

/// Where a load stands.
#[derive(Debug, Clone, Copy, PartialEq, Eq, Structural)]
pub enum LoadStage {
    /// A library is tried under one of its names.
    Library { library: usize, candidate: usize },
    /// A symbol is resolved.
    Symbol(usize),
    /// Everything that is required is there.
    Loaded,
}

/// The call that a load makes next.
#[derive(Debug, Clone, Copy)]
pub enum LoadCall {
    /// Open this file as the library with this index.
    Open { library: usize, path: &'static str },
    /// Resolve this symbol in the library with this index.
    Resolve { library: usize, symbol: &'static str },
    Nothing,
}

/// A load in progress.
#[derive(Debug)]
pub struct Loader {
    pub plan: LoadPlan,
    pub stage: LoadStage,
    /// For each symbol that was looked up, whether it is there.
    pub found: Vec<bool>,
}

impl Loader {
    /// The stage is one of the plan's.
    pub open spec fn wf(self) -> bool {
        &&& self.plan.wf()
        &&& match self.stage {
            LoadStage::Library { library, candidate } => {
                &&& library < self.plan.libraries@.len()
                &&& candidate < self.plan.libraries@[library as int].candidates@.len()
                &&& self.found@.len() == 0
            },
            LoadStage::Symbol(symbol) => {
                &&& symbol < self.plan.symbols@.len()
                &&& self.found@.len() == symbol
            },
            LoadStage::Loaded => self.found@.len() == self.plan.symbols@.len(),
        }
    }

    /// The call that the current stage makes.
    pub open spec fn due(self) -> LoadCall {
        match self.stage {
            LoadStage::Library { library, candidate } => LoadCall::Open {
                library,
                path: self.plan.libraries@[library as int].candidates@[candidate as int],
            },
            LoadStage::Symbol(symbol) => LoadCall::Resolve {
                library: self.plan.symbols@[symbol as int].library,
                symbol: self.plan.symbols@[symbol as int].name,
            },
            LoadStage::Loaded => LoadCall::Nothing,
        }
    }

    /// Whether a failure of the current call ends the load: there is no
    /// other name to try, or the symbol is required.
    pub open spec fn cannot_do_without(self) -> bool {
        match self.stage {
            LoadStage::Library { library, candidate } => candidate + 1
                == self.plan.libraries@[library as int].candidates@.len(),
            LoadStage::Symbol(symbol) => self.plan.symbols@[symbol as int].required,
            LoadStage::Loaded => false,
        }
    }

    /// The stage that looks up the symbol with this index, or the end.
    pub open spec fn symbol_stage(self, symbol: nat) -> LoadStage {
        if symbol < self.plan.symbols@.len() {
            LoadStage::Symbol(symbol as usize)
        } else {
            LoadStage::Loaded
        }
    }

    /// The stage after the current call: `ok` says whether it succeeded.
    pub open spec fn stage_after(self, ok: bool) -> LoadStage {
        match self.stage {
            LoadStage::Library { library, candidate } => if !ok {
                LoadStage::Library { library, candidate: (candidate + 1) as usize }
            } else if library + 1 < self.plan.libraries@.len() {
                LoadStage::Library { library: (library + 1) as usize, candidate: 0 }
            } else {
                self.symbol_stage(0)
            },
            LoadStage::Symbol(symbol) => self.symbol_stage((symbol + 1) as nat),
            LoadStage::Loaded => LoadStage::Loaded,
        }
    }

    /// What is known of the symbols after the current call.
    pub open spec fn found_after(self, ok: bool) -> Seq<bool> {
        if self.stage is Symbol {
            self.found@.push(ok)
        } else {
            self.found@
        }
    }

    /// The error that ends the load when the current call fails with
    /// `source`.
    pub open spec fn ends_with(self, error: Error, source: libloading::Error) -> bool {
        match self.stage {
            LoadStage::Library { library, .. } => error matches Error::LibraryLoad {
                backend,
                soname,
                source: s,
            } && backend@ == self.plan.backend@ && soname@
                == self.plan.libraries@[library as int].soname@ && s == source,
            LoadStage::Symbol(symbol) => error matches Error::SymbolMissing {
                backend,
                symbol: name,
                source: s,
            } && backend@ == self.plan.backend@ && name@ == self.plan.symbols@[symbol as int].name@
                && s == source,
            LoadStage::Loaded => false,
        }
    }

    /// Begins a load.
    pub fn start(plan: LoadPlan) -> (loader: Loader)
        requires
            plan.wf(),
        ensures
            loader.wf(),
            loader.plan == plan,
            loader.stage == (LoadStage::Library { library: 0, candidate: 0 }),
            loader.found@ == Seq::<bool>::empty(),
    {
        Loader {
            plan,
            stage: LoadStage::Library { library: 0, candidate: 0 },
            found: Vec::new(),
        }
    }

    /// The call to make next.
    pub fn call(&self) -> (call: LoadCall)
        requires
            self.wf(),
        ensures
            call == self.due(),
    {
        match self.stage {
            LoadStage::Library { library, candidate } => LoadCall::Open {
                library,
                path: self.plan.libraries[library].candidates[candidate],
            },
            LoadStage::Symbol(symbol) => {
                let wanted = &self.plan.symbols[symbol];
                LoadCall::Resolve { library: wanted.library, symbol: wanted.name }
            },
            LoadStage::Loaded => LoadCall::Nothing,
        }
    }

    fn at_symbol(&self, symbol: usize) -> (stage: LoadStage)
        ensures
            stage == self.symbol_stage(symbol as nat),
    {
        if symbol < self.plan.symbols.len() {
            LoadStage::Symbol(symbol)
        } else {
            LoadStage::Loaded
        }
    }

    /// Takes the outcome of the current call. A library that does not open
    /// is tried under its next name, and reported with the error of its last
    /// one. A required symbol that is missing ends the load; an optional one
    /// is noted.
    pub fn step(self, reply: Result<(), libloading::Error>) -> (next: Result<Loader, Error>)
        requires
            self.wf(),
        ensures
            match next {
                Ok(n) => {
                    &&& reply is Ok || !self.cannot_do_without()
                    &&& n.wf()
                    &&& n.plan == self.plan
                    &&& n.stage == self.stage_after(reply is Ok)
                    &&& n.found@ == self.found_after(reply is Ok)
                },
                Err(e) => {
                    &&& reply is Err
                    &&& self.cannot_do_without()
                    &&& self.ends_with(e, reply->Err_0)
                },
            },
    {
        let mut next = self;
        match next.stage {
            LoadStage::Library { library, candidate } => match reply {
                Ok(_) => {
                    if next.plan.libraries.len() - library > 1 {
                        next.stage = LoadStage::Library { library: library + 1, candidate: 0 };
                    } else {
                        next.stage = next.at_symbol(0);
                    }
                    Ok(next)
                },
                Err(source) => {
                    if next.plan.libraries[library].candidates.len() - candidate > 1 {
                        next.stage = LoadStage::Library { library, candidate: candidate + 1 };
                        Ok(next)
                    } else {
                        Err(
                            Error::LibraryLoad {
                                backend: next.plan.backend,
                                soname: next.plan.libraries[library].soname,
                                source,
                            },
                        )
                    }
                },
            },
            LoadStage::Symbol(symbol) => {
                let total: usize = next.plan.symbols.len();
                assert(symbol < total);
                let wanted = next.plan.symbols[symbol];
                match reply {
                    Ok(_) => {
                        next.found.push(true);
                    },
                    Err(source) => {
                        if wanted.required {
                            return Err(
                                Error::SymbolMissing {
                                    backend: next.plan.backend,
                                    symbol: wanted.name,
                                    source,
                                },
                            );
                        }
                        next.found.push(false);
                    },
                }
                next.stage = next.at_symbol(symbol + 1);
                Ok(next)
            },
            LoadStage::Loaded => Ok(next),
        }
    }

    /// Whether every required symbol looked up so far is there.
    pub open spec fn has_what_it_needs(self) -> bool {
        forall|i: int|
            #![trigger self.found@[i]]
            #![trigger self.plan.symbols@[i]]
            0 <= i < self.found@.len() && self.plan.symbols@[i].required ==> self.found@[i]
    }

    /// How many calls are left, at most.
    pub open spec fn remaining(self) -> int {
        match self.stage {
            LoadStage::Library { library, candidate } => names_from(
                self.plan.libraries@,
                library as int,
            ) - candidate + self.plan.symbols@.len(),
            LoadStage::Symbol(symbol) => self.plan.symbols@.len() - symbol,
            LoadStage::Loaded => 0,
        }
    }
}

/// How many names the libraries from this index on have.
pub open spec fn names_from(libraries: Seq<LibraryPlan>, first: int) -> int
    decreases libraries.len() - first,
{
    if first < 0 || first >= libraries.len() {
        0
    } else {
        libraries[first].candidates@.len() + names_from(libraries, first + 1)
    }
}

/// A load that goes on keeps every required symbol: so when it is over, all
/// of them are there, and only optional ones can be missing.
pub proof fn law_load_keeps_what_it_needs(before: Loader, after: Loader, ok: bool)
    requires
        before.wf(),
        before.has_what_it_needs(),
        ok || !before.cannot_do_without(),
        after.plan == before.plan,
        after.stage == before.stage_after(ok),
        after.found@ == before.found_after(ok),
    ensures
        after.has_what_it_needs(),
{
    assert forall|i: int|
        0 <= i < after.found@.len() && after.plan.symbols@[i].required implies after.found@[i] by {
        if i < before.found@.len() {
            assert(before.found@[i]);
        }
    }
}

/// Every call brings a load nearer to its end, so it makes at most as many
/// calls as its plan has names and symbols.
pub proof fn law_load_comes_to_an_end(before: Loader, after: Loader, ok: bool)
    requires
        before.wf(),
        !(before.stage is Loaded),
        ok || !before.cannot_do_without(),
        after.plan == before.plan,
        after.stage == before.stage_after(ok),
    ensures
        0 <= after.remaining() < before.remaining(),
{
    assert(before.plan.symbols.len() == before.plan.symbols@.len());
    if let LoadStage::Library { library, candidate } = before.stage {
        lemma_names_not_negative(before.plan.libraries@, library + 1);
        let names = before.plan.libraries@[library as int].candidates;
        assert(names.len() == names@.len());
        assert(before.plan.libraries.len() == before.plan.libraries@.len());
    }
}

proof fn lemma_names_not_negative(libraries: Seq<LibraryPlan>, first: int)
    ensures
        names_from(libraries, first) >= 0,
    decreases libraries.len() - first,
{
    if 0 <= first < libraries.len() {
        lemma_names_not_negative(libraries, first + 1);
    }
}

/// Whether a library handle was looked for before, and with what result.
#[derive(Debug, Clone, Copy, PartialEq, Eq, Structural)]
pub enum LibrarySlot {
    /// It was not looked for, or is to be looked for again.
    Untried,
    /// The handle is cached.
    Ready,
    /// It failed to load, for good.
    Missing,
}

impl LibrarySlot {
    /// Whether the library is to be loaded now.
    pub fn wants_load(&self) -> (load: bool)
        ensures
            load == (*self is Untried),
    {
        match self {
            LibrarySlot::Untried => true,
            _ => false,
        }
    }

    /// Notes the outcome of a load. A failure is looked up again the next
    /// time, unless it is final.
    pub fn note(&mut self, loaded: bool, failure_is_final: bool)
        ensures
            *final(self) == (if loaded {
                LibrarySlot::Ready
            } else if failure_is_final {
                LibrarySlot::Missing
            } else {
                LibrarySlot::Untried
            }),
    {
        *self = if loaded {
            LibrarySlot::Ready
        } else if failure_is_final {
            LibrarySlot::Missing
        } else {
            LibrarySlot::Untried
        };
    }
}

fn library(soname: &'static str, candidates: Vec<&'static str>) -> (plan: LibraryPlan)
    ensures
        plan.soname == soname,
        plan.candidates == candidates,
{
    LibraryPlan { soname, candidates }
}

/// The plan for a required symbol.
pub open spec fn needed(name: &'static str, library: usize) -> SymbolPlan {
    SymbolPlan { name, library, required: true }
}

/// The plan for an optional symbol.
pub open spec fn wanted(name: &'static str, library: usize) -> SymbolPlan {
    SymbolPlan { name, library, required: false }
}

fn need(name: &'static str, library: usize) -> (symbol: SymbolPlan)
    ensures
        symbol == needed(name, library),
{
    SymbolPlan { name, library, required: true }
}

fn want(name: &'static str, library: usize) -> (symbol: SymbolPlan)
    ensures
        symbol == wanted(name, library),
{
    SymbolPlan { name, library, required: false }
}

/// What the ALSA backend loads. A libasound that lacks the name-hint API
/// still plays audio, it just can't enumerate.
pub fn alsa_plan() -> (plan: LoadPlan)
    ensures
        plan.wf(),
        plan.backend@ == "alsa"@,
        plan.libraries@.len() == 1,
        plan.libraries@[0].soname@ == "libasound.so.2"@,
        plan.libraries@[0].candidates@ == seq!["libasound.so.2"],
        plan.symbols@ == seq![
            needed("snd_pcm_open", 0),
            needed("snd_pcm_close", 0),
            needed("snd_pcm_prepare", 0),
            needed("snd_pcm_writei", 0),
            needed("snd_pcm_recover", 0),
            needed("snd_pcm_drop", 0),
            needed("snd_pcm_pause", 0),
            needed("snd_pcm_delay", 0),
            needed("snd_strerror", 0),
            wanted("snd_device_name_hint", 0),
            wanted("snd_device_name_get_hint", 0),
            wanted("snd_device_name_free_hint", 0),
            needed("snd_pcm_hw_params_malloc", 0),
            needed("snd_pcm_hw_params_free", 0),
            needed("snd_pcm_hw_params_any", 0),
            needed("snd_pcm_hw_params_set_access", 0),
            needed("snd_pcm_hw_params_set_format", 0),
            needed("snd_pcm_hw_params_set_channels", 0),
            needed("snd_pcm_hw_params_set_rate_near", 0),
            needed("snd_pcm_hw_params_set_period_size_near", 0),
            needed("snd_pcm_hw_params_set_buffer_size_near", 0),
            needed("snd_pcm_hw_params_get_period_size", 0),
            needed("snd_pcm_hw_params", 0),
            wanted("snd_pcm_hw_params_set_channels_near", 0),
        ],
{
    LoadPlan {
        backend: "alsa",
        libraries: vec![library("libasound.so.2", vec!["libasound.so.2"])],
        symbols: vec![
            need("snd_pcm_open", 0),
            need("snd_pcm_close", 0),
            need("snd_pcm_prepare", 0),
            need("snd_pcm_writei", 0),
            need("snd_pcm_recover", 0),
            need("snd_pcm_drop", 0),
            need("snd_pcm_pause", 0),
            need("snd_pcm_delay", 0),
            need("snd_strerror", 0),
            want("snd_device_name_hint", 0),
            want("snd_device_name_get_hint", 0),
            want("snd_device_name_free_hint", 0),
            need("snd_pcm_hw_params_malloc", 0),
            need("snd_pcm_hw_params_free", 0),
            need("snd_pcm_hw_params_any", 0),
            need("snd_pcm_hw_params_set_access", 0),
            need("snd_pcm_hw_params_set_format", 0),
            need("snd_pcm_hw_params_set_channels", 0),
            need("snd_pcm_hw_params_set_rate_near", 0),
            need("snd_pcm_hw_params_set_period_size_near", 0),
            need("snd_pcm_hw_params_set_buffer_size_near", 0),
            need("snd_pcm_hw_params_get_period_size", 0),
            need("snd_pcm_hw_params", 0),
            want("snd_pcm_hw_params_set_channels_near", 0),
        ],
    }
}

/// What the PulseAudio backend loads.
pub fn pulse_plan() -> (plan: LoadPlan)
    ensures
        plan.wf(),
        plan.backend@ == "pulse"@,
        plan.libraries@.len() == 1,
        plan.libraries@[0].soname@ == "libpulse-simple.so.0"@,
        plan.libraries@[0].candidates@ == seq!["libpulse-simple.so.0"],
        plan.symbols@ == seq![
            needed("pa_simple_new", 0),
            needed("pa_simple_free", 0),
            needed("pa_simple_write", 0),
            needed("pa_simple_drain", 0),
            needed("pa_simple_flush", 0),
            needed("pa_simple_get_latency", 0),
            needed("pa_strerror", 0),
        ],
{
    LoadPlan {
        backend: "pulse",
        libraries: vec![
            library("libpulse-simple.so.0", vec!["libpulse-simple.so.0"]),
        ],
        symbols: vec![
            need("pa_simple_new", 0),
            need("pa_simple_free", 0),
            need("pa_simple_write", 0),
            need("pa_simple_drain", 0),
            need("pa_simple_flush", 0),
            need("pa_simple_get_latency", 0),
            need("pa_strerror", 0),
        ],
    }
}

/// What the WASAPI backend loads. Device names are read with
/// `PropVariantClear` at hand.
pub fn wasapi_plan() -> (plan: LoadPlan)
    ensures
        plan.wf(),
        plan.backend@ == "wasapi"@,
        plan.libraries@.len() == 2,
        plan.libraries@[0].soname@ == "ole32.dll"@,
        plan.libraries@[0].candidates@ == seq!["ole32.dll"],
        plan.libraries@[1].soname@ == "kernel32.dll"@,
        plan.libraries@[1].candidates@ == seq!["kernel32.dll"],
        plan.symbols@ == seq![
            needed("CoInitializeEx", 0),
            needed("CoUninitialize", 0),
            needed("CoCreateInstance", 0),
            needed("CoTaskMemFree", 0),
            needed("CreateEventA", 1),
            needed("CloseHandle", 1),
            needed("WaitForSingleObject", 1),
            needed("SetEvent", 1),
            wanted("PropVariantClear", 0),
        ],
{
    LoadPlan {
        backend: "wasapi",
        libraries: vec![
            library("ole32.dll", vec!["ole32.dll"]),
            library("kernel32.dll", vec!["kernel32.dll"]),
        ],
        symbols: vec![
            need("CoInitializeEx", 0),
            need("CoUninitialize", 0),
            need("CoCreateInstance", 0),
            need("CoTaskMemFree", 0),
            need("CreateEventA", 1),
            need("CloseHandle", 1),
            need("WaitForSingleObject", 1),
            need("SetEvent", 1),
            want("PropVariantClear", 0),
        ],
    }
}

/// What the CoreAudio backend loads to play: the framework path first, then
/// the short names for environments that have it on their library path.
pub fn audio_toolbox_plan() -> (plan: LoadPlan)
    ensures
        plan.wf(),
        plan.backend@ == "coreaudio"@,
        plan.libraries@.len() == 1,
        plan.libraries@[0].soname@ == "AudioToolbox"@,
        plan.libraries@[0].candidates@ == seq![
            "/System/Library/Frameworks/AudioToolbox.framework/AudioToolbox",
            "AudioToolbox.framework/AudioToolbox",
            "AudioToolbox",
        ],
        plan.symbols@ == seq![
            needed("AudioQueueNewOutput", 0),
            needed("AudioQueueAllocateBuffer", 0),
            needed("AudioQueueEnqueueBuffer", 0),
            needed("AudioQueueStart", 0),
            needed("AudioQueueStop", 0),
            needed("AudioQueuePause", 0),
            needed("AudioQueueDispose", 0),
            needed("AudioQueueSetProperty", 0),
        ],
{
    LoadPlan {
        backend: "coreaudio",
        libraries: vec![
            library(
                "AudioToolbox",
                vec![
                    "/System/Library/Frameworks/AudioToolbox.framework/AudioToolbox",
                    "AudioToolbox.framework/AudioToolbox",
                    "AudioToolbox",
                ],
            ),
        ],
        symbols: vec![
            need("AudioQueueNewOutput", 0),
            need("AudioQueueAllocateBuffer", 0),
            need("AudioQueueEnqueueBuffer", 0),
            need("AudioQueueStart", 0),
            need("AudioQueueStop", 0),
            need("AudioQueuePause", 0),
            need("AudioQueueDispose", 0),
            need("AudioQueueSetProperty", 0),
        ],
    }
}

/// What the CoreAudio backend loads to ask the HAL.
pub fn hal_plan() -> (plan: LoadPlan)
    ensures
        plan.wf(),
        plan.backend@ == "coreaudio"@,
        plan.libraries@.len() == 1,
        plan.libraries@[0].soname@ == "CoreAudio"@,
        plan.libraries@[0].candidates@ == seq![
            "/System/Library/Frameworks/CoreAudio.framework/CoreAudio",
            "CoreAudio.framework/CoreAudio",
            "CoreAudio",
        ],
        plan.symbols@ == seq![
            needed("AudioObjectGetPropertyData", 0),
            needed("AudioObjectGetPropertyDataSize", 0),
        ],
{
    LoadPlan {
        backend: "coreaudio",
        libraries: vec![
            library(
                "CoreAudio",
                vec![
                    "/System/Library/Frameworks/CoreAudio.framework/CoreAudio",
                    "CoreAudio.framework/CoreAudio",
                    "CoreAudio",
                ],
            ),
        ],
        symbols: vec![
            need("AudioObjectGetPropertyData", 0),
            need("AudioObjectGetPropertyDataSize", 0),
        ],
    }
}

/// What the CoreAudio backend loads to hold a device UID.
pub fn core_foundation_plan() -> (plan: LoadPlan)
    ensures
        plan.wf(),
        plan.backend@ == "coreaudio"@,
        plan.libraries@.len() == 1,
        plan.libraries@[0].soname@ == "CoreFoundation"@,
        plan.libraries@[0].candidates@ == seq![
            "/System/Library/Frameworks/CoreFoundation.framework/CoreFoundation",
            "CoreFoundation.framework/CoreFoundation",
            "CoreFoundation",
        ],
        plan.symbols@ == seq![needed("CFRelease", 0)],
{
    LoadPlan {
        backend: "coreaudio",
        libraries: vec![
            library(
                "CoreFoundation",
                vec![
                    "/System/Library/Frameworks/CoreFoundation.framework/CoreFoundation",
                    "CoreFoundation.framework/CoreFoundation",
                    "CoreFoundation",
                ],
            ),
        ],
        symbols: vec![need("CFRelease", 0)],
    }
}

/// What the OSS backend loads: the calls on its character device.
pub fn oss_plan() -> (plan: LoadPlan)
    ensures
        plan.wf(),
        plan.backend@ == "oss"@,
        plan.libraries@.len() == 1,
        plan.libraries@[0].soname@ == "libc"@,
        plan.libraries@[0].candidates@ == seq![
            "libc.so.6",
            "libc.so",
            "libc.musl-x86_64.so.1",
        ],
        plan.symbols@ == seq![
            needed("open", 0),
            needed("close", 0),
            needed("write", 0),
            needed("ioctl", 0),
        ],
{
    LoadPlan {
        backend: "oss",
        libraries: vec![
            library(
                "libc",
                vec![
                    "libc.so.6",
                    "libc.so",
                    "libc.musl-x86_64.so.1",
                ],
            ),
        ],
        symbols: vec![
            need("open", 0),
            need("close", 0),
            need("write", 0),
            need("ioctl", 0),
        ],
    }
}

/// The names that libc goes by.
pub fn libc_names() -> (names: Vec<&'static str>)
    ensures
        names@ == seq!["libc.so.6", "libc.so", "libc.musl-x86_64.so.1"],
{
    vec!["libc.so.6", "libc.so", "libc.musl-x86_64.so.1"]
}

/// A search for libc's `free`: the libraries are tried in order until one
/// opens and has the symbol. Finding none just means that strings handed
/// over by libasound are not freed, which never breaks playback.
#[derive(Debug, Clone, Copy, PartialEq, Eq, Structural)]
pub enum FreeSearch {
    /// Open the library with this index.
    Open(usize),
    /// Resolve the symbol in the library with this index.
    Resolve(usize),
    /// The library with this index has it.
    Found(usize),
    /// None has it.
    Absent,
}

impl FreeSearch {
    /// The search from a library on, out of `count`.
    pub open spec fn from(index: nat, count: nat) -> FreeSearch {
        if index < count {
            FreeSearch::Open(index as usize)
        } else {
            FreeSearch::Absent
        }
    }

    /// The search after the current call, out of `count` libraries.
    pub open spec fn after(self, ok: bool, count: nat) -> FreeSearch {
        match self {
            FreeSearch::Open(i) => if ok {
                FreeSearch::Resolve(i)
            } else {
                FreeSearch::from((i + 1) as nat, count)
            },
            FreeSearch::Resolve(i) => if ok {
                FreeSearch::Found(i)
            } else {
                FreeSearch::from((i + 1) as nat, count)
            },
            FreeSearch::Found(i) => self,
            FreeSearch::Absent => self,
        }
    }

    /// Begins a search among `count` libraries.
    pub fn start(count: usize) -> (search: FreeSearch)
        ensures
            search == FreeSearch::from(0, count as nat),
    {
        if count > 0 {
            FreeSearch::Open(0)
        } else {
            FreeSearch::Absent
        }
    }

    /// Takes the outcome of the current call.
    pub fn step(self, ok: bool, count: usize) -> (next: FreeSearch)
        ensures
            next == self.after(ok, count as nat),
    {
        match self {
            FreeSearch::Open(i) => {
                if ok {
                    FreeSearch::Resolve(i)
                } else if i < count && count - i > 1 {
                    FreeSearch::Open(i + 1)
                } else {
                    FreeSearch::Absent
                }
            },
            FreeSearch::Resolve(i) => {
                if ok {
                    FreeSearch::Found(i)
                } else if i < count && count - i > 1 {
                    FreeSearch::Open(i + 1)
                } else {
                    FreeSearch::Absent
                }
            },
            FreeSearch::Found(_) | FreeSearch::Absent => self,
        }
    }
}

/// Where a search ends among `count` libraries, of which `opens` says which
/// open and `has` which then have the symbol.
pub open spec fn search_result(
    index: nat,
    count: nat,
    opens: spec_fn(int) -> bool,
    has: spec_fn(int) -> bool,
) -> FreeSearch
    decreases count - index,
{
    if index >= count {
        FreeSearch::from(index, count)
    } else {
        let opened = FreeSearch::from(index, count).after(opens(index as int), count);
        let resolved = if opened is Resolve {
            opened.after(has(index as int), count)
        } else {
            opened
        };
        if resolved is Found {
            resolved
        } else {
            search_result(index + 1, count, opens, has)
        }
    }
}

/// The search finds the first library that opens and has the symbol, and
/// finds none only when there is none.
pub proof fn law_free_search_finds_the_first(
    index: nat,
    count: nat,
    opens: spec_fn(int) -> bool,
    has: spec_fn(int) -> bool,
)
    requires
        count <= usize::MAX,
    ensures
        match search_result(index, count, opens, has) {
            FreeSearch::Found(i) => index <= i < count && opens(i as int) && has(i as int) && forall|
                j: int,
            |
                index <= j < i ==> !(#[trigger] opens(j) && has(j)),
            FreeSearch::Absent => forall|j: int|
                index <= j < count ==> !(#[trigger] opens(j) && has(j)),
            _ => false,
        },
    decreases count - index,
{
    if index < count {
        law_free_search_finds_the_first(index + 1, count, opens, has);
    }
}

} // verus!
