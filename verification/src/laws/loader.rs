//! Loading libraries.

#![allow(unused_imports)]

use crate::error::Error;
use crate::loader::{
    alsa_plan, audio_toolbox_plan, core_foundation_plan, hal_plan, libc_names, oss_plan,
    pulse_plan, wasapi_plan, FreeSearch, LibrarySlot, LoadCall, LoadPlan, LoadStage, Loader,
};
use vstd::prelude::*;

verus! {

/// A load begins with the first name of the first library, and has looked
/// no symbol up yet.
pub proof fn law_a_load_begins_with_the_first_name(plan: LoadPlan, loader: Loader, call: LoadCall)
    requires
        plan.wf(),
        call_ensures(Loader::start, (plan,), loader),
        call_ensures(Loader::call, (&loader,), call),
    ensures
        loader.plan == plan,
        loader.found@.len() == 0,
        call == (LoadCall::Open {
            library: 0,
            path: plan.libraries@[0].candidates@[0],
        }),
{
}

/// What a load asks for is what its stage says: the name it is at, or the
/// symbol, in the library that the symbol belongs to. It asks for nothing
/// more once it is loaded.
pub proof fn law_a_load_asks_for_what_its_plan_names(loader: Loader, call: LoadCall)
    requires
        loader.wf(),
        call_ensures(Loader::call, (&loader,), call),
    ensures
        loader.stage matches LoadStage::Library { library, candidate } ==> call
            == (LoadCall::Open {
            library,
            path: loader.plan.libraries@[library as int].candidates@[candidate as int],
        }),
        loader.stage matches LoadStage::Symbol(i) ==> call == (LoadCall::Resolve {
            library: loader.plan.symbols@[i as int].library,
            symbol: loader.plan.symbols@[i as int].name,
        }),
        loader.stage is Loaded <==> call is Nothing,
{
}

/// A library that opens is followed by the first name of the next library,
/// or by the first symbol after the last one; one that does not is tried
/// under its next name, and fails the load under its last, with the error of
/// that last try.
pub proof fn law_names_are_tried_in_order(
    before: Loader,
    reply: Result<(), libloading::Error>,
    next: Result<Loader, Error>,
    library: usize,
    candidate: usize,
)
    requires
        before.wf(),
        before.stage == (LoadStage::Library { library, candidate }),
        call_ensures(Loader::step, (before, reply), next),
    ensures
        ({
            let names = before.plan.libraries@[library as int].candidates@.len();
            let libraries = before.plan.libraries@.len();
            &&& next matches Ok(n) ==> n.plan == before.plan && n.found@ == before.found@
            &&& reply is Ok ==> next is Ok
            &&& reply is Ok && library + 1 < libraries ==> next->Ok_0.stage
                == (LoadStage::Library { library: (library + 1) as usize, candidate: 0 })
            &&& reply is Ok && library + 1 == libraries && before.plan.symbols@.len() > 0
                ==> next->Ok_0.stage == LoadStage::Symbol(0)
            &&& reply is Ok && library + 1 == libraries && before.plan.symbols@.len() == 0
                ==> next->Ok_0.stage is Loaded
            &&& reply is Err && candidate + 1 < names ==> next is Ok && next->Ok_0.stage
                == (LoadStage::Library { library, candidate: (candidate + 1) as usize })
            &&& reply is Err && candidate + 1 == names ==> (next matches Err(
                Error::LibraryLoad { backend, soname, source },
            ) && backend@ == before.plan.backend@ && soname@
                == before.plan.libraries@[library as int].soname@ && source == reply->Err_0)
        }),
{
}

/// Every symbol is looked up in turn and noted as found or not; a required
/// one that is missing fails the load by its name.
pub proof fn law_required_symbols_must_be_there(
    before: Loader,
    reply: Result<(), libloading::Error>,
    next: Result<Loader, Error>,
    symbol: usize,
)
    requires
        before.wf(),
        before.stage == LoadStage::Symbol(symbol),
        call_ensures(Loader::step, (before, reply), next),
    ensures
        ({
            let wanted = before.plan.symbols@[symbol as int];
            let symbols = before.plan.symbols@.len();
            &&& reply is Ok || !wanted.required ==> {
                &&& next is Ok
                &&& next->Ok_0.plan == before.plan
                &&& next->Ok_0.found@ == before.found@.push(reply is Ok)
                &&& symbol + 1 < symbols ==> next->Ok_0.stage == LoadStage::Symbol(
                    (symbol + 1) as usize,
                )
                &&& symbol + 1 == symbols ==> next->Ok_0.stage is Loaded
            }
            &&& reply is Err && wanted.required ==> (next matches Err(
                Error::SymbolMissing { backend, symbol: name, source },
            ) && backend@ == before.plan.backend@ && name@ == wanted.name@ && source
                == reply->Err_0)
        }),
{
}

/// A load that is done stays as it is.
pub proof fn law_a_finished_load_stays(
    before: Loader,
    reply: Result<(), libloading::Error>,
    next: Result<Loader, Error>,
)
    requires
        before.stage is Loaded,
        call_ensures(Loader::step, (before, reply), next),
    ensures
        next is Ok,
        next->Ok_0.stage is Loaded,
        next->Ok_0.plan == before.plan,
        next->Ok_0.found@ == before.found@,
{
}

/// A handle that is cached is not loaded again; a failure is tried again
/// unless it is final.
pub proof fn law_handles_are_loaded_once(
    slot: &mut LibrarySlot,
    loaded: bool,
    failure_is_final: bool,
    again: bool,
)
    requires
        call_ensures(LibrarySlot::note, (slot, loaded, failure_is_final), ()),
        call_ensures(LibrarySlot::wants_load, (final(slot),), again),
    ensures
        again <==> !loaded && !failure_is_final,
        *final(slot) is Ready <==> loaded,
        *final(slot) is Missing <==> !loaded && failure_is_final,
{
}

/// A slot that was never tried wants a load; one with an outcome does not.
pub proof fn law_untried_handles_are_loaded(slot: LibrarySlot, load: bool)
    requires
        call_ensures(LibrarySlot::wants_load, (&slot,), load),
    ensures
        load <==> slot == LibrarySlot::Untried,
{
}

/// Whether a plan is for one library with these names, under this one.
pub open spec fn loads_one(plan: LoadPlan, backend: &str, soname: &str, names: Seq<&str>) -> bool {
    &&& plan.backend@ == backend@
    &&& plan.libraries@.len() == 1
    &&& plan.libraries@[0].soname@ == soname@
    &&& plan.libraries@[0].candidates@.len() == names.len()
    &&& forall|i: int|
        0 <= i < names.len() ==> (#[trigger] plan.libraries@[0].candidates@[i])@ == names[i]@
}

/// Whether a plan's symbol at `i` is this one.
pub open spec fn resolves(plan: LoadPlan, i: int, name: &str, library: int, required: bool) -> bool {
    &&& 0 <= i < plan.symbols@.len()
    &&& plan.symbols@[i].name@ == name@
    &&& plan.symbols@[i].library == library
    &&& plan.symbols@[i].required == required
}

/// ALSA needs everything that playback calls; it can do without the
/// name-hint API and without `set_channels_near`.
pub proof fn law_alsa_loads_what_it_calls(plan: LoadPlan)
    requires
        call_ensures(alsa_plan, (), plan),
    ensures
        loads_one(plan, "alsa", "libasound.so.2", seq!["libasound.so.2"]),
        plan.symbols@.len() == 24,
        resolves(plan, 0, "snd_pcm_open", 0, true),
        resolves(plan, 1, "snd_pcm_close", 0, true),
        resolves(plan, 2, "snd_pcm_prepare", 0, true),
        resolves(plan, 3, "snd_pcm_writei", 0, true),
        resolves(plan, 4, "snd_pcm_recover", 0, true),
        resolves(plan, 5, "snd_pcm_drop", 0, true),
        resolves(plan, 6, "snd_pcm_pause", 0, true),
        resolves(plan, 7, "snd_pcm_delay", 0, true),
        resolves(plan, 8, "snd_strerror", 0, true),
        resolves(plan, 9, "snd_device_name_hint", 0, false),
        resolves(plan, 10, "snd_device_name_get_hint", 0, false),
        resolves(plan, 11, "snd_device_name_free_hint", 0, false),
        resolves(plan, 12, "snd_pcm_hw_params_malloc", 0, true),
        resolves(plan, 13, "snd_pcm_hw_params_free", 0, true),
        resolves(plan, 14, "snd_pcm_hw_params_any", 0, true),
        resolves(plan, 15, "snd_pcm_hw_params_set_access", 0, true),
        resolves(plan, 16, "snd_pcm_hw_params_set_format", 0, true),
        resolves(plan, 17, "snd_pcm_hw_params_set_channels", 0, true),
        resolves(plan, 18, "snd_pcm_hw_params_set_rate_near", 0, true),
        resolves(plan, 19, "snd_pcm_hw_params_set_period_size_near", 0, true),
        resolves(plan, 20, "snd_pcm_hw_params_set_buffer_size_near", 0, true),
        resolves(plan, 21, "snd_pcm_hw_params_get_period_size", 0, true),
        resolves(plan, 22, "snd_pcm_hw_params", 0, true),
        resolves(plan, 23, "snd_pcm_hw_params_set_channels_near", 0, false),
{
}

/// PulseAudio needs all of the simple API that it calls.
pub proof fn law_pulse_loads_what_it_calls(plan: LoadPlan)
    requires
        call_ensures(pulse_plan, (), plan),
    ensures
        loads_one(plan, "pulse", "libpulse-simple.so.0", seq!["libpulse-simple.so.0"]),
        plan.symbols@.len() == 7,
        resolves(plan, 0, "pa_simple_new", 0, true),
        resolves(plan, 1, "pa_simple_free", 0, true),
        resolves(plan, 2, "pa_simple_write", 0, true),
        resolves(plan, 3, "pa_simple_drain", 0, true),
        resolves(plan, 4, "pa_simple_flush", 0, true),
        resolves(plan, 5, "pa_simple_get_latency", 0, true),
        resolves(plan, 6, "pa_strerror", 0, true),
{
}

/// WASAPI needs COM from `ole32.dll` and events from `kernel32.dll`, and can
/// do without `PropVariantClear`.
pub proof fn law_wasapi_loads_what_it_calls(plan: LoadPlan)
    requires
        call_ensures(wasapi_plan, (), plan),
    ensures
        plan.backend@ == "wasapi"@,
        plan.libraries@.len() == 2,
        plan.libraries@[0].soname@ == "ole32.dll"@,
        plan.libraries@[0].candidates@.len() == 1,
        plan.libraries@[0].candidates@[0]@ == "ole32.dll"@,
        plan.libraries@[1].soname@ == "kernel32.dll"@,
        plan.libraries@[1].candidates@.len() == 1,
        plan.libraries@[1].candidates@[0]@ == "kernel32.dll"@,
        plan.symbols@.len() == 9,
        resolves(plan, 0, "CoInitializeEx", 0, true),
        resolves(plan, 1, "CoUninitialize", 0, true),
        resolves(plan, 2, "CoCreateInstance", 0, true),
        resolves(plan, 3, "CoTaskMemFree", 0, true),
        resolves(plan, 4, "CreateEventA", 1, true),
        resolves(plan, 5, "CloseHandle", 1, true),
        resolves(plan, 6, "WaitForSingleObject", 1, true),
        resolves(plan, 7, "SetEvent", 1, true),
        resolves(plan, 8, "PropVariantClear", 0, false),
{
}

/// CoreAudio needs the queue API, looked for by the framework's path first.
pub proof fn law_audio_toolbox_loads_what_it_calls(plan: LoadPlan)
    requires
        call_ensures(audio_toolbox_plan, (), plan),
    ensures
        loads_one(
            plan,
            "coreaudio",
            "AudioToolbox",
            seq![
                "/System/Library/Frameworks/AudioToolbox.framework/AudioToolbox",
                "AudioToolbox.framework/AudioToolbox",
                "AudioToolbox",
            ],
        ),
        plan.symbols@.len() == 8,
        resolves(plan, 0, "AudioQueueNewOutput", 0, true),
        resolves(plan, 1, "AudioQueueAllocateBuffer", 0, true),
        resolves(plan, 2, "AudioQueueEnqueueBuffer", 0, true),
        resolves(plan, 3, "AudioQueueStart", 0, true),
        resolves(plan, 4, "AudioQueueStop", 0, true),
        resolves(plan, 5, "AudioQueuePause", 0, true),
        resolves(plan, 6, "AudioQueueDispose", 0, true),
        resolves(plan, 7, "AudioQueueSetProperty", 0, true),
{
}

/// The HAL needs both of its getters, looked for by the framework's path
/// first.
pub proof fn law_hal_loads_what_it_calls(plan: LoadPlan)
    requires
        call_ensures(hal_plan, (), plan),
    ensures
        loads_one(
            plan,
            "coreaudio",
            "CoreAudio",
            seq![
                "/System/Library/Frameworks/CoreAudio.framework/CoreAudio",
                "CoreAudio.framework/CoreAudio",
                "CoreAudio",
            ],
        ),
        plan.symbols@.len() == 2,
        resolves(plan, 0, "AudioObjectGetPropertyData", 0, true),
        resolves(plan, 1, "AudioObjectGetPropertyDataSize", 0, true),
{
}

/// CoreFoundation is needed for `CFRelease` alone, looked for by the
/// framework's path first.
pub proof fn law_core_foundation_loads_what_it_calls(plan: LoadPlan)
    requires
        call_ensures(core_foundation_plan, (), plan),
    ensures
        loads_one(
            plan,
            "coreaudio",
            "CoreFoundation",
            seq![
                "/System/Library/Frameworks/CoreFoundation.framework/CoreFoundation",
                "CoreFoundation.framework/CoreFoundation",
                "CoreFoundation",
            ],
        ),
        plan.symbols@.len() == 1,
        resolves(plan, 0, "CFRelease", 0, true),
{
}

/// OSS needs four calls of libc, whatever libc is called.
pub proof fn law_oss_loads_what_it_calls(plan: LoadPlan)
    requires
        call_ensures(oss_plan, (), plan),
    ensures
        loads_one(
            plan,
            "oss",
            "libc",
            seq!["libc.so.6", "libc.so", "libc.musl-x86_64.so.1"],
        ),
        plan.symbols@.len() == 4,
        resolves(plan, 0, "open", 0, true),
        resolves(plan, 1, "close", 0, true),
        resolves(plan, 2, "write", 0, true),
        resolves(plan, 3, "ioctl", 0, true),
{
}

/// The names of libc that are searched for `free`.
pub proof fn law_libc_names(names: Vec<&'static str>)
    requires
        call_ensures(libc_names, (), names),
    ensures
        names@.len() == 3,
        names@[0]@ == "libc.so.6"@,
        names@[1]@ == "libc.so"@,
        names@[2]@ == "libc.musl-x86_64.so.1"@,
{
}

/// A search for `free` opens the libraries in order; one that opens is asked
/// for the symbol, one that fails either way is followed by the next, and
/// the first that has it ends the search.
pub proof fn law_free_is_searched_in_order(
    count: usize,
    first: FreeSearch,
    at: FreeSearch,
    ok: bool,
    next: FreeSearch,
)
    requires
        call_ensures(FreeSearch::start, (count,), first),
        call_ensures(FreeSearch::step, (at, ok, count), next),
    ensures
        count > 0 ==> first == FreeSearch::Open(0),
        count == 0 ==> first is Absent,
        match at {
            FreeSearch::Open(i) => if ok {
                next == FreeSearch::Resolve(i)
            } else if i + 1 < count {
                next == FreeSearch::Open((i + 1) as usize)
            } else {
                next is Absent
            },
            FreeSearch::Resolve(i) => if ok {
                next == FreeSearch::Found(i)
            } else if i + 1 < count {
                next == FreeSearch::Open((i + 1) as usize)
            } else {
                next is Absent
            },
            _ => next == at,
        },
{
}

} // verus!
