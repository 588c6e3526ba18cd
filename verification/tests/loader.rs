//! Loading plans and the errors they come to.

use oxideav_sysaudio::loader::{
    alsa_plan, audio_toolbox_plan, core_foundation_plan, hal_plan, libc_names, oss_plan,
    pulse_plan, wasapi_plan, FreeSearch, LibrarySlot, LoadCall, LoadStage, Loader,
};
use oxideav_sysaudio::Error;

fn missing() -> libloading::Error {
    libloading::Error::DlOpenUnknown
}

#[test]
fn plans_load_when_everything_is_there() {
    for (plan, calls) in [
        (alsa_plan(), 25),
        (pulse_plan(), 8),
        (wasapi_plan(), 11),
        (audio_toolbox_plan(), 9),
        (hal_plan(), 3),
        (core_foundation_plan(), 2),
        (oss_plan(), 5),
    ] {
        let mut loader = Loader::start(plan);
        let mut made = 0;
        while !matches!(loader.call(), LoadCall::Nothing) {
            made += 1;
            loader = loader.step(Ok(())).expect("nothing fails");
        }
        assert_eq!(made, calls);
        assert!(loader.found.iter().all(|found| *found));
        assert_eq!(loader.stage, LoadStage::Loaded);
    }
}

#[test]
fn library_failures_carry_their_cause() {
    let r = Loader::start(alsa_plan()).step(Err(missing()));
    let error = r.err().expect("libasound is missing");
    assert!(matches!(
        error,
        Error::LibraryLoad { backend: "alsa", soname: "libasound.so.2", .. }
    ));
    assert!(error.source().is_some());
    assert_eq!(
        error.message(),
        format!("alsa: loading libasound.so.2: {}", missing())
    );
}

#[test]
fn candidates_are_tried_in_order() {
    let mut loader = Loader::start(audio_toolbox_plan());
    let mut paths = Vec::new();
    let error = loop {
        if let LoadCall::Open { path, .. } = loader.call() {
            paths.push(path);
        }
        let source = if paths.len() == 3 {
            libloading::Error::InteriorZeroElements
        } else {
            missing()
        };
        match loader.step(Err(source)) {
            Ok(next) => loader = next,
            Err(e) => break e,
        }
    };
    assert_eq!(
        paths,
        vec![
            "/System/Library/Frameworks/AudioToolbox.framework/AudioToolbox",
            "AudioToolbox.framework/AudioToolbox",
            "AudioToolbox",
        ]
    );
    // The error of the last candidate is the one reported.
    assert!(matches!(
        error,
        Error::LibraryLoad {
            backend: "coreaudio",
            soname: "AudioToolbox",
            source: libloading::Error::InteriorZeroElements,
        }
    ));
}

#[test]
fn required_symbols_end_a_load() {
    let loader = Loader::start(wasapi_plan()).step(Ok(())).unwrap().step(Ok(())).unwrap();
    match loader.call() {
        LoadCall::Resolve { library, symbol } => {
            assert_eq!((library, symbol), (0, "CoInitializeEx"));
        }
        other => panic!("expected a symbol, got {other:?}"),
    }
    let error = loader.step(Err(libloading::Error::DlSymUnknown)).err().expect("missing");
    assert_eq!(
        error.message(),
        format!(
            "wasapi: symbol CoInitializeEx missing: {}",
            libloading::Error::DlSymUnknown
        )
    );
}

#[test]
fn optional_symbols_are_noted() {
    let mut loader = Loader::start(alsa_plan());
    let mut names = Vec::new();
    loop {
        let reply = match loader.call() {
            LoadCall::Nothing => break,
            LoadCall::Open { .. } => Ok(()),
            LoadCall::Resolve { symbol, .. } => {
                names.push(symbol);
                if symbol.starts_with("snd_device_name") {
                    Err(libloading::Error::DlSymUnknown)
                } else {
                    Ok(())
                }
            }
        };
        loader = loader.step(reply).expect("only optional symbols are missing");
    }
    let lost: Vec<&str> = names
        .iter()
        .zip(&loader.found)
        .filter(|(_, found)| !**found)
        .map(|(name, _)| *name)
        .collect();
    assert_eq!(
        lost,
        vec!["snd_device_name_hint", "snd_device_name_get_hint", "snd_device_name_free_hint"]
    );
}

#[test]
fn library_handles_are_cached() {
    let mut slot = LibrarySlot::Untried;
    assert!(slot.wants_load());
    slot.note(false, false);
    assert!(slot.wants_load(), "a failure is tried again");
    slot.note(false, true);
    assert!(!slot.wants_load(), "a final failure is not");
    assert_eq!(slot, LibrarySlot::Missing);
    slot.note(true, false);
    assert_eq!(slot, LibrarySlot::Ready);
    assert!(!slot.wants_load());
}

#[test]
fn free_is_searched_in_every_libc() {
    let names = libc_names();
    assert_eq!(names, vec!["libc.so.6", "libc.so", "libc.musl-x86_64.so.1"]);
    let run = |opens: [bool; 3], has: [bool; 3]| {
        let mut s = FreeSearch::start(names.len());
        loop {
            s = match s {
                FreeSearch::Open(i) => s.step(opens[i], names.len()),
                FreeSearch::Resolve(i) => s.step(has[i], names.len()),
                over => return over,
            }
        }
    };
    assert_eq!(run([true; 3], [true; 3]), FreeSearch::Found(0));
    assert_eq!(run([true; 3], [false, true, true]), FreeSearch::Found(1));
    assert_eq!(run([false, false, true], [true; 3]), FreeSearch::Found(2));
    assert_eq!(run([true; 3], [false; 3]), FreeSearch::Absent);
    assert_eq!(FreeSearch::start(0), FreeSearch::Absent);
}
