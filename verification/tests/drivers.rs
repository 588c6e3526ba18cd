//! Probing, selection and the calls on a driver.

use oxideav_sysaudio::driver::pick_default;
use oxideav_sysaudio::{
    default_driver, driver_by_name, drivers, open, open_default, open_on, output_devices, probe,
    Build, DefaultReport, Device, Driver, DriverStatus, Error, Platform, SampleFormat,
    StreamFormat, StreamImpl, StreamRequest,
};
use std::cell::RefCell;
use std::time::Duration;

const PLATFORMS: [Platform; 3] = [Platform::Linux, Platform::Windows, Platform::MacOs];

fn device(id: &str, is_default: bool) -> Device {
    Device { id: id.to_string(), name: format!("device {id}"), is_default }
}

/// A backend that does nothing but remember what it was opened with.
#[derive(Debug)]
struct Opened {
    req: StreamRequest,
}

impl StreamImpl for Opened {
    fn play(&mut self) -> Result<(), Error> {
        Ok(())
    }
    fn pause(&mut self) -> Result<(), Error> {
        Err(Error::Runtime { backend: "test", detail: "cannot pause".to_string() })
    }
    fn format(&self) -> StreamFormat {
        StreamFormat {
            sample_rate: self.req.sample_rate,
            channels: self.req.channels,
            format: SampleFormat::F32,
        }
    }
    fn latency(&self) -> Option<Duration> {
        None
    }
    fn stop(&mut self) {}
}

#[test]
fn drivers_non_empty_per_platform() {
    // Every platform we support should have at least one compiled-in
    // backend -- even if all are stubs, the list shouldn't be empty.
    for platform in PLATFORMS {
        assert!(!drivers(&Build::new(platform)).is_empty());
    }
}

#[test]
fn driver_by_name_roundtrip() {
    for platform in PLATFORMS {
        let build = Build::new(platform);
        for d in drivers(&build) {
            assert_eq!(driver_by_name(&build, d.name()).map(|x| x.name()), Some(d.name()));
        }
    }
}

#[test]
fn drivers_come_in_the_documented_order() {
    let names = |platform| -> Vec<&'static str> {
        drivers(&Build::new(platform)).iter().map(|d| d.name()).collect()
    };
    assert_eq!(names(Platform::Linux), vec!["pipewire", "pulse", "alsa", "oss"]);
    assert_eq!(names(Platform::Windows), vec!["wasapi", "asio"]);
    assert_eq!(names(Platform::MacOs), vec!["coreaudio"]);
    assert!(names(Platform::Other).is_empty());
}

#[test]
fn a_disabled_backend_is_omitted() {
    let mut build = Build::new(Platform::Linux);
    build.pulse = false;
    let names: Vec<&str> = drivers(&build).iter().map(|d| d.name()).collect();
    assert_eq!(names, vec!["pipewire", "alsa", "oss"]);
    assert!(driver_by_name(&build, "pulse").is_none());
    assert!(driver_by_name(&build, "wasapi").is_none());
    assert!(driver_by_name(&build, "").is_none());
}

#[test]
fn stubs_are_told_apart_from_missing_libraries() {
    let stubs: Vec<&str> = PLATFORMS
        .iter()
        .flat_map(|p| drivers(&Build::new(*p)))
        .filter(|d| d.is_stub())
        .map(|d| d.name())
        .collect();
    assert_eq!(stubs, vec!["pipewire", "asio"]);
    let build = Build::new(Platform::Linux);
    let missing = |_: Driver| -> Result<(), Error> { Err(Error::NoDriver(String::new())) };
    let there = |_: Driver| -> Result<(), Error> { Ok(()) };
    let pipewire = driver_by_name(&build, "pipewire").unwrap();
    let alsa = driver_by_name(&build, "alsa").unwrap();
    assert_eq!(pipewire.status(&there), DriverStatus::Stub);
    assert!(!pipewire.status(&there).is_ready());
    assert_eq!(alsa.status(&missing), DriverStatus::Unavailable);
    assert_eq!(alsa.status(&there), DriverStatus::Ready);
    assert!(alsa.status(&there).is_ready());
    assert_eq!(
        pipewire.probe(&there).unwrap_err().message(),
        "pipewire: backend not yet implemented"
    );
    assert_eq!(pipewire.description(), "PipeWire (stub — not yet implemented)");
    assert_eq!(alsa.description(), "ALSA (libasound.so.2 via libloading)");
}

#[test]
fn probe_keeps_what_works_in_order() {
    let build = Build::new(Platform::Linux);
    let works = |d: Driver| -> Result<(), Error> {
        if d.name() == "pulse" {
            Err(Error::Runtime { backend: "pulse", detail: "connection refused".to_string() })
        } else {
            Ok(())
        }
    };
    let names: Vec<&str> = probe(&build, &works).iter().map(|d| d.name()).collect();
    // The stub does not probe although `works` would accept it.
    assert_eq!(names, vec!["alsa", "oss"]);
    assert_eq!(default_driver(&build, &works).map(|d| d.name()), Some("alsa"));
    let nothing = |_: Driver| -> Result<(), Error> { Err(Error::NoDriver(String::new())) };
    assert!(probe(&build, &nothing).is_empty());
    assert!(default_driver(&build, &nothing).is_none());
}

#[test]
fn open_hands_the_request_to_the_backend() {
    let build = Build::new(Platform::Linux);
    let alsa = driver_by_name(&build, "alsa").unwrap();
    let seen = RefCell::new(None);
    let mut stream = open(alsa, StreamRequest::new(44_100, 1), |d, req| {
        *seen.borrow_mut() = Some(d.name());
        Ok(Opened { req })
    })
    .expect("opens");
    assert_eq!(*seen.borrow(), Some("alsa"));
    assert_eq!(stream.format().sample_rate, 44_100);
    assert!(stream.latency().is_none());
    // A refused pause leaves the stream playing.
    assert!(stream.pause().is_err());
    assert!(stream.is_playing());
}

#[test]
fn open_on_routes_to_the_device() {
    let build = Build::new(Platform::Linux);
    let alsa = driver_by_name(&build, "alsa").unwrap();
    let req = StreamRequest::new(48_000, 2).with_buffer_frames(Some(256));
    let opened = open_on(alsa, &device("hw:1", false), req, |_, req| Ok(Opened { req }))
        .expect("opens")
        .stop();
    assert_eq!(opened.req.device.as_deref(), Some("hw:1"));
    assert_eq!(opened.req.buffer_frames, Some(256));
    assert_eq!(opened.req.sample_rate, 48_000);
}

#[test]
fn stubs_refuse_to_open() {
    let asio = driver_by_name(&Build::new(Platform::Windows), "asio").unwrap();
    let r = open(asio, StreamRequest::new(48_000, 2), |_, req| Ok(Opened { req }));
    match r {
        Err(Error::NotImplemented(name)) => assert_eq!(name, "asio"),
        _ => panic!("a stub opened"),
    }
}

#[test]
fn open_default_without_a_driver_says_so() {
    let nothing = |_: Driver| -> Result<(), Error> { Err(Error::NoDriver(String::new())) };
    let r = open_default(
        &Build::new(Platform::Linux),
        &nothing,
        StreamRequest::new(48_000, 2),
        |_, req| Ok(Opened { req }),
    );
    match r {
        Err(e) => assert_eq!(
            e.message(),
            "no audio driver available: probe() returned no working backend"
        ),
        Ok(_) => panic!("opened without a driver"),
    }
}

#[test]
fn open_passes_backend_errors_on() {
    let alsa = driver_by_name(&Build::new(Platform::Linux), "alsa").unwrap();
    let r = open(alsa, StreamRequest::new(48_000, 2), |_, _| -> Result<Opened, Error> {
        Err(Error::DeviceOpen { backend: "alsa", detail: "busy".to_string() })
    });
    assert_eq!(r.err().map(|e| e.message()), Some("alsa: open: busy".to_string()));
}

#[test]
fn backends_without_enumeration_have_empty_lists() {
    let build = Build::new(Platform::Linux);
    let fail = |_: Driver| -> Result<Vec<Device>, Error> { panic!("asked") };
    for name in ["pipewire", "pulse", "oss"] {
        let d = driver_by_name(&build, name).unwrap();
        assert!(d.output_devices(fail).unwrap().is_empty());
        assert!(d
            .default_output_device(|_| -> Result<DefaultReport, Error> { panic!("asked") })
            .unwrap()
            .is_none());
        assert!(d
            .preferred_format(None, |_, _| -> Result<StreamFormat, Error> { panic!("asked") })
            .unwrap()
            .is_none());
    }
    // An enumerating backend whose library lacks the API answers the same.
    let alsa = driver_by_name(&build, "alsa").unwrap();
    let lacking = |d: Driver| -> Result<Vec<Device>, Error> { Err(Error::NotImplemented(d.name())) };
    assert!(alsa.output_devices(lacking).unwrap().is_empty());
    assert!(output_devices(alsa, lacking).unwrap().is_empty());
    assert!(alsa
        .default_output_device(|d| Err(Error::NotImplemented(d.name())))
        .unwrap()
        .is_none());
    assert!(alsa
        .preferred_format(None, |d, _| Err(Error::NotImplemented(d.name())))
        .unwrap()
        .is_none());
}

#[test]
fn other_enumeration_errors_are_errors() {
    let alsa = driver_by_name(&Build::new(Platform::Linux), "alsa").unwrap();
    let broken = |_: Driver| -> Result<Vec<Device>, Error> {
        Err(Error::Runtime { backend: "alsa", detail: "gone".to_string() })
    };
    assert_eq!(alsa.output_devices(broken).unwrap_err().message(), "alsa: runtime: gone");
    assert!(alsa
        .default_output_device(|_| Err(Error::NoDriver("x".to_string())))
        .is_err());
    assert!(alsa.preferred_format(None, |_, _| Err(Error::NoDriver("x".to_string()))).is_err());
}

#[test]
fn the_default_is_the_tagged_entry() {
    let list = vec![device("a", false), device("b", true), device("c", false)];
    assert_eq!(pick_default(&list), Some(device("b", true)));
    assert_eq!(pick_default(&vec![device("a", false)]), None);
    assert_eq!(pick_default(&Vec::new()), None);
    let build = Build::new(Platform::Linux);
    let alsa = driver_by_name(&build, "alsa").unwrap();
    let listed = alsa
        .default_output_device(|_| {
            Ok(DefaultReport::Listed(vec![device("a", false), device("b", true)]))
        })
        .unwrap();
    assert_eq!(listed, Some(device("b", true)));
    let direct = driver_by_name(&Build::new(Platform::MacOs), "coreaudio")
        .unwrap()
        .default_output_device(|_| Ok(DefaultReport::Direct(Some(device("42", true)))))
        .unwrap();
    assert_eq!(direct, Some(device("42", true)));
}

#[test]
fn preferred_format_asks_about_the_device() {
    let alsa = driver_by_name(&Build::new(Platform::Linux), "alsa").unwrap();
    let fmt = StreamFormat { sample_rate: 96_000, channels: 6, format: SampleFormat::F32 };
    let dev = device("hw:0", false);
    let got = alsa
        .preferred_format(Some(&dev), |d, id| {
            assert_eq!(d.name(), "alsa");
            assert_eq!(id.as_deref(), Some("hw:0"));
            Ok(fmt)
        })
        .unwrap();
    assert_eq!(got, Some(fmt));
    let got = alsa
        .preferred_format(None, |_, id| {
            assert!(id.is_none());
            Ok(fmt)
        })
        .unwrap();
    assert_eq!(got, Some(fmt));
}
