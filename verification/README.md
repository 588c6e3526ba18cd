# oxideav-sysaudio

Audio output through native audio libraries that are loaded at run time. No
audio library is linked, and no headers are needed to build.

The library under `src/` is written in Verus. It holds what the backends
decide; every function states what it returns, and that statement is proved.
The crate under `app/` makes the native calls that the library asks for.

## Backends

| Target  | Backend    | Status     | Library                                      |
| ------- | ---------- | ---------- | -------------------------------------------- |
| Linux   | PipeWire   | stub       |                                              |
| Linux   | PulseAudio | functional | `libpulse-simple.so.0`                       |
| Linux   | ALSA       | functional | `libasound.so.2`                             |
| Linux   | OSS        | functional | `/dev/dsp` through libc                      |
| Windows | WASAPI     | functional | `ole32.dll`, `kernel32.dll`                  |
| Windows | ASIO       | stub       |                                              |
| macOS   | CoreAudio  | functional | `AudioToolbox.framework` and the HAL         |
| any     | mock       | functional | none; renders to a discard or capture sink   |

What is compiled in is a `Build`. `Build::new` has every backend but the mock;
`app/` takes each from the feature of its name, and one that is off is omitted.

`probe` returns the backends that answer, in the order of the table. A stub
never answers, and the mock comes last, so a backend with hardware behind it
wins whenever one works.

## How a backend is driven

An opening is a state machine. `start` begins it, `call` names the native
call to make next, and `step` takes the reply; it is over when the call is
`Nothing`. What is held after each reply is part of the model, so the proofs
show that a failed opening has released what it acquired, each thing once,
whatever the system replied. There is one exception: a WASAPI opening whose
worker thread cannot be started reports that and releases nothing.

A running stream has a worker of the same kind: it is handed what happened
(a flag that was read, a write that returned) and names the next task. The
frame clock, the pause rule and the latency reading are part of its state.

## Layout

- `src/driver.rs`: the compiled-in drivers, probing, selection, opening.
- `src/stream.rs`: the stream handle and the trait a backend implements.
- `src/backends/`: one module per backend; CoreAudio's device queries and the
  walk over WASAPI's endpoints have modules of their own.
- `src/loader.rs`: which library files and symbols are tried, in which order.
- `src/teardown.rs`: the order in which a running stream is taken down.
- `src/error.rs`, `src/format.rs`, `src/text.rs`, `src/time.rs`: shared types,
  texts and units.
- `tests/`: tests of the library.
- `app/`: `dlopen`, the native calls, threads, and the arithmetic on samples.

## What is trusted

Verus does not read the bodies of the few functions that call the standard
library for lossy UTF-8 and UTF-16 decoding, for the quoted form of a text and
for building a `Duration`. Each says in its comment what is claimed of the
call. `libloading::Error` is carried as a value and nothing is claimed of it.

Volumes and captured samples are passed as the bit patterns of `f32` values;
the multiplication by the gain is done in `app/`.
