//! Audio output through runtime-loaded native backends: the decisions.
//!
//! An audio backend is a series of native calls with decisions between
//! them: which library file to try next, which parameter to set, what to
//! release when a call fails, how many frames the clock has counted, what a
//! device list or a latency reading comes to. This crate holds those
//! decisions, each with a contract that says exactly what it is. It makes no
//! native call itself: a backend is driven by asking for the next call,
//! making it, and handing the reply back.
//!
//! # Driver probing and explicit selection
//!
//! [`probe()`] returns the subset of compiled-in backends whose shared
//! library loads and whose device opens cleanly, ordered by platform
//! preference. [`default_driver()`] is the first entry of that list.
//! Callers that need to force a specific backend pass a [`Driver`] to
//! [`open()`]; [`drivers()`] enumerates every compiled-in backend
//! (including ones whose library isn't installed).
//!
//! # Layout
//!
//! - [`driver`]: probing, selection, and the calls on a [`Driver`].
//! - [`stream`]: the [`Stream`] handle over a backend.
//! - [`backends`]: one module per backend. Each opening is a state machine
//!   with `start`, `call` and `step`; each worker loop is one with `step`.
//! - [`loader`]: which libraries and symbols a backend loads.
//! - [`teardown`]: how a running stream is taken down.
//! - [`laws`]: what the operations are for, stated over their results.
//! - [`error`], [`format`]: the shared types.
//! - [`text`], [`time`]: the texts and the units that the backends share.

pub mod backends;
pub mod driver;
pub mod error;
pub mod format;
pub mod laws;
pub mod loader;
pub mod loading;
pub mod stream;
pub mod teardown;
pub mod text;
pub mod time;

pub use backends::mock;
pub use driver::{
    default_driver, driver_by_name, drivers, open, open_default, open_on, output_devices, probe,
    Build, DefaultReport, Driver, DriverStatus, Platform,
};
pub use error::Error;
pub use format::{CallbackInfo, Device, SampleFormat, StreamFormat, StreamRequest};
pub use stream::{Stream, StreamImpl};
