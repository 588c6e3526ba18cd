//! What the operations are for.
//!
//! Each law here speaks of the results that a function can return, or of the
//! calls that a state machine makes over a run, in terms of the arguments
//! alone. Quotients are given by the products that bound them, lists by what
//! is in them and in which order, machines by what they ask for next and
//! what they make of the answer.

pub mod alsa;
pub mod coreaudio;
pub mod driver;
pub mod hal;
pub mod loader;
pub mod mock;
pub mod oss;
pub mod pulse;
pub mod request;
pub mod stream;
pub mod teardown;
pub mod text;
pub mod time;
pub mod wasapi;
