//! One module per audio API.

pub mod alsa;
pub mod coreaudio;
pub mod hal;
pub mod hal_format;
pub mod mock;
pub mod oss;
pub mod pulse;
pub mod wasapi;
pub mod wasapi_list;
