//! Requests and errors.

#![allow(unused_imports)]

use crate::error::Error;
use crate::format::{Device, SampleFormat, StreamRequest};
use vstd::prelude::*;
use vstd::string::*;

verus! {

/// A new request asks for the rate and the channels it is given, and leaves
/// the buffer and the endpoint to the system.
pub proof fn law_a_new_request_asks_for_what_it_is_given(
    sample_rate: u32,
    channels: u16,
    req: StreamRequest,
)
    requires
        call_ensures(StreamRequest::new, (sample_rate, channels), req),
    ensures
        req.sample_rate == sample_rate,
        req.channels == channels,
        req.format is F32,
        req.buffer_frames is None,
        req.device is None,
{
}

/// A hint is set as it is, or taken away, and the rest of the request stays.
pub proof fn law_a_hint_changes_nothing_else(
    req: StreamRequest,
    hint: Option<u32>,
    hinted: StreamRequest,
)
    requires
        call_ensures(StreamRequest::with_buffer_frames, (req, hint), hinted),
    ensures
        hinted.buffer_frames == hint,
        hinted.sample_rate == req.sample_rate,
        hinted.channels == req.channels,
        hinted.format == req.format,
        hinted.device == req.device,
{
}

/// A device is set by its id, and the rest of the request stays.
pub proof fn law_a_device_changes_nothing_else(req: StreamRequest, id: &str, routed: StreamRequest)
    requires
        call_ensures(StreamRequest::with_device, (req, id), routed),
    ensures
        routed.device is Some,
        routed.device->0@ == id@,
        routed.sample_rate == req.sample_rate,
        routed.channels == req.channels,
        routed.format == req.format,
        routed.buffer_frames == req.buffer_frames,
{
}

/// A copy of a request or of a device is equal to it.
pub proof fn law_copies_are_equal(
    req: StreamRequest,
    req_copy: StreamRequest,
    device: Device,
    device_copy: Device,
)
    requires
        call_ensures(<StreamRequest as Clone>::clone, (&req,), req_copy),
        call_ensures(<Device as Clone>::clone, (&device,), device_copy),
    ensures
        req_copy == req,
        device_copy == device,
{
}

/// The report of an error names the backend first and says what happened,
/// with the detail at the end.
pub proof fn law_reports_name_the_backend(error: Error, cause: &str, report: String)
    requires
        call_ensures(Error::report_with, (&error, cause), report),
    ensures
        match error {
            Error::NotImplemented(backend) => report@ == backend@
                + ": backend not yet implemented"@,
            Error::LibraryLoad { backend, soname, .. } => report@ == backend@ + ": loading "@
                + soname@ + ": "@ + cause@,
            Error::SymbolMissing { backend, symbol, .. } => report@ == backend@ + ": symbol "@
                + symbol@ + " missing: "@ + cause@,
            Error::DeviceOpen { backend, detail } => report@ == backend@ + ": open: "@ + detail@,
            Error::UnsupportedFormat { backend, detail } => report@ == backend@
                + ": unsupported format: "@ + detail@,
            Error::NoDriver(detail) => report@ == "no audio driver available: "@ + detail@,
            Error::Runtime { backend, detail } => report@ == backend@ + ": runtime: "@ + detail@,
        },
{
}

/// The full report is the one with the text that the loader displays for
/// the cause; without a cause it is the same whatever text is given.
pub proof fn law_messages_end_with_their_cause(error: Error, message: String)
    requires
        call_ensures(Error::message, (&error,), message),
    ensures
        match error {
            Error::LibraryLoad { backend, soname, source } => exists|text: Seq<char>|
                #[trigger] crate::error::displays(source, text) && message@ == backend@
                    + ": loading "@ + soname@ + ": "@ + text,
            Error::SymbolMissing { backend, symbol, source } => exists|text: Seq<char>|
                #[trigger] crate::error::displays(source, text) && message@ == backend@
                    + ": symbol "@ + symbol@ + " missing: "@ + text,
            Error::NotImplemented(backend) => message@ == backend@
                + ": backend not yet implemented"@,
            Error::DeviceOpen { backend, detail } => message@ == backend@ + ": open: "@ + detail@,
            Error::UnsupportedFormat { backend, detail } => message@ == backend@
                + ": unsupported format: "@ + detail@,
            Error::NoDriver(detail) => message@ == "no audio driver available: "@ + detail@,
            Error::Runtime { backend, detail } => message@ == backend@ + ": runtime: "@ + detail@,
        },
{
    let text = choose|text: Seq<char>|
        #[trigger] error.cause_displays(text) && message@ == error.report(text);
    assert(error.cause_displays(text) && message@ == error.report(text));
}

/// Exactly the two loading failures have a cause, and it is the one that
/// they carry.
pub proof fn law_loading_failures_have_a_cause(error: Error, cause: Option<&libloading::Error>)
    requires
        call_ensures(Error::source, (&error,), cause),
    ensures
        match error {
            Error::LibraryLoad { source, .. } => cause == Some(&source),
            Error::SymbolMissing { source, .. } => cause == Some(&source),
            _ => cause is None,
        },
{
}

} // verus!
