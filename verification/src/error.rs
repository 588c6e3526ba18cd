//! Error type shared across all backends.

use vstd::prelude::*;
use vstd::string::*;

verus! {

#[derive(Debug)]
pub enum Error {
    /// The selected backend is compiled in as a stub only.
    NotImplemented(&'static str),
    /// The backend's shared library failed to load (wrong soname, not
    /// installed, permission denied). Probing swallows this; opening
    /// surfaces it.
    LibraryLoad { backend: &'static str, soname: &'static str, source: libloading::Error },
    /// A specific symbol was missing from an otherwise-loaded library.
    SymbolMissing { backend: &'static str, symbol: &'static str, source: libloading::Error },
    /// The shared library loaded but opening a device or stream failed.
    /// `detail` is backend-specific (ALSA error string, HRESULT, ...).
    DeviceOpen { backend: &'static str, detail: String },
    /// The request (sample rate, channels, format) couldn't be satisfied
    /// by the selected device.
    UnsupportedFormat { backend: &'static str, detail: String },
    /// The default driver was asked for and no driver is available.
    NoDriver(String),
    /// Backend runtime failures after the device is open (write errors,
    /// worker-thread crashes, etc.).
    Runtime { backend: &'static str, detail: String },
}

/// Whether `text` is what `libloading` displays for `source`.
pub open spec fn displays(source: libloading::Error, text: Seq<char>) -> bool {
    exists|shown: String|
        #![auto]
        to_string_from_display_ensures::<libloading::Error>(&source, shown) && shown@ == text
}

impl Error {
    /// Whether this is `NotImplemented` for the backend named `backend`.
    pub open spec fn is_not_implemented(self, backend: Seq<char>) -> bool {
        self matches Error::NotImplemented(b) && b@ == backend
    }

    /// Whether this is `DeviceOpen` with exactly these texts.
    pub open spec fn is_device_open(self, backend: Seq<char>, detail: Seq<char>) -> bool {
        self matches Error::DeviceOpen { backend: b, detail: d } && b@ == backend && d@ == detail
    }

    /// Whether this is `UnsupportedFormat` with exactly these texts.
    pub open spec fn is_unsupported_format(self, backend: Seq<char>, detail: Seq<char>) -> bool {
        self matches Error::UnsupportedFormat { backend: b, detail: d } && b@ == backend && d@
            == detail
    }

    /// Whether this is `Runtime` with exactly these texts.
    pub open spec fn is_runtime(self, backend: Seq<char>, detail: Seq<char>) -> bool {
        self matches Error::Runtime { backend: b, detail: d } && b@ == backend && d@ == detail
    }

    /// The loader error behind this one, if there is one.
    pub open spec fn cause(self) -> Option<libloading::Error> {
        match self {
            Error::LibraryLoad { source, .. } => Some(source),
            Error::SymbolMissing { source, .. } => Some(source),
            _ => None,
        }
    }

    /// The one-line report of this error. `cause` is the text of the loader
    /// error behind it; the other variants do not use it.
    pub open spec fn report(self, cause: Seq<char>) -> Seq<char> {
        match self {
            Error::NotImplemented(b) => b@ + ": backend not yet implemented"@,
            Error::LibraryLoad { backend, soname, .. } => backend@ + ": loading "@ + soname@ + ": "@
                + cause,
            Error::SymbolMissing { backend, symbol, .. } => backend@ + ": symbol "@ + symbol@
                + " missing: "@ + cause,
            Error::DeviceOpen { backend, detail } => backend@ + ": open: "@ + detail@,
            Error::UnsupportedFormat { backend, detail } => backend@ + ": unsupported format: "@
                + detail@,
            Error::NoDriver(s) => "no audio driver available: "@ + s@,
            Error::Runtime { backend, detail } => backend@ + ": runtime: "@ + detail@,
        }
    }

    /// Whether `text` is what `libloading` displays for the cause of this
    /// error; any text will do when there is no cause.
    pub open spec fn cause_displays(self, text: Seq<char>) -> bool {
        match self.cause() {
            Some(source) => displays(source, text),
            None => true,
        }
    }

    /// The loader error behind this one, if there is one.
    pub fn source(&self) -> (cause: Option<&libloading::Error>)
        ensures
            match cause {
                Some(source) => self.cause() == Some(*source),
                None => self.cause() is None,
            },
    {
        match self {
            Error::LibraryLoad { source, .. } => Some(source),
            Error::SymbolMissing { source, .. } => Some(source),
            _ => None,
        }
    }

    /// The one-line report of this error, given the text of its cause.
    pub fn report_with(&self, cause: &str) -> (report: String)
        ensures
            report@ == self.report(cause@),
    {
        let mut out = String::new();
        match self {
            Error::NotImplemented(b) => {
                out.append(*b);
                out.append(": backend not yet implemented");
            },
            Error::LibraryLoad { backend, soname, .. } => {
                out.append(*backend);
                out.append(": loading ");
                out.append(*soname);
                out.append(": ");
                out.append(cause);
            },
            Error::SymbolMissing { backend, symbol, .. } => {
                out.append(*backend);
                out.append(": symbol ");
                out.append(*symbol);
                out.append(" missing: ");
                out.append(cause);
            },
            Error::DeviceOpen { backend, detail } => {
                out.append(*backend);
                out.append(": open: ");
                out.append(detail.as_str());
            },
            Error::UnsupportedFormat { backend, detail } => {
                out.append(*backend);
                out.append(": unsupported format: ");
                out.append(detail.as_str());
            },
            Error::NoDriver(s) => {
                out.append("no audio driver available: ");
                out.append(s.as_str());
            },
            Error::Runtime { backend, detail } => {
                out.append(*backend);
                out.append(": runtime: ");
                out.append(detail.as_str());
            },
        }
        assert(out@ =~= self.report(cause@));
        out
    }

    /// The one-line report of this error, with the text that `libloading`
    /// displays for its cause.
    pub fn message(&self) -> (report: String)
        ensures
            exists|text: Seq<char>| #[trigger] self.cause_displays(text) && report@ == self.report(
                text,
            ),
    {
        match self.source() {
            Some(source) => {
                let shown = source.to_string();
                assert(self.cause() == Some(*source));
                assert(displays(*source, shown@));
                assert(self.cause_displays(shown@));
                self.report_with(shown.as_str())
            },
            None => {
                assert(self.cause_displays(""@));
                self.report_with("")
            },
        }
    }
}

} // verus!
