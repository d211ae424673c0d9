//! The errors of the library.

use crate::provider::ProviderError;
use crate::text::append_str;
use vstd::prelude::*;

verus! {

/// What can go wrong. A variant that wraps a failure from outside the
/// library holds that failure's text.
#[derive(Debug, Clone, PartialEq)]
pub enum NotifallError {
    ConfigParse(String),
    ConfigWrite(String),
    ConfigEdit(String),
    Json(String),
    Io(String),
    Provider(ProviderError),
    ProviderUnsupported(String),
    ConfigExists(String),
    NoProviderAvailable,
    BackgroundRequiresOnClick,
    RemoteForwardMissingHost(String),
    MissingHome,
}

impl NotifallError {
    /// The text of the error.
    pub open spec fn message_text(self) -> Seq<char> {
        match self {
            NotifallError::ConfigParse(m) => "config parse error: "@ + m@,
            NotifallError::ConfigWrite(m) => "config write error: "@ + m@,
            NotifallError::ConfigEdit(m) => "config edit error: "@ + m@,
            NotifallError::Json(m) => "json error: "@ + m@,
            NotifallError::Io(m) => "io error: "@ + m@,
            NotifallError::Provider(e) => "provider error: "@ + e.message_text(),
            NotifallError::ProviderUnsupported(p) => "unsupported provider: "@ + p@,
            NotifallError::ConfigExists(p) => "config file already exists: "@ + p@,
            NotifallError::NoProviderAvailable => "no provider available for this platform"@,
            NotifallError::BackgroundRequiresOnClick => "--background requires --on-click"@,
            NotifallError::RemoteForwardMissingHost(m) => m@,
            NotifallError::MissingHome => "HOME is not set"@,
        }
    }

    /// The error as text.
    pub fn message(&self) -> (r: String)
        ensures
            r@ == self.message_text(),
    {
        let mut out = String::new();
        let ghost empty = out@;
        match self {
            NotifallError::ConfigParse(m) => {
                append_str(&mut out, "config parse error: ");
                append_str(&mut out, m.as_str());
            },
            NotifallError::ConfigWrite(m) => {
                append_str(&mut out, "config write error: ");
                append_str(&mut out, m.as_str());
            },
            NotifallError::ConfigEdit(m) => {
                append_str(&mut out, "config edit error: ");
                append_str(&mut out, m.as_str());
            },
            NotifallError::Json(m) => {
                append_str(&mut out, "json error: ");
                append_str(&mut out, m.as_str());
            },
            NotifallError::Io(m) => {
                append_str(&mut out, "io error: ");
                append_str(&mut out, m.as_str());
            },
            NotifallError::Provider(e) => {
                append_str(&mut out, "provider error: ");
                let inner = e.message();
                append_str(&mut out, inner.as_str());
            },
            NotifallError::ProviderUnsupported(p) => {
                append_str(&mut out, "unsupported provider: ");
                append_str(&mut out, p.as_str());
            },
            NotifallError::ConfigExists(p) => {
                append_str(&mut out, "config file already exists: ");
                append_str(&mut out, p.as_str());
            },
            NotifallError::NoProviderAvailable => {
                append_str(&mut out, "no provider available for this platform");
            },
            NotifallError::BackgroundRequiresOnClick => {
                append_str(&mut out, "--background requires --on-click");
            },
            NotifallError::RemoteForwardMissingHost(m) => {
                append_str(&mut out, m.as_str());
            },
            NotifallError::MissingHome => {
                append_str(&mut out, "HOME is not set");
            },
        }
        assert(out@ =~= self.message_text());
        out
    }
}

} // verus!
