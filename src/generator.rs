//! The failures of content generation.
use vstd::prelude::*;

use crate::error::{Canonical, IntoCanonical};
use crate::net::TransportFailure;

verus! {

/// Why fetching content failed.
#[derive(Debug, Clone, Copy, PartialEq, Eq, Structural)]
pub enum FetchErrorKind {
    /// The upstream answered with this error status.
    Request(u16),
    Network,
    Timeout,
    InvalidData,
}

/// A failure to generate a document.
#[derive(Debug, Clone)]
pub enum Error {
    Fetch { kind: FetchErrorKind, target: String },
    Misconfigured,
    Unknown,
}

/// The model of a generation failure: the target of a failed fetch as text.
pub ghost enum ErrorModel {
    Fetch { kind: FetchErrorKind, target: Seq<char> },
    Misconfigured,
    Unknown,
}

impl View for Error {
    type V = ErrorModel;

    open spec fn view(&self) -> ErrorModel {
        match self {
            Error::Fetch { kind, target } => ErrorModel::Fetch { kind: *kind, target: target@ },
            Error::Misconfigured => ErrorModel::Misconfigured,
            Error::Unknown => ErrorModel::Unknown,
        }
    }
}

/// The characters of an optional target, empty where there is none.
pub open spec fn target_text(t: Option<String>) -> Seq<char> {
    match t {
        Some(s) => s@,
        None => Seq::empty(),
    }
}

/// How a failed exchange reads as a generation failure: an error status
/// first, then a failed connection, a timeout and an undecodable body.
pub open spec fn from_transport_spec(f: TransportFailure) -> ErrorModel {
    match f.status {
        Some(code) => ErrorModel::Fetch {
            kind: FetchErrorKind::Request(code),
            target: target_text(f.target),
        },
        None => if f.connect {
            ErrorModel::Fetch { kind: FetchErrorKind::Network, target: target_text(f.target) }
        } else if f.timeout {
            ErrorModel::Fetch { kind: FetchErrorKind::Timeout, target: target_text(f.target) }
        } else if f.decode {
            ErrorModel::Fetch { kind: FetchErrorKind::InvalidData, target: target_text(f.target) }
        } else {
            ErrorModel::Unknown
        },
    }
}

/// The kind in the shared taxonomy of each generation failure.
pub open spec fn canonical_of(e: ErrorModel) -> Canonical {
    match e {
        ErrorModel::Fetch { kind, .. } => match kind {
            FetchErrorKind::Request(_) => Canonical::UpstreamInvalidResponse,
            FetchErrorKind::Network => Canonical::UpstreamUnavailable,
            FetchErrorKind::Timeout => Canonical::DeadlineExceeded,
            FetchErrorKind::InvalidData => Canonical::UpstreamInvalidResponse,
        },
        ErrorModel::Misconfigured => Canonical::Misconfigured,
        ErrorModel::Unknown => Canonical::Unknown,
    }
}

fn target_string(t: Option<String>) -> (r: String)
    ensures
        r@ == target_text(t),
{
    match t {
        Some(s) => s,
        None => String::new(),
    }
}

impl Error {
    /// Classifies a failed exchange.
    pub fn from_transport(f: TransportFailure) -> (r: Error)
        ensures
            r@ == from_transport_spec(f),
    {
        let status = f.status;
        let connect = f.connect;
        let timeout = f.timeout;
        let decode = f.decode;
        let target = target_string(f.target);
        match status {
            Some(code) => Error::Fetch { kind: FetchErrorKind::Request(code), target },
            None => if connect {
                Error::Fetch { kind: FetchErrorKind::Network, target }
            } else if timeout {
                Error::Fetch { kind: FetchErrorKind::Timeout, target }
            } else if decode {
                Error::Fetch { kind: FetchErrorKind::InvalidData, target }
            } else {
                Error::Unknown
            },
        }
    }
}

impl IntoCanonical for Error {
    fn into_canonical(self) -> (r: Canonical)
        ensures
            r == canonical_of(self@),
    {
        match self {
            Error::Fetch { kind, .. } => match kind {
                FetchErrorKind::Request(_) => Canonical::UpstreamInvalidResponse,
                FetchErrorKind::Network => Canonical::UpstreamUnavailable,
                FetchErrorKind::Timeout => Canonical::DeadlineExceeded,
                FetchErrorKind::InvalidData => Canonical::UpstreamInvalidResponse,
            },
            Error::Misconfigured => Canonical::Misconfigured,
            Error::Unknown => Canonical::Unknown,
        }
    }
}

/// A device whose content cannot be produced for want of setup.
#[derive(Debug, Clone, Copy, PartialEq, Eq, Structural)]
pub enum SetupError {
    Missing,
}

impl IntoCanonical for SetupError {
    fn into_canonical(self) -> (r: Canonical)
        ensures
            r == Canonical::FailedPrecondition,
    {
        Canonical::FailedPrecondition
    }
}

} // verus!
