//! The shared error taxonomy into which every failure is translated before
//! it is answered.
use vstd::prelude::*;

verus! {

/// A failure translated into the shared taxonomy.
pub trait IntoCanonical {
    fn into_canonical(self) -> Canonical;
}

/// The kinds of failure that a request can end in.
#[derive(Debug, Clone, Copy, PartialEq, Eq, Structural)]
pub enum Canonical {
    NotFound,
    InvalidArgument,
    PermissionDenied,
    FailedPrecondition,
    DeadlineExceeded,
    Misconfigured,
    UpstreamUnavailable,
    UpstreamInvalidResponse,
    InternalRenderFailure,
    Unknown,
}

/// The HTTP status that answers each kind.
pub open spec fn status_of(c: Canonical) -> u16 {
    match c {
        Canonical::NotFound => 404,
        Canonical::InvalidArgument => 400,
        Canonical::PermissionDenied => 403,
        Canonical::FailedPrecondition => 412,
        Canonical::DeadlineExceeded => 504,
        Canonical::Misconfigured => 500,
        Canonical::UpstreamUnavailable => 500,
        Canonical::UpstreamInvalidResponse => 502,
        Canonical::InternalRenderFailure => 500,
        Canonical::Unknown => 500,
    }
}

/// The headline of the page that answers each kind.
pub open spec fn title_of(c: Canonical) -> Seq<char> {
    match c {
        Canonical::NotFound => "A 404 has been spotted"@,
        Canonical::InvalidArgument => "You tried a naughty thing"@,
        Canonical::PermissionDenied => "Nope. Can't do"@,
        Canonical::FailedPrecondition => "A failed precondition"@,
        Canonical::DeadlineExceeded => "Sooo slow"@,
        Canonical::Misconfigured => "Misconfigured plugin"@,
        Canonical::UpstreamUnavailable => "A network error occurred"@,
        Canonical::UpstreamInvalidResponse => "Gateway response invalid"@,
        Canonical::InternalRenderFailure => "I'm terribly sorry, but something happened"@,
        Canonical::Unknown => "I'm terribly sorry, but something happened"@,
    }
}

/// The explanation on the page that answers each kind.
pub open spec fn details_of(c: Canonical) -> Seq<char> {
    match c {
        Canonical::NotFound => "The requested resource does not exist."@,
        Canonical::InvalidArgument => "Well be better next time."@,
        Canonical::PermissionDenied => "The resource is inaccessible."@,
        Canonical::FailedPrecondition => "huh."@,
        Canonical::DeadlineExceeded => "Did not receive a response in time."@,
        Canonical::Misconfigured => "The plugin can't produce content because it's misconfigured."@,
        Canonical::UpstreamUnavailable => "While obtaining content a network error was encountered."@,
        Canonical::UpstreamInvalidResponse => "The response from upstream returned invalid data"@,
        Canonical::InternalRenderFailure => "Well that's awkward."@,
        Canonical::Unknown => "This is new for me too!"@,
    }
}

impl Canonical {
    /// The HTTP status of the answer.
    pub fn status_code(&self) -> (r: u16)
        ensures
            r == status_of(*self),
    {
        match self {
            Canonical::NotFound => 404,
            Canonical::InvalidArgument => 400,
            Canonical::PermissionDenied => 403,
            Canonical::FailedPrecondition => 412,
            Canonical::DeadlineExceeded => 504,
            Canonical::Misconfigured => 500,
            Canonical::UpstreamUnavailable => 500,
            Canonical::UpstreamInvalidResponse => 502,
            Canonical::InternalRenderFailure => 500,
            Canonical::Unknown => 500,
        }
    }

    /// The headline of the answer's page.
    pub fn title(&self) -> (r: &'static str)
        ensures
            r@ == title_of(*self),
    {
        match self {
            Canonical::NotFound => "A 404 has been spotted",
            Canonical::InvalidArgument => "You tried a naughty thing",
            Canonical::PermissionDenied => "Nope. Can't do",
            Canonical::FailedPrecondition => "A failed precondition",
            Canonical::DeadlineExceeded => "Sooo slow",
            Canonical::Misconfigured => "Misconfigured plugin",
            Canonical::UpstreamUnavailable => "A network error occurred",
            Canonical::UpstreamInvalidResponse => "Gateway response invalid",
            Canonical::InternalRenderFailure => "I'm terribly sorry, but something happened",
            Canonical::Unknown => "I'm terribly sorry, but something happened",
        }
    }

    /// The explanation on the answer's page.
    pub fn details(&self) -> (r: &'static str)
        ensures
            r@ == details_of(*self),
    {
        match self {
            Canonical::NotFound => "The requested resource does not exist.",
            Canonical::InvalidArgument => "Well be better next time.",
            Canonical::PermissionDenied => "The resource is inaccessible.",
            Canonical::FailedPrecondition => "huh.",
            Canonical::DeadlineExceeded => "Did not receive a response in time.",
            Canonical::Misconfigured => "The plugin can't produce content because it's misconfigured.",
            Canonical::UpstreamUnavailable => "While obtaining content a network error was encountered.",
            Canonical::UpstreamInvalidResponse => "The response from upstream returned invalid data",
            Canonical::InternalRenderFailure => "Well that's awkward.",
            Canonical::Unknown => "This is new for me too!",
        }
    }
}

} // verus!
