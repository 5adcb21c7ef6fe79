//! The to-do source: a task-tracking API reached with a bearer token.
use vstd::prelude::*;

use crate::generator;
use crate::net::TransportFailure;
use crate::resource::{join_url, url_joined};
use crate::text::{decimal, decimal_string};

verus! {

#[derive(Debug, Clone, Copy, PartialEq, Eq, Structural)]
pub enum ClientError {
    InvalidToken,
}

/// Why fetching tasks failed.
#[derive(Debug, Clone, Copy, PartialEq, Eq, Structural)]
pub enum FetchErrorKind {
    Timeout,
    Connection,
    InvalidRequest,
    PermissionDenied,
    NotFound,
    Unauthenticated,
    Json,
    Other,
}

/// How a failed exchange reads as a fetch failure.
pub open spec fn kind_of(f: TransportFailure) -> FetchErrorKind {
    if f.connect {
        FetchErrorKind::Connection
    } else if f.timeout {
        FetchErrorKind::Timeout
    } else if f.request {
        FetchErrorKind::InvalidRequest
    } else if f.status is Some {
        let code = f.status->Some_0;
        if code == 404 {
            FetchErrorKind::NotFound
        } else if code == 403 {
            FetchErrorKind::PermissionDenied
        } else if code == 401 {
            FetchErrorKind::Unauthenticated
        } else {
            FetchErrorKind::Other
        }
    } else if f.decode {
        FetchErrorKind::Json
    } else {
        FetchErrorKind::Other
    }
}

impl FetchErrorKind {
    /// Classifies a failed exchange.
    pub fn from_transport(f: &TransportFailure) -> (r: FetchErrorKind)
        ensures
            r == kind_of(*f),
    {
        if f.connect {
            FetchErrorKind::Connection
        } else if f.timeout {
            FetchErrorKind::Timeout
        } else if f.request {
            FetchErrorKind::InvalidRequest
        } else {
            match f.status {
                Some(code) => if code == 404 {
                    FetchErrorKind::NotFound
                } else if code == 403 {
                    FetchErrorKind::PermissionDenied
                } else if code == 401 {
                    FetchErrorKind::Unauthenticated
                } else {
                    FetchErrorKind::Other
                },
                None => if f.decode {
                    FetchErrorKind::Json
                } else {
                    FetchErrorKind::Other
                },
            }
        }
    }
}

/// A failed fetch and the URL it was for.
#[derive(Debug, Clone)]
pub struct FetchError {
    pub kind: FetchErrorKind,
    pub target: Option<String>,
}

/// The generation failure that each fetch failure becomes.
pub open spec fn generator_error_of(kind: FetchErrorKind, target: Seq<char>) -> generator::ErrorModel {
    match kind {
        FetchErrorKind::Timeout => generator::ErrorModel::Fetch {
            kind: generator::FetchErrorKind::Timeout,
            target,
        },
        FetchErrorKind::Connection => generator::ErrorModel::Fetch {
            kind: generator::FetchErrorKind::Network,
            target,
        },
        FetchErrorKind::InvalidRequest => generator::ErrorModel::Fetch {
            kind: generator::FetchErrorKind::Request(400),
            target,
        },
        FetchErrorKind::PermissionDenied => generator::ErrorModel::Fetch {
            kind: generator::FetchErrorKind::Request(403),
            target,
        },
        FetchErrorKind::NotFound => generator::ErrorModel::Fetch {
            kind: generator::FetchErrorKind::Request(404),
            target,
        },
        FetchErrorKind::Unauthenticated => generator::ErrorModel::Fetch {
            kind: generator::FetchErrorKind::Request(401),
            target,
        },
        FetchErrorKind::Json => generator::ErrorModel::Fetch {
            kind: generator::FetchErrorKind::InvalidData,
            target,
        },
        FetchErrorKind::Other => generator::ErrorModel::Unknown,
    }
}

impl FetchError {
    /// Classifies a failed exchange and keeps its URL.
    pub fn from_transport(f: TransportFailure) -> (r: FetchError)
        ensures
            r.kind == kind_of(f),
            r.target == f.target,
    {
        let kind = FetchErrorKind::from_transport(&f);
        FetchError { kind, target: f.target }
    }

    /// The generation failure that this fetch failure becomes.
    pub fn into_generator_error(self) -> (r: generator::Error)
        ensures
            r@ == generator_error_of(self.kind, generator::target_text(self.target)),
    {
        let target = match self.target {
            Some(t) => t,
            None => String::new(),
        };
        match self.kind {
            FetchErrorKind::Timeout => generator::Error::Fetch {
                kind: generator::FetchErrorKind::Timeout,
                target,
            },
            FetchErrorKind::Connection => generator::Error::Fetch {
                kind: generator::FetchErrorKind::Network,
                target,
            },
            FetchErrorKind::InvalidRequest => generator::Error::Fetch {
                kind: generator::FetchErrorKind::Request(400),
                target,
            },
            FetchErrorKind::PermissionDenied => generator::Error::Fetch {
                kind: generator::FetchErrorKind::Request(403),
                target,
            },
            FetchErrorKind::NotFound => generator::Error::Fetch {
                kind: generator::FetchErrorKind::Request(404),
                target,
            },
            FetchErrorKind::Unauthenticated => generator::Error::Fetch {
                kind: generator::FetchErrorKind::Request(401),
                target,
            },
            FetchErrorKind::Json => generator::Error::Fetch {
                kind: generator::FetchErrorKind::InvalidData,
                target,
            },
            FetchErrorKind::Other => generator::Error::Unknown,
        }
    }
}

/// The base URL of the task API.
#[derive(Debug, Clone)]
pub struct Endpoint {
    pub base: String,
}

impl Default for Endpoint {
    /// The public task API.
    fn default() -> (r: Endpoint)
        ensures
            r.base@ == "https://api.ticktick.com/open/v1/"@,
    {
        Endpoint { base: String::from_str("https://api.ticktick.com/open/v1/") }
    }
}

impl Endpoint {
    /// The URL of a project's data: `project/<id>/data` below the base;
    /// `None` only where the URL parser refuses it.
    pub fn for_project_data(&self, project: &Project) -> (r: Option<String>)
        ensures
            match r {
                Some(t) => url_joined(self.base@, "project/"@ + project.id@ + "/data"@) == Some(t@),
                None => url_joined(self.base@, "project/"@ + project.id@ + "/data"@) is None,
            },
    {
        let reference = String::from_str("project/").concat(project.id.as_str()).concat("/data");
        join_url(self.base.as_str(), reference.as_str())
    }
}

/// A character that an HTTP header value may hold: a tab, or any character
/// from the space up but the delete character.
pub open spec fn header_char(c: char) -> bool {
    (c as u32 >= 32 && c as u32 != 127) || c == '\t'
}

/// Relies on `http::HeaderValue::from_str`, which accepts a text exactly
/// when each byte is a tab, or is at least 32 and not 127; the bytes of a
/// character from 128 up all are.
#[verifier::external_body]
fn header_value_valid(s: &str) -> (r: bool)
    ensures
        r == forall|i: int| 0 <= i < s@.len() ==> header_char(#[trigger] s@[i]),
{
    http::HeaderValue::from_str(s).is_ok()
}

/// A moment, as seconds and nanoseconds since the Unix epoch.
#[derive(Debug, Clone, Copy, PartialEq, Eq, Structural)]
pub struct Instant {
    pub secs: i64,
    pub nanos: u32,
}

impl Instant {
    pub open spec fn wf(&self) -> bool {
        self.nanos < 1_000_000_000
    }

    /// The moment in nanoseconds since the epoch.
    pub open spec fn as_nanos(&self) -> int {
        self.secs * 1_000_000_000 + self.nanos
    }
}

/// Nanoseconds in a day.
pub const NANOS_PER_DAY: u128 = 86_400_000_000_000;

/// The whole days from `now` to `then`, rounded toward zero.
pub open spec fn days_between(then: Instant, now: Instant) -> int {
    let d = then.as_nanos() - now.as_nanos();
    if d >= 0 {
        d / (NANOS_PER_DAY as int)
    } else {
        -((-d) / (NANOS_PER_DAY as int))
    }
}

/// A day offset as shown on a task: `in 2d`, `today` or `3d ago`.
pub open spec fn relative_label(days: int) -> Seq<char> {
    if days < 0 {
        decimal((-days) as nat) + "d ago"@
    } else if days == 0 {
        "today"@
    } else {
        "in "@ + decimal(days as nat) + "d"@
    }
}

/// The whole days from `now` to `then`, rounded toward zero.
pub fn whole_days_between(then: Instant, now: Instant) -> (r: i64)
    ensures
        r == days_between(then, now),
{
    let d: i128 = (then.secs as i128 - now.secs as i128) * 1_000_000_000i128 + (then.nanos as i128
        - now.nanos as i128);
    let day = NANOS_PER_DAY as i128;
    if d >= 0 {
        let q: i128 = d / day;
        assert(q <= 1_000_000_000_000_000i128) by (nonlinear_arith)
            requires
                q == d / day,
                d >= 0,
                d <= 20_000_000_000_000_000_000_000_000_000i128,
                day == 86_400_000_000_000i128,
        ;
        q as i64
    } else {
        let m: i128 = -d;
        let q: i128 = m / day;
        assert(q <= 1_000_000_000_000_000i128) by (nonlinear_arith)
            requires
                q == m / day,
                m >= 0,
                m <= 20_000_000_000_000_000_000_000_000_000i128,
                day == 86_400_000_000_000i128,
        ;
        -(q as i64)
    }
}

/// The day offset from `now` to `then` as shown on a task.
pub fn relative_day(then: Instant, now: Instant) -> (r: String)
    ensures
        r@ == relative_label(days_between(then, now)),
{
    let days = whole_days_between(then, now);
    if days < 0 {
        decimal_string((-days) as u64).concat("d ago")
    } else if days == 0 {
        String::from_str("today")
    } else {
        String::from_str("in ").concat(decimal_string(days as u64).as_str()).concat("d")
    }
}

/// A bearer token, and when it expires where that is known.
#[derive(Debug, Clone)]
pub struct Auth {
    pub token: String,
    pub expires: Option<Instant>,
}

impl Auth {
    /// A token of unknown expiry.
    pub fn from_token(token: String) -> (r: Auth)
        ensures
            r.token == token,
            r.expires is None,
    {
        Auth { token, expires: None }
    }
}

impl From<String> for Auth {
    fn from(token: String) -> Auth {
        Auth::from_token(token)
    }
}

impl vstd::std_specs::convert::FromSpecImpl<String> for Auth {
    open spec fn obeys_from_spec() -> bool {
        true
    }

    open spec fn from_spec(v: String) -> Auth {
        Auth { token: v, expires: None }
    }
}

/// What a task API client sends: the authorization header value and the
/// API's base URL.
#[derive(Debug, Clone)]
pub struct Client {
    pub authorization: String,
    pub endpoint: Endpoint,
}

impl Client {
    /// A client of the public API that authenticates with `Bearer <token>`;
    /// fails where that text is no valid header value.
    pub fn new(auth: Auth) -> (r: Result<Client, ClientError>)
        ensures
            match r {
                Ok(c) => {
                    &&& c.authorization@ == "Bearer "@ + auth.token@
                    &&& c.endpoint.base@ == "https://api.ticktick.com/open/v1/"@
                    &&& forall|i: int|
                        0 <= i < c.authorization@.len() ==> header_char(
                            #[trigger] c.authorization@[i],
                        )
                },
                Err(e) => e == ClientError::InvalidToken && !(forall|i: int|
                    0 <= i < ("Bearer "@ + auth.token@).len() ==> header_char(
                        #[trigger] ("Bearer "@ + auth.token@)[i],
                    )),
            },
    {
        let authorization = String::from_str("Bearer ").concat(auth.token.as_str());
        if header_value_valid(authorization.as_str()) {
            Ok(Client { authorization, endpoint: Endpoint::default() })
        } else {
            Err(ClientError::InvalidToken)
        }
    }
}

/// A project of the task API.
#[derive(Debug, Clone)]
pub struct Project {
    pub id: String,
}

impl Project {
    /// The project with this id.
    pub fn from_id(id: String) -> (r: Project)
        ensures
            r.id == id,
    {
        Project { id }
    }
}

impl From<String> for Project {
    fn from(id: String) -> Project {
        Project::from_id(id)
    }
}

impl vstd::std_specs::convert::FromSpecImpl<String> for Project {
    open spec fn obeys_from_spec() -> bool {
        true
    }

    open spec fn from_spec(v: String) -> Project {
        Project { id: v }
    }
}

/// The priority of a task.
#[derive(Debug, Clone, Copy, PartialEq, Eq, Structural)]
pub enum Priority {
    Unset,
    Low,
    Medium,
    High,
}

/// The priority that the API's number stands for.
pub open spec fn priority_of(value: i32) -> Priority {
    if value == 1 {
        Priority::Low
    } else if value == 3 {
        Priority::Medium
    } else if value == 5 {
        Priority::High
    } else {
        Priority::Unset
    }
}

/// The icon class of each priority.
pub open spec fn priority_icon(p: Priority) -> Seq<char> {
    match p {
        Priority::Medium => "iconoir-priority-medium"@,
        Priority::High => "iconoir-priority-high"@,
        Priority::Low => "iconoir-priority-down"@,
        Priority::Unset => ""@,
    }
}

impl Priority {
    /// Reads the API's number: 1 low, 3 medium, 5 high, anything else none.
    pub fn from_value(value: i32) -> (r: Priority)
        ensures
            r == priority_of(value),
    {
        if value == 1 {
            Priority::Low
        } else if value == 3 {
            Priority::Medium
        } else if value == 5 {
            Priority::High
        } else {
            Priority::Unset
        }
    }

    /// The icon class that marks the priority; empty for none.
    pub fn icon(&self) -> (r: &'static str)
        ensures
            r@ == priority_icon(*self),
    {
        match self {
            Priority::Medium => "iconoir-priority-medium",
            Priority::High => "iconoir-priority-high",
            Priority::Low => "iconoir-priority-down",
            Priority::Unset => "",
        }
    }
}

impl From<i32> for Priority {
    fn from(value: i32) -> Priority {
        Priority::from_value(value)
    }
}

impl vstd::std_specs::convert::FromSpecImpl<i32> for Priority {
    open spec fn obeys_from_spec() -> bool {
        true
    }

    open spec fn from_spec(v: i32) -> Priority {
        priority_of(v)
    }
}

/// A task as the API describes it.
#[derive(Debug, Clone)]
pub struct Task {
    pub title: String,
    pub content: String,
    pub due_date: Option<Instant>,
    pub start_date: Option<Instant>,
    pub priority: Priority,
}

/// The label of an optional date, relative to `now`.
pub open spec fn date_label(date: Option<Instant>, now: Instant) -> Option<Seq<char>> {
    match date {
        Some(d) => Some(relative_label(days_between(d, now))),
        None => None,
    }
}

/// The characters of an optional text.
pub open spec fn label_text(l: Option<String>) -> Option<Seq<char>> {
    match l {
        Some(s) => Some(s@),
        None => None,
    }
}

impl Task {
    /// When the task starts, relative to `now`.
    pub fn start_label(&self, now: Instant) -> (r: Option<String>)
        ensures
            label_text(r) == date_label(self.start_date, now),
    {
        match self.start_date {
            Some(d) => Some(relative_day(d, now)),
            None => None,
        }
    }

    /// When the task is due, relative to `now`.
    pub fn due_label(&self, now: Instant) -> (r: Option<String>)
        ensures
            label_text(r) == date_label(self.due_date, now),
    {
        match self.due_date {
            Some(d) => Some(relative_day(d, now)),
            None => None,
        }
    }
}

} // verus!
