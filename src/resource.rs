//! Resource addresses: content that this service generates itself (a path on
//! its own origin) versus content hosted elsewhere (an absolute URL).
use vstd::prelude::*;

use crate::text::{decimal, decimal_string, same_text, starts_with_char};

verus! {

/// What `url::Url::parse` makes of a text: `None` where parsing fails, else
/// the scheme and the serialization of the parsed URL.
pub uninterp spec fn url_parts(text: Seq<char>) -> Option<(Seq<char>, Seq<char>)>;

/// The serialization of `url::Url::join` applied to the URL parsed from
/// `base`; `None` where either step fails.
pub uninterp spec fn url_joined(base: Seq<char>, reference: Seq<char>) -> Option<Seq<char>>;

/// The serialization of the URL parsed from `base` after `url::Url::set_host`
/// with `host`; `None` where either step fails.
pub uninterp spec fn url_with_host(base: Seq<char>, host: Option<Seq<char>>) -> Option<Seq<char>>;

/// The characters of an optional host.
pub open spec fn host_text(host: Option<&str>) -> Option<Seq<char>> {
    match host {
        Some(h) => Some(h@),
        None => None,
    }
}

/// The model of an optional resource.
pub open spec fn resource_option(r: Option<Resource>) -> Option<ResourceModel> {
    match r {
        Some(v) => Some(v@),
        None => None,
    }
}

/// The parts of a parsed URL that addressing reads.
pub struct UrlParts {
    pub scheme: String,
    pub text: String,
}

/// Relies on `url::Url::parse`, then reads `scheme` and the serialization
/// of the result.
#[verifier::external_body]
fn parse_url(text: &str) -> (r: Option<UrlParts>)
    ensures
        match r {
            None => url_parts(text@) is None,
            Some(p) => url_parts(text@) == Some((p.scheme@, p.text@)),
        },
{
    match url::Url::parse(text) {
        Ok(u) => Some(
            UrlParts { scheme: u.scheme().to_owned(), text: u.into() },
        ),
        Err(_) => None,
    }
}

/// Relies on `url::Url::join`: resolves `reference` against the URL parsed
/// from `base`.
#[verifier::external_body]
pub(crate) fn join_url(base: &str, reference: &str) -> (r: Option<String>)
    ensures
        match r {
            None => url_joined(base@, reference@) is None,
            Some(t) => url_joined(base@, reference@) == Some(t@),
        },
{
    match url::Url::parse(base) {
        Ok(b) => b.join(reference).ok().map(String::from),
        Err(_) => None,
    }
}

/// Relies on `url::Url::set_host`: replaces the host of the URL parsed from
/// `base`.
#[verifier::external_body]
pub(crate) fn set_url_host(base: &str, host: Option<&str>) -> (r: Option<String>)
    ensures
        match r {
            None => url_with_host(base@, host_text(host)) is None,
            Some(t) => url_with_host(base@, host_text(host)) == Some(t@),
        },
{
    match url::Url::parse(base) {
        Ok(mut b) => match b.set_host(host) {
            Ok(()) => Some(String::from(b)),
            Err(_) => None,
        },
        Err(_) => None,
    }
}

#[derive(Debug, Clone, Copy, PartialEq, Eq, Structural)]
pub enum Error {
    InvalidFormat,
    Unsupported,
}

/// A resource address: a path served from this service's own origin, or an
/// absolute URL of another host.
#[derive(Debug, Clone)]
pub enum Resource {
    Local(String),
    Remote(String),
}

/// The model of a `Resource`.
pub ghost enum ResourceModel {
    Local(Seq<char>),
    Remote(Seq<char>),
}

impl View for Resource {
    type V = ResourceModel;

    open spec fn view(&self) -> ResourceModel {
        match self {
            Resource::Local(p) => ResourceModel::Local(p@),
            Resource::Remote(u) => ResourceModel::Remote(u@),
        }
    }
}

/// The model of an outcome that holds a resource.
pub open spec fn outcome_model(r: Result<Resource, Error>) -> Result<ResourceModel, Error> {
    match r {
        Ok(v) => Ok(v@),
        Err(e) => Err(e),
    }
}

/// The model of an outcome that holds a text.
pub open spec fn text_outcome(r: Result<String, Error>) -> Result<Seq<char>, Error> {
    match r {
        Ok(t) => Ok(t@),
        Err(e) => Err(e),
    }
}

/// Whether a text is a root-relative path.
pub open spec fn root_path(s: Seq<char>) -> bool {
    s.len() > 0 && s[0] == '/'
}

/// How a text reads as a resource address: a root-relative path that the URL
/// parser takes as a path of the `local` scheme is a local address, kept as
/// written; an `http` or `https` URL is a remote address, in the parser's
/// form; any other scheme is unsupported.
pub open spec fn parse_spec(s: Seq<char>) -> Result<ResourceModel, Error> {
    if root_path(s) {
        match url_parts("local:"@ + s) {
            None => Err(Error::InvalidFormat),
            Some(_) => Ok(ResourceModel::Local(s)),
        }
    } else {
        match url_parts(s) {
            None => Err(Error::InvalidFormat),
            Some((scheme, text)) => if scheme == "http"@ || scheme == "https"@ {
                Ok(ResourceModel::Remote(text))
            } else {
                Err(Error::Unsupported)
            },
        }
    }
}

/// A joined URL, or `InvalidFormat` where joining fails.
pub open spec fn joined_or_invalid(base: Seq<char>, path: Seq<char>) -> Result<Seq<char>, Error> {
    match url_joined(base, path) {
        Some(t) => Ok(t),
        None => Err(Error::InvalidFormat),
    }
}

/// The absolute URL of a resource, for an origin.
pub open spec fn fully_qualified_spec(r: ResourceModel, origin: Seq<char>) -> Result<
    Seq<char>,
    Error,
> {
    match r {
        ResourceModel::Local(path) => joined_or_invalid(origin, path),
        ResourceModel::Remote(u) => Ok(u),
    }
}

/// A resource bound to an origin, as a remote address.
pub open spec fn into_remote_spec(r: ResourceModel, base: Seq<char>) -> Result<ResourceModel, Error> {
    match fully_qualified_spec(r, base) {
        Ok(t) => Ok(ResourceModel::Remote(t)),
        Err(e) => Err(e),
    }
}

/// The local resource at a path below this service's origin.
pub open spec fn local_under_spec(prefix: Seq<char>, id: Seq<char>) -> Option<ResourceModel> {
    match url_parts("local:"@ + (prefix + id)) {
        Some(_) => Some(ResourceModel::Local(prefix + id)),
        None => None,
    }
}

fn local_under(prefix: &str, id: &str) -> (r: Option<Resource>)
    ensures
        resource_option(r) == local_under_spec(prefix@, id@),
{
    let path = String::from_str(prefix).concat(id);
    let text = String::from_str("local:").concat(path.as_str());
    match parse_url(text.as_str()) {
        Some(_) => Some(Resource::Local(path)),
        None => None,
    }
}

impl Resource {
    /// Reads a root-relative path as a local resource and an `http` or
    /// `https` URL as a remote one.
    pub fn parse(s: &str) -> (r: Result<Resource, Error>)
        ensures
            outcome_model(r) == parse_spec(s@),
    {
        if starts_with_char(s, '/') {
            let text = String::from_str("local:").concat(s);
            match parse_url(text.as_str()) {
                None => Err(Error::InvalidFormat),
                Some(_) => Ok(Resource::Local(s.to_owned())),
            }
        } else {
            match parse_url(s) {
                None => Err(Error::InvalidFormat),
                Some(parts) => {
                    let scheme = parts.scheme.as_str();
                    if same_text(scheme, "http") || same_text(scheme, "https") {
                        Ok(Resource::Remote(parts.text))
                    } else {
                        Err(Error::Unsupported)
                    }
                },
            }
        }
    }

    /// The document that this service generates for a device; `None` only
    /// where the URL parser refuses the address.
    pub fn self_hosted_content(id: &str) -> (r: Option<Resource>)
        ensures
            resource_option(r) == local_under_spec("/content/"@, id@),
    {
        local_under("/content/", id)
    }

    /// The rendered image of a device's document; `None` only where the URL
    /// parser refuses the address.
    pub fn rendering(id: &str) -> (r: Option<Resource>)
        ensures
            resource_option(r) == local_under_spec("/screen/"@, id@),
    {
        local_under("/screen/", id)
    }

    /// Binds a local resource to `base`, turning it into a remote one; a
    /// remote resource stays as it is.
    pub fn into_remote(self, base: &str) -> (r: Result<Resource, Error>)
        ensures
            outcome_model(r) == into_remote_spec(self@, base@),
    {
        match self {
            Resource::Local(path) => match join_url(base, path.as_str()) {
                Some(t) => Ok(Resource::Remote(t)),
                None => Err(Error::InvalidFormat),
            },
            Resource::Remote(u) => Ok(Resource::Remote(u)),
        }
    }

    /// The absolute URL of the resource, with local paths joined onto
    /// `origin`.
    pub fn fully_qualified_url(&self, origin: &str) -> (r: Result<String, Error>)
        ensures
            text_outcome(r) == fully_qualified_spec(self@, origin@),
    {
        match self {
            Resource::Local(path) => match join_url(origin, path.as_str()) {
                Some(t) => Ok(t),
                None => Err(Error::InvalidFormat),
            },
            Resource::Remote(u) => Ok(u.clone()),
        }
    }

    /// A short form for links: the bare path of a local resource, the full
    /// URL of a remote one.
    pub fn as_href(&self) -> (r: &str)
        ensures
            r@ == match self@ {
                ResourceModel::Local(p) => p,
                ResourceModel::Remote(u) => u,
            },
    {
        match self {
            Resource::Local(p) => p.as_str(),
            Resource::Remote(u) => u.as_str(),
        }
    }
}

impl std::str::FromStr for Resource {
    type Err = Error;

    fn from_str(s: &str) -> (r: Result<Resource, Error>)
        ensures
            outcome_model(r) == parse_spec(s@),
    {
        Resource::parse(s)
    }
}

/// The text of this service's own origin: `localhost` on `port`, over
/// `https` when TLS is on.
pub open spec fn origin_text(port: u16, tls: bool) -> Seq<char> {
    (if tls {
        "https"@
    } else {
        "http"@
    }) + "://localhost:"@ + decimal(port as nat) + "/"@
}

/// This service's own origin, as the URL parser writes it; `None` only where
/// the parser refuses it.
pub fn origin_for(port: u16, tls: bool) -> (r: Option<String>)
    ensures
        match r {
            Some(t) => url_parts(origin_text(port, tls)) matches Some((_, s)) && s == t@,
            None => url_parts(origin_text(port, tls)) is None,
        },
{
    let scheme = if tls {
        "https"
    } else {
        "http"
    };
    let text = String::from_str(scheme).concat("://localhost:").concat(
        decimal_string(port as u64).as_str(),
    ).concat("/");
    match parse_url(text.as_str()) {
        Some(parts) => Some(parts.text),
        None => None,
    }
}

/// A root-relative path that the URL parser accepts is a local address whose
/// absolute URL, under any origin, is that path joined onto the origin.
pub proof fn local_path_joins_onto_origin(p: Seq<char>, origin: Seq<char>)
    requires
        root_path(p),
        url_parts("local:"@ + p) is Some,
    ensures
        parse_spec(p) == Ok::<ResourceModel, Error>(ResourceModel::Local(p)),
        fully_qualified_spec(ResourceModel::Local(p), origin) == joined_or_invalid(origin, p),
{
}

/// An `http` or `https` URL in the parser's normal form is a remote address
/// whose absolute URL is the URL itself, whatever the origin.
pub proof fn remote_url_ignores_origin(u: Seq<char>, scheme: Seq<char>, origin: Seq<char>)
    requires
        !root_path(u),
        scheme == "http"@ || scheme == "https"@,
        url_parts(u) == Some((scheme, u)),
    ensures
        parse_spec(u) == Ok::<ResourceModel, Error>(ResourceModel::Remote(u)),
        fully_qualified_spec(ResourceModel::Remote(u), origin) == Ok::<Seq<char>, Error>(u),
{
}

} // verus!
