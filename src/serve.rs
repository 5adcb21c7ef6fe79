//! What the HTTP endpoints decide: the image format a client accepts, and
//! the image address a device is told to fetch.
use vstd::prelude::*;

use crate::error::Canonical;
use crate::resource::{local_under_spec, set_url_host, url_joined, url_with_host, Resource, ResourceModel};
use crate::text::same_text;

verus! {

/// The encodings of a rendered screen.
#[derive(Debug, Clone, Copy, PartialEq, Eq, Structural)]
pub enum ImageType {
    Png,
    Qoi,
}

/// Whether `s[i..j]` is one of the comma-separated items of `s`.
pub open spec fn is_item(s: Seq<char>, i: int, j: int) -> bool {
    &&& 0 <= i <= j <= s.len()
    &&& (i == 0 || s[i - 1] == ',')
    &&& (j == s.len() || s[j] == ',')
    &&& forall|k: int| i <= k < j ==> s[k] != ','
}

/// Whether `item` is one of the comma-separated items of `s`, taken as they
/// stand, spaces included.
pub open spec fn lists_item(s: Seq<char>, item: Seq<char>) -> bool {
    exists|i: int, j: int| #[trigger] is_item(s, i, j) && s.subrange(i, j) == item
}

/// The encoding for a client's `Accept` header: the compact palette format
/// where the header lists it, else PNG.
pub open spec fn image_type_for(accept: Option<Seq<char>>) -> ImageType {
    match accept {
        Some(a) => if lists_item(a, "image/qoi"@) {
            ImageType::Qoi
        } else {
            ImageType::Png
        },
        None => ImageType::Png,
    }
}

/// The characters of an optional header value.
pub open spec fn header_model(h: Option<&str>) -> Option<Seq<char>> {
    match h {
        Some(s) => Some(s@),
        None => None,
    }
}

/// Whether `item` is one of the comma-separated items of `s`.
pub fn has_item(s: &str, item: &str) -> (r: bool)
    ensures
        r == lists_item(s@, item@),
{
    let n = s.unicode_len();
    let mut start: usize = 0;
    let mut pos: usize = 0;
    while pos < n
        invariant
            n == s@.len(),
            start <= pos <= n,
            start == 0 || s@[start - 1] == ',',
            forall|k: int| start <= k < pos ==> s@[k] != ',',
            forall|i: int, j: int|
                #[trigger] is_item(s@, i, j) && j < pos ==> s@.subrange(i, j) != item@,
        decreases n - pos,
    {
        if s.get_char(pos) == ',' {
            let segment = s.substring_char(start, pos);
            if same_text(segment, item) {
                assert(is_item(s@, start as int, pos as int));
                return true;
            }
            proof {
                lemma_only_item_ending_at(s@, item@, start as int, pos as int);
            }
            start = pos + 1;
        }
        pos = pos + 1;
    }
    let last = s.substring_char(start, n);
    if same_text(last, item) {
        assert(is_item(s@, start as int, n as int));
        true
    } else {
        proof {
            lemma_only_item_ending_at(s@, item@, start as int, n as int);
        }
        false
    }
}

/// The only item that ends at `pos` starts where the last comma before it
/// left off.
proof fn lemma_only_item_ending_at(s: Seq<char>, item: Seq<char>, start: int, pos: int)
    requires
        0 <= start <= pos <= s.len(),
        start == 0 || s[start - 1] == ',',
        forall|k: int| start <= k < pos ==> s[k] != ',',
        s.subrange(start, pos) != item,
        forall|i: int, j: int| #[trigger] is_item(s, i, j) && j < pos ==> s.subrange(i, j) != item,
    ensures
        forall|i: int, j: int| #[trigger] is_item(s, i, j) && j <= pos ==> s.subrange(i, j) != item,
{
    assert forall|i: int, j: int| #[trigger] is_item(s, i, j) && j <= pos implies s.subrange(i, j)
        != item by {
        if j == pos {
            if i < start {
                assert(s[start - 1] == ',');
            } else if i > start {
                assert(s[i - 1] == ',');
            }
        }
    }
}

impl ImageType {
    /// The encoding for a client's `Accept` header: the compact palette
    /// format where the header lists `image/qoi`, else PNG.
    pub fn from_accept(accept: Option<&str>) -> (r: ImageType)
        ensures
            r == image_type_for(header_model(accept)),
    {
        match accept {
            Some(a) => if has_item(a, "image/qoi") {
                ImageType::Qoi
            } else {
                ImageType::Png
            },
            None => ImageType::Png,
        }
    }

    /// The media type of the encoding.
    pub fn content_type(&self) -> (r: &'static str)
        ensures
            r@ == (match self {
                ImageType::Png => "image/png"@,
                ImageType::Qoi => "image/qoi"@,
            }),
    {
        match self {
            ImageType::Png => "image/png",
            ImageType::Qoi => "image/qoi",
        }
    }
}

/// How often a device is told to fetch a new screen, in seconds.
pub const REFRESH_RATE_SECS: u64 = 1800;

/// What a device is told: where its screen is, and when to look again.
#[derive(Debug, Clone)]
pub struct ApiResponse {
    pub image_url: String,
    pub refresh_rate: u64,
}

/// The image address a device is told to fetch: its rendering's path on the
/// service's origin, with the host replaced by the one the device used.
pub open spec fn image_url_spec(origin: Seq<char>, host: Option<Seq<char>>, id: Seq<char>) -> Result<
    Seq<char>,
    Canonical,
> {
    match url_with_host(origin, host) {
        None => Err(Canonical::InvalidArgument),
        Some(base) => match local_under_spec("/screen/"@, id) {
            Some(ResourceModel::Local(path)) => match url_joined(base, path) {
                Some(u) => Ok(u),
                None => Err(Canonical::FailedPrecondition),
            },
            _ => Err(Canonical::FailedPrecondition),
        },
    }
}

impl ApiResponse {
    /// The answer for device `id`, reached through `host`, on a service whose
    /// own origin is `origin`: a host that no URL can take is an invalid
    /// argument.
    pub fn for_device(origin: &str, host: Option<&str>, id: &str) -> (r: Result<ApiResponse, Canonical>)
        ensures
            match r {
                Ok(a) => image_url_spec(origin@, header_model(host), id@) == Ok::<
                    Seq<char>,
                    Canonical,
                >(a.image_url@) && a.refresh_rate == REFRESH_RATE_SECS,
                Err(e) => image_url_spec(origin@, header_model(host), id@) == Err::<
                    Seq<char>,
                    Canonical,
                >(e),
            },
    {
        let base = match set_url_host(origin, host) {
            Some(b) => b,
            None => {
                return Err(Canonical::InvalidArgument);
            },
        };
        let rendering = match Resource::rendering(id) {
            Some(r) => r,
            None => {
                return Err(Canonical::FailedPrecondition);
            },
        };
        match rendering.into_remote(base.as_str()) {
            Ok(Resource::Remote(u)) => Ok(ApiResponse { image_url: u, refresh_rate: REFRESH_RATE_SECS }),
            _ => Err(Canonical::FailedPrecondition),
        }
    }
}

} // verus!
