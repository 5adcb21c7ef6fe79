use atrmnl::resource::{origin_for, Error, Resource};
use atrmnl::serve::{ApiResponse, ImageType};
use atrmnl::error::Canonical;

const ORIGIN: &str = "http://localhost:8223/";

fn local_path(r: &Resource) -> Option<&str> {
    match r {
        Resource::Local(p) => Some(p.as_str()),
        Resource::Remote(_) => None,
    }
}

fn remote_url(r: &Resource) -> Option<&str> {
    match r {
        Resource::Remote(u) => Some(u.as_str()),
        Resource::Local(_) => None,
    }
}

#[test]
fn local_path_parses_as_local() {
    let r = Resource::parse("/content/test").unwrap();
    assert_eq!(local_path(&r), Some("/content/test"));
}

#[test]
fn local_path_keeps_query() {
    let r = Resource::parse("/content/test?x=1").unwrap();
    assert_eq!(local_path(&r), Some("/content/test?x=1"));
    assert_eq!(r.fully_qualified_url(ORIGIN).unwrap(), "http://localhost:8223/content/test?x=1");
}

#[test]
fn local_path_joins_onto_origin() {
    let r = Resource::parse("/content/test").unwrap();
    assert_eq!(r.fully_qualified_url(ORIGIN).unwrap(), "http://localhost:8223/content/test");
    let other = "https://screens.example.org:9000/";
    assert_eq!(r.fully_qualified_url(other).unwrap(), "https://screens.example.org:9000/content/test");
}

#[test]
fn remote_url_ignores_origin() {
    let u = "https://example.com/screen.png";
    let r = Resource::parse(u).unwrap();
    assert_eq!(remote_url(&r), Some(u));
    assert_eq!(r.fully_qualified_url(ORIGIN).unwrap(), u);
    assert_eq!(r.fully_qualified_url("https://elsewhere.example.net/").unwrap(), u);
}

#[test]
fn other_schemes_are_unsupported() {
    assert!(matches!(Resource::parse("local:/content/x"), Err(Error::Unsupported)));
    assert!(matches!(Resource::parse("ftp://example.com/file"), Err(Error::Unsupported)));
}

#[test]
fn malformed_text_is_invalid() {
    assert!(matches!(Resource::parse("not a url"), Err(Error::InvalidFormat)));
    assert!(matches!(Resource::parse(""), Err(Error::InvalidFormat)));
}

#[test]
fn into_remote_binds_local_to_base() {
    let r = Resource::parse("/screen/abc").unwrap();
    let remote = r.into_remote("https://device.example.org/").unwrap();
    assert_eq!(remote_url(&remote), Some("https://device.example.org/screen/abc"));
    let kept = Resource::parse("http://example.com/x").unwrap().into_remote(ORIGIN).unwrap();
    assert_eq!(remote_url(&kept), Some("http://example.com/x"));
}

#[test]
fn into_remote_with_unusable_base_fails() {
    let r = Resource::parse("/screen/abc").unwrap();
    assert!(matches!(r.into_remote("no base"), Err(Error::InvalidFormat)));
}

#[test]
fn href_is_short_form() {
    assert_eq!(Resource::parse("/content/a").unwrap().as_href(), "/content/a");
    assert_eq!(Resource::parse("https://example.com/a").unwrap().as_href(), "https://example.com/a");
}

#[test]
fn self_hosted_addresses() {
    assert_eq!(local_path(&Resource::self_hosted_content("abc").unwrap()), Some("/content/abc"));
    assert_eq!(local_path(&Resource::rendering("abc").unwrap()), Some("/screen/abc"));
}

#[test]
fn own_origin_text() {
    assert_eq!(origin_for(8223, false).unwrap(), "http://localhost:8223/");
    assert_eq!(origin_for(443, true).unwrap(), "https://localhost/");
    assert_eq!(origin_for(8443, true).unwrap(), "https://localhost:8443/");
}

#[test]
fn accept_header_selects_format() {
    assert_eq!(ImageType::from_accept(Some("image/png,image/qoi")), ImageType::Qoi);
    assert_eq!(ImageType::from_accept(Some("image/qoi")), ImageType::Qoi);
    assert_eq!(ImageType::from_accept(Some("image/png, image/qoi")), ImageType::Png);
    assert_eq!(ImageType::from_accept(Some("image/qoix")), ImageType::Png);
    assert_eq!(ImageType::from_accept(Some("")), ImageType::Png);
    assert_eq!(ImageType::from_accept(None), ImageType::Png);
}

#[test]
fn content_types() {
    assert_eq!(ImageType::Png.content_type(), "image/png");
    assert_eq!(ImageType::Qoi.content_type(), "image/qoi");
}

#[test]
fn api_response_uses_callers_host() {
    let a = ApiResponse::for_device(ORIGIN, Some("screens.example.org:8223"), "abc").unwrap();
    assert_eq!(a.image_url, "http://screens.example.org:8223/screen/abc");
    assert_eq!(a.refresh_rate, 1800);
    let b = ApiResponse::for_device(ORIGIN, Some("10.0.0.5"), "dev").unwrap();
    assert_eq!(b.image_url, "http://10.0.0.5:8223/screen/dev");
}

#[test]
fn api_response_without_host_is_invalid() {
    assert!(matches!(ApiResponse::for_device(ORIGIN, None, "abc"), Err(Canonical::InvalidArgument)));
}

#[test]
fn resources_parse_through_from_str() {
    let r: Resource = "/preview/test".parse().unwrap();
    assert_eq!(local_path(&r), Some("/preview/test"));
    assert!("gopher://x".parse::<Resource>().is_err());
}
