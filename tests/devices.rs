use atrmnl::device::Info;
use atrmnl::error::{Canonical, IntoCanonical};
use atrmnl::generator::SetupError;
use atrmnl::plugins::geolocation;
use atrmnl::plugins::mashup::Mashup;
use atrmnl::plugins::ticktick::Auth;
use atrmnl::plugins::weather::Detail;
use atrmnl::plugins::{Plugin, PluginConfig, PluginsMap};
use atrmnl::render::{self, RenderAction, RenderSession};
use atrmnl::resource::Resource;
use atrmnl::storage::{self, DeviceConfig, DeviceSetup, MashupSpec, Sources, Storage};

const ORIGIN: &str = "http://localhost:8223/";

fn test_device() -> DeviceConfig {
    DeviceConfig {
        mashup: MashupSpec::Single(storage::Plugin("test".to_string())),
        plugins: vec![PluginConfig::TestScreen],
    }
}

#[test]
fn plugin_keys() {
    assert_eq!(PluginConfig::TestScreen.to_key(), "test");
    let w = PluginConfig::Weather { location: "Berlin".to_string(), detail: Detail::Full };
    assert_eq!(w.to_key(), "weather");
    let t = PluginConfig::Ticktick { project_id: "p".to_string(), auth: Auth::from_token("t".to_string()) };
    assert_eq!(t.to_key(), "ticktick");
}

#[test]
fn weather_source_needs_its_place() {
    let cfg = PluginConfig::Weather { location: "Nowhere".to_string(), detail: Detail::Minimal };
    let failed = Plugin::new(cfg, Some(Err(geolocation::Error::NotFound)));
    assert!(matches!(failed, Err(storage::Error::InvalidConfig)));
    let cfg = PluginConfig::Weather { location: "Berlin".to_string(), detail: Detail::Minimal };
    match Plugin::new(cfg, Some(Ok("https://api.open-meteo.com/v1/forecast?x=1".to_string()))) {
        Ok(Plugin::Weather { client }) => {
            assert_eq!(client.url, "https://api.open-meteo.com/v1/forecast?x=1");
            assert_eq!(client.detail, Detail::Minimal);
        }
        _ => panic!("expected a weather source"),
    }
}

#[test]
fn task_source_with_bad_token_is_invalid() {
    let cfg = PluginConfig::Ticktick { project_id: "p".to_string(), auth: Auth::from_token("a\nb".to_string()) };
    assert!(matches!(Plugin::new(cfg, None), Err(storage::Error::InvalidConfig)));
}

#[test]
fn later_registration_replaces_earlier() {
    let mut map = PluginsMap::new();
    map.insert("test".to_string(), Plugin::TestScreen);
    let cfg = PluginConfig::Weather { location: "Berlin".to_string(), detail: Detail::Full };
    map.insert("test".to_string(), Plugin::new(cfg, Some(Ok("https://w/".to_string()))).unwrap());
    assert!(matches!(map.get("test"), Some(Plugin::Weather { .. })));
    assert!(map.get("weather").is_none());
    assert!(storage::Plugin("test".to_string()).resolve(&map).is_some());
    assert!(storage::Plugin("other".to_string()).resolve(&map).is_none());
}

#[test]
fn device_with_unknown_source_is_invalid() {
    let cfg = DeviceConfig {
        mashup: MashupSpec::LeftRight {
            left: storage::Plugin("test".to_string()),
            right: storage::Plugin("weather".to_string()),
        },
        plugins: vec![PluginConfig::TestScreen],
    };
    assert!(matches!(DeviceSetup::load(cfg, vec![]), Err(storage::Error::InvalidConfig)));
}

#[test]
fn device_loads_and_resolves_sources() {
    let cfg = DeviceConfig {
        mashup: MashupSpec::LeftRight {
            left: storage::Plugin("test".to_string()),
            right: storage::Plugin("weather".to_string()),
        },
        plugins: vec![
            PluginConfig::TestScreen,
            PluginConfig::Weather { location: "Berlin".to_string(), detail: Detail::Full },
        ],
    };
    let setup = DeviceSetup::load(cfg, vec![None, Some(Ok("https://w/".to_string()))]).unwrap();
    match setup.sources() {
        Sources::SideBySide(Plugin::TestScreen, Plugin::Weather { client }) => assert_eq!(client.url, "https://w/"),
        _ => panic!("expected both sources"),
    }
}

#[test]
fn test_device_document_and_info() {
    let mut storage = Storage::new();
    storage.insert("test".to_string(), DeviceSetup::load(test_device(), vec![]).unwrap());
    let d = storage.device_by_id("test").unwrap();
    assert_eq!(d.id, "test");
    assert!(matches!(&d.content_resource, Resource::Local(p) if p == "/content/test"));
    let gen = storage.content_generator("test").unwrap();
    assert!(matches!(gen.mashup(), Mashup::Single(k) if k == "test"));
    assert!(matches!(gen.sources(), Sources::Single(Plugin::TestScreen)));
    let info = Info::for_device(&storage, "test", ORIGIN).unwrap();
    assert_eq!(info.content_url, "http://localhost:8223/content/test");
    assert_eq!(info.image_url.as_href(), "/screen/test");
}

#[test]
fn pass_through_device_points_elsewhere() {
    let mut storage = Storage::new();
    let cfg = DeviceConfig { mashup: MashupSpec::PassThrough("https://example.com/screen".to_string()), plugins: vec![] };
    storage.insert("remote".to_string(), DeviceSetup::load(cfg, vec![]).unwrap());
    let d = storage.device_by_id("remote").unwrap();
    assert!(matches!(&d.content_resource, Resource::Remote(u) if u == "https://example.com/screen"));
    let info = Info::for_device(&storage, "remote", ORIGIN).unwrap();
    assert_eq!(info.content_url, "https://example.com/screen");
}

#[test]
fn unknown_device() {
    let storage = Storage::new();
    assert!(storage.device_by_id("nope").is_none());
    assert!(matches!(storage.content_generator("nope"), Err(SetupError::Missing)));
    assert!(matches!(Info::for_device(&storage, "nope", ORIGIN), Err(Canonical::NotFound)));
}

#[test]
fn registry_errors_read_as_sentences() {
    assert_eq!(storage::Error::NotFound.message(), "The device file was not found");
    assert_eq!(storage::Error::LoadConfig("bad toml".to_string()).message(), "bad toml");
}

fn run(outcomes: Vec<Result<(), render::Error>>) -> Vec<String> {
    let (mut session, mut action) = RenderSession::start();
    let mut seen = vec![format!("{action:?}")];
    for o in outcomes {
        if session.is_finished() {
            break;
        }
        let (s, a) = session.advance(o);
        session = s;
        action = a;
        seen.push(format!("{action:?}"));
    }
    seen
}

#[test]
fn successful_render_sequence() {
    let seen = run(vec![Ok(()); 6]);
    assert_eq!(
        seen,
        vec!["CreateContext", "Navigate", "Settle", "Capture", "DisposeContext", "Decode", "Finish(Ok(()))"]
    );
}

#[test]
fn failed_navigation_still_disposes() {
    let seen = run(vec![Ok(()), Err(render::Error::NotFound), Ok(()), Ok(())]);
    assert_eq!(seen, vec!["CreateContext", "Navigate", "DisposeContext", "Finish(Err(NotFound))"]);
}

#[test]
fn failed_context_creation_has_nothing_to_dispose() {
    let seen = run(vec![Err(render::Error::CouldNotCreateContext), Ok(())]);
    assert_eq!(seen, vec!["CreateContext", "Finish(Err(CouldNotCreateContext))"]);
}

#[test]
fn render_errors_translate() {
    assert_eq!(render::Error::NotFound.into_canonical(), Canonical::NotFound);
    assert_eq!(render::Error::Image.into_canonical(), Canonical::InternalRenderFailure);
    assert!(matches!(RenderAction::Settle, RenderAction::Settle));
    assert_eq!(render::SETTLE_MS, 1300);
}
