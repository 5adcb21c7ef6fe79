use atrmnl::error::{Canonical, IntoCanonical};
use atrmnl::generator::{self, FetchErrorKind as GeneratorKind, SetupError};
use atrmnl::net::TransportFailure;
use atrmnl::plugins::geolocation::{self, first_feature};
use atrmnl::plugins::mashup::{full_view, side_by_side};
use atrmnl::plugins::ticktick::{
    relative_day, whole_days_between, Auth, Client, ClientError, Endpoint, FetchError,
    FetchErrorKind, Instant, Priority, Project, Task,
};
use atrmnl::plugins::weather::{self, Humidity, WeatherCode, WindDirection};
use atrmnl::text::decimal_string;

const DAY: i64 = 86_400;

fn at(secs: i64, nanos: u32) -> Instant {
    Instant { secs, nanos }
}

fn exchange(connect: bool, timeout: bool, request: bool, decode: bool, status: Option<u16>) -> TransportFailure {
    TransportFailure { connect, timeout, request, decode, status, target: None }
}

#[test]
fn side_by_side_with_a_failure_fails() {
    let left = full_view(Ok("<p>left</p>".to_string()));
    let right = full_view(Err(generator::Error::Misconfigured));
    assert!(matches!(side_by_side(left, right), Err(generator::Error::Misconfigured)));
    let first = side_by_side(Err(generator::Error::Unknown), Err(generator::Error::Misconfigured));
    assert!(matches!(first, Err(generator::Error::Unknown)));
}

#[test]
fn side_by_side_concatenates_both() {
    let r = side_by_side(Ok("<p>L</p>".to_string()), Ok("<p>R</p>".to_string())).unwrap();
    assert_eq!(
        r,
        "<div class=\"mashup mashup--1Lx1R\"><div class=\"view view--half_vertical\"><p>L</p></div><div class=\"view view--half_vertical\"><p>R</p></div></div>"
    );
}

#[test]
fn full_view_wraps_document() {
    assert_eq!(full_view(Ok("x".to_string())).unwrap(), "<div class=\"view view--full\">x</div>");
}

#[test]
fn weather_codes_map_to_categories() {
    let documented: [(u8, WeatherCode); 18] = [
        (0, WeatherCode::Clear),
        (1, WeatherCode::MostlyClear),
        (2, WeatherCode::PartlyCloudy),
        (3, WeatherCode::Overcast),
        (45, WeatherCode::Fog),
        (48, WeatherCode::Fog),
        (51, WeatherCode::DrizzleLight),
        (53, WeatherCode::DrizzleModerate),
        (55, WeatherCode::DrizzleDense),
        (61, WeatherCode::RainSlight),
        (80, WeatherCode::RainSlight),
        (85, WeatherCode::RainSlight),
        (63, WeatherCode::RainModerate),
        (81, WeatherCode::RainModerate),
        (65, WeatherCode::RainHeavy),
        (82, WeatherCode::RainHeavy),
        (86, WeatherCode::RainHeavy),
        (95, WeatherCode::Thunderstorm),
    ];
    for (code, category) in documented {
        assert_eq!(WeatherCode::from_code(code), category);
    }
    for code in 0..=255u8 {
        if !documented.iter().any(|(c, _)| *c == code) {
            assert_eq!(WeatherCode::from_code(code), WeatherCode::Unclear);
        }
    }
}

#[test]
fn weather_texts_and_icons() {
    assert_eq!(WeatherCode::from_code(0).description(), "Sunny");
    assert_eq!(WeatherCode::from_code(99).description(), "Unclear");
    assert_eq!(WeatherCode::from_code(53).icon_name(), "wi:day-sprinkle");
    assert_eq!(WeatherCode::from_code(82).icon_name(), "wi:day-showers");
    assert_eq!(WeatherCode::Unclear.icon_name(), "wi:stars");
}

#[test]
fn wind_directions() {
    assert_eq!(WindDirection::from_degrees(0), WindDirection::North);
    assert_eq!(WindDirection::from_degrees(19), WindDirection::North);
    assert_eq!(WindDirection::from_degrees(20), WindDirection::NorthEast);
    assert_eq!(WindDirection::from_degrees(70), WindDirection::East);
    assert_eq!(WindDirection::from_degrees(159), WindDirection::SouthEast);
    assert_eq!(WindDirection::from_degrees(160), WindDirection::South);
    assert_eq!(WindDirection::from_degrees(249), WindDirection::SouthWest);
    assert_eq!(WindDirection::from_degrees(250), WindDirection::West);
    assert_eq!(WindDirection::from_degrees(339), WindDirection::NorthWest);
    assert_eq!(WindDirection::from_degrees(340), WindDirection::North);
    assert_eq!(WindDirection::from_degrees(u16::MAX), WindDirection::North);
    assert_eq!(WindDirection::from_degrees(300).icon_name(), "wi:direction-up-left");
}

#[test]
fn humidity_text() {
    assert_eq!(Humidity::from_percent(0).to_text(), "0");
    assert_eq!(Humidity::from_percent(87).to_text(), "87");
    assert_eq!(Humidity::from_percent(100).to_text(), "100");
}

#[test]
fn detail_defaults_to_full() {
    assert_eq!(weather::Detail::default(), weather::Detail::Full);
}

#[test]
fn weather_setup_errors() {
    assert_eq!(weather::Error::from_geolocation(geolocation::Error::NotFound), weather::Error::NotFound);
    assert_eq!(weather::Error::from_geolocation(geolocation::Error::Geo), weather::Error::Geo);
    assert_eq!(weather::Error::from_geolocation(geolocation::Error::Request), weather::Error::Request);
}

#[test]
fn geocoding_takes_first_feature() {
    assert_eq!(first_feature(&vec![(1, 2), (3, 4)]), Ok((1, 2)));
    assert_eq!(first_feature::<(i32, i32)>(&vec![]), Err(geolocation::Error::NotFound));
}

#[test]
fn decimal_rendering() {
    assert_eq!(decimal_string(0), "0");
    assert_eq!(decimal_string(1800), "1800");
    assert_eq!(decimal_string(u64::MAX), "18446744073709551615");
}

#[test]
fn relative_days() {
    let now = at(1_700_000_000, 0);
    assert_eq!(relative_day(at(1_700_000_000 + 2 * DAY, 0), now), "in 2d");
    assert_eq!(relative_day(at(1_700_000_000 - 3 * DAY, 0), now), "3d ago");
    assert_eq!(relative_day(now, now), "today");
    assert_eq!(relative_day(at(1_700_000_000 + DAY - 1, 999_999_999), now), "today");
    assert_eq!(relative_day(at(1_700_000_000 - DAY + 1, 0), now), "today");
    assert_eq!(relative_day(at(1_700_000_000 - DAY, 0), now), "1d ago");
    assert_eq!(relative_day(at(1_700_000_000 + DAY, 0), now), "in 1d");
}

#[test]
fn whole_days_round_toward_zero() {
    let now = at(0, 500_000_000);
    assert_eq!(whole_days_between(at(DAY, 499_999_999), now), 0);
    assert_eq!(whole_days_between(at(DAY, 500_000_000), now), 1);
    assert_eq!(whole_days_between(at(-DAY, 500_000_001), now), 0);
    assert_eq!(whole_days_between(at(-DAY, 500_000_000), now), -1);
    assert_eq!(whole_days_between(at(i64::MAX, 0), at(i64::MIN, 0)), 213_503_982_334_601);
}

#[test]
fn task_labels() {
    let now = at(1_000_000, 0);
    let task = Task {
        title: "Water plants".to_string(),
        content: String::new(),
        due_date: Some(at(1_000_000 + 5 * DAY, 0)),
        start_date: None,
        priority: Priority::from_value(5),
    };
    assert_eq!(task.due_label(now), Some("in 5d".to_string()));
    assert_eq!(task.start_label(now), None);
}

#[test]
fn priorities() {
    assert_eq!(Priority::from_value(1), Priority::Low);
    assert_eq!(Priority::from_value(3), Priority::Medium);
    assert_eq!(Priority::from_value(5), Priority::High);
    assert_eq!(Priority::from_value(0), Priority::Unset);
    assert_eq!(Priority::from_value(2), Priority::Unset);
    assert_eq!(Priority::High.icon(), "iconoir-priority-high");
    assert_eq!(Priority::Medium.icon(), "iconoir-priority-medium");
    assert_eq!(Priority::Low.icon(), "iconoir-priority-down");
    assert_eq!(Priority::Unset.icon(), "");
}

#[test]
fn client_authorization() {
    let c = Client::new(Auth::from_token("abc123".to_string())).unwrap();
    assert_eq!(c.authorization, "Bearer abc123");
    assert_eq!(c.endpoint.base, "https://api.ticktick.com/open/v1/");
    assert!(matches!(Client::new(Auth::from_token("bad\ntoken".to_string())), Err(ClientError::InvalidToken)));
    assert!(matches!(Client::new(Auth::from_token("del\u{7f}".to_string())), Err(ClientError::InvalidToken)));
    assert!(Client::new(Auth::from_token("tab\there-é".to_string())).is_ok());
}

#[test]
fn project_data_url() {
    let e = Endpoint::default();
    let p = Project::from_id("abc".to_string());
    assert_eq!(e.for_project_data(&p), Some("https://api.ticktick.com/open/v1/project/abc/data".to_string()));
}

#[test]
fn task_fetch_errors() {
    assert_eq!(FetchErrorKind::from_transport(&exchange(true, false, false, false, None)), FetchErrorKind::Connection);
    assert_eq!(FetchErrorKind::from_transport(&exchange(false, true, false, false, None)), FetchErrorKind::Timeout);
    assert_eq!(FetchErrorKind::from_transport(&exchange(false, false, true, false, None)), FetchErrorKind::InvalidRequest);
    assert_eq!(FetchErrorKind::from_transport(&exchange(false, false, false, false, Some(404))), FetchErrorKind::NotFound);
    assert_eq!(FetchErrorKind::from_transport(&exchange(false, false, false, false, Some(403))), FetchErrorKind::PermissionDenied);
    assert_eq!(FetchErrorKind::from_transport(&exchange(false, false, false, false, Some(401))), FetchErrorKind::Unauthenticated);
    assert_eq!(FetchErrorKind::from_transport(&exchange(false, false, false, false, Some(500))), FetchErrorKind::Other);
    assert_eq!(FetchErrorKind::from_transport(&exchange(false, false, false, true, None)), FetchErrorKind::Json);
    assert_eq!(FetchErrorKind::from_transport(&exchange(false, false, false, false, None)), FetchErrorKind::Other);
}

#[test]
fn task_errors_become_generation_errors() {
    let e = FetchError { kind: FetchErrorKind::NotFound, target: Some("https://x/".to_string()) };
    match e.into_generator_error() {
        generator::Error::Fetch { kind, target } => {
            assert_eq!(kind, GeneratorKind::Request(404));
            assert_eq!(target, "https://x/");
        }
        other => panic!("unexpected {other:?}"),
    }
    let j = FetchError { kind: FetchErrorKind::Json, target: None };
    assert_eq!(j.into_generator_error().into_canonical(), Canonical::UpstreamInvalidResponse);
    let o = FetchError { kind: FetchErrorKind::Other, target: None };
    assert!(matches!(o.into_generator_error(), generator::Error::Unknown));
}

#[test]
fn exchange_failures_become_generation_errors() {
    let status = generator::Error::from_transport(exchange(true, false, false, false, Some(502)));
    assert!(matches!(status, generator::Error::Fetch { kind: GeneratorKind::Request(502), .. }));
    let network = generator::Error::from_transport(exchange(true, true, false, false, None));
    assert!(matches!(network, generator::Error::Fetch { kind: GeneratorKind::Network, .. }));
    let timeout = generator::Error::from_transport(exchange(false, true, false, false, None));
    assert_eq!(timeout.into_canonical(), Canonical::DeadlineExceeded);
    let decode = generator::Error::from_transport(exchange(false, false, false, true, None));
    assert!(matches!(decode, generator::Error::Fetch { kind: GeneratorKind::InvalidData, .. }));
    let unknown = generator::Error::from_transport(exchange(false, false, true, false, None));
    assert!(matches!(unknown, generator::Error::Unknown));
}

#[test]
fn canonical_answers() {
    assert_eq!(Canonical::NotFound.status_code(), 404);
    assert_eq!(Canonical::InvalidArgument.status_code(), 400);
    assert_eq!(Canonical::PermissionDenied.status_code(), 403);
    assert_eq!(Canonical::FailedPrecondition.status_code(), 412);
    assert_eq!(Canonical::DeadlineExceeded.status_code(), 504);
    assert_eq!(Canonical::UpstreamInvalidResponse.status_code(), 502);
    assert_eq!(Canonical::InternalRenderFailure.status_code(), 500);
    assert_eq!(Canonical::NotFound.title(), "A 404 has been spotted");
    assert_eq!(Canonical::DeadlineExceeded.details(), "Did not receive a response in time.");
    assert_eq!(SetupError::Missing.into_canonical(), Canonical::FailedPrecondition);
    assert_eq!(generator::Error::Misconfigured.into_canonical(), Canonical::Misconfigured);
}

#[test]
fn conversions_from_plain_values() {
    assert_eq!(WeatherCode::from(45u8), WeatherCode::Fog);
    assert_eq!(WindDirection::from(90u16), WindDirection::East);
    assert_eq!(Priority::from(3), Priority::Medium);
    assert_eq!(Humidity::from(42u8).percent, 42);
    assert_eq!(Project::from("inbox".to_string()).id, "inbox");
    let auth = Auth::from("tok".to_string());
    assert_eq!(auth.token, "tok");
    assert!(auth.expires.is_none());
}
