//! The weather source: forecast categories, wind directions and the other
//! values that its layouts show.
use vstd::prelude::*;

use crate::generator;
use crate::plugins::geolocation;
use crate::text::{decimal, decimal_string};

verus! {

/// How much a weather screen shows.
#[derive(Debug, Clone, Copy, PartialEq, Eq, Structural)]
pub enum Detail {
    Minimal,
    Full,
}

impl Default for Detail {
    /// The layout used where none is configured.
    fn default() -> (r: Detail)
        ensures
            r == Detail::Full,
    {
        Detail::Full
    }
}

/// Why the weather source could not be set up.
#[derive(Debug, Clone, Copy, PartialEq, Eq, Structural)]
pub enum Error {
    Request,
    Geo,
    NotFound,
}

/// The setup failure that each geocoding failure becomes.
pub open spec fn from_geolocation_spec(e: geolocation::Error) -> Error {
    match e {
        geolocation::Error::Request => Error::Request,
        geolocation::Error::Geo => Error::Geo,
        geolocation::Error::NotFound => Error::NotFound,
    }
}

impl Error {
    /// The setup failure that a geocoding failure becomes.
    pub fn from_geolocation(e: geolocation::Error) -> (r: Error)
        ensures
            r == from_geolocation_spec(e),
    {
        match e {
            geolocation::Error::Request => Error::Request,
            geolocation::Error::Geo => Error::Geo,
            geolocation::Error::NotFound => Error::NotFound,
        }
    }
}

/// The category of the weather, read from a numeric weather code.
#[derive(Debug, Clone, Copy, PartialEq, Eq, Structural)]
pub enum WeatherCode {
    Unclear,
    Clear,
    MostlyClear,
    PartlyCloudy,
    Overcast,
    Fog,
    DrizzleLight,
    DrizzleModerate,
    DrizzleDense,
    RainSlight,
    RainModerate,
    RainHeavy,
    Thunderstorm,
}

/// The category of each numeric weather code.
pub open spec fn weather_code_of(value: u8) -> WeatherCode {
    if value == 0 {
        WeatherCode::Clear
    } else if value == 1 {
        WeatherCode::MostlyClear
    } else if value == 2 {
        WeatherCode::PartlyCloudy
    } else if value == 3 {
        WeatherCode::Overcast
    } else if value == 45 || value == 48 {
        WeatherCode::Fog
    } else if value == 51 {
        WeatherCode::DrizzleLight
    } else if value == 53 {
        WeatherCode::DrizzleModerate
    } else if value == 55 {
        WeatherCode::DrizzleDense
    } else if value == 61 || value == 80 || value == 85 {
        WeatherCode::RainSlight
    } else if value == 63 || value == 81 {
        WeatherCode::RainModerate
    } else if value == 65 || value == 82 || value == 86 {
        WeatherCode::RainHeavy
    } else if value == 95 {
        WeatherCode::Thunderstorm
    } else {
        WeatherCode::Unclear
    }
}

/// The numeric weather codes that name a category.
pub open spec fn documented_code(value: u8) -> bool {
    value == 0 || value == 1 || value == 2 || value == 3 || value == 45 || value == 48 || value
        == 51 || value == 53 || value == 55 || value == 61 || value == 63 || value == 65 || value
        == 80 || value == 81 || value == 82 || value == 85 || value == 86 || value == 95
}

/// The text that describes each category.
pub open spec fn weather_description(c: WeatherCode) -> Seq<char> {
    match c {
        WeatherCode::Clear => "Sunny"@,
        WeatherCode::MostlyClear => "Mostly Sunny"@,
        WeatherCode::PartlyCloudy => "Partially Cloudy"@,
        WeatherCode::Overcast => "Overcast"@,
        WeatherCode::Fog => "Foggy"@,
        WeatherCode::DrizzleLight => "Light Drizzle"@,
        WeatherCode::DrizzleModerate => "Moderate Drizzle"@,
        WeatherCode::DrizzleDense => "Dense Drizzle"@,
        WeatherCode::RainSlight => "Light Rain"@,
        WeatherCode::RainModerate => "Moderate Rain"@,
        WeatherCode::RainHeavy => "Heavy Rain"@,
        WeatherCode::Thunderstorm => "Thunderstorm"@,
        WeatherCode::Unclear => "Unclear"@,
    }
}

/// The icon of each category.
pub open spec fn weather_icon(c: WeatherCode) -> Seq<char> {
    match c {
        WeatherCode::Unclear => "wi:stars"@,
        WeatherCode::Clear => "wi:day-sunny"@,
        WeatherCode::MostlyClear => "wi:day-sunny-overcast"@,
        WeatherCode::PartlyCloudy => "wi:day-cloudy"@,
        WeatherCode::Overcast => "wi:cloudy"@,
        WeatherCode::Fog => "wi:day-fog"@,
        WeatherCode::DrizzleLight | WeatherCode::DrizzleModerate | WeatherCode::DrizzleDense =>
            "wi:day-sprinkle"@,
        WeatherCode::RainSlight | WeatherCode::RainModerate => "wi:day-rain"@,
        WeatherCode::RainHeavy => "wi:day-showers"@,
        WeatherCode::Thunderstorm => "wi:day-thunderstorm"@,
    }
}

impl WeatherCode {
    /// Reads a numeric weather code; a code outside the documented set is
    /// unclear.
    pub fn from_code(value: u8) -> (r: WeatherCode)
        ensures
            r == weather_code_of(value),
    {
        match value {
            0 => WeatherCode::Clear,
            1 => WeatherCode::MostlyClear,
            2 => WeatherCode::PartlyCloudy,
            3 => WeatherCode::Overcast,
            45 | 48 => WeatherCode::Fog,
            51 => WeatherCode::DrizzleLight,
            53 => WeatherCode::DrizzleModerate,
            55 => WeatherCode::DrizzleDense,
            61 | 80 | 85 => WeatherCode::RainSlight,
            63 | 81 => WeatherCode::RainModerate,
            65 | 82 | 86 => WeatherCode::RainHeavy,
            95 => WeatherCode::Thunderstorm,
            _ => WeatherCode::Unclear,
        }
    }

    /// The text that describes the category.
    pub fn description(&self) -> (r: &'static str)
        ensures
            r@ == weather_description(*self),
    {
        match self {
            WeatherCode::Clear => "Sunny",
            WeatherCode::MostlyClear => "Mostly Sunny",
            WeatherCode::PartlyCloudy => "Partially Cloudy",
            WeatherCode::Overcast => "Overcast",
            WeatherCode::Fog => "Foggy",
            WeatherCode::DrizzleLight => "Light Drizzle",
            WeatherCode::DrizzleModerate => "Moderate Drizzle",
            WeatherCode::DrizzleDense => "Dense Drizzle",
            WeatherCode::RainSlight => "Light Rain",
            WeatherCode::RainModerate => "Moderate Rain",
            WeatherCode::RainHeavy => "Heavy Rain",
            WeatherCode::Thunderstorm => "Thunderstorm",
            WeatherCode::Unclear => "Unclear",
        }
    }

    /// The name of the icon that shows the category.
    pub fn icon_name(&self) -> (r: &'static str)
        ensures
            r@ == weather_icon(*self),
    {
        match self {
            WeatherCode::Unclear => "wi:stars",
            WeatherCode::Clear => "wi:day-sunny",
            WeatherCode::MostlyClear => "wi:day-sunny-overcast",
            WeatherCode::PartlyCloudy => "wi:day-cloudy",
            WeatherCode::Overcast => "wi:cloudy",
            WeatherCode::Fog => "wi:day-fog",
            WeatherCode::DrizzleLight | WeatherCode::DrizzleModerate | WeatherCode::DrizzleDense =>
                "wi:day-sprinkle",
            WeatherCode::RainSlight | WeatherCode::RainModerate => "wi:day-rain",
            WeatherCode::RainHeavy => "wi:day-showers",
            WeatherCode::Thunderstorm => "wi:day-thunderstorm",
        }
    }
}

impl From<u8> for WeatherCode {
    fn from(value: u8) -> WeatherCode {
        WeatherCode::from_code(value)
    }
}

impl vstd::std_specs::convert::FromSpecImpl<u8> for WeatherCode {
    open spec fn obeys_from_spec() -> bool {
        true
    }

    open spec fn from_spec(v: u8) -> WeatherCode {
        weather_code_of(v)
    }
}

/// Every numeric weather code reads as exactly one category: a documented
/// code as one of the twelve named ones, any other code as unclear.
pub proof fn weather_codes_total(value: u8)
    ensures
        documented_code(value) <==> weather_code_of(value) != WeatherCode::Unclear,
        !documented_code(value) ==> weather_code_of(value) == WeatherCode::Unclear,
{
}

/// A relative humidity, in percent.
#[derive(Debug, Clone, Copy, PartialEq, Eq, Structural)]
pub struct Humidity {
    pub percent: u8,
}

impl Humidity {
    pub fn from_percent(value: u8) -> (r: Humidity)
        ensures
            r.percent == value,
    {
        Humidity { percent: value }
    }

    /// The humidity as shown: the percentage in decimal.
    pub fn to_text(&self) -> (r: String)
        ensures
            r@ == decimal(self.percent as nat),
    {
        decimal_string(self.percent as u64)
    }
}

impl From<u8> for Humidity {
    fn from(value: u8) -> Humidity {
        Humidity::from_percent(value)
    }
}

impl vstd::std_specs::convert::FromSpecImpl<u8> for Humidity {
    open spec fn obeys_from_spec() -> bool {
        true
    }

    open spec fn from_spec(v: u8) -> Humidity {
        Humidity { percent: v }
    }
}

/// The compass direction that the wind comes from.
#[derive(Debug, Clone, Copy, PartialEq, Eq, Structural)]
pub enum WindDirection {
    NorthWest,
    North,
    NorthEast,
    East,
    SouthEast,
    South,
    SouthWest,
    West,
}

/// The direction of each bearing in degrees.
pub open spec fn wind_direction_of(degrees: u16) -> WindDirection {
    if 20 <= degrees < 70 {
        WindDirection::NorthEast
    } else if 70 <= degrees < 110 {
        WindDirection::East
    } else if 110 <= degrees < 160 {
        WindDirection::SouthEast
    } else if 160 <= degrees < 200 {
        WindDirection::South
    } else if 200 <= degrees < 250 {
        WindDirection::SouthWest
    } else if 250 <= degrees < 290 {
        WindDirection::West
    } else if 290 <= degrees < 340 {
        WindDirection::NorthWest
    } else {
        WindDirection::North
    }
}

/// The icon of each direction.
pub open spec fn wind_icon(d: WindDirection) -> Seq<char> {
    match d {
        WindDirection::NorthWest => "wi:direction-up-left"@,
        WindDirection::North => "wi:direction-up"@,
        WindDirection::NorthEast => "wi:direction-up-right"@,
        WindDirection::East => "wi:direction-right"@,
        WindDirection::SouthEast => "wi:direction-down-right"@,
        WindDirection::South => "wi:direction-down"@,
        WindDirection::SouthWest => "wi:direction-down-left"@,
        WindDirection::West => "wi:direction-left"@,
    }
}

impl WindDirection {
    /// Reads a bearing in degrees; bearings near 0, and any from 340 up, are
    /// north.
    pub fn from_degrees(degrees: u16) -> (r: WindDirection)
        ensures
            r == wind_direction_of(degrees),
    {
        if 20 <= degrees && degrees < 70 {
            WindDirection::NorthEast
        } else if 70 <= degrees && degrees < 110 {
            WindDirection::East
        } else if 110 <= degrees && degrees < 160 {
            WindDirection::SouthEast
        } else if 160 <= degrees && degrees < 200 {
            WindDirection::South
        } else if 200 <= degrees && degrees < 250 {
            WindDirection::SouthWest
        } else if 250 <= degrees && degrees < 290 {
            WindDirection::West
        } else if 290 <= degrees && degrees < 340 {
            WindDirection::NorthWest
        } else {
            WindDirection::North
        }
    }

    /// The name of the icon that shows the direction.
    pub fn icon_name(&self) -> (r: &'static str)
        ensures
            r@ == wind_icon(*self),
    {
        match self {
            WindDirection::NorthWest => "wi:direction-up-left",
            WindDirection::North => "wi:direction-up",
            WindDirection::NorthEast => "wi:direction-up-right",
            WindDirection::East => "wi:direction-right",
            WindDirection::SouthEast => "wi:direction-down-right",
            WindDirection::South => "wi:direction-down",
            WindDirection::SouthWest => "wi:direction-down-left",
            WindDirection::West => "wi:direction-left",
        }
    }
}

impl From<u16> for WindDirection {
    fn from(degrees: u16) -> WindDirection {
        WindDirection::from_degrees(degrees)
    }
}

impl vstd::std_specs::convert::FromSpecImpl<u16> for WindDirection {
    open spec fn obeys_from_spec() -> bool {
        true
    }

    open spec fn from_spec(v: u16) -> WindDirection {
        wind_direction_of(v)
    }
}

/// The failure of a forecast with no days, from this URL.
pub open spec fn empty_forecast(url: Seq<char>) -> generator::ErrorModel {
    generator::ErrorModel::Fetch { kind: generator::FetchErrorKind::InvalidData, target: url }
}

/// What a weather source asks: the forecast URL of its place, and how much
/// its screen shows.
#[derive(Debug)]
pub struct Client {
    pub url: String,
    pub detail: Detail,
}

impl Client {
    pub fn new(url: String, detail: Detail) -> (r: Client)
        ensures
            r.url == url,
            r.detail == detail,
    {
        Client { url, detail }
    }

    /// Accepts a forecast only where it holds at least one day, which both
    /// layouts show; an empty one is invalid data from the forecast URL.
    pub fn check_forecast(&self, days: usize) -> (r: Result<(), generator::Error>)
        ensures
            days > 0 ==> r is Ok,
            days == 0 ==> (r matches Err(e) && e@ == empty_forecast(self.url@)),
    {
        if days > 0 {
            Ok(())
        } else {
            Err(generator::Error::Fetch { kind: generator::FetchErrorKind::InvalidData, target: self.url.clone() })
        }
    }
}

/// A forecast response that does not make a forecast.
#[derive(Debug, Clone, Copy, PartialEq, Eq, Structural)]
pub struct ConvertError;

} // verus!
