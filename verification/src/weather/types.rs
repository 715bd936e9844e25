use vstd::prelude::*;

verus! {

/// Temperature unit preference.
#[derive(Debug, Clone, Copy, PartialEq, Eq, Structural)]
pub enum TemperatureUnit {
    Auto,
    Celsius,
    Fahrenheit,
}

impl Default for TemperatureUnit {
    fn default() -> (r: Self)
        ensures
            r == TemperatureUnit::Auto,
    {
        TemperatureUnit::Auto
    }
}

/// Weather condition categories mapped from WMO codes.
#[derive(Debug, Clone, Copy, PartialEq, Eq, Structural)]
pub enum WeatherCondition {
    Clear,
    PartlyCloudy,
    Cloudy,
    Fog,
    Drizzle,
    Rain,
    HeavyRain,
    Snow,
    Sleet,
    Thunderstorm,
}

impl Default for WeatherCondition {
    fn default() -> (r: Self)
        ensures
            r == WeatherCondition::Clear,
    {
        WeatherCondition::Clear
    }
}

/// The condition that a WMO weather code denotes; unknown codes read as clear.
pub open spec fn wmo_condition(code: i32) -> WeatherCondition {
    if code == 0 {
        WeatherCondition::Clear
    } else if 1 <= code <= 2 {
        WeatherCondition::PartlyCloudy
    } else if code == 3 {
        WeatherCondition::Cloudy
    } else if code == 45 || code == 48 {
        WeatherCondition::Fog
    } else if code == 51 || code == 53 || code == 55 {
        WeatherCondition::Drizzle
    } else if code == 56 || code == 57 || code == 66 || code == 67 {
        WeatherCondition::Sleet
    } else if code == 61 || code == 63 || code == 80 {
        WeatherCondition::Rain
    } else if code == 65 || code == 81 || code == 82 {
        WeatherCondition::HeavyRain
    } else if code == 71 || code == 73 || code == 75 || code == 77 || code == 85 || code == 86 {
        WeatherCondition::Snow
    } else if code == 95 || code == 96 || code == 99 {
        WeatherCondition::Thunderstorm
    } else {
        WeatherCondition::Clear
    }
}

/// Human-readable description of a condition.
pub open spec fn condition_description(c: WeatherCondition) -> Seq<char> {
    match c {
        WeatherCondition::Clear => "Clear"@,
        WeatherCondition::PartlyCloudy => "Partly Cloudy"@,
        WeatherCondition::Cloudy => "Cloudy"@,
        WeatherCondition::Fog => "Fog"@,
        WeatherCondition::Drizzle => "Drizzle"@,
        WeatherCondition::Rain => "Rain"@,
        WeatherCondition::HeavyRain => "Heavy Rain"@,
        WeatherCondition::Snow => "Snow"@,
        WeatherCondition::Sleet => "Sleet"@,
        WeatherCondition::Thunderstorm => "Thunderstorm"@,
    }
}

/// Icon name of a condition.
pub open spec fn condition_icon(c: WeatherCondition) -> Seq<char> {
    match c {
        WeatherCondition::Clear => "sun"@,
        WeatherCondition::PartlyCloudy => "cloud_sun"@,
        WeatherCondition::Cloudy => "cloud"@,
        WeatherCondition::Fog => "cloud_fog"@,
        WeatherCondition::Drizzle => "cloud_rain"@,
        WeatherCondition::Rain => "cloud_rain"@,
        WeatherCondition::HeavyRain => "cloud_rain"@,
        WeatherCondition::Snow => "cloud_snow"@,
        WeatherCondition::Sleet => "cloud_snow"@,
        WeatherCondition::Thunderstorm => "cloud_lightning"@,
    }
}

impl WeatherCondition {
    /// Convert a WMO weather code to a condition.
    pub fn from_wmo_code(code: i32) -> (r: Self)
        ensures
            r == wmo_condition(code),
    {
        match code {
            0 => WeatherCondition::Clear,
            1..=2 => WeatherCondition::PartlyCloudy,
            3 => WeatherCondition::Cloudy,
            45 | 48 => WeatherCondition::Fog,
            51 | 53 | 55 => WeatherCondition::Drizzle,
            56 | 57 => WeatherCondition::Sleet,
            61 | 63 | 80 => WeatherCondition::Rain,
            65 | 81 | 82 => WeatherCondition::HeavyRain,
            66 | 67 => WeatherCondition::Sleet,
            71 | 73 | 75 | 77 | 85 | 86 => WeatherCondition::Snow,
            95 | 96 | 99 => WeatherCondition::Thunderstorm,
            _ => WeatherCondition::Clear,
        }
    }

    /// Human-readable description.
    pub fn description(&self) -> (r: &'static str)
        ensures
            r@ == condition_description(*self),
    {
        match self {
            WeatherCondition::Clear => "Clear",
            WeatherCondition::PartlyCloudy => "Partly Cloudy",
            WeatherCondition::Cloudy => "Cloudy",
            WeatherCondition::Fog => "Fog",
            WeatherCondition::Drizzle => "Drizzle",
            WeatherCondition::Rain => "Rain",
            WeatherCondition::HeavyRain => "Heavy Rain",
            WeatherCondition::Snow => "Snow",
            WeatherCondition::Sleet => "Sleet",
            WeatherCondition::Thunderstorm => "Thunderstorm",
        }
    }

    /// Icon name (the icon glyph itself is chosen by the view layer).
    pub fn icon_name(&self) -> (r: &'static str)
        ensures
            r@ == condition_icon(*self),
    {
        match self {
            WeatherCondition::Clear => "sun",
            WeatherCondition::PartlyCloudy => "cloud_sun",
            WeatherCondition::Cloudy => "cloud",
            WeatherCondition::Fog => "cloud_fog",
            WeatherCondition::Drizzle => "cloud_rain",
            WeatherCondition::Rain => "cloud_rain",
            WeatherCondition::HeavyRain => "cloud_rain",
            WeatherCondition::Snow => "cloud_snow",
            WeatherCondition::Sleet => "cloud_snow",
            WeatherCondition::Thunderstorm => "cloud_lightning",
        }
    }
}

/// No two weather conditions share a description.
pub proof fn law_descriptions_distinct(a: WeatherCondition, b: WeatherCondition)
    requires
        a != b,
    ensures
        condition_description(a) != condition_description(b),
{
    reveal_strlit("Clear");
    reveal_strlit("Partly Cloudy");
    reveal_strlit("Cloudy");
    reveal_strlit("Fog");
    reveal_strlit("Drizzle");
    reveal_strlit("Rain");
    reveal_strlit("Heavy Rain");
    reveal_strlit("Snow");
    reveal_strlit("Sleet");
    reveal_strlit("Thunderstorm");
    let da = condition_description(a);
    let db = condition_description(b);
    if da.len() == db.len() {
        assert(da[0] != db[0] || da[1] != db[1] || da[2] != db[2]);
    }
}

/// Each condition is described by its own name and shown with its icon
/// (every kind of rain with the rain cloud, snow and sleet with the snow
/// cloud), and WMO codes read as the
/// sky they report: code 0 is "Clear", codes 1 and 2 "Partly Cloudy", code
/// 3 (overcast) "Cloudy", fog codes "Fog", drizzle "Drizzle", rain "Rain"
/// or "Heavy Rain", freezing drizzle and rain "Sleet", snow "Snow", and
/// thunderstorms "Thunderstorm".
pub proof fn law_conditions_are_described_by_name(c: WeatherCondition, code: i32)
    ensures
        condition_description(c) == match c {
            WeatherCondition::Clear => "Clear"@,
            WeatherCondition::PartlyCloudy => "Partly Cloudy"@,
            WeatherCondition::Cloudy => "Cloudy"@,
            WeatherCondition::Fog => "Fog"@,
            WeatherCondition::Drizzle => "Drizzle"@,
            WeatherCondition::Rain => "Rain"@,
            WeatherCondition::HeavyRain => "Heavy Rain"@,
            WeatherCondition::Snow => "Snow"@,
            WeatherCondition::Sleet => "Sleet"@,
            WeatherCondition::Thunderstorm => "Thunderstorm"@,
        },
        code == 0 ==> condition_description(wmo_condition(code)) == "Clear"@,
        1 <= code <= 2 ==> condition_description(wmo_condition(code)) == "Partly Cloudy"@,
        code == 3 ==> condition_description(wmo_condition(code)) == "Cloudy"@,
        (code == 45 || code == 48) ==> condition_description(wmo_condition(code)) == "Fog"@,
        (code == 95 || code == 96 || code == 99) ==> condition_description(wmo_condition(code)) == "Thunderstorm"@,
        (code == 71 || code == 73 || code == 75 || code == 77 || code == 85 || code == 86)
            ==> condition_description(wmo_condition(code)) == "Snow"@,
        condition_icon(c) == match c {
            WeatherCondition::Clear => "sun"@,
            WeatherCondition::PartlyCloudy => "cloud_sun"@,
            WeatherCondition::Cloudy => "cloud"@,
            WeatherCondition::Fog => "cloud_fog"@,
            WeatherCondition::Drizzle | WeatherCondition::Rain | WeatherCondition::HeavyRain => "cloud_rain"@,
            WeatherCondition::Snow | WeatherCondition::Sleet => "cloud_snow"@,
            WeatherCondition::Thunderstorm => "cloud_lightning"@,
        },
{
}

/// The WMO codes the weather conditions are defined for.
pub open spec fn known_wmo_code(code: i32) -> bool {
    (0 <= code <= 3) || code == 45 || code == 48 || code == 51 || code == 53 || code == 55 || code == 56
        || code == 57 || code == 61 || code == 63 || code == 65 || code == 66 || code == 67 || code == 71
        || code == 73 || code == 75 || code == 77 || code == 80 || code == 81 || code == 82 || code == 85
        || code == 86 || code == 95 || code == 96 || code == 99
}

/// Every WMO code outside the known ones reads as clear sky.
pub proof fn law_unknown_codes_are_clear(code: i32)
    requires
        !known_wmo_code(code),
    ensures
        wmo_condition(code) == WeatherCondition::Clear,
{
}

} // verus!

verus! {

/// Location service errors.
#[derive(Debug, Clone, PartialEq, Eq)]
pub enum LocationError {
    PermissionDenied,
    ServiceUnavailable,
    Timeout,
    Other(String),
}

/// The text that a location error displays.
pub open spec fn location_error_text(e: LocationError) -> Seq<char> {
    match e {
        LocationError::PermissionDenied => "Location permission denied"@,
        LocationError::ServiceUnavailable => "Location service unavailable"@,
        LocationError::Timeout => "Location request timed out"@,
        LocationError::Other(s) => "Location error: "@ + s@,
    }
}

impl LocationError {
    /// The text this error displays.
    pub fn message(&self) -> (r: String)
        ensures
            r@ == location_error_text(*self),
    {
        match self {
            LocationError::PermissionDenied => crate::text::owned("Location permission denied"),
            LocationError::ServiceUnavailable => crate::text::owned("Location service unavailable"),
            LocationError::Timeout => crate::text::owned("Location request timed out"),
            LocationError::Other(s) => crate::text::concat("Location error: ", s.as_str()),
        }
    }
}

} // verus!
