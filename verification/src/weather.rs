use vstd::prelude::*;

use vstd::string::StrSliceExecFns;

verus! {

/// The weather condition reported by a snapshot, or simulated from the
/// command line.
#[derive(Clone, Copy, PartialEq, Eq, Structural, Debug)]
pub enum WeatherCondition {
    Clear,
    PartlyCloudy,
    Cloudy,
    Overcast,
    Fog,
    Drizzle,
    Rain,
    FreezingRain,
    Snow,
    SnowGrains,
    RainShowers,
    SnowShowers,
    Thunderstorm,
    ThunderstormHail,
}

/// One immutable weather snapshot.  Fractional metrics are carried in
/// tenths of their unit, so `temperature_tenths == 205` is 20.5 degrees.
#[derive(Clone, Debug)]
pub struct WeatherData {
    pub condition: WeatherCondition,
    pub temperature_tenths: i32,
    pub apparent_temperature_tenths: i32,
    pub humidity_tenths: u32,
    pub precipitation_tenths: u32,
    pub wind_speed_tenths: u32,
    pub wind_direction_tenths: u32,
    pub cloud_cover_tenths: u32,
    pub pressure_tenths: u32,
    pub visibility_tenths: Option<u32>,
    pub is_day: bool,
    pub timestamp: String,
}

/// An upper-case ASCII letter folded to lower case; everything else is
/// left alone.
pub open spec fn spec_lower_char(c: char) -> char {
    if 'A' <= c && c <= 'Z' {
        (((c as u8) + 32) as char)
    } else {
        c
    }
}

/// A string folded character by character with `spec_lower_char`.
pub open spec fn spec_ascii_lower(s: Seq<char>) -> Seq<char> {
    Seq::new(s.len(), |i: int| spec_lower_char(s[i]))
}

fn lower_char(c: char) -> (r: char)
    ensures
        r == spec_lower_char(c),
{
    if 'A' <= c && c <= 'Z' {
        ((c as u8) + 32) as char
    } else {
        c
    }
}

/// Whether the input, folded to lower case, is exactly the keyword.
fn matches_keyword(input: &str, kw: &str) -> (r: bool)
    ensures
        r == (spec_ascii_lower(input@) == kw@),
{
    let n: usize = input.unicode_len();
    let m: usize = kw.unicode_len();
    if n != m {
        assert(spec_ascii_lower(input@).len() != kw@.len());
        return false;
    }
    let mut i: usize = 0;
    while i < n
        invariant
            0 <= i <= n,
            n == input@.len(),
            n == kw@.len(),
            forall|j: int| 0 <= j < i ==> spec_ascii_lower(input@)[j] == kw@[j],
        decreases n - i,
    {
        let c: char = lower_char(input.get_char(i));
        let k: char = kw.get_char(i);
        if c != k {
            assert(spec_ascii_lower(input@)[i as int] != kw@[i as int]);
            return false;
        }
        i = i + 1;
    }
    proof {
        assert(spec_ascii_lower(input@) =~= kw@);
    }
    true
}

/// Whether the input names some condition under one of its accepted
/// case-insensitive aliases.
pub open spec fn spec_condition_known(s: Seq<char>) -> bool {
    let l = spec_ascii_lower(s);
    ||| l == "clear"@
    ||| l == "sunny"@
    ||| l == "partly-cloudy"@
    ||| l == "partly_cloudy"@
    ||| l == "partlycloudy"@
    ||| l == "cloudy"@
    ||| l == "overcast"@
    ||| l == "fog"@
    ||| l == "foggy"@
    ||| l == "drizzle"@
    ||| l == "rain"@
    ||| l == "rainy"@
    ||| l == "freezing-rain"@
    ||| l == "freezing_rain"@
    ||| l == "freezingrain"@
    ||| l == "snow"@
    ||| l == "snowy"@
    ||| l == "snow-grains"@
    ||| l == "snow_grains"@
    ||| l == "snowgrains"@
    ||| l == "rain-showers"@
    ||| l == "rain_showers"@
    ||| l == "rainshowers"@
    ||| l == "showers"@
    ||| l == "snow-showers"@
    ||| l == "snow_showers"@
    ||| l == "snowshowers"@
    ||| l == "thunderstorm"@
    ||| l == "thunder"@
    ||| l == "thunderstorm-hail"@
    ||| l == "thunderstorm_hail"@
    ||| l == "hail"@
}

/// The condition an input selects: each condition under its aliases,
/// case-insensitively, and anything unrecognized falling back to Clear.
pub open spec fn spec_parse_condition(s: Seq<char>) -> WeatherCondition {
    let l = spec_ascii_lower(s);
    if l == "clear"@ || l == "sunny"@ {
        WeatherCondition::Clear
    } else if l == "partly-cloudy"@ || l == "partly_cloudy"@ || l == "partlycloudy"@ {
        WeatherCondition::PartlyCloudy
    } else if l == "cloudy"@ {
        WeatherCondition::Cloudy
    } else if l == "overcast"@ {
        WeatherCondition::Overcast
    } else if l == "fog"@ || l == "foggy"@ {
        WeatherCondition::Fog
    } else if l == "drizzle"@ {
        WeatherCondition::Drizzle
    } else if l == "rain"@ || l == "rainy"@ {
        WeatherCondition::Rain
    } else if l == "freezing-rain"@ || l == "freezing_rain"@ || l == "freezingrain"@ {
        WeatherCondition::FreezingRain
    } else if l == "snow"@ || l == "snowy"@ {
        WeatherCondition::Snow
    } else if l == "snow-grains"@ || l == "snow_grains"@ || l == "snowgrains"@ {
        WeatherCondition::SnowGrains
    } else if l == "rain-showers"@ || l == "rain_showers"@ || l == "rainshowers"@
        || l == "showers"@ {
        WeatherCondition::RainShowers
    } else if l == "snow-showers"@ || l == "snow_showers"@ || l == "snowshowers"@ {
        WeatherCondition::SnowShowers
    } else if l == "thunderstorm"@ || l == "thunder"@ {
        WeatherCondition::Thunderstorm
    } else if l == "thunderstorm-hail"@ || l == "thunderstorm_hail"@ || l == "hail"@ {
        WeatherCondition::ThunderstormHail
    } else {
        WeatherCondition::Clear
    }
}

/// Parse an input against every alias; `None` means the input names no
/// condition (callers surface a warning and fall back to Clear).
pub fn parse_weather_condition_checked(input: &str) -> (r: Option<WeatherCondition>)
    ensures
        r.is_some() == spec_condition_known(input@),
        r matches Some(c) ==> c == spec_parse_condition(input@),
{
    if matches_keyword(input, "clear") || matches_keyword(input, "sunny") {
        Some(WeatherCondition::Clear)
    } else if matches_keyword(input, "partly-cloudy") || matches_keyword(input, "partly_cloudy")
        || matches_keyword(input, "partlycloudy") {
        Some(WeatherCondition::PartlyCloudy)
    } else if matches_keyword(input, "cloudy") {
        Some(WeatherCondition::Cloudy)
    } else if matches_keyword(input, "overcast") {
        Some(WeatherCondition::Overcast)
    } else if matches_keyword(input, "fog") || matches_keyword(input, "foggy") {
        Some(WeatherCondition::Fog)
    } else if matches_keyword(input, "drizzle") {
        Some(WeatherCondition::Drizzle)
    } else if matches_keyword(input, "rain") || matches_keyword(input, "rainy") {
        Some(WeatherCondition::Rain)
    } else if matches_keyword(input, "freezing-rain") || matches_keyword(input, "freezing_rain")
        || matches_keyword(input, "freezingrain") {
        Some(WeatherCondition::FreezingRain)
    } else if matches_keyword(input, "snow") || matches_keyword(input, "snowy") {
        Some(WeatherCondition::Snow)
    } else if matches_keyword(input, "snow-grains") || matches_keyword(input, "snow_grains")
        || matches_keyword(input, "snowgrains") {
        Some(WeatherCondition::SnowGrains)
    } else if matches_keyword(input, "rain-showers") || matches_keyword(input, "rain_showers")
        || matches_keyword(input, "rainshowers") || matches_keyword(input, "showers") {
        Some(WeatherCondition::RainShowers)
    } else if matches_keyword(input, "snow-showers") || matches_keyword(input, "snow_showers")
        || matches_keyword(input, "snowshowers") {
        Some(WeatherCondition::SnowShowers)
    } else if matches_keyword(input, "thunderstorm") || matches_keyword(input, "thunder") {
        Some(WeatherCondition::Thunderstorm)
    } else if matches_keyword(input, "thunderstorm-hail") || matches_keyword(
        input,
        "thunderstorm_hail",
    ) || matches_keyword(input, "hail") {
        Some(WeatherCondition::ThunderstormHail)
    } else {
        None
    }
}

/// Parse an input, defaulting anything unrecognized to Clear.
pub fn parse_weather_condition(input: &str) -> (r: WeatherCondition)
    ensures
        r == spec_parse_condition(input@),
{
    match parse_weather_condition_checked(input) {
        Some(c) => c,
        None => WeatherCondition::Clear,
    }
}

/// The display name of a condition.
pub open spec fn spec_condition_name(c: WeatherCondition) -> Seq<char> {
    match c {
        WeatherCondition::Clear => "Clear"@,
        WeatherCondition::PartlyCloudy => "Partly Cloudy"@,
        WeatherCondition::Cloudy => "Cloudy"@,
        WeatherCondition::Overcast => "Overcast"@,
        WeatherCondition::Fog => "Fog"@,
        WeatherCondition::Drizzle => "Drizzle"@,
        WeatherCondition::Rain => "Rain"@,
        WeatherCondition::FreezingRain => "Freezing Rain"@,
        WeatherCondition::Snow => "Snow"@,
        WeatherCondition::SnowGrains => "Snow Grains"@,
        WeatherCondition::RainShowers => "Rain Showers"@,
        WeatherCondition::SnowShowers => "Snow Showers"@,
        WeatherCondition::Thunderstorm => "Thunderstorm"@,
        WeatherCondition::ThunderstormHail => "Thunderstorm with Hail"@,
    }
}

pub fn condition_name(c: WeatherCondition) -> (r: &'static str)
    ensures
        r@ == spec_condition_name(c),
{
    match c {
        WeatherCondition::Clear => "Clear",
        WeatherCondition::PartlyCloudy => "Partly Cloudy",
        WeatherCondition::Cloudy => "Cloudy",
        WeatherCondition::Overcast => "Overcast",
        WeatherCondition::Fog => "Fog",
        WeatherCondition::Drizzle => "Drizzle",
        WeatherCondition::Rain => "Rain",
        WeatherCondition::FreezingRain => "Freezing Rain",
        WeatherCondition::Snow => "Snow",
        WeatherCondition::SnowGrains => "Snow Grains",
        WeatherCondition::RainShowers => "Rain Showers",
        WeatherCondition::SnowShowers => "Snow Showers",
        WeatherCondition::Thunderstorm => "Thunderstorm",
        WeatherCondition::ThunderstormHail => "Thunderstorm with Hail",
    }
}

/// Whether a condition carries precipitation in a synthesized snapshot.
pub open spec fn spec_simulated_precipitation(c: WeatherCondition) -> bool {
    c == WeatherCondition::Rain || c == WeatherCondition::Drizzle || c
        == WeatherCondition::RainShowers
}

/// The snapshot synthesized for a simulated condition: plausible fixed
/// metrics, precipitation only for the rain-like conditions, and a
/// timestamp that names the snapshot as simulated.
pub fn simulated_weather(c: WeatherCondition) -> (r: WeatherData)
    ensures
        r.condition == c,
        r.temperature_tenths == 200,
        r.apparent_temperature_tenths == 190,
        r.humidity_tenths == 650,
        r.precipitation_tenths == (if spec_simulated_precipitation(c) {
            25int
        } else {
            0int
        }),
        r.wind_speed_tenths == 100,
        r.wind_direction_tenths == 1800,
        r.cloud_cover_tenths == 500,
        r.pressure_tenths == 10130,
        r.visibility_tenths == Some(100000u32),
        r.is_day == true,
        r.timestamp@ == "simulated"@,
{
    let precipitation_tenths: u32 = match c {
        WeatherCondition::Rain | WeatherCondition::Drizzle | WeatherCondition::RainShowers => 25,
        _ => 0,
    };
    WeatherData {
        condition: c,
        temperature_tenths: 200,
        apparent_temperature_tenths: 190,
        humidity_tenths: 650,
        precipitation_tenths,
        wind_speed_tenths: 100,
        wind_direction_tenths: 1800,
        cloud_cover_tenths: 500,
        pressure_tenths: 10130,
        visibility_tenths: Some(100000),
        is_day: true,
        timestamp: "simulated".to_owned(),
    }
}

} // verus!
