use weathr::weather::{
    condition_name, parse_weather_condition, parse_weather_condition_checked, simulated_weather,
    WeatherCondition,
};

#[test]
fn parses_every_alias() {
    let cases: Vec<(&str, WeatherCondition)> = vec![
        ("clear", WeatherCondition::Clear),
        ("sunny", WeatherCondition::Clear),
        ("partly-cloudy", WeatherCondition::PartlyCloudy),
        ("partly_cloudy", WeatherCondition::PartlyCloudy),
        ("partlycloudy", WeatherCondition::PartlyCloudy),
        ("cloudy", WeatherCondition::Cloudy),
        ("overcast", WeatherCondition::Overcast),
        ("fog", WeatherCondition::Fog),
        ("foggy", WeatherCondition::Fog),
        ("drizzle", WeatherCondition::Drizzle),
        ("rain", WeatherCondition::Rain),
        ("rainy", WeatherCondition::Rain),
        ("freezing-rain", WeatherCondition::FreezingRain),
        ("freezing_rain", WeatherCondition::FreezingRain),
        ("freezingrain", WeatherCondition::FreezingRain),
        ("snow", WeatherCondition::Snow),
        ("snowy", WeatherCondition::Snow),
        ("snow-grains", WeatherCondition::SnowGrains),
        ("snow_grains", WeatherCondition::SnowGrains),
        ("snowgrains", WeatherCondition::SnowGrains),
        ("rain-showers", WeatherCondition::RainShowers),
        ("rain_showers", WeatherCondition::RainShowers),
        ("rainshowers", WeatherCondition::RainShowers),
        ("showers", WeatherCondition::RainShowers),
        ("snow-showers", WeatherCondition::SnowShowers),
        ("snow_showers", WeatherCondition::SnowShowers),
        ("snowshowers", WeatherCondition::SnowShowers),
        ("thunderstorm", WeatherCondition::Thunderstorm),
        ("thunder", WeatherCondition::Thunderstorm),
        ("thunderstorm-hail", WeatherCondition::ThunderstormHail),
        ("thunderstorm_hail", WeatherCondition::ThunderstormHail),
        ("hail", WeatherCondition::ThunderstormHail),
    ];
    for (input, expected) in cases {
        assert_eq!(parse_weather_condition(input), expected, "input {:?}", input);
        assert_eq!(parse_weather_condition_checked(input), Some(expected));
    }
}

#[test]
fn parsing_is_case_insensitive() {
    assert_eq!(parse_weather_condition("RaIn"), WeatherCondition::Rain);
    assert_eq!(parse_weather_condition("HAIL"), WeatherCondition::ThunderstormHail);
    assert_eq!(parse_weather_condition("Thunder"), WeatherCondition::Thunderstorm);
    assert_eq!(parse_weather_condition("Partly-Cloudy"), WeatherCondition::PartlyCloudy);
}

#[test]
fn unknown_input_defaults_to_clear() {
    assert_eq!(parse_weather_condition_checked("zzz"), None);
    assert_eq!(parse_weather_condition("zzz"), WeatherCondition::Clear);
    assert_eq!(parse_weather_condition_checked(""), None);
    assert_eq!(parse_weather_condition(""), WeatherCondition::Clear);
    assert_eq!(parse_weather_condition("règn"), WeatherCondition::Clear);
}

#[test]
fn condition_names_match_display_text() {
    assert_eq!(condition_name(WeatherCondition::Clear), "Clear");
    assert_eq!(condition_name(WeatherCondition::PartlyCloudy), "Partly Cloudy");
    assert_eq!(condition_name(WeatherCondition::FreezingRain), "Freezing Rain");
    assert_eq!(condition_name(WeatherCondition::SnowGrains), "Snow Grains");
    assert_eq!(
        condition_name(WeatherCondition::ThunderstormHail),
        "Thunderstorm with Hail"
    );
}

#[test]
fn simulated_snapshot_fields() {
    let rain = simulated_weather(WeatherCondition::Rain);
    assert_eq!(rain.condition, WeatherCondition::Rain);
    assert_eq!(rain.temperature_tenths, 200);
    assert_eq!(rain.precipitation_tenths, 25);
    assert_eq!(rain.timestamp, "simulated");
    assert!(rain.is_day);

    let hail = simulated_weather(WeatherCondition::ThunderstormHail);
    assert_eq!(hail.precipitation_tenths, 0);
    let drizzle = simulated_weather(WeatherCondition::Drizzle);
    assert_eq!(drizzle.precipitation_tenths, 25);
}
