use weathr::scene::{layer_plan, scene_flags, show_sun, SceneFlags};
use weathr::weather::{parse_weather_condition, WeatherCondition};

fn all_conditions() -> Vec<WeatherCondition> {
    vec![
        WeatherCondition::Clear,
        WeatherCondition::PartlyCloudy,
        WeatherCondition::Cloudy,
        WeatherCondition::Overcast,
        WeatherCondition::Fog,
        WeatherCondition::Drizzle,
        WeatherCondition::Rain,
        WeatherCondition::FreezingRain,
        WeatherCondition::Snow,
        WeatherCondition::SnowGrains,
        WeatherCondition::RainShowers,
        WeatherCondition::SnowShowers,
        WeatherCondition::Thunderstorm,
        WeatherCondition::ThunderstormHail,
    ]
}

#[test]
fn flags_are_mutually_exclusive_over_all_conditions() {
    for c in all_conditions() {
        let f = scene_flags(c);
        let set = [f.raining, f.thunderstorm, f.cloudy]
            .iter()
            .filter(|b| **b)
            .count();
        assert!(set <= 1, "condition {:?} sets {} flags", c, set);
    }
}

#[test]
fn default_branch_conditions_set_no_flags() {
    for c in [
        WeatherCondition::Clear,
        WeatherCondition::Fog,
        WeatherCondition::Snow,
        WeatherCondition::SnowGrains,
        WeatherCondition::SnowShowers,
    ] {
        let f = scene_flags(c);
        assert!(!f.raining && !f.thunderstorm && !f.cloudy, "condition {:?}", c);
    }
}

#[test]
fn flag_mapping_by_family() {
    for c in [WeatherCondition::Thunderstorm, WeatherCondition::ThunderstormHail] {
        assert_eq!(
            scene_flags(c),
            SceneFlags { raining: false, thunderstorm: true, cloudy: false }
        );
    }
    for c in [
        WeatherCondition::Drizzle,
        WeatherCondition::Rain,
        WeatherCondition::RainShowers,
        WeatherCondition::FreezingRain,
    ] {
        assert_eq!(
            scene_flags(c),
            SceneFlags { raining: true, thunderstorm: false, cloudy: false }
        );
    }
    for c in [
        WeatherCondition::PartlyCloudy,
        WeatherCondition::Cloudy,
        WeatherCondition::Overcast,
    ] {
        assert_eq!(
            scene_flags(c),
            SceneFlags { raining: false, thunderstorm: false, cloudy: true }
        );
    }
}

#[test]
fn simulate_rain_gives_rain_only_plan() {
    let c = parse_weather_condition("rain");
    let f = scene_flags(c);
    assert_eq!(f, SceneFlags { raining: true, thunderstorm: false, cloudy: false });
    let plan = layer_plan(Some(c), f);
    assert!(plan.rain);
    assert!(!plan.storm);
    assert!(!plan.clouds);
    assert!(!plan.birds);
    assert!(!plan.sun);
}

#[test]
fn simulate_hail_gives_storm_plan() {
    let c = parse_weather_condition("hail");
    assert_eq!(c, WeatherCondition::ThunderstormHail);
    let f = scene_flags(c);
    assert!(f.thunderstorm && !f.raining && !f.cloudy);
    let plan = layer_plan(Some(c), f);
    assert!(plan.storm);
    assert!(!plan.rain, "the plain rain layer is suppressed under a storm");
    assert!(!plan.sun && !plan.birds && !plan.clouds);
}

#[test]
fn unknown_simulation_gives_sunny_plan() {
    let c = parse_weather_condition("zzz");
    assert_eq!(c, WeatherCondition::Clear);
    let f = scene_flags(c);
    let plan = layer_plan(Some(c), f);
    assert!(plan.sun && plan.birds);
    assert!(!plan.rain && !plan.storm && !plan.clouds);
}

#[test]
fn sun_is_shown_for_clear_and_partly_cloudy_snapshots() {
    let none_flags = SceneFlags { raining: false, thunderstorm: false, cloudy: false };
    assert!(show_sun(Some(WeatherCondition::Clear), none_flags));
    assert!(show_sun(Some(WeatherCondition::PartlyCloudy), scene_flags(WeatherCondition::PartlyCloudy)));
    assert!(!show_sun(Some(WeatherCondition::Cloudy), scene_flags(WeatherCondition::Cloudy)));
    assert!(!show_sun(Some(WeatherCondition::Rain), scene_flags(WeatherCondition::Rain)));
    assert!(show_sun(None, none_flags));
    assert!(!show_sun(None, SceneFlags { raining: true, thunderstorm: false, cloudy: false }));
}
