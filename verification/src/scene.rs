use vstd::prelude::*;

use crate::weather::WeatherCondition;

verus! {

/// The booleans that select which animation layers are active.
#[derive(Clone, Copy, PartialEq, Eq, Structural, Debug)]
pub struct SceneFlags {
    pub raining: bool,
    pub thunderstorm: bool,
    pub cloudy: bool,
}

/// What the scene flags must be for a given condition: thunderstorm
/// conditions win, then rain-like conditions, then cloud-like ones;
/// everything else (clear, fog, the snow family) selects the default
/// sunny background.
pub open spec fn spec_scene_flags(c: WeatherCondition) -> SceneFlags {
    match c {
        WeatherCondition::Thunderstorm | WeatherCondition::ThunderstormHail => SceneFlags {
            raining: false,
            thunderstorm: true,
            cloudy: false,
        },
        WeatherCondition::Drizzle
        | WeatherCondition::Rain
        | WeatherCondition::RainShowers
        | WeatherCondition::FreezingRain => SceneFlags {
            raining: true,
            thunderstorm: false,
            cloudy: false,
        },
        WeatherCondition::PartlyCloudy | WeatherCondition::Cloudy | WeatherCondition::Overcast => SceneFlags {
            raining: false,
            thunderstorm: false,
            cloudy: true,
        },
        _ => SceneFlags { raining: false, thunderstorm: false, cloudy: false },
    }
}

/// Derive the scene flags from a condition.
pub fn scene_flags(c: WeatherCondition) -> (r: SceneFlags)
    ensures
        r == spec_scene_flags(c),
{
    match c {
        WeatherCondition::Thunderstorm | WeatherCondition::ThunderstormHail => SceneFlags {
            raining: false,
            thunderstorm: true,
            cloudy: false,
        },
        WeatherCondition::Drizzle
        | WeatherCondition::Rain
        | WeatherCondition::RainShowers
        | WeatherCondition::FreezingRain => SceneFlags {
            raining: true,
            thunderstorm: false,
            cloudy: false,
        },
        WeatherCondition::PartlyCloudy | WeatherCondition::Cloudy | WeatherCondition::Overcast => SceneFlags {
            raining: false,
            thunderstorm: false,
            cloudy: true,
        },
        _ => SceneFlags { raining: false, thunderstorm: false, cloudy: false },
    }
}

/// At most one of the three scene flags is ever set, and the clear, fog
/// and snow-family conditions set none of them.
pub proof fn lemma_scene_flags_exclusive(c: WeatherCondition)
    ensures
        !(spec_scene_flags(c).raining && spec_scene_flags(c).thunderstorm),
        !(spec_scene_flags(c).raining && spec_scene_flags(c).cloudy),
        !(spec_scene_flags(c).thunderstorm && spec_scene_flags(c).cloudy),
        (c == WeatherCondition::Clear || c == WeatherCondition::Fog || c == WeatherCondition::Snow
            || c == WeatherCondition::SnowGrains || c == WeatherCondition::SnowShowers)
            ==> spec_scene_flags(c) == (SceneFlags { raining: false, thunderstorm: false, cloudy: false }),
{
}

/// Whether the sun may be shown: a held snapshot decides by its
/// condition; before the first snapshot the flags decide.
pub open spec fn spec_show_sun(condition: Option<WeatherCondition>, flags: SceneFlags) -> bool {
    match condition {
        Some(c) => c == WeatherCondition::Clear || c == WeatherCondition::PartlyCloudy,
        None => !flags.raining && !flags.thunderstorm && !flags.cloudy,
    }
}

pub fn show_sun(condition: Option<WeatherCondition>, flags: SceneFlags) -> (r: bool)
    ensures
        r == spec_show_sun(condition, flags),
{
    match condition {
        Some(c) => match c {
            WeatherCondition::Clear | WeatherCondition::PartlyCloudy => true,
            _ => false,
        },
        None => !flags.raining && !flags.thunderstorm && !flags.cloudy,
    }
}

/// Which layers one tick draws, in back-to-front order: clouds, then
/// birds, then the sun, then the house, then precipitation, where the
/// storm layer overrides the plain rain layer.
#[derive(Clone, Copy, PartialEq, Eq, Structural, Debug)]
pub struct LayerPlan {
    pub clouds: bool,
    pub birds: bool,
    pub sun: bool,
    pub storm: bool,
    pub rain: bool,
}

pub open spec fn spec_layer_plan(condition: Option<WeatherCondition>, flags: SceneFlags) -> LayerPlan {
    LayerPlan {
        clouds: flags.cloudy,
        birds: !flags.raining && !flags.thunderstorm,
        sun: spec_show_sun(condition, flags) && !flags.raining && !flags.thunderstorm,
        storm: flags.thunderstorm,
        rain: flags.raining && !flags.thunderstorm,
    }
}

pub fn layer_plan(condition: Option<WeatherCondition>, flags: SceneFlags) -> (r: LayerPlan)
    ensures
        r == spec_layer_plan(condition, flags),
{
    LayerPlan {
        clouds: flags.cloudy,
        birds: !flags.raining && !flags.thunderstorm,
        sun: show_sun(condition, flags) && !flags.raining && !flags.thunderstorm,
        storm: flags.thunderstorm,
        rain: flags.raining && !flags.thunderstorm,
    }
}

/// The storm layer and the plain rain layer are never planned together,
/// and no precipitation layer is planned unless its flag is set.
pub proof fn lemma_precipitation_layers_exclusive(
    condition: Option<WeatherCondition>,
    flags: SceneFlags,
)
    ensures
        !(spec_layer_plan(condition, flags).storm && spec_layer_plan(condition, flags).rain),
        spec_layer_plan(condition, flags).storm ==> flags.thunderstorm,
        spec_layer_plan(condition, flags).rain ==> flags.raining,
{
}

} // verus!
