use vstd::prelude::*;

use crate::animation::birds::{spec_updated_birds, BirdSystem};
use crate::animation::clouds::{spec_updated_clouds, CloudSystem};
use crate::animation::raindrops::{spec_updated_raindrops, RaindropSystem};
use crate::animation::sunny::{AnimationController, SunnyAnimation};
use crate::animation::thunderstorm::{spec_updated_storm, ThunderstormSystem};
use crate::render::{GlyphColor, QueuedWrite, TerminalRenderer, WriteText};
use crate::scene::{layer_plan, scene_flags, spec_layer_plan, spec_scene_flags, LayerPlan, SceneFlags};
use crate::weather::{
    parse_weather_condition, simulated_weather, spec_parse_condition, WeatherCondition, WeatherData,
};

verus! {

/// How long a successful snapshot is trusted before the next fetch.
pub const REFRESH_INTERVAL_MS: u64 = 300000;

/// How long the sun holds one frame before the cycle advances.
pub const FRAME_DELAY_MS: u64 = 500;

/// Whether a key press ends the session: `q`, `Q`, or a
/// control-modified `c`.
pub open spec fn spec_quit_key(ch: char, ctrl: bool) -> bool {
    ch == 'q' || ch == 'Q' || (ctrl && ch == 'c')
}

/// One run of the scene composer: the weather-derived selection state,
/// the animation systems it drives, and the termination flag.  It makes
/// every per-tick decision; the clock readings, the fetched snapshots
/// and the key presses it decides over are handed in as plain values.
pub struct Session {
    simulated: bool,
    weather: Option<WeatherData>,
    error: Option<String>,
    flags: SceneFlags,
    raindrops: RaindropSystem,
    storm: ThunderstormSystem,
    clouds: CloudSystem,
    birds: BirdSystem,
    sunny: SunnyAnimation,
    controller: AnimationController,
    terminated: bool,
}

impl Session {
    pub closed spec fn spec_simulated(self) -> bool {
        self.simulated
    }

    pub closed spec fn spec_weather(self) -> Option<WeatherData> {
        self.weather
    }

    pub closed spec fn spec_error(self) -> Option<String> {
        self.error
    }

    pub closed spec fn spec_flags(self) -> SceneFlags {
        self.flags
    }

    pub closed spec fn spec_terminated(self) -> bool {
        self.terminated
    }

    pub closed spec fn spec_raindrops(self) -> RaindropSystem {
        self.raindrops
    }

    pub closed spec fn spec_storm(self) -> ThunderstormSystem {
        self.storm
    }

    pub closed spec fn spec_clouds(self) -> CloudSystem {
        self.clouds
    }

    pub closed spec fn spec_birds(self) -> BirdSystem {
        self.birds
    }

    pub closed spec fn spec_sunny(self) -> SunnyAnimation {
        self.sunny
    }

    pub closed spec fn spec_controller(self) -> AnimationController {
        self.controller
    }

    /// The condition of the held snapshot, if any.
    pub open spec fn spec_condition(self) -> Option<WeatherCondition> {
        match self.spec_weather() {
            Some(w) => Some(w.condition),
            None => None,
        }
    }

    /// The layer plan the next composed frame follows.
    pub open spec fn spec_plan(self) -> LayerPlan {
        spec_layer_plan(self.spec_condition(), self.spec_flags())
    }

    /// Every animation system is well formed, the frame cycle index is
    /// in range, and the scene flags are exactly what the held snapshot
    /// derives (all false before the first snapshot).
    pub open spec fn wf(self) -> bool {
        &&& self.spec_raindrops().wf()
        &&& self.spec_storm().wf()
        &&& self.spec_clouds().wf()
        &&& self.spec_birds().wf()
        &&& self.spec_sunny().wf()
        &&& self.spec_controller().spec_frame_index() < self.spec_sunny().spec_frames().len()
        &&& match self.spec_weather() {
            Some(w) => self.spec_flags() == spec_scene_flags(w.condition),
            None => self.spec_flags() == (SceneFlags {
                raining: false,
                thunderstorm: false,
                cloudy: false,
            }),
        }
    }

    /// Start a session for the given viewport.  A simulated condition is
    /// parsed (anything unknown falling back to Clear), synthesized into
    /// a snapshot and held for the whole session; without one the
    /// session awaits its first fetched snapshot.
    pub fn new(width: u16, height: u16, simulate: Option<&str>) -> (r: Session)
        ensures
            r.wf(),
            !r.spec_terminated(),
            r.spec_error() == Option::<String>::None,
            r.spec_simulated() == simulate.is_some(),
            match simulate {
                Some(s) => {
                    &&& r.spec_condition() == Some(spec_parse_condition(s@))
                    &&& r.spec_flags() == spec_scene_flags(spec_parse_condition(s@))
                    &&& match r.spec_weather() {
                        Some(w) => w.timestamp@ == "simulated"@,
                        None => false,
                    }
                },
                None => {
                    &&& r.spec_weather() == Option::<WeatherData>::None
                    &&& r.spec_flags() == (SceneFlags {
                        raining: false,
                        thunderstorm: false,
                        cloudy: false,
                    })
                },
            },
            r.spec_raindrops().is_seeded(width, height),
            r.spec_storm().is_seeded(width, height),
            r.spec_clouds().is_seeded(width, height),
            r.spec_birds().is_seeded(width, height),
            r.spec_controller().spec_frame_index() == 0,
    {
        let mut simulated: bool = false;
        let mut weather: Option<WeatherData> = None;
        let mut flags: SceneFlags = SceneFlags { raining: false, thunderstorm: false, cloudy: false };
        match simulate {
            Some(s) => {
                let condition = parse_weather_condition(s);
                simulated = true;
                flags = scene_flags(condition);
                weather = Some(simulated_weather(condition));
            },
            None => {},
        }
        Session {
            simulated,
            weather,
            error: None,
            flags,
            raindrops: RaindropSystem::new(width, height),
            storm: ThunderstormSystem::new(width, height),
            clouds: CloudSystem::new(width, height),
            birds: BirdSystem::new(width, height),
            sunny: SunnyAnimation::new(),
            controller: AnimationController::new(),
            terminated: false,
        }
    }

    /// Whether a session in this state asks for a fresh snapshot.
    pub open spec fn spec_needs_refresh(self, elapsed_since_update_ms: u64) -> bool {
        !self.spec_simulated() && (self.spec_weather() is None || elapsed_since_update_ms
            >= REFRESH_INTERVAL_MS)
    }

    /// Decide whether to fetch: never in simulated mode; otherwise when
    /// no snapshot is held yet or the refresh interval has elapsed.
    pub fn needs_refresh(&self, elapsed_since_update_ms: u64) -> (r: bool)
        ensures
            r == self.spec_needs_refresh(elapsed_since_update_ms),
            self.spec_simulated() ==> !r,
    {
        !self.simulated && (self.weather.is_none() || elapsed_since_update_ms
            >= REFRESH_INTERVAL_MS)
    }

    /// Take the outcome of one fetch.  Success replaces the snapshot
    /// wholesale and rederives the scene flags; failure only records the
    /// error message, keeping the previous snapshot and flags, so the
    /// loop goes on drawing what it last knew.
    pub fn apply_fetch_result(&mut self, result: Result<WeatherData, String>)
        requires
            old(self).wf(),
        ensures
            final(self).wf(),
            final(self).spec_simulated() == old(self).spec_simulated(),
            final(self).spec_terminated() == old(self).spec_terminated(),
            final(self).spec_raindrops() == old(self).spec_raindrops(),
            final(self).spec_storm() == old(self).spec_storm(),
            final(self).spec_clouds() == old(self).spec_clouds(),
            final(self).spec_birds() == old(self).spec_birds(),
            final(self).spec_sunny() == old(self).spec_sunny(),
            final(self).spec_controller() == old(self).spec_controller(),
            match result {
                Ok(w) => {
                    &&& final(self).spec_weather() == Some(w)
                    &&& final(self).spec_flags() == spec_scene_flags(w.condition)
                    &&& final(self).spec_error() == Option::<String>::None
                },
                Err(e) => {
                    &&& final(self).spec_weather() == old(self).spec_weather()
                    &&& final(self).spec_flags() == old(self).spec_flags()
                    &&& final(self).spec_error() == Some(e)
                },
            },
    {
        match result {
            Ok(w) => {
                self.flags = scene_flags(w.condition);
                self.weather = Some(w);
                self.error = None;
            },
            Err(e) => {
                self.error = Some(e);
            },
        }
    }

    /// Take one key press; a quit key moves the session to its
    /// terminated state, everything else is ignored.
    pub fn handle_key(&mut self, ch: char, ctrl: bool)
        requires
            old(self).wf(),
        ensures
            final(self).wf(),
            final(self).spec_terminated() == (old(self).spec_terminated() || spec_quit_key(
                ch,
                ctrl,
            )),
            final(self).spec_simulated() == old(self).spec_simulated(),
            final(self).spec_weather() == old(self).spec_weather(),
            final(self).spec_error() == old(self).spec_error(),
            final(self).spec_flags() == old(self).spec_flags(),
            final(self).spec_raindrops() == old(self).spec_raindrops(),
            final(self).spec_storm() == old(self).spec_storm(),
            final(self).spec_clouds() == old(self).spec_clouds(),
            final(self).spec_birds() == old(self).spec_birds(),
            final(self).spec_sunny() == old(self).spec_sunny(),
            final(self).spec_controller() == old(self).spec_controller(),
    {
        if ch == 'q' || ch == 'Q' || (ctrl && ch == 'c') {
            self.terminated = true;
        }
    }

    /// Whether the sun frame cycle advances now: only outside rain and
    /// storm, and only once the frame delay has elapsed.
    pub fn should_advance_frame(&self, elapsed_since_frame_ms: u64) -> (r: bool)
        ensures
            r == (!self.spec_flags().raining && !self.spec_flags().thunderstorm
                && elapsed_since_frame_ms >= FRAME_DELAY_MS),
    {
        !self.flags.raining && !self.flags.thunderstorm && elapsed_since_frame_ms
            >= FRAME_DELAY_MS
    }

    /// Advance the sun animation one frame.
    pub fn advance_frame(&mut self)
        requires
            old(self).wf(),
        ensures
            final(self).wf(),
            final(self).spec_controller().spec_frame_index() == (old(self).spec_controller().spec_frame_index() + 1) % (old(self).spec_sunny().spec_frames().len() as int),
            final(self).spec_simulated() == old(self).spec_simulated(),
            final(self).spec_weather() == old(self).spec_weather(),
            final(self).spec_error() == old(self).spec_error(),
            final(self).spec_flags() == old(self).spec_flags(),
            final(self).spec_terminated() == old(self).spec_terminated(),
            final(self).spec_raindrops() == old(self).spec_raindrops(),
            final(self).spec_storm() == old(self).spec_storm(),
            final(self).spec_clouds() == old(self).spec_clouds(),
            final(self).spec_birds() == old(self).spec_birds(),
            final(self).spec_sunny() == old(self).spec_sunny(),
    {
        self.controller.next_frame(&self.sunny);
    }

    /// The exact frame one compose pass leaves queued, for a session in
    /// this (post-compose) state on a `vw` by `vh` viewport: the header
    /// line first, then the planned layers back to front — clouds,
    /// birds, the centered sun frame, the centered house block — and
    /// the foreground precipitation last, the storm layer (with its
    /// bolt when the flash is on) overriding plain rain.
    pub open spec fn spec_frame_queue(
        self,
        q: Seq<QueuedWrite>,
        vw: u16,
        vh: u16,
        header: Seq<char>,
        house: Seq<String>,
    ) -> bool {
        let plan = self.spec_plan();
        let frame = self.spec_sunny().spec_frames()[self.spec_controller().spec_frame_index() as int % (self.spec_sunny().spec_frames().len() as int)];
        let sun_row: int = if vh > 20 { 3 } else { 2 };
        let house_row: int = if vh > 20 { 10 } else { 9 };
        let n_clouds: int = if plan.clouds { self.spec_clouds().spec_puffs().len() as int } else { 0 };
        let n_birds: int = if plan.birds { self.spec_birds().spec_birds().len() as int } else { 0 };
        let n_sun: int = if plan.sun { frame.len() as int } else { 0 };
        let bolt: int = if self.spec_storm().spec_bolt_shown() { 3 } else { 0 };
        let n_precip: int = if plan.storm {
            self.spec_storm().spec_drops().len() + bolt
        } else if plan.rain {
            self.spec_raindrops().spec_drops().len() as int
        } else {
            0
        };
        let off_birds: int = 1 + n_clouds;
        let off_sun: int = off_birds + n_birds;
        let off_house: int = off_sun + n_sun;
        let off_precip: int = off_house + house.len();
        &&& q.len() == off_precip + n_precip
        &&& q[0].x == 2 && q[0].y == 1 && q[0].color == GlyphColor::Cyan && q[0].text.chars()
            == header
        &&& plan.clouds ==> forall|j: int| 0 <= j < n_clouds ==> {
            let wq = #[trigger] q[1 + j];
            let p = self.spec_clouds().spec_puffs()[j];
            &&& wq.x == p.x_tenths as int / 10
            &&& wq.y == p.y
            &&& wq.text == WriteText::Glyph(p.glyph)
            &&& wq.color == GlyphColor::White
        }
        &&& plan.birds ==> forall|j: int| 0 <= j < n_birds ==> {
            let wq = #[trigger] q[off_birds + j];
            let b = self.spec_birds().spec_birds()[j];
            &&& wq.x == b.x_tenths as int / 10
            &&& wq.y == b.y
            &&& wq.text == WriteText::Glyph(b.glyph)
            &&& wq.color == GlyphColor::DarkGrey
        }
        &&& plan.sun ==> forall|j: int| 0 <= j < n_sun ==> {
            let wq = #[trigger] q[off_sun + j];
            &&& wq.x == crate::render::spec_centered_col(vw, frame.map_values(|s: String| s@))
            &&& wq.y == sun_row + j
            &&& wq.text.chars() == frame[j]@
        }
        &&& forall|j: int| 0 <= j < house.len() ==> {
            let wq = #[trigger] q[off_house + j];
            &&& wq.x == crate::render::spec_centered_col(vw, house.map_values(|s: String| s@))
            &&& wq.y == house_row + j
            &&& wq.text.chars() == house[j]@
            &&& wq.color == GlyphColor::Default
        }
        &&& plan.storm ==> forall|j: int| 0 <= j < self.spec_storm().spec_drops().len() ==> {
            let wq = #[trigger] q[off_precip + j];
            let d = self.spec_storm().spec_drops()[j];
            &&& wq.x == d.x
            &&& wq.y == d.y_tenths as int / 10
            &&& wq.text == WriteText::Glyph(d.glyph)
            &&& wq.color == GlyphColor::Blue
        }
        &&& (plan.storm && self.spec_storm().spec_bolt_shown()) ==> {
            let col = crate::animation::thunderstorm::spec_flash_col(
                self.spec_storm().spec_tick(),
                self.spec_storm().spec_width(),
            );
            &&& q[q.len() - 3] == (QueuedWrite { x: col, y: 1, text: WriteText::Glyph('\\'), color: GlyphColor::Yellow })
            &&& q[q.len() - 2] == (QueuedWrite { x: col, y: 2, text: WriteText::Glyph('|'), color: GlyphColor::Yellow })
            &&& q[q.len() - 1] == (QueuedWrite { x: col, y: 3, text: WriteText::Glyph('/'), color: GlyphColor::Yellow })
        }
        &&& plan.rain ==> forall|j: int| 0 <= j < self.spec_raindrops().spec_drops().len() ==> {
            let wq = #[trigger] q[off_precip + j];
            let d = self.spec_raindrops().spec_drops()[j];
            &&& wq.x == d.x
            &&& wq.y == d.y_tenths as int / 10
            &&& wq.text == WriteText::Glyph(d.glyph)
            &&& wq.color == GlyphColor::Cyan
        }
    }

    /// Compose one full frame into the renderer: erase the surface,
    /// queue the header line, then the planned layers back to front —
    /// clouds, birds, sun, the house block centered, and precipitation,
    /// the storm layer overriding plain rain — advancing every active
    /// particle system for the renderer's current viewport on the way.
    /// The header text and the house art are supplied by the caller.
    pub fn compose_frame(&mut self, renderer: &mut TerminalRenderer, header: &str, house: &Vec<String>)
        requires
            old(self).wf(),
            house@.len() <= 1024,
        ensures
            final(self).wf(),
            final(self).spec_simulated() == old(self).spec_simulated(),
            final(self).spec_weather() == old(self).spec_weather(),
            final(self).spec_error() == old(self).spec_error(),
            final(self).spec_flags() == old(self).spec_flags(),
            final(self).spec_terminated() == old(self).spec_terminated(),
            final(self).spec_sunny() == old(self).spec_sunny(),
            final(self).spec_controller() == old(self).spec_controller(),
            ({
                let plan = old(self).spec_plan();
                let vw = old(renderer).spec_width();
                let vh = old(renderer).spec_height();
                &&& (if plan.clouds {
                    spec_updated_clouds(old(self).spec_clouds(), final(self).spec_clouds(), vw, vh)
                } else {
                    final(self).spec_clouds() == old(self).spec_clouds()
                })
                &&& (if plan.birds {
                    spec_updated_birds(old(self).spec_birds(), final(self).spec_birds(), vw, vh)
                } else {
                    final(self).spec_birds() == old(self).spec_birds()
                })
                &&& (if plan.storm {
                    spec_updated_storm(old(self).spec_storm(), final(self).spec_storm(), vw, vh)
                } else {
                    final(self).spec_storm() == old(self).spec_storm()
                })
                &&& (if plan.rain {
                    spec_updated_raindrops(
                        old(self).spec_raindrops(),
                        final(self).spec_raindrops(),
                        vw,
                        vh,
                    )
                } else {
                    final(self).spec_raindrops() == old(self).spec_raindrops()
                })
            }),
            final(renderer).spec_width() == old(renderer).spec_width(),
            final(renderer).spec_height() == old(renderer).spec_height(),
            final(renderer).spec_clear_pending(),
            final(self).spec_frame_queue(
                final(renderer).spec_queued(),
                old(renderer).spec_width(),
                old(renderer).spec_height(),
                header@,
                house@,
            ),
    {
        let (vw, vh) = renderer.get_size();
        let condition: Option<WeatherCondition> = match &self.weather {
            Some(w) => Some(w.condition),
            None => None,
        };
        let plan: LayerPlan = layer_plan(condition, self.flags);
        assert(plan == old(self).spec_plan());
        renderer.clear();
        renderer.render_line_colored(2, 1, header, GlyphColor::Cyan);
        let ghost g1 = renderer.spec_queued();
        let ghost len1: int = g1.len() as int;
        if plan.clouds {
            self.clouds.update(vw, vh);
            self.clouds.render(renderer);
        }
        let ghost g2 = renderer.spec_queued();
        let ghost len2: int = g2.len() as int;
        proof {
            assert forall|k: int| 0 <= k < len1 implies g2[k] == g1[k] by {
                if plan.clouds {
                    assert(g2.take(len1) == g1);
                    assert(g2.take(len1)[k] == g2[k]);
                }
            }
        }
        if plan.birds {
            self.birds.update(vw, vh);
            self.birds.render(renderer);
        }
        let ghost g3 = renderer.spec_queued();
        let ghost len3: int = g3.len() as int;
        proof {
            assert forall|k: int| 0 <= k < len2 implies g3[k] == g2[k] by {
                if plan.birds {
                    assert(g3.take(len2) == g2);
                    assert(g3.take(len2)[k] == g3[k]);
                }
            }
        }
        if plan.sun {
            let sun_row: u16 = if vh > 20 {
                3
            } else {
                2
            };
            self.controller.render_frame(renderer, &self.sunny, sun_row);
        }
        let ghost g4 = renderer.spec_queued();
        let ghost len4: int = g4.len() as int;
        proof {
            assert forall|k: int| 0 <= k < len3 implies g4[k] == g3[k] by {
                if plan.sun {
                    assert(g4.take(len3) == g3);
                    assert(g4.take(len3)[k] == g4[k]);
                }
            }
        }
        let house_row: u16 = if vh > 20 {
            10
        } else {
            9
        };
        renderer.render_centered(house, house_row);
        let ghost g5 = renderer.spec_queued();
        let ghost len5: int = g5.len() as int;
        proof {
            assert forall|k: int| 0 <= k < len4 implies g5[k] == g4[k] by {
                assert(g5.take(len4) == g4);
                assert(g5.take(len4)[k] == g5[k]);
            }
        }
        if plan.storm {
            self.storm.update(vw, vh);
            self.storm.render(renderer);
        } else if plan.rain {
            self.raindrops.update(vw, vh);
            self.raindrops.render(renderer);
        }
        let ghost g6 = renderer.spec_queued();
        proof {
            assert forall|k: int| 0 <= k < len5 implies g6[k] == g5[k] by {
                if plan.storm || plan.rain {
                    assert(g6.take(len5) == g5);
                    assert(g6.take(len5)[k] == g6[k]);
                }
            }
        }
    }

    pub fn is_terminated(&self) -> (r: bool)
        ensures
            r == self.spec_terminated(),
    {
        self.terminated
    }

    pub fn is_simulated(&self) -> (r: bool)
        ensures
            r == self.spec_simulated(),
    {
        self.simulated
    }

    pub fn current_weather(&self) -> (r: &Option<WeatherData>)
        ensures
            *r == self.spec_weather(),
    {
        &self.weather
    }

    pub fn current_error(&self) -> (r: &Option<String>)
        ensures
            *r == self.spec_error(),
    {
        &self.error
    }

    pub fn flags(&self) -> (r: SceneFlags)
        ensures
            r == self.spec_flags(),
    {
        self.flags
    }
}

/// A simulated session never asks for a refresh, whatever its state and
/// however much time has passed; since no operation clears the simulated
/// mark, the snapshot provider is never consulted for the whole session.
pub proof fn lemma_simulated_never_refreshes(s: Session, elapsed_since_update_ms: u64)
    requires
        s.spec_simulated(),
    ensures
        !s.spec_needs_refresh(elapsed_since_update_ms),
{
}

} // verus!
