use weathr::render::{GlyphColor, TerminalRenderer};
use weathr::session::{Session, FRAME_DELAY_MS, REFRESH_INTERVAL_MS};
use weathr::weather::{simulated_weather, WeatherCondition};

fn house() -> Vec<String> {
    vec!["  /\\  ".to_string(), " /  \\ ".to_string(), " |__| ".to_string()]
}

#[test]
fn simulated_session_never_asks_for_a_fetch() {
    let s = Session::new(80, 24, Some("rain"));
    assert!(s.is_simulated());
    assert!(!s.needs_refresh(0));
    assert!(!s.needs_refresh(REFRESH_INTERVAL_MS));
    assert!(!s.needs_refresh(u64::MAX));
}

#[test]
fn live_session_fetches_at_start_and_after_the_interval() {
    let mut s = Session::new(80, 24, None);
    assert!(s.needs_refresh(0), "no snapshot held yet");
    s.apply_fetch_result(Ok(simulated_weather(WeatherCondition::Clear)));
    assert!(!s.needs_refresh(REFRESH_INTERVAL_MS - 1));
    assert!(s.needs_refresh(REFRESH_INTERVAL_MS));
}

#[test]
fn fetch_failure_keeps_state_and_surfaces_the_error() {
    let mut s = Session::new(80, 24, None);
    s.apply_fetch_result(Err("Error fetching weather: unreachable".to_string()));
    assert_eq!(
        s.current_error().as_deref(),
        Some("Error fetching weather: unreachable")
    );
    assert!(s.current_weather().is_none(), "no snapshot until the first success");
    assert!(!s.is_terminated(), "a failed fetch does not end the loop");
    assert!(s.needs_refresh(0), "retried on the next scheduled refresh");

    s.apply_fetch_result(Ok(simulated_weather(WeatherCondition::Rain)));
    assert!(s.current_error().is_none());
    assert!(s.current_weather().is_some());
    assert!(s.flags().raining);
}

#[test]
fn quit_keys_terminate() {
    for (ch, ctrl) in [('q', false), ('Q', false), ('c', true)] {
        let mut s = Session::new(80, 24, None);
        s.handle_key(ch, ctrl);
        assert!(s.is_terminated(), "{:?} ctrl={}", ch, ctrl);
    }
    let mut s = Session::new(80, 24, None);
    s.handle_key('c', false);
    s.handle_key('x', false);
    s.handle_key('Z', true);
    assert!(!s.is_terminated());
}

#[test]
fn frame_advance_is_gated_by_delay_and_precipitation() {
    let clear = Session::new(80, 24, Some("clear"));
    assert!(!clear.should_advance_frame(FRAME_DELAY_MS - 1));
    assert!(clear.should_advance_frame(FRAME_DELAY_MS));
    let rain = Session::new(80, 24, Some("rain"));
    assert!(!rain.should_advance_frame(FRAME_DELAY_MS));
}

#[test]
fn simulated_rain_frame_holds_exactly_header_house_and_rain() {
    let mut s = Session::new(80, 24, Some("rain"));
    assert!(s.flags().raining && !s.flags().thunderstorm && !s.flags().cloudy);
    let mut r = TerminalRenderer::new(80, 24);
    s.compose_frame(&mut r, "header", &house());
    let commit = r.flush();
    assert!(commit.clear);
    // one header line, three house lines, and 80*24/40 raindrops; no
    // cloud, bird or sun write
    assert_eq!(commit.writes.len(), 1 + 3 + 48);
    assert_eq!(commit.writes[0].x, 2);
    assert_eq!(commit.writes[0].y, 1);
    assert_eq!(commit.writes[0].color, GlyphColor::Cyan);
    assert!(commit.writes[4..].iter().all(|w| w.color == GlyphColor::Cyan));
}

#[test]
fn simulated_hail_frame_holds_storm_layer_with_flash() {
    let mut s = Session::new(80, 24, Some("hail"));
    assert!(s.flags().thunderstorm);
    let mut r = TerminalRenderer::new(80, 24);
    s.compose_frame(&mut r, "header", &house());
    let commit = r.flush();
    // one header line, three house lines, 80*24/30 storm drops, and the
    // three bolt cells (the counter is at 1, inside the flash window)
    assert_eq!(commit.writes.len(), 1 + 3 + 64 + 3);
    let yellow = commit
        .writes
        .iter()
        .filter(|w| w.color == GlyphColor::Yellow)
        .count();
    assert_eq!(yellow, 3, "the bolt is drawn during the flash window");
    assert!(commit.writes.iter().any(|w| w.color == GlyphColor::Blue));
}

#[test]
fn flash_is_periodic_not_constant() {
    let mut s = Session::new(80, 24, Some("hail"));
    let mut r = TerminalRenderer::new(80, 24);
    let mut seen_on = 0usize;
    let mut seen_off = 0usize;
    for _ in 0..45 {
        s.compose_frame(&mut r, "h", &house());
        let commit = r.flush();
        let yellow = commit
            .writes
            .iter()
            .filter(|w| w.color == GlyphColor::Yellow)
            .count();
        if yellow > 0 {
            assert_eq!(yellow, 3);
            seen_on += 1;
        } else {
            seen_off += 1;
        }
    }
    assert!(seen_on > 0, "the flash appears");
    assert!(seen_off > seen_on, "and is visible only in a small window");
}

#[test]
fn unknown_simulation_renders_the_sunny_scene() {
    let mut s = Session::new(80, 24, Some("zzz"));
    let f = s.flags();
    assert!(!f.raining && !f.thunderstorm && !f.cloudy);
    let mut r = TerminalRenderer::new(80, 24);
    s.compose_frame(&mut r, "header", &house());
    let commit = r.flush();
    // header, 80*24/400 birds, a 3-line sun frame, and the house; no
    // precipitation write
    assert_eq!(commit.writes.len(), 1 + 4 + 3 + 3);
    assert!(commit.writes.iter().all(|w| w.color != GlyphColor::Blue));
}

#[test]
fn cloudy_simulation_renders_clouds_and_birds() {
    let mut s = Session::new(80, 24, Some("cloudy"));
    assert!(s.flags().cloudy);
    let mut r = TerminalRenderer::new(80, 24);
    s.compose_frame(&mut r, "header", &house());
    let commit = r.flush();
    // header, 80*24/160 puffs, 80*24/400 birds, the house; no sun (the
    // condition is Cloudy) and no precipitation
    assert_eq!(commit.writes.len(), 1 + 12 + 4 + 3);
    assert!(commit.writes.iter().any(|w| w.color == GlyphColor::White));
}

#[test]
fn resize_between_ticks_repopulates_every_layer() {
    let mut s = Session::new(40, 20, Some("rain"));
    let mut r = TerminalRenderer::new(40, 20);
    s.compose_frame(&mut r, "h", &house());
    assert_eq!(r.flush().writes.len(), 1 + 3 + 40 * 20 / 40);
    r.update_size(80, 24);
    s.compose_frame(&mut r, "h", &house());
    // the population now follows the new dimensions, not the old ones
    assert_eq!(r.flush().writes.len(), 1 + 3 + 80 * 24 / 40);
}
