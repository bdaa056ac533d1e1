use weathr::animation::birds::BirdSystem;
use weathr::animation::clouds::CloudSystem;
use weathr::animation::raindrops::RaindropSystem;
use weathr::animation::sunny::{AnimationController, SunnyAnimation};
use weathr::animation::thunderstorm::ThunderstormSystem;
use weathr::render::{QueuedWrite, TerminalRenderer};

fn drain(r: &mut TerminalRenderer) -> Vec<QueuedWrite> {
    r.flush().writes
}

#[test]
fn raindrop_positions_stay_in_bounds() {
    let (w, h): (u16, u16) = (13, 7);
    let mut sys = RaindropSystem::new(w, h);
    let mut r = TerminalRenderer::new(w, h);
    for _ in 0..200 {
        sys.update(w, h);
        sys.render(&mut r);
        for write in drain(&mut r) {
            assert!(write.x < w && write.y < h, "({}, {})", write.x, write.y);
        }
    }
}

#[test]
fn cloud_and_bird_positions_stay_in_bounds() {
    let (w, h): (u16, u16) = (41, 19);
    let mut clouds = CloudSystem::new(w, h);
    let mut birds = BirdSystem::new(w, h);
    let mut r = TerminalRenderer::new(w, h);
    for _ in 0..200 {
        clouds.update(w, h);
        birds.update(w, h);
        clouds.render(&mut r);
        birds.render(&mut r);
        for write in drain(&mut r) {
            assert!(write.x < w && write.y < h, "({}, {})", write.x, write.y);
        }
    }
}

#[test]
fn storm_positions_stay_in_bounds() {
    let (w, h): (u16, u16) = (23, 11);
    let mut sys = ThunderstormSystem::new(w, h);
    let mut r = TerminalRenderer::new(w, h);
    for _ in 0..100 {
        sys.update(w, h);
        sys.render(&mut r);
        for write in drain(&mut r) {
            assert!(write.x < w && write.y < h, "({}, {})", write.x, write.y);
        }
    }
}

#[test]
fn resize_repopulates_from_new_dimensions() {
    let mut sys = RaindropSystem::new(10, 10);
    let mut r = TerminalRenderer::new(10, 10);
    sys.update(10, 10);
    sys.render(&mut r);
    assert_eq!(drain(&mut r).len(), 10 * 10 / 40);
    sys.update(20, 10);
    sys.render(&mut r);
    assert_eq!(drain(&mut r).len(), 20 * 10 / 40);

    let mut clouds = CloudSystem::new(40, 40);
    clouds.update(80, 40);
    clouds.render(&mut r);
    assert_eq!(drain(&mut r).len(), 80 * 40 / 160);

    let mut storm = ThunderstormSystem::new(30, 10);
    storm.update(30, 20);
    storm.render(&mut r);
    // 30 * 20 / 30 drops, plus the bolt: the resize reset the flash
    // counter to 0, which is inside the flash window
    assert_eq!(drain(&mut r).len(), 20 + 3);
}

#[test]
fn raindrops_follow_the_deterministic_formulas() {
    let (w, h): (u16, u16) = (10, 10);
    let count = (w as usize * h as usize) / 40;
    // mirror of the seeding and stepping rules, in tenths of a cell
    let mut xs: Vec<u64> = (0..count as u64).map(|i| (i * 7) % w as u64).collect();
    let mut ys: Vec<u64> = (0..count as u64).map(|i| (i * 37) % (h as u64 * 10)).collect();
    let speeds: Vec<u64> = (0..count as u64).map(|i| 3 + i % 5).collect();
    let mut sys = RaindropSystem::new(w, h);
    let mut r = TerminalRenderer::new(w, h);
    for _ in 0..80 {
        sys.update(w, h);
        for i in 0..count {
            if ys[i] + speeds[i] >= h as u64 * 10 {
                ys[i] = 0;
                xs[i] = (xs[i] * 13 + 7) % w as u64;
            } else {
                ys[i] += speeds[i];
            }
        }
        sys.render(&mut r);
        let writes = drain(&mut r);
        assert_eq!(writes.len(), count);
        for i in 0..count {
            assert_eq!(writes[i].x as u64, xs[i]);
            assert_eq!(writes[i].y as u64, ys[i] / 10);
        }
    }
}

#[test]
fn vertical_wrap_resets_to_top_with_remapped_column() {
    let (w, h): (u16, u16) = (10, 10);
    let mut sys = RaindropSystem::new(w, h);
    let mut r = TerminalRenderer::new(w, h);
    // drop 0 starts at (0, 0) with speed 0.3 cells per tick; after 33
    // ticks it sits at y = 9.9; the 34th crosses the bottom edge
    for _ in 0..33 {
        sys.update(w, h);
    }
    sys.render(&mut r);
    let before = drain(&mut r);
    assert_eq!(before[0].y, 9);
    assert_eq!(before[0].x, 0);
    sys.update(w, h);
    sys.render(&mut r);
    let after = drain(&mut r);
    assert_eq!(after[0].y, 0, "wrapped back to the top row");
    assert_eq!(after[0].x, (0 * 13 + 7) % w, "column remapped, not kept");
}

#[test]
fn clouds_follow_the_deterministic_formulas() {
    let (w, h): (u16, u16) = (20, 16);
    let count = (w as usize * h as usize) / 160;
    // mirror of the seeding and stepping rules, in tenths of a cell
    let mut xs: Vec<u64> = (0..count as u64).map(|i| (i * 53) % (w as u64 * 10)).collect();
    let mut ys: Vec<u64> = (0..count as u64).map(|i| (i * 11) % h as u64).collect();
    let speeds: Vec<u64> = (0..count as u64).map(|i| 1 + i % 3).collect();
    let mut sys = CloudSystem::new(w, h);
    let mut r = TerminalRenderer::new(w, h);
    for _ in 0..300 {
        sys.update(w, h);
        for i in 0..count {
            if xs[i] + speeds[i] >= w as u64 * 10 {
                xs[i] = 0;
                ys[i] = (ys[i] * 13 + 7) % h as u64;
            } else {
                xs[i] += speeds[i];
            }
        }
        sys.render(&mut r);
        let writes = drain(&mut r);
        assert_eq!(writes.len(), count);
        for i in 0..count {
            assert_eq!(writes[i].x as u64, xs[i] / 10);
            assert_eq!(writes[i].y as u64, ys[i]);
        }
    }
}

#[test]
fn tiny_viewports_hold_no_particles() {
    let mut r = TerminalRenderer::new(1, 1);
    let mut rain = RaindropSystem::new(1, 1);
    let mut clouds = CloudSystem::new(1, 1);
    let mut birds = BirdSystem::new(1, 1);
    let mut storm = ThunderstormSystem::new(1, 1);
    for _ in 0..5 {
        rain.update(1, 1);
        clouds.update(1, 1);
        birds.update(1, 1);
        storm.update(1, 1);
        rain.render(&mut r);
        clouds.render(&mut r);
        birds.render(&mut r);
        storm.render(&mut r);
        // no particle fits one cell per the density formulas, and the
        // bolt needs a taller viewport
        assert!(drain(&mut r).is_empty());
    }
}

#[test]
fn frame_cycle_wraps() {
    let anim = SunnyAnimation::new();
    assert_eq!(anim.frame_count(), 2);
    let mut ctl = AnimationController::new();
    ctl.next_frame(&anim);
    ctl.next_frame(&anim);
    // two frames: two steps return to the first frame
    let mut r = TerminalRenderer::new(80, 24);
    ctl.render_frame(&mut r, &anim, 3);
    let writes_a = drain(&mut r);
    let fresh = AnimationController::new();
    fresh.render_frame(&mut r, &anim, 3);
    let writes_b = drain(&mut r);
    assert_eq!(writes_a.len(), writes_b.len());
}
