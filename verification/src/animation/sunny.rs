use vstd::prelude::*;

use crate::render::TerminalRenderer;

verus! {

/// The sunny scene's art: an ordered cycle of pre-rendered frames, each
/// a small block of lines.  It holds no particles; motion comes from
/// stepping through the cycle on a slower timer than the main tick.
pub struct SunnyAnimation {
    frames: Vec<Vec<String>>,
}

impl SunnyAnimation {
    pub closed spec fn spec_frames(self) -> Seq<Seq<String>> {
        self.frames@.map_values(|f: Vec<String>| f@)
    }

    /// There is at least one frame and every frame is a short block, so
    /// a frame can always be drawn and row arithmetic cannot overflow.
    pub open spec fn wf(self) -> bool {
        &&& self.spec_frames().len() > 0
        &&& forall|i: int| 0 <= i < self.spec_frames().len()
            ==> #[trigger] self.spec_frames()[i].len() <= 16
    }

    pub fn new() -> (r: Self)
        ensures
            r.wf(),
            r.spec_frames().len() == 2,
    {
        let mut f0: Vec<String> = Vec::new();
        f0.push("   \\ | /   ".to_owned());
        f0.push("  -- O --  ".to_owned());
        f0.push("   / | \\   ".to_owned());
        let mut f1: Vec<String> = Vec::new();
        f1.push("    \\|/    ".to_owned());
        f1.push("  --- O ---".to_owned());
        f1.push("    /|\\    ".to_owned());
        let mut frames: Vec<Vec<String>> = Vec::new();
        frames.push(f0);
        frames.push(f1);
        let r = SunnyAnimation { frames };
        proof {
            assert(r.spec_frames().len() == 2);
            assert(r.spec_frames()[0].len() == 3);
            assert(r.spec_frames()[1].len() == 3);
            assert forall|i: int| 0 <= i < r.spec_frames().len()
                implies #[trigger] r.spec_frames()[i].len() <= 16 by {
                assert(i == 0 || i == 1);
            }
        }
        r
    }

    pub fn frame_count(&self) -> (r: usize)
        ensures
            r == self.spec_frames().len(),
    {
        self.frames.len()
    }

    fn frame(&self, i: usize) -> (r: &Vec<String>)
        requires
            i < self.spec_frames().len(),
        ensures
            r@ == self.spec_frames()[i as int],
    {
        &self.frames[i]
    }
}

/// Steps a frame cycle: it remembers which frame is current and advances
/// it one step at a time, wrapping at the end of the cycle.
pub struct AnimationController {
    frame_index: usize,
}

impl AnimationController {
    pub closed spec fn spec_frame_index(self) -> usize {
        self.frame_index
    }

    pub fn new() -> (r: Self)
        ensures
            r.spec_frame_index() == 0,
    {
        AnimationController { frame_index: 0 }
    }

    /// Advance to the next frame of the cycle.
    pub fn next_frame(&mut self, anim: &SunnyAnimation)
        requires
            anim.wf(),
            old(self).spec_frame_index() < anim.spec_frames().len(),
        ensures
            final(self).spec_frame_index() < anim.spec_frames().len(),
            final(self).spec_frame_index() == (old(self).spec_frame_index() + 1) % (
            anim.spec_frames().len() as int),
    {
        let count: usize = anim.frame_count();
        self.frame_index = (self.frame_index + 1) % count;
    }

    /// Queue the current frame, horizontally centered, starting at the
    /// given row.  An index that has outlived its cycle wraps.
    pub fn render_frame(&self, renderer: &mut TerminalRenderer, anim: &SunnyAnimation, start_row: u16)
        requires
            anim.wf(),
            start_row <= 65519,
        ensures
            final(renderer).spec_width() == old(renderer).spec_width(),
            final(renderer).spec_height() == old(renderer).spec_height(),
            final(renderer).spec_clear_pending() == old(renderer).spec_clear_pending(),
            ({
                let frame = anim.spec_frames()[self.spec_frame_index() as int % (
                anim.spec_frames().len() as int)];
                let base: int = old(renderer).spec_queued().len() as int;
                &&& final(renderer).spec_queued().len() == base + frame.len()
                &&& final(renderer).spec_queued().take(base) == old(renderer).spec_queued()
                &&& forall|i: int| 0 <= i < frame.len() ==> {
                    let w = #[trigger] final(renderer).spec_queued()[base + i];
                    &&& w.x == crate::render::spec_centered_col(
                        old(renderer).spec_width(),
                        frame.map_values(|s: String| s@),
                    )
                    &&& w.y == start_row + i
                    &&& w.text.chars() == frame[i]@
                }
            }),
    {
        let idx: usize = self.frame_index % anim.frame_count();
        let lines: &Vec<String> = anim.frame(idx);
        renderer.render_centered(lines, start_row);
    }
}

} // verus!
