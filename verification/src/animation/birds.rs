use vstd::prelude::*;

use crate::render::{GlyphColor, TerminalRenderer, WriteText};

verus! {

/// One bird gliding across the sky.  The horizontal position accumulates
/// in tenths of a cell; the cell a bird occupies is `x_tenths / 10`.
/// How one `update` call for viewport `(w, h)` evolves the system: a
/// changed viewport reseeds everything, an unchanged one steps each bird.
pub open spec fn spec_updated_birds(pre: BirdSystem, post: BirdSystem, w: u16, h: u16) -> bool {
    if pre.spec_width() != w || pre.spec_height() != h {
        post.is_seeded(w, h)
    } else {
        &&& post.spec_width() == w
        &&& post.spec_height() == h
        &&& post.spec_birds().len() == pre.spec_birds().len()
        &&& forall|i: int| 0 <= i < pre.spec_birds().len()
            ==> #[trigger] post.spec_birds()[i] == spec_step_bird(pre.spec_birds()[i], w, h)
    }
}

#[derive(Clone, Copy, PartialEq, Eq, Structural, Debug)]
pub struct Bird {
    pub x_tenths: u32,
    pub y: u16,
    pub speed_tenths: u32,
    pub glyph: char,
}

/// How many birds a viewport of the given size holds: one per 400 cells,
/// the sparsest population of the layers.
pub open spec fn spec_bird_count(w: u16, h: u16) -> int {
    (w as int * h as int) / 400
}

pub open spec fn spec_bird_glyph(i: int) -> char {
    if i % 2 == 0 {
        'v'
    } else {
        'w'
    }
}

/// The bird the deterministic seeding formulas give to index `i`.
pub open spec fn spec_seed_bird(i: int, w: u16, h: u16) -> Bird {
    Bird {
        x_tenths: ((i * 29) % (w as int * 10)) as u32,
        y: ((i * 17) % (h as int)) as u16,
        speed_tenths: (5 + i % 4) as u32,
        glyph: spec_bird_glyph(i),
    }
}

/// One tick of flight: the bird advances rightwards by its speed; one
/// that would leave the right edge re-enters at the left edge on a row
/// remapped from its old one.
pub open spec fn spec_step_bird(b: Bird, w: u16, h: u16) -> Bird {
    if b.x_tenths + b.speed_tenths >= w as int * 10 {
        Bird {
            x_tenths: 0,
            y: ((b.y as int * 13 + 7) % (h as int)) as u16,
            speed_tenths: b.speed_tenths,
            glyph: b.glyph,
        }
    } else {
        Bird {
            x_tenths: (b.x_tenths + b.speed_tenths) as u32,
            y: b.y,
            speed_tenths: b.speed_tenths,
            glyph: b.glyph,
        }
    }
}

/// The bird layer, active when neither rain nor storm is: quick sparse
/// gliders, reseeded in full whenever the viewport changes.
pub struct BirdSystem {
    birds: Vec<Bird>,
    terminal_width: u16,
    terminal_height: u16,
}

impl BirdSystem {
    pub closed spec fn spec_width(self) -> u16 {
        self.terminal_width
    }

    pub closed spec fn spec_height(self) -> u16 {
        self.terminal_height
    }

    pub closed spec fn spec_birds(self) -> Seq<Bird> {
        self.birds@
    }

    pub open spec fn wf(self) -> bool {
        &&& self.spec_birds().len() == spec_bird_count(self.spec_width(), self.spec_height())
        &&& forall|i: int| 0 <= i < self.spec_birds().len() ==> {
            let b = #[trigger] self.spec_birds()[i];
            &&& b.x_tenths < self.spec_width() as int * 10
            &&& b.y < self.spec_height()
            &&& 5 <= b.speed_tenths <= 8
        }
    }

    pub open spec fn is_seeded(self, w: u16, h: u16) -> bool {
        &&& self.spec_width() == w
        &&& self.spec_height() == h
        &&& self.spec_birds().len() == spec_bird_count(w, h)
        &&& forall|i: int| 0 <= i < self.spec_birds().len()
            ==> #[trigger] self.spec_birds()[i] == spec_seed_bird(i, w, h)
    }

    pub fn new(terminal_width: u16, terminal_height: u16) -> (r: Self)
        ensures
            r.is_seeded(terminal_width, terminal_height),
            r.wf(),
    {
        proof {
            assert((terminal_width as int) * (terminal_height as int) <= 65535 * 65535)
                by (nonlinear_arith)
                requires
                    terminal_width <= 65535,
                    terminal_height <= 65535,
            ;
        }
        let area: u64 = (terminal_width as u64) * (terminal_height as u64);
        let bird_count: usize = (area / 400) as usize;
        let mut birds: Vec<Bird> = Vec::new();
        let mut i: usize = 0;
        while i < bird_count
            invariant
                bird_count == spec_bird_count(terminal_width, terminal_height),
                bird_count <= 10737090,
                0 <= i <= bird_count,
                bird_count > 0 ==> terminal_width > 0 && terminal_height > 0,
                birds@.len() == i,
                forall|j: int| 0 <= j < i
                    ==> #[trigger] birds@[j] == spec_seed_bird(j, terminal_width, terminal_height),
            decreases bird_count - i,
        {
            let x_tenths: u32 = (((i as u64) * 29) % ((terminal_width as u64) * 10)) as u32;
            let y: u16 = (((i as u64) * 17) % (terminal_height as u64)) as u16;
            let speed_tenths: u32 = 5 + ((i as u32) % 4);
            let glyph: char = if i % 2 == 0 {
                'v'
            } else {
                'w'
            };
            birds.push(Bird { x_tenths, y, speed_tenths, glyph });
            i = i + 1;
        }
        BirdSystem { birds, terminal_width, terminal_height }
    }

    /// Advance every bird one tick, reseeding the whole population when
    /// the viewport changed.
    pub fn update(&mut self, terminal_width: u16, terminal_height: u16)
        requires
            old(self).wf(),
        ensures
            final(self).wf(),
            final(self).spec_width() == terminal_width,
            final(self).spec_height() == terminal_height,
            spec_updated_birds(*old(self), *final(self), terminal_width, terminal_height),
            (old(self).spec_width() != terminal_width || old(self).spec_height()
                != terminal_height) ==> final(self).is_seeded(terminal_width, terminal_height),
            (old(self).spec_width() == terminal_width && old(self).spec_height()
                == terminal_height) ==> {
                &&& final(self).spec_birds().len() == old(self).spec_birds().len()
                &&& forall|i: int| 0 <= i < old(self).spec_birds().len()
                    ==> #[trigger] final(self).spec_birds()[i] == spec_step_bird(
                        old(self).spec_birds()[i],
                        terminal_width,
                        terminal_height,
                    )
            },
    {
        if self.terminal_width != terminal_width || self.terminal_height != terminal_height {
            *self = Self::new(terminal_width, terminal_height);
            return ;
        }
        let n: usize = self.birds.len();
        let mut i: usize = 0;
        while i < n
            invariant
                0 <= i <= n,
                self.terminal_width == terminal_width,
                self.terminal_height == terminal_height,
                old(self).spec_width() == terminal_width,
                old(self).spec_height() == terminal_height,
                n == old(self).spec_birds().len(),
                self.birds@.len() == n,
                old(self).wf(),
                forall|j: int| i <= j < n ==> #[trigger] self.birds@[j]
                    == old(self).spec_birds()[j],
                forall|j: int| 0 <= j < i ==> #[trigger] self.birds@[j] == spec_step_bird(
                    old(self).spec_birds()[j],
                    terminal_width,
                    terminal_height,
                ),
            decreases n - i,
        {
            let b: Bird = self.birds[i];
            assert(b == old(self).spec_birds()[i as int]);
            let limit: u32 = (terminal_width as u32) * 10;
            let next: u32 = b.x_tenths + b.speed_tenths;
            if next >= limit {
                let new_y: u16 = ((((b.y as u64) * 13) + 7) % (terminal_height as u64)) as u16;
                self.birds.set(
                    i,
                    Bird { x_tenths: 0, y: new_y, speed_tenths: b.speed_tenths, glyph: b.glyph },
                );
            } else {
                self.birds.set(
                    i,
                    Bird { x_tenths: next, y: b.y, speed_tenths: b.speed_tenths, glyph: b.glyph },
                );
            }
            i = i + 1;
        }
    }

    /// Queue one glyph per bird at its current cell; only birds inside
    /// the viewport are drawn.
    pub fn render(&self, renderer: &mut TerminalRenderer)
        requires
            self.wf(),
        ensures
            final(renderer).spec_width() == old(renderer).spec_width(),
            final(renderer).spec_height() == old(renderer).spec_height(),
            final(renderer).spec_clear_pending() == old(renderer).spec_clear_pending(),
            final(renderer).spec_queued().len() == old(renderer).spec_queued().len()
                + self.spec_birds().len(),
            final(renderer).spec_queued().take(old(renderer).spec_queued().len() as int)
                == old(renderer).spec_queued(),
            forall|i: int| 0 <= i < self.spec_birds().len() ==> {
                let w = #[trigger] final(renderer).spec_queued()[old(
                    renderer,
                ).spec_queued().len() + i];
                let b = self.spec_birds()[i];
                &&& w.x == b.x_tenths as int / 10
                &&& w.y == b.y
                &&& w.x < self.spec_width()
                &&& w.y < self.spec_height()
                &&& w.text == WriteText::Glyph(b.glyph)
                &&& w.color == GlyphColor::DarkGrey
            },
    {
        let n: usize = self.birds.len();
        let mut i: usize = 0;
        while i < n
            invariant
                0 <= i <= n,
                n == self.spec_birds().len(),
                self.wf(),
                renderer.spec_width() == old(renderer).spec_width(),
                renderer.spec_height() == old(renderer).spec_height(),
                renderer.spec_clear_pending() == old(renderer).spec_clear_pending(),
                renderer.spec_queued().len() == old(renderer).spec_queued().len() + i,
                renderer.spec_queued().take(old(renderer).spec_queued().len() as int)
                    == old(renderer).spec_queued(),
                forall|j: int| 0 <= j < i ==> {
                    let w = #[trigger] renderer.spec_queued()[old(renderer).spec_queued().len()
                        + j];
                    let b = self.spec_birds()[j];
                    &&& w.x == b.x_tenths as int / 10
                    &&& w.y == b.y
                    &&& w.x < self.spec_width()
                    &&& w.y < self.spec_height()
                    &&& w.text == WriteText::Glyph(b.glyph)
                    &&& w.color == GlyphColor::DarkGrey
                },
            decreases n - i,
        {
            let b: Bird = self.birds[i];
            let x: u16 = (b.x_tenths / 10) as u16;
            if x < self.terminal_width && b.y < self.terminal_height {
                renderer.render_char(x, b.y, b.glyph, GlyphColor::DarkGrey);
            }
            i = i + 1;
        }
    }
}

} // verus!
