use vstd::prelude::*;

use crate::render::{GlyphColor, TerminalRenderer, WriteText};

verus! {

/// One falling raindrop.  The vertical position accumulates in tenths of
/// a cell, so slow drops advance by fractions of a row per tick; the
/// cell a drop occupies is `y_tenths / 10`.
/// How one `update` call for viewport `(w, h)` evolves the system: a
/// changed viewport reseeds everything, an unchanged one steps each drop.
pub open spec fn spec_updated_raindrops(pre: RaindropSystem, post: RaindropSystem, w: u16, h: u16) -> bool {
    if pre.spec_width() != w || pre.spec_height() != h {
        post.is_seeded(w, h)
    } else {
        &&& post.spec_width() == w
        &&& post.spec_height() == h
        &&& post.spec_drops().len() == pre.spec_drops().len()
        &&& forall|i: int| 0 <= i < pre.spec_drops().len()
            ==> #[trigger] post.spec_drops()[i] == spec_step_drop(pre.spec_drops()[i], w, h)
    }
}

#[derive(Clone, Copy, PartialEq, Eq, Structural, Debug)]
pub struct Raindrop {
    pub x: u16,
    pub y_tenths: u32,
    pub speed_tenths: u32,
    pub glyph: char,
}

/// How many drops a viewport of the given size holds: one per 40 cells.
pub open spec fn spec_drop_count(w: u16, h: u16) -> int {
    (w as int * h as int) / 40
}

/// The glyph a drop gets from its index.
pub open spec fn spec_drop_glyph(i: int) -> char {
    if i % 4 == 0 {
        '|'
    } else if i % 4 == 1 {
        '\''
    } else if i % 4 == 2 {
        '.'
    } else {
        '`'
    }
}

/// The drop the deterministic seeding formulas give to index `i` in a
/// `w` by `h` viewport: positions and speeds come from the index alone,
/// so a population is reproducible for a given viewport size.
pub open spec fn spec_seed_drop(i: int, w: u16, h: u16) -> Raindrop {
    Raindrop {
        x: ((i * 7) % (w as int)) as u16,
        y_tenths: ((i * 37) % (h as int * 10)) as u32,
        speed_tenths: (3 + i % 5) as u32,
        glyph: spec_drop_glyph(i),
    }
}

/// One tick of fall: the drop advances by its speed; a drop that would
/// leave the bottom restarts at the top row and re-enters in a column
/// remapped from its old one, so drops do not re-enter in one band.
pub open spec fn spec_step_drop(d: Raindrop, w: u16, h: u16) -> Raindrop {
    if d.y_tenths + d.speed_tenths >= h as int * 10 {
        Raindrop {
            x: ((d.x as int * 13 + 7) % (w as int)) as u16,
            y_tenths: 0,
            speed_tenths: d.speed_tenths,
            glyph: d.glyph,
        }
    } else {
        Raindrop {
            x: d.x,
            y_tenths: (d.y_tenths + d.speed_tenths) as u32,
            speed_tenths: d.speed_tenths,
            glyph: d.glyph,
        }
    }
}

/// A drop whose vertical position would cross the bottom edge is reset
/// to the top row and re-enters in the deterministically remapped
/// column, which still lies inside the viewport; it is never left out
/// of bounds.
pub proof fn lemma_drop_wraps(d: Raindrop, w: u16, h: u16)
    requires
        w > 0,
        d.y_tenths + d.speed_tenths >= h as int * 10,
    ensures
        spec_step_drop(d, w, h).y_tenths == 0,
        spec_step_drop(d, w, h).x == ((d.x as int * 13 + 7) % (w as int)) as u16,
        spec_step_drop(d, w, h).x < w,
{
}

/// The precipitation layer: a population of drops, reseeded in full
/// whenever the viewport it was built for changes.
pub struct RaindropSystem {
    drops: Vec<Raindrop>,
    terminal_width: u16,
    terminal_height: u16,
}

impl RaindropSystem {
    /// The viewport the population was built for.
    pub closed spec fn spec_width(self) -> u16 {
        self.terminal_width
    }

    pub closed spec fn spec_height(self) -> u16 {
        self.terminal_height
    }

    pub closed spec fn spec_drops(self) -> Seq<Raindrop> {
        self.drops@
    }

    /// Every drop lies inside the cached viewport and falls at a sane
    /// speed, and the population has exactly the size the formula gives.
    pub open spec fn wf(self) -> bool {
        &&& self.spec_drops().len() == spec_drop_count(self.spec_width(), self.spec_height())
        &&& forall|i: int| 0 <= i < self.spec_drops().len() ==> {
            let d = #[trigger] self.spec_drops()[i];
            &&& d.x < self.spec_width()
            &&& d.y_tenths < self.spec_height() as int * 10
            &&& 3 <= d.speed_tenths <= 7
        }
    }

    /// The population is exactly what seeding a `w` by `h` viewport gives.
    pub open spec fn is_seeded(self, w: u16, h: u16) -> bool {
        &&& self.spec_width() == w
        &&& self.spec_height() == h
        &&& self.spec_drops().len() == spec_drop_count(w, h)
        &&& forall|i: int| 0 <= i < self.spec_drops().len()
            ==> #[trigger] self.spec_drops()[i] == spec_seed_drop(i, w, h)
    }

    pub fn new(terminal_width: u16, terminal_height: u16) -> (r: Self)
        ensures
            r.is_seeded(terminal_width, terminal_height),
            r.wf(),
    {
        proof {
            assert((terminal_width as int) * (terminal_height as int) <= 65535 * 65535)
                by (nonlinear_arith)
                requires
                    terminal_width <= 65535,
                    terminal_height <= 65535,
            ;
        }
        let area: u64 = (terminal_width as u64) * (terminal_height as u64);
        let drop_count: usize = (area / 40) as usize;
        let mut drops: Vec<Raindrop> = Vec::new();
        let mut i: usize = 0;
        while i < drop_count
            invariant
                drop_count == spec_drop_count(terminal_width, terminal_height),
                drop_count <= 107370905,
                0 <= i <= drop_count,
                drop_count > 0 ==> terminal_width > 0 && terminal_height > 0,
                drops@.len() == i,
                forall|j: int| 0 <= j < i
                    ==> #[trigger] drops@[j] == spec_seed_drop(j, terminal_width, terminal_height),
            decreases drop_count - i,
        {
            let x: u16 = (((i as u64) * 7) % (terminal_width as u64)) as u16;
            let y_tenths: u32 = (((i as u64) * 37) % ((terminal_height as u64) * 10)) as u32;
            let speed_tenths: u32 = 3 + ((i as u32) % 5);
            let glyph: char = if i % 4 == 0 {
                '|'
            } else if i % 4 == 1 {
                '\''
            } else if i % 4 == 2 {
                '.'
            } else {
                '`'
            };
            drops.push(Raindrop { x, y_tenths, speed_tenths, glyph });
            i = i + 1;
        }
        RaindropSystem { drops, terminal_width, terminal_height }
    }

    /// Advance every drop one tick.  A viewport that differs from the
    /// cached one discards the whole population and reseeds it from the
    /// new dimensions; otherwise each drop steps by its speed, wrapping
    /// from the bottom edge back to the top.
    pub fn update(&mut self, terminal_width: u16, terminal_height: u16)
        requires
            old(self).wf(),
        ensures
            final(self).wf(),
            final(self).spec_width() == terminal_width,
            final(self).spec_height() == terminal_height,
            spec_updated_raindrops(*old(self), *final(self), terminal_width, terminal_height),
            (old(self).spec_width() != terminal_width || old(self).spec_height()
                != terminal_height) ==> final(self).is_seeded(terminal_width, terminal_height),
            (old(self).spec_width() == terminal_width && old(self).spec_height()
                == terminal_height) ==> {
                &&& final(self).spec_drops().len() == old(self).spec_drops().len()
                &&& forall|i: int| 0 <= i < old(self).spec_drops().len()
                    ==> #[trigger] final(self).spec_drops()[i] == spec_step_drop(
                        old(self).spec_drops()[i],
                        terminal_width,
                        terminal_height,
                    )
            },
    {
        if self.terminal_width != terminal_width || self.terminal_height != terminal_height {
            *self = Self::new(terminal_width, terminal_height);
            return ;
        }
        let n: usize = self.drops.len();
        let mut i: usize = 0;
        while i < n
            invariant
                0 <= i <= n,
                self.terminal_width == terminal_width,
                self.terminal_height == terminal_height,
                old(self).spec_width() == terminal_width,
                old(self).spec_height() == terminal_height,
                n == old(self).spec_drops().len(),
                self.drops@.len() == n,
                old(self).wf(),
                forall|j: int| i <= j < n ==> #[trigger] self.drops@[j]
                    == old(self).spec_drops()[j],
                forall|j: int| 0 <= j < i ==> #[trigger] self.drops@[j] == spec_step_drop(
                    old(self).spec_drops()[j],
                    terminal_width,
                    terminal_height,
                ),
            decreases n - i,
        {
            let d: Raindrop = self.drops[i];
            assert(d == old(self).spec_drops()[i as int]);
            let limit: u32 = (terminal_height as u32) * 10;
            let next: u32 = d.y_tenths + d.speed_tenths;
            if next >= limit {
                let new_x: u16 = ((((d.x as u64) * 13) + 7) % (terminal_width as u64)) as u16;
                self.drops.set(
                    i,
                    Raindrop { x: new_x, y_tenths: 0, speed_tenths: d.speed_tenths, glyph: d.glyph },
                );
            } else {
                self.drops.set(
                    i,
                    Raindrop { x: d.x, y_tenths: next, speed_tenths: d.speed_tenths, glyph: d.glyph },
                );
            }
            i = i + 1;
        }
    }

    /// Queue one glyph per drop at its current cell.  Only drops inside
    /// the viewport are drawn; none is clamped onto an edge.
    pub fn render(&self, renderer: &mut TerminalRenderer)
        requires
            self.wf(),
        ensures
            final(renderer).spec_width() == old(renderer).spec_width(),
            final(renderer).spec_height() == old(renderer).spec_height(),
            final(renderer).spec_clear_pending() == old(renderer).spec_clear_pending(),
            final(renderer).spec_queued().len() == old(renderer).spec_queued().len()
                + self.spec_drops().len(),
            final(renderer).spec_queued().take(old(renderer).spec_queued().len() as int)
                == old(renderer).spec_queued(),
            forall|i: int| 0 <= i < self.spec_drops().len() ==> {
                let w = #[trigger] final(renderer).spec_queued()[old(
                    renderer,
                ).spec_queued().len() + i];
                let d = self.spec_drops()[i];
                &&& w.x == d.x
                &&& w.y == d.y_tenths as int / 10
                &&& w.x < self.spec_width()
                &&& w.y < self.spec_height()
                &&& w.text == WriteText::Glyph(d.glyph)
                &&& w.color == GlyphColor::Cyan
            },
    {
        let n: usize = self.drops.len();
        let mut i: usize = 0;
        while i < n
            invariant
                0 <= i <= n,
                n == self.spec_drops().len(),
                self.wf(),
                renderer.spec_width() == old(renderer).spec_width(),
                renderer.spec_height() == old(renderer).spec_height(),
                renderer.spec_clear_pending() == old(renderer).spec_clear_pending(),
                renderer.spec_queued().len() == old(renderer).spec_queued().len() + i,
                renderer.spec_queued().take(old(renderer).spec_queued().len() as int)
                    == old(renderer).spec_queued(),
                forall|j: int| 0 <= j < i ==> {
                    let w = #[trigger] renderer.spec_queued()[old(renderer).spec_queued().len()
                        + j];
                    let d = self.spec_drops()[j];
                    &&& w.x == d.x
                    &&& w.y == d.y_tenths as int / 10
                    &&& w.x < self.spec_width()
                    &&& w.y < self.spec_height()
                    &&& w.text == WriteText::Glyph(d.glyph)
                    &&& w.color == GlyphColor::Cyan
                },
            decreases n - i,
        {
            let d: Raindrop = self.drops[i];
            let y: u16 = (d.y_tenths / 10) as u16;
            if y < self.terminal_height && d.x < self.terminal_width {
                renderer.render_char(d.x, y, d.glyph, GlyphColor::Cyan);
            }
            i = i + 1;
        }
    }
}

} // verus!
