use vstd::prelude::*;

use crate::render::{GlyphColor, QueuedWrite, TerminalRenderer, WriteText};

verus! {

/// One storm raindrop; vertical position in tenths of a cell.
/// How one `update` call for viewport `(w, h)` evolves the system: a
/// changed viewport reseeds everything (flash counter included), an
/// unchanged one steps each drop and advances the counter.
pub open spec fn spec_updated_storm(pre: ThunderstormSystem, post: ThunderstormSystem, w: u16, h: u16) -> bool {
    if pre.spec_width() != w || pre.spec_height() != h {
        post.is_seeded(w, h)
    } else {
        &&& post.spec_width() == w
        &&& post.spec_height() == h
        &&& post.spec_tick() == (pre.spec_tick() + 1) % 1200
        &&& post.spec_drops().len() == pre.spec_drops().len()
        &&& forall|i: int| 0 <= i < pre.spec_drops().len()
            ==> #[trigger] post.spec_drops()[i] == spec_step_storm_drop(pre.spec_drops()[i], w, h)
    }
}

#[derive(Clone, Copy, PartialEq, Eq, Structural, Debug)]
pub struct StormDrop {
    pub x: u16,
    pub y_tenths: u32,
    pub speed_tenths: u32,
    pub glyph: char,
}

/// How many drops a storm holds: one per 30 cells, denser than rain.
pub open spec fn spec_storm_drop_count(w: u16, h: u16) -> int {
    (w as int * h as int) / 30
}

pub open spec fn spec_storm_glyph(i: int) -> char {
    if i % 3 == 0 {
        '|'
    } else if i % 3 == 1 {
        '!'
    } else {
        ':'
    }
}

/// The drop the deterministic seeding formulas give to index `i`.
pub open spec fn spec_seed_storm_drop(i: int, w: u16, h: u16) -> StormDrop {
    StormDrop {
        x: ((i * 7) % (w as int)) as u16,
        y_tenths: ((i * 37) % (h as int * 10)) as u32,
        speed_tenths: (4 + i % 5) as u32,
        glyph: spec_storm_glyph(i),
    }
}

/// One tick of fall, wrapping from the bottom edge back to the top with
/// a remapped column.
pub open spec fn spec_step_storm_drop(d: StormDrop, w: u16, h: u16) -> StormDrop {
    if d.y_tenths + d.speed_tenths >= h as int * 10 {
        StormDrop {
            x: ((d.x as int * 13 + 7) % (w as int)) as u16,
            y_tenths: 0,
            speed_tenths: d.speed_tenths,
            glyph: d.glyph,
        }
    } else {
        StormDrop {
            x: d.x,
            y_tenths: (d.y_tenths + d.speed_tenths) as u32,
            speed_tenths: d.speed_tenths,
            glyph: d.glyph,
        }
    }
}

/// The flash sub-state is one counter: during the first 3 ticks of every
/// run of 40 the bolt is visible.
pub open spec fn spec_flash_visible(tick: u32) -> bool {
    tick % 40 < 3
}

/// The column the bolt strikes in: remapped once per run of 40 ticks so
/// successive flashes move across the viewport.
pub open spec fn spec_flash_col(tick: u32, w: u16) -> u16 {
    (((tick as int / 40) * 13 + (w as int / 2)) % (w as int)) as u16
}

/// A storm drop whose vertical position would cross the bottom edge is
/// reset to the top row with a remapped in-bounds column, never left
/// out of bounds.
pub proof fn lemma_storm_drop_wraps(d: StormDrop, w: u16, h: u16)
    requires
        w > 0,
        d.y_tenths + d.speed_tenths >= h as int * 10,
    ensures
        spec_step_storm_drop(d, w, h).y_tenths == 0,
        spec_step_storm_drop(d, w, h).x == ((d.x as int * 13 + 7) % (w as int)) as u16,
        spec_step_storm_drop(d, w, h).x < w,
{
}

/// The storm layer: dense fast rain plus a low-frequency lightning
/// flash gated by an internal counter.
pub struct ThunderstormSystem {
    drops: Vec<StormDrop>,
    tick: u32,
    terminal_width: u16,
    terminal_height: u16,
}

impl ThunderstormSystem {
    pub closed spec fn spec_width(self) -> u16 {
        self.terminal_width
    }

    pub closed spec fn spec_height(self) -> u16 {
        self.terminal_height
    }

    pub closed spec fn spec_drops(self) -> Seq<StormDrop> {
        self.drops@
    }

    /// The flash counter; it cycles below 1200.
    pub closed spec fn spec_tick(self) -> u32 {
        self.tick
    }

    /// Whether a render now would draw the bolt: the counter gates it,
    /// and a viewport shorter than the bolt suppresses it.
    pub open spec fn spec_bolt_shown(self) -> bool {
        spec_flash_visible(self.spec_tick()) && self.spec_height() > 4 && self.spec_width() > 0
    }

    pub open spec fn wf(self) -> bool {
        &&& self.spec_drops().len() == spec_storm_drop_count(
            self.spec_width(),
            self.spec_height(),
        )
        &&& self.spec_tick() < 1200
        &&& forall|i: int| 0 <= i < self.spec_drops().len() ==> {
            let d = #[trigger] self.spec_drops()[i];
            &&& d.x < self.spec_width()
            &&& d.y_tenths < self.spec_height() as int * 10
            &&& 4 <= d.speed_tenths <= 8
        }
    }

    pub open spec fn is_seeded(self, w: u16, h: u16) -> bool {
        &&& self.spec_width() == w
        &&& self.spec_height() == h
        &&& self.spec_tick() == 0
        &&& self.spec_drops().len() == spec_storm_drop_count(w, h)
        &&& forall|i: int| 0 <= i < self.spec_drops().len()
            ==> #[trigger] self.spec_drops()[i] == spec_seed_storm_drop(i, w, h)
    }

    pub fn new(terminal_width: u16, terminal_height: u16) -> (r: Self)
        ensures
            r.is_seeded(terminal_width, terminal_height),
            r.wf(),
    {
        proof {
            assert((terminal_width as int) * (terminal_height as int) <= 65535 * 65535)
                by (nonlinear_arith)
                requires
                    terminal_width <= 65535,
                    terminal_height <= 65535,
            ;
        }
        let area: u64 = (terminal_width as u64) * (terminal_height as u64);
        let drop_count: usize = (area / 30) as usize;
        let mut drops: Vec<StormDrop> = Vec::new();
        let mut i: usize = 0;
        while i < drop_count
            invariant
                drop_count == spec_storm_drop_count(terminal_width, terminal_height),
                drop_count <= 143161207,
                0 <= i <= drop_count,
                drop_count > 0 ==> terminal_width > 0 && terminal_height > 0,
                drops@.len() == i,
                forall|j: int| 0 <= j < i ==> #[trigger] drops@[j] == spec_seed_storm_drop(
                    j,
                    terminal_width,
                    terminal_height,
                ),
            decreases drop_count - i,
        {
            let x: u16 = (((i as u64) * 7) % (terminal_width as u64)) as u16;
            let y_tenths: u32 = (((i as u64) * 37) % ((terminal_height as u64) * 10)) as u32;
            let speed_tenths: u32 = 4 + ((i as u32) % 5);
            let glyph: char = if i % 3 == 0 {
                '|'
            } else if i % 3 == 1 {
                '!'
            } else {
                ':'
            };
            drops.push(StormDrop { x, y_tenths, speed_tenths, glyph });
            i = i + 1;
        }
        ThunderstormSystem { drops, tick: 0, terminal_width, terminal_height }
    }

    /// Advance every drop one tick and the flash counter by one,
    /// reseeding everything (counter included) when the viewport changed.
    pub fn update(&mut self, terminal_width: u16, terminal_height: u16)
        requires
            old(self).wf(),
        ensures
            final(self).wf(),
            final(self).spec_width() == terminal_width,
            final(self).spec_height() == terminal_height,
            spec_updated_storm(*old(self), *final(self), terminal_width, terminal_height),
            (old(self).spec_width() != terminal_width || old(self).spec_height()
                != terminal_height) ==> final(self).is_seeded(terminal_width, terminal_height),
            (old(self).spec_width() == terminal_width && old(self).spec_height()
                == terminal_height) ==> {
                &&& final(self).spec_tick() == (old(self).spec_tick() + 1) % 1200
                &&& final(self).spec_drops().len() == old(self).spec_drops().len()
                &&& forall|i: int| 0 <= i < old(self).spec_drops().len()
                    ==> #[trigger] final(self).spec_drops()[i] == spec_step_storm_drop(
                        old(self).spec_drops()[i],
                        terminal_width,
                        terminal_height,
                    )
            },
    {
        if self.terminal_width != terminal_width || self.terminal_height != terminal_height {
            *self = Self::new(terminal_width, terminal_height);
            return ;
        }
        self.tick = (self.tick + 1) % 1200;
        let n: usize = self.drops.len();
        let mut i: usize = 0;
        while i < n
            invariant
                0 <= i <= n,
                self.terminal_width == terminal_width,
                self.terminal_height == terminal_height,
                old(self).spec_width() == terminal_width,
                old(self).spec_height() == terminal_height,
                self.tick == (old(self).spec_tick() + 1) % 1200,
                n == old(self).spec_drops().len(),
                self.drops@.len() == n,
                old(self).wf(),
                forall|j: int| i <= j < n ==> #[trigger] self.drops@[j]
                    == old(self).spec_drops()[j],
                forall|j: int| 0 <= j < i ==> #[trigger] self.drops@[j] == spec_step_storm_drop(
                    old(self).spec_drops()[j],
                    terminal_width,
                    terminal_height,
                ),
            decreases n - i,
        {
            let d: StormDrop = self.drops[i];
            assert(d == old(self).spec_drops()[i as int]);
            let limit: u32 = (terminal_height as u32) * 10;
            let next: u32 = d.y_tenths + d.speed_tenths;
            if next >= limit {
                let new_x: u16 = ((((d.x as u64) * 13) + 7) % (terminal_width as u64)) as u16;
                self.drops.set(
                    i,
                    StormDrop {
                        x: new_x,
                        y_tenths: 0,
                        speed_tenths: d.speed_tenths,
                        glyph: d.glyph,
                    },
                );
            } else {
                self.drops.set(
                    i,
                    StormDrop {
                        x: d.x,
                        y_tenths: next,
                        speed_tenths: d.speed_tenths,
                        glyph: d.glyph,
                    },
                );
            }
            i = i + 1;
        }
    }

    /// Queue one glyph per drop, then, if the counter says the flash is
    /// on and the viewport can hold it, the three cells of the bolt.
    pub fn render(&self, renderer: &mut TerminalRenderer)
        requires
            self.wf(),
        ensures
            final(renderer).spec_width() == old(renderer).spec_width(),
            final(renderer).spec_height() == old(renderer).spec_height(),
            final(renderer).spec_clear_pending() == old(renderer).spec_clear_pending(),
            final(renderer).spec_queued().len() == old(renderer).spec_queued().len()
                + self.spec_drops().len() + (if self.spec_bolt_shown() {
                3int
            } else {
                0int
            }),
            final(renderer).spec_queued().take(old(renderer).spec_queued().len() as int)
                == old(renderer).spec_queued(),
            forall|i: int| 0 <= i < self.spec_drops().len() ==> {
                let w = #[trigger] final(renderer).spec_queued()[old(
                    renderer,
                ).spec_queued().len() + i];
                let d = self.spec_drops()[i];
                &&& w.x == d.x
                &&& w.y == d.y_tenths as int / 10
                &&& w.x < self.spec_width()
                &&& w.y < self.spec_height()
                &&& w.text == WriteText::Glyph(d.glyph)
                &&& w.color == GlyphColor::Blue
            },
            self.spec_bolt_shown() ==> {
                let base: int = old(renderer).spec_queued().len() as int
                    + self.spec_drops().len() as int;
                let col = spec_flash_col(self.spec_tick(), self.spec_width());
                &&& final(renderer).spec_queued()[base] == (QueuedWrite {
                    x: col,
                    y: 1,
                    text: WriteText::Glyph('\\'),
                    color: GlyphColor::Yellow,
                })
                &&& final(renderer).spec_queued()[base + 1] == (QueuedWrite {
                    x: col,
                    y: 2,
                    text: WriteText::Glyph('|'),
                    color: GlyphColor::Yellow,
                })
                &&& final(renderer).spec_queued()[base + 2] == (QueuedWrite {
                    x: col,
                    y: 3,
                    text: WriteText::Glyph('/'),
                    color: GlyphColor::Yellow,
                })
            },
    {
        let n: usize = self.drops.len();
        let mut i: usize = 0;
        while i < n
            invariant
                0 <= i <= n,
                n == self.spec_drops().len(),
                self.wf(),
                renderer.spec_width() == old(renderer).spec_width(),
                renderer.spec_height() == old(renderer).spec_height(),
                renderer.spec_clear_pending() == old(renderer).spec_clear_pending(),
                renderer.spec_queued().len() == old(renderer).spec_queued().len() + i,
                renderer.spec_queued().take(old(renderer).spec_queued().len() as int)
                    == old(renderer).spec_queued(),
                forall|j: int| 0 <= j < i ==> {
                    let w = #[trigger] renderer.spec_queued()[old(renderer).spec_queued().len()
                        + j];
                    let d = self.spec_drops()[j];
                    &&& w.x == d.x
                    &&& w.y == d.y_tenths as int / 10
                    &&& w.x < self.spec_width()
                    &&& w.y < self.spec_height()
                    &&& w.text == WriteText::Glyph(d.glyph)
                    &&& w.color == GlyphColor::Blue
                },
            decreases n - i,
        {
            let d: StormDrop = self.drops[i];
            let y: u16 = (d.y_tenths / 10) as u16;
            if y < self.terminal_height && d.x < self.terminal_width {
                renderer.render_char(d.x, y, d.glyph, GlyphColor::Blue);
            }
            i = i + 1;
        }
        if self.tick % 40 < 3 && self.terminal_height > 4 && self.terminal_width > 0 {
            let col: u16 = ((((self.tick as u64) / 40) * 13 + ((self.terminal_width as u64) / 2))
                % (self.terminal_width as u64)) as u16;
            renderer.render_char(col, 1, '\\', GlyphColor::Yellow);
            renderer.render_char(col, 2, '|', GlyphColor::Yellow);
            renderer.render_char(col, 3, '/', GlyphColor::Yellow);
        }
    }
}

} // verus!
