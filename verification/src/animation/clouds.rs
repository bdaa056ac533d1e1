use vstd::prelude::*;

use crate::render::{GlyphColor, TerminalRenderer, WriteText};

verus! {

/// One drifting cloud puff.  The horizontal position accumulates in
/// tenths of a cell; the cell a puff occupies is `x_tenths / 10`.
/// How one `update` call for viewport `(w, h)` evolves the system: a
/// changed viewport reseeds everything, an unchanged one steps each puff.
pub open spec fn spec_updated_clouds(pre: CloudSystem, post: CloudSystem, w: u16, h: u16) -> bool {
    if pre.spec_width() != w || pre.spec_height() != h {
        post.is_seeded(w, h)
    } else {
        &&& post.spec_width() == w
        &&& post.spec_height() == h
        &&& post.spec_puffs().len() == pre.spec_puffs().len()
        &&& forall|i: int| 0 <= i < pre.spec_puffs().len()
            ==> #[trigger] post.spec_puffs()[i] == spec_step_puff(pre.spec_puffs()[i], w, h)
    }
}

#[derive(Clone, Copy, PartialEq, Eq, Structural, Debug)]
pub struct CloudPuff {
    pub x_tenths: u32,
    pub y: u16,
    pub speed_tenths: u32,
    pub glyph: char,
}

/// How many puffs a viewport of the given size holds: one per 160 cells,
/// sparser than precipitation.
pub open spec fn spec_puff_count(w: u16, h: u16) -> int {
    (w as int * h as int) / 160
}

pub open spec fn spec_puff_glyph(i: int) -> char {
    if i % 3 == 0 {
        '~'
    } else if i % 3 == 1 {
        '='
    } else {
        '-'
    }
}

/// The puff the deterministic seeding formulas give to index `i`.
pub open spec fn spec_seed_puff(i: int, w: u16, h: u16) -> CloudPuff {
    CloudPuff {
        x_tenths: ((i * 53) % (w as int * 10)) as u32,
        y: ((i * 11) % (h as int)) as u16,
        speed_tenths: (1 + i % 3) as u32,
        glyph: spec_puff_glyph(i),
    }
}

/// One tick of drift: the puff advances rightwards by its speed; a puff
/// that would leave the right edge re-enters at the left edge on a row
/// remapped from its old one.
pub open spec fn spec_step_puff(p: CloudPuff, w: u16, h: u16) -> CloudPuff {
    if p.x_tenths + p.speed_tenths >= w as int * 10 {
        CloudPuff {
            x_tenths: 0,
            y: ((p.y as int * 13 + 7) % (h as int)) as u16,
            speed_tenths: p.speed_tenths,
            glyph: p.glyph,
        }
    } else {
        CloudPuff {
            x_tenths: (p.x_tenths + p.speed_tenths) as u32,
            y: p.y,
            speed_tenths: p.speed_tenths,
            glyph: p.glyph,
        }
    }
}

/// The cloud layer: slow puffs drifting across the sky, reseeded in full
/// whenever the viewport changes.
pub struct CloudSystem {
    puffs: Vec<CloudPuff>,
    terminal_width: u16,
    terminal_height: u16,
}

impl CloudSystem {
    pub closed spec fn spec_width(self) -> u16 {
        self.terminal_width
    }

    pub closed spec fn spec_height(self) -> u16 {
        self.terminal_height
    }

    pub closed spec fn spec_puffs(self) -> Seq<CloudPuff> {
        self.puffs@
    }

    pub open spec fn wf(self) -> bool {
        &&& self.spec_puffs().len() == spec_puff_count(self.spec_width(), self.spec_height())
        &&& forall|i: int| 0 <= i < self.spec_puffs().len() ==> {
            let p = #[trigger] self.spec_puffs()[i];
            &&& p.x_tenths < self.spec_width() as int * 10
            &&& p.y < self.spec_height()
            &&& 1 <= p.speed_tenths <= 3
        }
    }

    pub open spec fn is_seeded(self, w: u16, h: u16) -> bool {
        &&& self.spec_width() == w
        &&& self.spec_height() == h
        &&& self.spec_puffs().len() == spec_puff_count(w, h)
        &&& forall|i: int| 0 <= i < self.spec_puffs().len()
            ==> #[trigger] self.spec_puffs()[i] == spec_seed_puff(i, w, h)
    }

    pub fn new(terminal_width: u16, terminal_height: u16) -> (r: Self)
        ensures
            r.is_seeded(terminal_width, terminal_height),
            r.wf(),
    {
        proof {
            assert((terminal_width as int) * (terminal_height as int) <= 65535 * 65535)
                by (nonlinear_arith)
                requires
                    terminal_width <= 65535,
                    terminal_height <= 65535,
            ;
        }
        let area: u64 = (terminal_width as u64) * (terminal_height as u64);
        let puff_count: usize = (area / 160) as usize;
        let mut puffs: Vec<CloudPuff> = Vec::new();
        let mut i: usize = 0;
        while i < puff_count
            invariant
                puff_count == spec_puff_count(terminal_width, terminal_height),
                puff_count <= 26842726,
                0 <= i <= puff_count,
                puff_count > 0 ==> terminal_width > 0 && terminal_height > 0,
                puffs@.len() == i,
                forall|j: int| 0 <= j < i
                    ==> #[trigger] puffs@[j] == spec_seed_puff(j, terminal_width, terminal_height),
            decreases puff_count - i,
        {
            let x_tenths: u32 = (((i as u64) * 53) % ((terminal_width as u64) * 10)) as u32;
            let y: u16 = (((i as u64) * 11) % (terminal_height as u64)) as u16;
            let speed_tenths: u32 = 1 + ((i as u32) % 3);
            let glyph: char = if i % 3 == 0 {
                '~'
            } else if i % 3 == 1 {
                '='
            } else {
                '-'
            };
            puffs.push(CloudPuff { x_tenths, y, speed_tenths, glyph });
            i = i + 1;
        }
        CloudSystem { puffs, terminal_width, terminal_height }
    }

    /// Advance every puff one tick, reseeding the whole population when
    /// the viewport changed.
    pub fn update(&mut self, terminal_width: u16, terminal_height: u16)
        requires
            old(self).wf(),
        ensures
            final(self).wf(),
            final(self).spec_width() == terminal_width,
            final(self).spec_height() == terminal_height,
            spec_updated_clouds(*old(self), *final(self), terminal_width, terminal_height),
            (old(self).spec_width() != terminal_width || old(self).spec_height()
                != terminal_height) ==> final(self).is_seeded(terminal_width, terminal_height),
            (old(self).spec_width() == terminal_width && old(self).spec_height()
                == terminal_height) ==> {
                &&& final(self).spec_puffs().len() == old(self).spec_puffs().len()
                &&& forall|i: int| 0 <= i < old(self).spec_puffs().len()
                    ==> #[trigger] final(self).spec_puffs()[i] == spec_step_puff(
                        old(self).spec_puffs()[i],
                        terminal_width,
                        terminal_height,
                    )
            },
    {
        if self.terminal_width != terminal_width || self.terminal_height != terminal_height {
            *self = Self::new(terminal_width, terminal_height);
            return ;
        }
        let n: usize = self.puffs.len();
        let mut i: usize = 0;
        while i < n
            invariant
                0 <= i <= n,
                self.terminal_width == terminal_width,
                self.terminal_height == terminal_height,
                old(self).spec_width() == terminal_width,
                old(self).spec_height() == terminal_height,
                n == old(self).spec_puffs().len(),
                self.puffs@.len() == n,
                old(self).wf(),
                forall|j: int| i <= j < n ==> #[trigger] self.puffs@[j]
                    == old(self).spec_puffs()[j],
                forall|j: int| 0 <= j < i ==> #[trigger] self.puffs@[j] == spec_step_puff(
                    old(self).spec_puffs()[j],
                    terminal_width,
                    terminal_height,
                ),
            decreases n - i,
        {
            let p: CloudPuff = self.puffs[i];
            assert(p == old(self).spec_puffs()[i as int]);
            let limit: u32 = (terminal_width as u32) * 10;
            let next: u32 = p.x_tenths + p.speed_tenths;
            if next >= limit {
                let new_y: u16 = ((((p.y as u64) * 13) + 7) % (terminal_height as u64)) as u16;
                self.puffs.set(
                    i,
                    CloudPuff { x_tenths: 0, y: new_y, speed_tenths: p.speed_tenths, glyph: p.glyph },
                );
            } else {
                self.puffs.set(
                    i,
                    CloudPuff { x_tenths: next, y: p.y, speed_tenths: p.speed_tenths, glyph: p.glyph },
                );
            }
            i = i + 1;
        }
    }

    /// Queue one glyph per puff at its current cell; only puffs inside
    /// the viewport are drawn.
    pub fn render(&self, renderer: &mut TerminalRenderer)
        requires
            self.wf(),
        ensures
            final(renderer).spec_width() == old(renderer).spec_width(),
            final(renderer).spec_height() == old(renderer).spec_height(),
            final(renderer).spec_clear_pending() == old(renderer).spec_clear_pending(),
            final(renderer).spec_queued().len() == old(renderer).spec_queued().len()
                + self.spec_puffs().len(),
            final(renderer).spec_queued().take(old(renderer).spec_queued().len() as int)
                == old(renderer).spec_queued(),
            forall|i: int| 0 <= i < self.spec_puffs().len() ==> {
                let w = #[trigger] final(renderer).spec_queued()[old(
                    renderer,
                ).spec_queued().len() + i];
                let p = self.spec_puffs()[i];
                &&& w.x == p.x_tenths as int / 10
                &&& w.y == p.y
                &&& w.x < self.spec_width()
                &&& w.y < self.spec_height()
                &&& w.text == WriteText::Glyph(p.glyph)
                &&& w.color == GlyphColor::White
            },
    {
        let n: usize = self.puffs.len();
        let mut i: usize = 0;
        while i < n
            invariant
                0 <= i <= n,
                n == self.spec_puffs().len(),
                self.wf(),
                renderer.spec_width() == old(renderer).spec_width(),
                renderer.spec_height() == old(renderer).spec_height(),
                renderer.spec_clear_pending() == old(renderer).spec_clear_pending(),
                renderer.spec_queued().len() == old(renderer).spec_queued().len() + i,
                renderer.spec_queued().take(old(renderer).spec_queued().len() as int)
                    == old(renderer).spec_queued(),
                forall|j: int| 0 <= j < i ==> {
                    let w = #[trigger] renderer.spec_queued()[old(renderer).spec_queued().len()
                        + j];
                    let p = self.spec_puffs()[j];
                    &&& w.x == p.x_tenths as int / 10
                    &&& w.y == p.y
                    &&& w.x < self.spec_width()
                    &&& w.y < self.spec_height()
                    &&& w.text == WriteText::Glyph(p.glyph)
                    &&& w.color == GlyphColor::White
                },
            decreases n - i,
        {
            let p: CloudPuff = self.puffs[i];
            let x: u16 = (p.x_tenths / 10) as u16;
            if x < self.terminal_width && p.y < self.terminal_height {
                renderer.render_char(x, p.y, p.glyph, GlyphColor::White);
            }
            i = i + 1;
        }
    }
}

} // verus!
