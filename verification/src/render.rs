use vstd::prelude::*;

verus! {

/// Foreground color of one queued write; the palette is fixed.
#[derive(Clone, Copy, PartialEq, Eq, Structural, Debug)]
pub enum GlyphColor {
    Default,
    Cyan,
    Yellow,
    White,
    DarkGrey,
    Blue,
}

/// The text of one queued write: a single glyph or a whole line.
#[derive(Clone, Debug)]
pub enum WriteText {
    Glyph(char),
    Line(String),
}

impl WriteText {
    /// The characters that this write puts on the surface, left to right.
    pub open spec fn chars(self) -> Seq<char> {
        match self {
            WriteText::Glyph(c) => seq![c],
            WriteText::Line(s) => s@,
        }
    }
}

/// The width, in characters, of the longest of a block of lines.
pub open spec fn spec_max_line_len(lines: Seq<Seq<char>>) -> nat
    decreases lines.len(),
{
    if lines.len() == 0 {
        0
    } else {
        let rest = spec_max_line_len(lines.drop_last());
        if lines.last().len() > rest {
            lines.last().len()
        } else {
            rest
        }
    }
}

/// The left margin that centers a block of the given lines on a surface
/// of the given width: zero when the block is at least as wide.
pub open spec fn spec_centered_col(width: u16, lines: Seq<Seq<char>>) -> u16 {
    if width > spec_max_line_len(lines) {
        (((width - spec_max_line_len(lines)) / 2) as u16)
    } else {
        0u16
    }
}

/// One buffered cell/run write: text at a column and row, in a color.
#[derive(Clone, Debug)]
pub struct QueuedWrite {
    pub x: u16,
    pub y: u16,
    pub text: WriteText,
    pub color: GlyphColor,
}

/// Everything one flush hands to the terminal: whether the surface is
/// erased first, then the writes in order.
#[derive(Debug)]
pub struct FrameCommit {
    pub clear: bool,
    pub writes: Vec<QueuedWrite>,
}

/// The grid renderer: it tracks the viewport size and buffers writes so
/// that a frame becomes visible only when `flush` commits it whole,
/// which is what keeps redraws free of flicker.  The terminal itself is
/// driven outside the library from the `FrameCommit` that `flush`
/// returns.
pub struct TerminalRenderer {
    width: u16,
    height: u16,
    pending_clear: bool,
    queued: Vec<QueuedWrite>,
}

impl TerminalRenderer {
    pub closed spec fn spec_width(self) -> u16 {
        self.width
    }

    pub closed spec fn spec_height(self) -> u16 {
        self.height
    }

    pub closed spec fn spec_clear_pending(self) -> bool {
        self.pending_clear
    }

    /// The buffered writes, oldest first.
    pub closed spec fn spec_queued(self) -> Seq<QueuedWrite> {
        self.queued@
    }

    pub fn new(width: u16, height: u16) -> (r: Self)
        ensures
            r.spec_width() == width,
            r.spec_height() == height,
            !r.spec_clear_pending(),
            r.spec_queued() == Seq::<QueuedWrite>::empty(),
    {
        TerminalRenderer { width, height, pending_clear: false, queued: Vec::new() }
    }

    /// Record the viewport size that was re-read for this tick.
    pub fn update_size(&mut self, width: u16, height: u16)
        ensures
            final(self).spec_width() == width,
            final(self).spec_height() == height,
            final(self).spec_clear_pending() == old(self).spec_clear_pending(),
            final(self).spec_queued() == old(self).spec_queued(),
    {
        self.width = width;
        self.height = height;
    }

    pub fn get_size(&self) -> (r: (u16, u16))
        ensures
            r.0 == self.spec_width(),
            r.1 == self.spec_height(),
    {
        (self.width, self.height)
    }

    /// Erase the whole surface: drops every write buffered so far and
    /// marks the coming commit as starting from a blank screen.
    pub fn clear(&mut self)
        ensures
            final(self).spec_width() == old(self).spec_width(),
            final(self).spec_height() == old(self).spec_height(),
            final(self).spec_clear_pending(),
            final(self).spec_queued() == Seq::<QueuedWrite>::empty(),
    {
        self.pending_clear = true;
        self.queued.clear();
    }

    /// Queue one glyph at a cell.  Callers clip: coordinates outside the
    /// viewport must be dropped before calling.
    pub fn render_char(&mut self, x: u16, y: u16, ch: char, color: GlyphColor)
        ensures
            final(self).spec_width() == old(self).spec_width(),
            final(self).spec_height() == old(self).spec_height(),
            final(self).spec_clear_pending() == old(self).spec_clear_pending(),
            final(self).spec_queued() == old(self).spec_queued().push(
                QueuedWrite { x, y, text: WriteText::Glyph(ch), color },
            ),
    {
        self.queued.push(QueuedWrite { x, y, text: WriteText::Glyph(ch), color });
    }

    /// Queue one run of text starting at a cell.
    pub fn render_line_colored(&mut self, x: u16, y: u16, text: &str, color: GlyphColor)
        ensures
            final(self).spec_width() == old(self).spec_width(),
            final(self).spec_height() == old(self).spec_height(),
            final(self).spec_clear_pending() == old(self).spec_clear_pending(),
            final(self).spec_queued().len() == old(self).spec_queued().len() + 1,
            final(self).spec_queued().drop_last() == old(self).spec_queued(),
            final(self).spec_queued().last().x == x,
            final(self).spec_queued().last().y == y,
            final(self).spec_queued().last().color == color,
            final(self).spec_queued().last().text.chars() == text@,
    {
        let owned: String = text.to_owned();
        self.queued.push(QueuedWrite { x, y, text: WriteText::Line(owned), color });
    }

    /// Queue a block of lines, horizontally centered on the longest
    /// line; a block wider than the surface is left at column zero.
    pub fn render_centered(&mut self, lines: &Vec<String>, start_row: u16)
        requires
            start_row + lines@.len() <= u16::MAX,
        ensures
            final(self).spec_width() == old(self).spec_width(),
            final(self).spec_height() == old(self).spec_height(),
            final(self).spec_clear_pending() == old(self).spec_clear_pending(),
            final(self).spec_queued().len() == old(self).spec_queued().len() + lines@.len(),
            final(self).spec_queued().take(old(self).spec_queued().len() as int)
                == old(self).spec_queued(),
            forall|i: int| 0 <= i < lines@.len() ==> {
                let w = #[trigger] final(self).spec_queued()[old(self).spec_queued().len() + i];
                &&& w.x == spec_centered_col(old(self).spec_width(), lines@.map_values(|s: String| s@))
                &&& w.y == start_row + i
                &&& w.text.chars() == lines@[i]@
                &&& w.color == GlyphColor::Default
            },
    {
        let ghost line_views: Seq<Seq<char>> = lines@.map_values(|s: String| s@);
        let mut max_width: usize = 0;
        let mut i: usize = 0;
        while i < lines.len()
            invariant
                0 <= i <= lines@.len(),
                line_views == lines@.map_values(|s: String| s@),
                max_width == spec_max_line_len(line_views.take(i as int)),
            decreases lines@.len() - i,
        {
            let len: usize = lines[i].as_str().unicode_len();
            if len > max_width {
                max_width = len;
            }
            proof {
                assert(line_views.take(i + 1).drop_last() == line_views.take(i as int));
            }
            i = i + 1;
        }
        proof {
            assert(line_views.take(lines@.len() as int) == line_views);
        }
        let start_col: u16 = if (self.width as usize) > max_width {
            (((self.width as usize) - max_width) / 2) as u16
        } else {
            0
        };
        assert(start_col == spec_centered_col(self.width, line_views));
        let mut idx: usize = 0;
        while idx < lines.len()
            invariant
                0 <= idx <= lines@.len(),
                start_row + lines@.len() <= u16::MAX,
                start_col == spec_centered_col(old(self).spec_width(), line_views),
                line_views == lines@.map_values(|s: String| s@),
                self.width == old(self).spec_width(),
                self.height == old(self).spec_height(),
                self.pending_clear == old(self).spec_clear_pending(),
                self.queued@.len() == old(self).spec_queued().len() + idx,
                self.queued@.take(old(self).spec_queued().len() as int)
                    == old(self).spec_queued(),
                forall|j: int| 0 <= j < idx ==> {
                    let w = #[trigger] self.queued@[old(self).spec_queued().len() + j];
                    &&& w.x == start_col
                    &&& w.y == start_row + j
                    &&& w.text.chars() == lines@[j]@
                    &&& w.color == GlyphColor::Default
                },
            decreases lines@.len() - idx,
        {
            let line: String = lines[idx].clone();
            self.queued.push(
                QueuedWrite {
                    x: start_col,
                    y: start_row + (idx as u16),
                    text: WriteText::Line(line),
                    color: GlyphColor::Default,
                },
            );
            idx = idx + 1;
        }
    }

    /// Commit: hand out the buffered frame and leave the buffer empty.
    pub fn flush(&mut self) -> (r: FrameCommit)
        ensures
            r.clear == old(self).spec_clear_pending(),
            r.writes@ == old(self).spec_queued(),
            final(self).spec_width() == old(self).spec_width(),
            final(self).spec_height() == old(self).spec_height(),
            !final(self).spec_clear_pending(),
            final(self).spec_queued() == Seq::<QueuedWrite>::empty(),
    {
        let clear = self.pending_clear;
        self.pending_clear = false;
        let mut writes: Vec<QueuedWrite> = Vec::new();
        core::mem::swap(&mut writes, &mut self.queued);
        FrameCommit { clear, writes }
    }
}

} // verus!
