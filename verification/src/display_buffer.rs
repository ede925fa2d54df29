//! The frame: a grid of RGB565 colour words with a text cursor.
//!
//! Drawing never fails. What falls outside the grid is dropped, so that a
//! shape or a line of text may hang over the edge.

use vstd::prelude::*;
use crate::font::{glyph_ink, Glyph, GLYPH_HEIGHT, GLYPH_WIDTH};

verus! {

/// A position on the panel; `x` grows to the right, `y` downwards.
#[derive(Clone, Copy, Debug, PartialEq, Eq)]
pub struct Point {
    pub x: i32,
    pub y: i32,
}

/// The extent of a frame in pixels.
#[derive(Clone, Copy, Debug, PartialEq, Eq)]
pub struct Size {
    pub width: u32,
    pub height: u32,
}

/// One coloured point.
#[derive(Clone, Copy, Debug, PartialEq, Eq)]
pub struct Pixel {
    pub point: Point,
    pub color: u16,
}

/// Whether the character cell with its top left corner at `origin` holds
/// the point `q`.
pub open spec fn cell_holds(origin: (int, int), q: Point) -> bool {
    0 <= q.x - origin.0 < GLYPH_WIDTH && 0 <= q.y - origin.1 < GLYPH_HEIGHT
}

/// Where the pen stands before the character `j` of `text`, having started
/// at `start`: one cell further right for each character, and at the left
/// edge one line further down after each line break.
pub open spec fn pen_at(text: Seq<char>, start: Point, j: int) -> (int, int)
    decreases j,
{
    if j <= 0 {
        (start.x as int, start.y as int)
    } else {
        let before = pen_at(text, start, j - 1);
        if text[j - 1] == '\n' {
            (0, before.1 + GLYPH_HEIGHT)
        } else {
            (before.0 + GLYPH_WIDTH, before.1)
        }
    }
}

/// Whether the character `j` of `text` can be set without leaving the
/// range of coordinates: its cell, or the line below for a line break, still
/// has representable corners.
pub open spec fn pen_fits(text: Seq<char>, start: Point, j: int) -> bool {
    let pen = pen_at(text, start, j);
    pen.1 + GLYPH_HEIGHT <= i32::MAX && (text[j] != '\n' ==> pen.0 + GLYPH_WIDTH <= i32::MAX)
}

/// Whether the whole of `text` can be set from `start`.
pub open spec fn text_fits(text: Seq<char>, start: Point) -> bool {
    forall|j: int| 0 <= j < text.len() ==> #[trigger] pen_fits(text, start, j)
}

/// Whether the character `j` of `text` inks the point `q`.
pub open spec fn char_inks(text: Seq<char>, start: Point, j: int, q: Point) -> bool {
    let pen = pen_at(text, start, j);
    &&& text[j] != '\n'
    &&& cell_holds(pen, q)
    &&& glyph_ink(text[j], q.x - pen.0, q.y - pen.1)
}

/// Whether one of the first `count` characters of `text` inks the point
/// `q`.
pub open spec fn text_inks(text: Seq<char>, start: Point, count: int, q: Point) -> bool {
    exists|j: int| 0 <= j < count && #[trigger] char_inks(text, start, j, q)
}

/// An in-memory frame of RGB565 colour words, row after row.
pub struct DisplayBuffer {
    buffer: Vec<u16>,
    width: usize,
    height: usize,
    cursur: Point,
    text_color: u16,
    background_color: u16,
}

/// The two bytes of each colour word in turn, low byte first.
pub open spec fn low_high_bytes(words: Seq<u16>) -> Seq<u8> {
    Seq::new(2 * words.len(), |i: int| if i % 2 == 0 {
        (words[i / 2] % 256) as u8
    } else {
        (words[i / 2] / 256) as u8
    })
}

impl DisplayBuffer {
    /// Pixels in a row.
    pub closed spec fn width(&self) -> nat {
        self.width as nat
    }

    /// Rows.
    pub closed spec fn height(&self) -> nat {
        self.height as nat
    }

    /// All colour words, row after row, each row left to right.
    pub closed spec fn cells(&self) -> Seq<u16> {
        self.buffer@
    }

    /// Where the next text starts.
    pub closed spec fn cursor(&self) -> Point {
        self.cursur
    }

    /// The colour text is drawn in.
    pub closed spec fn text_color(&self) -> u16 {
        self.text_color
    }

    /// The colour `clear_default` fills with.
    pub closed spec fn background_color(&self) -> u16 {
        self.background_color
    }

    /// Every row is complete.
    #[verifier::type_invariant]
    closed spec fn rows_complete(&self) -> bool {
        self.buffer@.len() == self.width * self.height
    }

    /// Whether a point lies on the grid.
    pub open spec fn in_bounds(&self, p: Point) -> bool {
        0 <= p.x < self.width() && 0 <= p.y < self.height()
    }

    /// The place of a point's colour word among the cells.
    pub open spec fn index_of(&self, p: Point) -> int {
        self.width() * p.y + p.x
    }

    /// The colour at a point of the grid.
    pub open spec fn pixel(&self, p: Point) -> u16
        recommends
            self.in_bounds(p),
    {
        self.cells()[self.index_of(p)]
    }

    /// Whether the grid has a cell for each of its points.
    pub open spec fn wf(&self) -> bool {
        self.cells().len() == self.width() * self.height()
    }

    /// Whether this is a complete frame with the extent, colours and cursor
    /// of `other`; their pixels may differ.
    pub open spec fn same_frame(&self, other: &DisplayBuffer) -> bool {
        &&& self.wf()
        &&& self.width() == other.width()
        &&& self.height() == other.height()
        &&& self.cells().len() == other.cells().len()
        &&& self.cursor() == other.cursor()
        &&& self.text_color() == other.text_color()
        &&& self.background_color() == other.background_color()
    }

    /// A point on the grid has a cell, and no other point shares it.
    pub proof fn lemma_index_of(&self, p: Point, q: Point)
        requires
            self.in_bounds(p),
            self.in_bounds(q),
        ensures
            0 <= self.width() * p.y <= self.index_of(p) < self.width() * self.height(),
            self.index_of(p) == self.index_of(q) ==> p == q,
    {
        let w = self.width() as int;
        let h = self.height() as int;
        let (px, py, qx, qy) = (p.x as int, p.y as int, q.x as int, q.y as int);
        assert(0 <= w * py <= w * py + px < w * h) by (nonlinear_arith)
            requires
                0 <= px < w,
                0 <= py < h,
        ;
        assert(w * py + px == w * qy + qx ==> py == qy) by (nonlinear_arith)
            requires
                0 <= px < w,
                0 <= qx < w,
                0 <= py,
                0 <= qy,
        ;
    }

    /// A frame of `width` by `height` pixels, all of the background colour,
    /// with the cursor in the top left corner.
    pub fn new(background_color: u16, text_color: u16, width: usize, height: usize) -> (frame: Self)
        requires
            width * height <= usize::MAX,
        ensures
            frame.wf(),
            frame.width() == width,
            frame.height() == height,
            forall|i: int| 0 <= i < frame.cells().len() ==> frame.cells()[i] == background_color,
            frame.cursor() == (Point { x: 0, y: 0 }),
            frame.text_color() == text_color,
            frame.background_color() == background_color,
    {
        let count = width * height;
        let mut buffer: Vec<u16> = Vec::new();
        while buffer.len() < count
            invariant
                buffer.len() <= count,
                forall|i: int| 0 <= i < buffer.len() ==> buffer@[i] == background_color,
            decreases count - buffer.len(),
        {
            buffer.push(background_color);
        }
        DisplayBuffer {
            buffer,
            width,
            height,
            cursur: Point { x: 0, y: 0 },
            text_color,
            background_color,
        }
    }

    /// Where the next text starts.
    pub fn cursur(&self) -> (p: Point)
        ensures
            p == self.cursor(),
    {
        self.cursur
    }

    /// Moves the text cursor; no pixel changes.
    pub fn set_cursur(&mut self, p: Point)
        ensures
            final(self).wf(),
            final(self).cursor() == p,
            final(self).cells() == old(self).cells(),
            final(self).width() == old(self).width(),
            final(self).height() == old(self).height(),
            final(self).text_color() == old(self).text_color(),
            final(self).background_color() == old(self).background_color(),
    {
        proof {
            use_type_invariant(&*self);
        }
        self.cursur = p;
    }

    /// Whether a point lies on the grid.
    pub fn contains(&self, p: Point) -> (inside: bool)
        ensures
            inside == self.in_bounds(p),
    {
        p.x >= 0 && (p.x as usize) < self.width && p.y >= 0 && (p.y as usize) < self.height
    }

    /// The place of a point's colour word among the cells.
    pub fn point_to_index(&self, p: Point) -> (index: usize)
        requires
            self.in_bounds(p),
        ensures
            index == self.index_of(p),
            index < self.cells().len(),
    {
        let count = self.buffer.len();
        proof {
            use_type_invariant(self);
            self.lemma_index_of(p, p);
            assert(self.width() * self.height() == count);
        }
        self.width * (p.y as usize) + (p.x as usize)
    }

    /// Colours one point. A point off the grid is dropped: nothing changes.
    pub fn set_color_at(&mut self, p: Point, color: u16)
        ensures
            final(self).same_frame(old(self)),
            !old(self).in_bounds(p) ==> final(self).cells() == old(self).cells(),
            old(self).in_bounds(p) ==> final(self).cells() == old(self).cells().update(
                old(self).index_of(p),
                color,
            ),
            forall|q: Point|
                old(self).in_bounds(q) ==> (#[trigger] final(self).pixel(q)) == if q == p {
                    color
                } else {
                    old(self).pixel(q)
                },
    {
        proof {
            use_type_invariant(&*self);
        }
        if self.contains(p) {
            let index = self.point_to_index(p);
            self.buffer[index] = color;
            proof {
                assert forall|q: Point| old(self).in_bounds(q) implies (#[trigger] self.pixel(q))
                    == if q == p {
                    color
                } else {
                    old(self).pixel(q)
                } by {
                    old(self).lemma_index_of(q, p);
                }
            }
        }
    }

    /// The colour at a point, which must lie on the grid.
    pub fn get_color_at(&self, p: Point) -> (color: u16)
        requires
            self.in_bounds(p),
        ensures
            color == self.pixel(p),
    {
        let index = self.point_to_index(p);
        self.buffer[index]
    }

    /// Fills the whole frame with one colour.
    pub fn clear(&mut self, color: u16)
        ensures
            final(self).same_frame(old(self)),
            forall|i: int| 0 <= i < final(self).cells().len() ==> final(self).cells()[i] == color,
            forall|q: Point|
                final(self).in_bounds(q) ==> (#[trigger] final(self).pixel(q)) == color,
    {
        proof {
            use_type_invariant(&*self);
        }
        let count = self.buffer.len();
        let mut i: usize = 0;
        while i < count
            invariant
                i <= count,
                count == self.buffer.len(),
                self.same_frame(old(self)),
                self.buffer@.len() == self.width * self.height,
                forall|j: int| 0 <= j < i ==> self.buffer@[j] == color,
            decreases count - i,
        {
            self.buffer[i] = color;
            i = i + 1;
        }
        proof {
            assert forall|q: Point| self.in_bounds(q) implies (#[trigger] self.pixel(q)) == color by {
                self.lemma_index_of(q, q);
            }
        }
    }

    /// Fills the whole frame with the background colour.
    pub fn clear_default(&mut self)
        ensures
            final(self).same_frame(old(self)),
            forall|i: int|
                0 <= i < final(self).cells().len() ==> final(self).cells()[i] == old(
                    self).background_color(),
            forall|q: Point|
                final(self).in_bounds(q) ==> (#[trigger] final(self).pixel(q)) == old(
                    self).background_color(),
    {
        let color = self.background_color;
        self.clear(color);
    }

    /// A frame filled with one colour reads that colour at every point of
    /// its grid: what `clear` leaves is what `get_color_at` returns.
    pub proof fn lemma_cleared_reads_back(&self, color: u16, p: Point)
        requires
            self.wf(),
            forall|i: int| 0 <= i < self.cells().len() ==> self.cells()[i] == color,
            self.in_bounds(p),
        ensures
            self.pixel(p) == color,
    {
        self.lemma_index_of(p, p);
    }

    /// The colour words of the frame, row after row.
    pub fn as_pixels(&self) -> (words: Vec<u16>)
        ensures
            words@ == self.cells(),
    {
        self.buffer.clone()
    }

    /// The frame as bytes: the two bytes of each colour word in turn, low
    /// byte first.
    pub fn as_bytes(&self) -> (bytes: Vec<u8>)
        ensures
            bytes@ == low_high_bytes(self.cells()),
    {
        let mut bytes: Vec<u8> = Vec::new();
        let mut i: usize = 0;
        while i < self.buffer.len()
            invariant
                i <= self.buffer.len(),
                bytes@ =~= low_high_bytes(self.buffer@.take(i as int)),
            decreases self.buffer.len() - i,
        {
            let word = self.buffer[i];
            bytes.push((word % 256) as u8);
            bytes.push((word / 256) as u8);
            assert(self.buffer@.take(i + 1) =~= self.buffer@.take(i as int).push(word));
            i = i + 1;
        }
        assert(self.buffer@.take(i as int) =~= self.buffer@);
        bytes
    }

    /// The extent of the frame.
    pub fn size(&self) -> (size: Size)
        ensures
            size.width == self.width() as u32,
            size.height == self.height() as u32,
    {
        let width = #[verifier::truncate] (self.width as u32);
        let height = #[verifier::truncate] (self.height as u32);
        Size { width, height }
    }

    /// The frames after each of `pixels` in turn was coloured, the frame
    /// before the first among them.
    pub open spec fn drawn(cells: Seq<u16>, width: nat, height: nat, pixels: Seq<Pixel>) -> Seq<u16>
        decreases pixels.len(),
    {
        if pixels.len() == 0 {
            cells
        } else {
            let before = Self::drawn(cells, width, height, pixels.drop_last());
            let last = pixels.last();
            if 0 <= last.point.x < width && 0 <= last.point.y < height {
                before.update(width * last.point.y + last.point.x, last.color)
            } else {
                before
            }
        }
    }

    /// Colours each of `pixels` in turn; those off the grid are dropped.
    pub fn draw_iter(&mut self, pixels: &Vec<Pixel>)
        ensures
            final(self).same_frame(old(self)),
            final(self).cells() == Self::drawn(
                old(self).cells(),
                old(self).width(),
                old(self).height(),
                pixels@,
            ),
    {
        proof {
            use_type_invariant(&*self);
        }
        let mut i: usize = 0;
        assert(pixels@.take(0) =~= Seq::<Pixel>::empty());
        while i < pixels.len()
            invariant
                i <= pixels.len(),
                self.same_frame(old(self)),
                self.cells() == Self::drawn(
                    old(self).cells(),
                    old(self).width(),
                    old(self).height(),
                    pixels@.take(i as int),
                ),
            decreases pixels.len() - i,
        {
            let pixel = pixels[i];
            assert(pixels@.take(i + 1).drop_last() =~= pixels@.take(i as int));
            self.set_color_at(pixel.point, pixel.color);
            i = i + 1;
        }
        assert(pixels@.take(i as int) =~= pixels@);
    }

    /// Whether a glyph set at `origin` has inked `q` once its rows above
    /// `row`, and the cells left of `column` in that row, are done.
    spec fn stamped(origin: Point, glyph: &Glyph, q: Point, row: int, column: int) -> bool {
        let dx = q.x - origin.x;
        let dy = q.y - origin.y;
        &&& cell_holds((origin.x as int, origin.y as int), q)
        &&& glyph.ink(dx, dy)
        &&& (dy < row || (dy == row && dx < column))
    }

    /// Sets one character's picture with its top left corner at `origin`:
    /// every point of the grid under an inked cell takes `color`, nothing
    /// else changes.
    pub fn draw_glyph(&mut self, origin: Point, glyph: &Glyph, color: u16)
        requires
            origin.x + GLYPH_WIDTH <= i32::MAX,
            origin.y + GLYPH_HEIGHT <= i32::MAX,
        ensures
            final(self).same_frame(old(self)),
            forall|q: Point|
                old(self).in_bounds(q) ==> (#[trigger] final(self).pixel(q)) == if cell_holds(
                    (origin.x as int, origin.y as int),
                    q,
                ) && glyph.ink(q.x - origin.x, q.y - origin.y) {
                    color
                } else {
                    old(self).pixel(q)
                },
    {
        proof {
            use_type_invariant(&*self);
        }
        let mut row: u32 = 0;
        while row < GLYPH_HEIGHT
            invariant
                row <= GLYPH_HEIGHT,
                origin.x + GLYPH_WIDTH <= i32::MAX,
                origin.y + GLYPH_HEIGHT <= i32::MAX,
                self.same_frame(old(self)),
                forall|q: Point|
                    old(self).in_bounds(q) ==> (#[trigger] self.pixel(q)) == if Self::stamped(
                        origin,
                        glyph,
                        q,
                        row as int,
                        0,
                    ) {
                        color
                    } else {
                        old(self).pixel(q)
                    },
            decreases GLYPH_HEIGHT - row,
        {
            let mut column: u32 = 0;
            while column < GLYPH_WIDTH
                invariant
                    row < GLYPH_HEIGHT,
                    column <= GLYPH_WIDTH,
                    origin.x + GLYPH_WIDTH <= i32::MAX,
                    origin.y + GLYPH_HEIGHT <= i32::MAX,
                    self.same_frame(old(self)),
                    forall|q: Point|
                        old(self).in_bounds(q) ==> (#[trigger] self.pixel(q)) == if Self::stamped(
                            origin,
                            glyph,
                            q,
                            row as int,
                            column as int,
                        ) {
                            color
                        } else {
                            old(self).pixel(q)
                        },
                decreases GLYPH_WIDTH - column,
            {
                if glyph.is_inked(column, row) {
                    let ghost before = *self;
                    let p = Point { x: origin.x + column as i32, y: origin.y + row as i32 };
                    self.set_color_at(p, color);
                    proof {
                        assert forall|q: Point| old(self).in_bounds(q) implies (#[trigger] self.pixel(q))
                            == if Self::stamped(origin, glyph, q, row as int, column + 1) {
                            color
                        } else {
                            old(self).pixel(q)
                        } by {
                            assert(before.in_bounds(q));
                        }
                    }
                }
                column = column + 1;
            }
            row = row + 1;
        }
    }

    /// Whether this is the frame `before` with `text` written from its
    /// cursor on: the same extent and colours; the cursor where the pen
    /// stands behind the last character; the text colour at every point of
    /// the grid that a character inks, and the colour of before at every
    /// other.
    pub open spec fn printed(&self, before: &DisplayBuffer, text: Seq<char>) -> bool {
        &&& self.wf()
        &&& self.width() == before.width()
        &&& self.height() == before.height()
        &&& self.cells().len() == before.cells().len()
        &&& self.text_color() == before.text_color()
        &&& self.background_color() == before.background_color()
        &&& self.cursor().x == pen_at(text, before.cursor(), text.len() as int).0
        &&& self.cursor().y == pen_at(text, before.cursor(), text.len() as int).1
        &&& forall|q: Point|
            before.in_bounds(q) ==> (#[trigger] self.pixel(q)) == if text_inks(
                text,
                before.cursor(),
                text.len() as int,
                q,
            ) {
                before.text_color()
            } else {
                before.pixel(q)
            }
    }

    /// Whether `text` can be written from the cursor on without a
    /// coordinate leaving its range.
    pub fn fits(&self, text: &str) -> (fits: bool)
        ensures
            fits == text_fits(text@, self.cursor()),
    {
        let ghost start = self.cursor();
        let mut pen = self.cursur;
        for symbol in it: text.chars()
            invariant
                it.seq() == text@,
                start == self.cursor(),
                pen.x == pen_at(text@, start, it.index() as int).0,
                pen.y == pen_at(text@, start, it.index() as int).1,
                forall|j: int| 0 <= j < it.index() ==> #[trigger] pen_fits(text@, start, j),
        {
            let ghost j = it.index() as int;
            if pen.y > i32::MAX - GLYPH_HEIGHT as i32 {
                assert(!pen_fits(text@, start, j));
                return false;
            }
            if symbol == '\n' {
                pen = Point { x: 0, y: pen.y + GLYPH_HEIGHT as i32 };
            } else {
                if pen.x > i32::MAX - GLYPH_WIDTH as i32 {
                    assert(!pen_fits(text@, start, j));
                    return false;
                }
                pen = Point { x: pen.x + GLYPH_WIDTH as i32, y: pen.y };
            }
        }
        true
    }

    /// Writes `text` from the cursor on, in the text colour and without
    /// touching what lies between the strokes. A line break moves the pen
    /// to the left edge, one line down. The cursor is left behind the last
    /// character.
    pub fn print(&mut self, text: &str)
        requires
            text_fits(text@, old(self).cursor()),
        ensures
            final(self).printed(old(self), text@),
    {
        proof {
            use_type_invariant(&*self);
        }
        let ghost start = self.cursor();
        let color = self.text_color;
        let mut pen = self.cursur;
        for symbol in it: text.chars()
            invariant
                it.seq() == text@,
                start == old(self).cursor(),
                color == old(self).text_color(),
                text_fits(text@, start),
                self.same_frame(old(self)),
                pen.x == pen_at(text@, start, it.index() as int).0,
                pen.y == pen_at(text@, start, it.index() as int).1,
                forall|q: Point|
                    old(self).in_bounds(q) ==> (#[trigger] self.pixel(q)) == if text_inks(
                        text@,
                        start,
                        it.index() as int,
                        q,
                    ) {
                        color
                    } else {
                        old(self).pixel(q)
                    },
        {
            let ghost j = it.index() as int;
            let ghost before = *self;
            assert(pen_fits(text@, start, j));
            if symbol == '\n' {
                pen = Point { x: 0, y: pen.y + GLYPH_HEIGHT as i32 };
            } else {
                let glyph = Glyph::load(symbol);
                self.draw_glyph(pen, &glyph, color);
                proof {
                    assert forall|q: Point| #[trigger] before.in_bounds(q) && cell_holds(
                        (pen.x as int, pen.y as int),
                        q,
                    ) implies glyph.ink(q.x - pen.x, q.y - pen.y) == glyph_ink(
                        symbol,
                        q.x - pen.x,
                        q.y - pen.y,
                    ) by {
                        assert(glyph.depicts(symbol));
                    }
                }
                pen = Point { x: pen.x + GLYPH_WIDTH as i32, y: pen.y };
            }
            proof {
                assert forall|q: Point| old(self).in_bounds(q) implies (#[trigger] self.pixel(q))
                    == if text_inks(text@, start, j + 1, q) {
                    color
                } else {
                    old(self).pixel(q)
                } by {
                    assert(before.in_bounds(q));
                    if text_inks(text@, start, j, q) {
                        let i = choose|i: int| 0 <= i < j && #[trigger] char_inks(text@, start, i, q);
                        assert(char_inks(text@, start, i, q));
                    }
                    if text_inks(text@, start, j + 1, q) {
                        let i = choose|i: int|
                            0 <= i < j + 1 && #[trigger] char_inks(text@, start, i, q);
                        if i < j {
                            assert(text_inks(text@, start, j, q));
                        }
                    }
                    if char_inks(text@, start, j, q) {
                        assert(text_inks(text@, start, j + 1, q));
                    }
                }
            }
        }
        let ghost written = *self;
        proof {
            use_type_invariant(&*self);
        }
        self.cursur = pen;
        proof {
            assert forall|q: Point| old(self).in_bounds(q) implies (#[trigger] self.pixel(q))
                == if text_inks(text@, start, text@.len() as int, q) {
                color
            } else {
                old(self).pixel(q)
            } by {
                assert(self.pixel(q) == written.pixel(q));
            }
        }
    }

    /// Writes `text` as `print` does, for callers that expect a result.
    pub fn write_str(&mut self, text: &str) -> (r: Result<(), crate::transport::Error>)
        requires
            text_fits(text@, old(self).cursor()),
        ensures
            r is Ok,
            final(self).printed(old(self), text@),
    {
        self.print(text);
        Ok(())
    }
}

} // verus!
