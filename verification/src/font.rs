//! The one font of the frame: the 6 by 13 pixel monospace face of the
//! `embedded-graphics` crate, read out of that crate cell by cell.

use vstd::prelude::*;
use embedded_graphics::framebuffer::Framebuffer;
use embedded_graphics::geometry::Point;
use embedded_graphics::image::GetPixel;
use embedded_graphics::mono_font::ascii::FONT_6X13;
use embedded_graphics::mono_font::MonoTextStyle;
use embedded_graphics::pixelcolor::raw::{LittleEndian, RawU1};
use embedded_graphics::pixelcolor::BinaryColor;
use embedded_graphics::text::renderer::TextRenderer;
use embedded_graphics::text::Baseline;

verus! {

/// Pixels in a row of a character cell, and the pen's advance for one
/// character.
pub const GLYPH_WIDTH: u32 = 6;

/// Rows of a character cell, and the height of a line of text.
pub const GLYPH_HEIGHT: u32 = 13;

/// Cells of a character.
pub const GLYPH_CELLS: usize = 78;

/// Whether the font inks the cell at `column` and `row` of the character
/// `symbol`, counted from the cell's top left corner.
pub uninterp spec fn glyph_ink(symbol: char, column: int, row: int) -> bool;

/// Draws `symbol` alone with `MonoTextStyle::draw_string`, in the face
/// `FONT_6X13` and from the top left corner of an empty
/// `embedded_graphics` frame of one character's size, and reports whether
/// the cell at `column` and `row` was set. The answer depends on the three
/// arguments only, which is all the contract says: it gives the answer its
/// name.
#[verifier::external_body]
fn inked(symbol: char, column: u32, row: u32) -> (on: bool)
    requires
        column < GLYPH_WIDTH,
        row < GLYPH_HEIGHT,
    ensures
        on == glyph_ink(symbol, column as int, row as int),
{
    let mut cell = Framebuffer::<BinaryColor, RawU1, LittleEndian, 6, 13, 13>::new();
    let mut utf8 = [0u8; 4];
    let style = MonoTextStyle::new(&FONT_6X13, BinaryColor::On);
    let text = symbol.encode_utf8(&mut utf8);
    let _ = style.draw_string(text, Point::zero(), Baseline::Top, &mut cell);
    cell.pixel(Point::new(column as i32, row as i32)) == Some(BinaryColor::On)
}

/// The picture of one character: which cells of its 6 by 13 box are inked.
#[derive(Debug, PartialEq, Eq)]
pub struct Glyph {
    cells: Vec<bool>,
}

impl Glyph {
    /// Whether the cell at `column` and `row` is inked.
    pub closed spec fn ink(&self, column: int, row: int) -> bool {
        self.cells@[row * GLYPH_WIDTH + column]
    }

    /// Every cell is there.
    #[verifier::type_invariant]
    closed spec fn complete(&self) -> bool {
        self.cells@.len() == GLYPH_CELLS
    }

    /// Whether this is the font's picture of `symbol`.
    pub open spec fn depicts(&self, symbol: char) -> bool {
        forall|column: int, row: int|
            0 <= column < GLYPH_WIDTH && 0 <= row < GLYPH_HEIGHT ==> #[trigger] self.ink(column, row)
                == glyph_ink(symbol, column, row)
    }

    /// The font's picture of `symbol`.
    pub fn load(symbol: char) -> (glyph: Self)
        ensures
            glyph.depicts(symbol),
    {
        let mut cells: Vec<bool> = Vec::new();
        let mut row: u32 = 0;
        while row < GLYPH_HEIGHT
            invariant
                row <= GLYPH_HEIGHT,
                cells@.len() == row * GLYPH_WIDTH,
                forall|c: int, r: int|
                    0 <= c < GLYPH_WIDTH && 0 <= r < row ==> cells@[r * GLYPH_WIDTH + c]
                        == glyph_ink(symbol, c, r),
            decreases GLYPH_HEIGHT - row,
        {
            let mut column: u32 = 0;
            while column < GLYPH_WIDTH
                invariant
                    row < GLYPH_HEIGHT,
                    column <= GLYPH_WIDTH,
                    cells@.len() == row * GLYPH_WIDTH + column,
                    forall|c: int, r: int|
                        0 <= c < GLYPH_WIDTH && 0 <= r < row ==> cells@[r * GLYPH_WIDTH + c]
                            == glyph_ink(symbol, c, r),
                    forall|c: int|
                        0 <= c < column ==> cells@[row * GLYPH_WIDTH + c] == glyph_ink(
                            symbol,
                            c,
                            row as int,
                        ),
                decreases GLYPH_WIDTH - column,
            {
                cells.push(inked(symbol, column, row));
                column = column + 1;
            }
            row = row + 1;
        }
        Glyph { cells }
    }

    /// A picture made by hand: `cells` holds the 78 cells row after row,
    /// each row left to right. Any other number of cells is refused.
    pub fn from_cells(cells: Vec<bool>) -> (glyph: Option<Self>)
        ensures
            glyph is Some <==> cells@.len() == GLYPH_CELLS,
            glyph is Some ==> forall|column: int, row: int|
                0 <= column < GLYPH_WIDTH && 0 <= row < GLYPH_HEIGHT ==> #[trigger] glyph->Some_0.ink(
                    column,
                    row,
                ) == cells@[row * GLYPH_WIDTH + column],
    {
        if cells.len() == GLYPH_CELLS {
            Some(Glyph { cells })
        } else {
            None
        }
    }

    /// Whether the cell at `column` and `row` is inked.
    pub fn is_inked(&self, column: u32, row: u32) -> (on: bool)
        requires
            column < GLYPH_WIDTH,
            row < GLYPH_HEIGHT,
        ensures
            on == self.ink(column as int, row as int),
    {
        proof {
            use_type_invariant(self);
        }
        self.cells[(row * GLYPH_WIDTH + column) as usize]
    }
}

} // verus!
