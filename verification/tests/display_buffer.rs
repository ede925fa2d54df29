use embedded_graphics::draw_target::DrawTarget;
use embedded_graphics::geometry::{OriginDimensions, Point as EgPoint, Size as EgSize};
use embedded_graphics::mono_font::ascii::FONT_6X13;
use embedded_graphics::mono_font::MonoTextStyle;
use embedded_graphics::pixelcolor::raw::RawU16;
use embedded_graphics::pixelcolor::Rgb565;
use embedded_graphics::prelude::RawData;
use embedded_graphics::text::renderer::TextRenderer;
use embedded_graphics::text::Baseline;
use embedded_graphics::Pixel as EgPixel;

use m5stickc::display_buffer::{DisplayBuffer, Pixel, Point, Size};
use m5stickc::font::{Glyph, GLYPH_CELLS, GLYPH_HEIGHT, GLYPH_WIDTH};

const INK: u16 = 0xFFFF;
const PAPER: u16 = 0x0000;

struct Sheet {
    width: usize,
    height: usize,
    cells: Vec<u16>,
    cursor: EgPoint,
}

impl Sheet {
    fn new(width: usize, height: usize) -> Sheet {
        Sheet { width, height, cells: vec![PAPER; width * height], cursor: EgPoint::new(0, 0) }
    }

    fn print(&mut self, text: &str, color: u16) {
        let style = MonoTextStyle::new(&FONT_6X13, Rgb565::from(RawU16::new(color)));
        for (i, line) in text.split('\n').enumerate() {
            let position = if i == 0 {
                self.cursor
            } else {
                EgPoint::new(0, self.cursor.y + style.line_height() as i32)
            };
            self.cursor = style.draw_string(line, position, Baseline::Top, self).unwrap();
        }
    }
}

impl OriginDimensions for Sheet {
    fn size(&self) -> EgSize {
        EgSize::new(self.width as u32, self.height as u32)
    }
}

impl DrawTarget for Sheet {
    type Color = Rgb565;
    type Error = core::convert::Infallible;

    fn draw_iter<I>(&mut self, pixels: I) -> Result<(), Self::Error>
    where
        I: IntoIterator<Item = EgPixel<Self::Color>>,
    {
        for EgPixel(p, color) in pixels {
            if p.x >= 0 && (p.x as usize) < self.width && p.y >= 0 && (p.y as usize) < self.height {
                let raw: RawU16 = color.into();
                self.cells[self.width * p.y as usize + p.x as usize] = raw.into_inner();
            }
        }
        Ok(())
    }
}

fn at(x: i32, y: i32) -> Point {
    Point { x, y }
}

fn same_as_embedded_graphics(width: usize, height: usize, start: (i32, i32), text: &str) {
    let mut frame = DisplayBuffer::new(PAPER, INK, width, height);
    frame.set_cursur(at(start.0, start.1));
    assert!(frame.fits(text));
    frame.print(text);
    let mut sheet = Sheet::new(width, height);
    sheet.cursor = EgPoint::new(start.0, start.1);
    sheet.print(text, INK);
    assert_eq!(frame.as_pixels(), sheet.cells);
    assert_eq!(frame.cursur(), at(sheet.cursor.x, sheet.cursor.y));
}

#[test]
fn new_frame_is_all_background() {
    let frame = DisplayBuffer::new(0x1234, 0xFFFF, 5, 4);
    assert_eq!(frame.as_pixels(), vec![0x1234; 20]);
    assert_eq!(frame.cursur(), at(0, 0));
    assert_eq!(frame.size(), Size { width: 5, height: 4 });
}

#[test]
fn empty_frames_are_allowed() {
    assert_eq!(DisplayBuffer::new(1, 2, 0, 10).as_pixels(), Vec::<u16>::new());
    assert_eq!(DisplayBuffer::new(1, 2, 10, 0).as_bytes(), Vec::<u8>::new());
    let mut frame = DisplayBuffer::new(1, 2, 0, 0);
    frame.set_color_at(at(0, 0), 5);
    frame.clear(7);
    frame.print("x");
    assert_eq!(frame.as_pixels(), Vec::<u16>::new());
    assert_eq!(frame.cursur(), at(6, 0));
}

#[test]
fn set_then_get() {
    let mut frame = DisplayBuffer::new(PAPER, INK, 4, 3);
    frame.set_color_at(at(1, 2), 0xBEEF);
    assert_eq!(frame.get_color_at(at(1, 2)), 0xBEEF);
    assert_eq!(frame.point_to_index(at(1, 2)), 9);
    let mut expected = vec![PAPER; 12];
    expected[9] = 0xBEEF;
    assert_eq!(frame.as_pixels(), expected);
}

#[test]
fn write_one_past_the_edge_is_dropped() {
    let mut frame = DisplayBuffer::new(PAPER, INK, 4, 3);
    frame.set_color_at(at(0, 0), 1);
    let before = frame.as_pixels();
    frame.set_color_at(at(4, 0), 9);
    frame.set_color_at(at(0, 3), 9);
    frame.set_color_at(at(4, 3), 9);
    frame.set_color_at(at(4, 1), 9);
    assert_eq!(frame.as_pixels(), before);
}

#[test]
fn writes_far_outside_are_dropped() {
    let mut frame = DisplayBuffer::new(PAPER, INK, 4, 3);
    let before = frame.as_pixels();
    for p in [at(-1, 0), at(0, -1), at(i32::MIN, i32::MIN), at(i32::MAX, i32::MAX), at(-1, 2), at(3, i32::MAX)] {
        assert!(!frame.contains(p));
        frame.set_color_at(p, 9);
    }
    assert_eq!(frame.as_pixels(), before);
}

#[test]
fn corners_are_inside() {
    let mut frame = DisplayBuffer::new(PAPER, INK, 4, 3);
    for (i, p) in [at(0, 0), at(3, 0), at(0, 2), at(3, 2)].into_iter().enumerate() {
        assert!(frame.contains(p));
        frame.set_color_at(p, 10 + i as u16);
    }
    assert_eq!(frame.as_pixels(), vec![10, 0, 0, 11, 0, 0, 0, 0, 12, 0, 0, 13]);
}

#[test]
fn clear_then_read_every_point() {
    let mut frame = DisplayBuffer::new(PAPER, INK, 7, 5);
    frame.set_color_at(at(3, 3), 0x00FF);
    frame.clear(0xA5A5);
    for y in 0..5 {
        for x in 0..7 {
            assert_eq!(frame.get_color_at(at(x, y)), 0xA5A5);
        }
    }
}

#[test]
fn clear_default_uses_the_background() {
    let mut frame = DisplayBuffer::new(0x0F0F, INK, 3, 2);
    frame.clear(0x1111);
    frame.set_cursur(at(2, 1));
    frame.clear_default();
    assert_eq!(frame.as_pixels(), vec![0x0F0F; 6]);
    assert_eq!(frame.cursur(), at(2, 1));
}

#[test]
fn words_and_bytes_of_a_frame() {
    let mut frame = DisplayBuffer::new(0x1234, INK, 2, 2);
    frame.set_color_at(at(1, 0), 0xABCD);
    frame.set_color_at(at(0, 1), 0x00FF);
    assert_eq!(frame.as_pixels(), vec![0x1234, 0xABCD, 0x00FF, 0x1234]);
    assert_eq!(frame.as_bytes(), vec![0x34, 0x12, 0xCD, 0xAB, 0xFF, 0x00, 0x34, 0x12]);
}

#[test]
fn draw_iter_applies_pixels_in_order_and_clips() {
    let mut frame = DisplayBuffer::new(PAPER, INK, 3, 2);
    let pixels = vec![
        Pixel { point: at(0, 0), color: 1 },
        Pixel { point: at(3, 0), color: 2 },
        Pixel { point: at(2, 1), color: 3 },
        Pixel { point: at(0, 0), color: 4 },
        Pixel { point: at(-1, 1), color: 5 },
        Pixel { point: at(1, 2), color: 6 },
    ];
    frame.draw_iter(&pixels);
    assert_eq!(frame.as_pixels(), vec![4, 0, 0, 0, 0, 3]);
    frame.draw_iter(&vec![]);
    assert_eq!(frame.as_pixels(), vec![4, 0, 0, 0, 0, 3]);
}

#[test]
fn hand_made_glyph_is_stamped_where_inked() {
    let mut cells = vec![false; GLYPH_CELLS];
    cells[0] = true;
    cells[5] = true;
    cells[6 * 12 + 2] = true;
    let glyph = Glyph::from_cells(cells).unwrap();
    assert!(glyph.is_inked(0, 0));
    assert!(glyph.is_inked(5, 0));
    assert!(glyph.is_inked(2, 12));
    assert!(!glyph.is_inked(1, 0));
    let mut frame = DisplayBuffer::new(PAPER, INK, 10, 15);
    frame.draw_glyph(at(2, 1), &glyph, 0x7777);
    let mut expected = vec![PAPER; 150];
    expected[10 + 2] = 0x7777;
    expected[10 + 7] = 0x7777;
    expected[10 * 13 + 4] = 0x7777;
    assert_eq!(frame.as_pixels(), expected);
    assert_eq!(frame.cursur(), at(0, 0));
}

#[test]
fn glyph_needs_exactly_78_cells() {
    assert!(Glyph::from_cells(vec![false; 77]).is_none());
    assert!(Glyph::from_cells(vec![false; 79]).is_none());
    assert!(Glyph::from_cells(vec![]).is_none());
    assert!(Glyph::from_cells(vec![true; 78]).is_some());
    assert_eq!(GLYPH_WIDTH * GLYPH_HEIGHT, GLYPH_CELLS as u32);
}

#[test]
fn glyph_hanging_over_the_edge_is_clipped() {
    let glyph = Glyph::from_cells(vec![true; GLYPH_CELLS]).unwrap();
    let mut frame = DisplayBuffer::new(PAPER, INK, 4, 4);
    frame.draw_glyph(at(-3, -10), &glyph, 5);
    assert_eq!(frame.as_pixels(), vec![5, 5, 5, 0, 5, 5, 5, 0, 5, 5, 5, 0, 0, 0, 0, 0]);
    let mut frame = DisplayBuffer::new(PAPER, INK, 4, 4);
    frame.draw_glyph(at(2, 3), &glyph, 6);
    assert_eq!(frame.as_pixels(), vec![0, 0, 0, 0, 0, 0, 0, 0, 0, 0, 0, 0, 0, 0, 6, 6]);
    let mut frame = DisplayBuffer::new(PAPER, INK, 4, 4);
    frame.draw_glyph(at(i32::MAX - 6, i32::MAX - 13), &glyph, 7);
    frame.draw_glyph(at(i32::MIN, i32::MIN), &glyph, 7);
    assert_eq!(frame.as_pixels(), vec![0; 16]);
}

#[test]
fn loaded_glyphs_differ_and_space_is_blank() {
    let a = Glyph::load('A');
    let b = Glyph::load('B');
    let space = Glyph::load(' ');
    assert_ne!(a, b);
    assert_eq!(space, Glyph::from_cells(vec![false; GLYPH_CELLS]).unwrap());
    assert_eq!(Glyph::load('\u{1F600}'), Glyph::load('?'));
    let mut inked = 0;
    for row in 0..GLYPH_HEIGHT {
        for column in 0..GLYPH_WIDTH {
            if a.is_inked(column, row) {
                inked += 1;
            }
        }
    }
    assert!(inked > 10);
}

#[test]
fn printed_text_matches_embedded_graphics() {
    same_as_embedded_graphics(160, 80, (0, 0), "fps: 12.34");
    same_as_embedded_graphics(160, 80, (0, 0), "  X       Y       Z\n1.00   -2.50   3.75      o/s\n");
    same_as_embedded_graphics(160, 80, (7, 5), "Sensor read error");
    same_as_embedded_graphics(160, 80, (30, 20), "a\n\nb\nlonger line that runs off the right edge of the panel");
    same_as_embedded_graphics(40, 20, (-4, -3), "clip\nme");
    same_as_embedded_graphics(40, 20, (0, 0), "");
    same_as_embedded_graphics(40, 20, (3, 4), "\n");
    same_as_embedded_graphics(64, 30, (0, 0), "\u{e9}\u{1F600}~\t\r!");
}

#[test]
fn print_leaves_the_cursor_behind_the_last_character() {
    let mut frame = DisplayBuffer::new(PAPER, INK, 160, 80);
    frame.set_cursur(at(10, 20));
    frame.print("abc");
    assert_eq!(frame.cursur(), at(28, 20));
    frame.print("d\nef");
    assert_eq!(frame.cursur(), at(12, 33));
    frame.print("\n");
    assert_eq!(frame.cursur(), at(0, 46));
    frame.print("");
    assert_eq!(frame.cursur(), at(0, 46));
}

#[test]
fn print_continues_where_the_last_one_stopped() {
    let mut one = DisplayBuffer::new(PAPER, INK, 80, 30);
    one.print("hello\nworld");
    let mut two = DisplayBuffer::new(PAPER, INK, 80, 30);
    two.print("hel");
    two.print("lo\nwo");
    two.print("rld");
    assert_eq!(one.as_pixels(), two.as_pixels());
    assert_eq!(one.cursur(), two.cursur());
}

#[test]
fn print_does_not_touch_what_lies_between_the_strokes() {
    let mut frame = DisplayBuffer::new(0x0101, 0x0202, 12, 13);
    frame.clear(0x0303);
    frame.print("Hi");
    let words = frame.as_pixels();
    assert!(words.iter().all(|w| *w == 0x0303 || *w == 0x0202));
    assert!(words.iter().any(|w| *w == 0x0202));
    assert!(words.iter().any(|w| *w == 0x0303));
}

#[test]
fn write_str_prints_and_succeeds() {
    let mut a = DisplayBuffer::new(PAPER, INK, 60, 30);
    let mut b = DisplayBuffer::new(PAPER, INK, 60, 30);
    assert_eq!(a.write_str("ok\n1"), Ok(()));
    b.print("ok\n1");
    assert_eq!(a.as_pixels(), b.as_pixels());
    assert_eq!(a.cursur(), b.cursur());
}

#[test]
fn text_that_would_leave_the_coordinate_range_does_not_fit() {
    let mut frame = DisplayBuffer::new(PAPER, INK, 8, 8);
    assert!(frame.fits("any text\nat all"));
    frame.set_cursur(at(i32::MAX - 6, 0));
    assert!(frame.fits("a"));
    assert!(!frame.fits("ab"));
    assert!(frame.fits("a\nb"));
    frame.set_cursur(at(i32::MAX - 5, 0));
    assert!(!frame.fits("a"));
    assert!(frame.fits("\na"));
    assert!(frame.fits(""));
    frame.set_cursur(at(0, i32::MAX - 13));
    assert!(frame.fits("a"));
    assert!(frame.fits("\n"));
    assert!(!frame.fits("\n\n"));
    assert!(!frame.fits("\na"));
    frame.set_cursur(at(0, i32::MAX - 12));
    assert!(!frame.fits("a"));
    assert!(!frame.fits("\n"));
    assert!(frame.fits(""));
    frame.set_cursur(at(i32::MIN, i32::MIN));
    assert!(frame.fits("far away"));
}
