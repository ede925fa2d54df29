//! The flush adapter: sends a whole frame to the panel controller in the
//! encoding and the window that the panel at hand needs.

use vstd::prelude::*;
use crate::display_buffer::{low_high_bytes, DisplayBuffer};
use crate::transport::{DisplayTransport, Error, TransportError, Window};

verus! {

/// The panels this board family is built with.
#[derive(Clone, Copy, Debug, PartialEq, Eq)]
pub enum Panel {
    /// 160 by 80 pixels, fed with bytes.
    St7735,
    /// 240 by 135 pixels, fed with 16-bit words.
    St7789,
}

impl Panel {
    /// Pixels in a row.
    pub open spec fn spec_width(self) -> u16 {
        match self {
            Panel::St7735 => 160,
            Panel::St7789 => 240,
        }
    }

    /// Rows.
    pub open spec fn spec_height(self) -> u16 {
        match self {
            Panel::St7735 => 80,
            Panel::St7789 => 135,
        }
    }

    /// Columns of the controller's memory left of the visible area.
    pub open spec fn spec_x_offset(self) -> u16 {
        match self {
            Panel::St7735 => 1,
            Panel::St7789 => 40,
        }
    }

    /// Rows of the controller's memory above the visible area.
    pub open spec fn spec_y_offset(self) -> u16 {
        match self {
            Panel::St7735 => 26,
            Panel::St7789 => 53,
        }
    }

    /// The visible area in the controller's own coordinates: the panel's
    /// extent, moved by its offsets, corners included.
    pub open spec fn spec_window(self) -> Window {
        Window {
            x0: self.spec_x_offset(),
            y0: self.spec_y_offset(),
            x1: (self.spec_x_offset() + self.spec_width() - 1) as u16,
            y1: (self.spec_y_offset() + self.spec_height() - 1) as u16,
        }
    }

    /// Pixels in a row.
    #[verifier::when_used_as_spec(spec_width)]
    pub fn width(self) -> (w: u16)
        ensures
            w == self.spec_width(),
    {
        match self {
            Panel::St7735 => 160,
            Panel::St7789 => 240,
        }
    }

    /// Rows.
    #[verifier::when_used_as_spec(spec_height)]
    pub fn height(self) -> (h: u16)
        ensures
            h == self.spec_height(),
    {
        match self {
            Panel::St7735 => 80,
            Panel::St7789 => 135,
        }
    }

    /// Columns of the controller's memory left of the visible area.
    #[verifier::when_used_as_spec(spec_x_offset)]
    pub fn x_offset(self) -> (dx: u16)
        ensures
            dx == self.spec_x_offset(),
    {
        match self {
            Panel::St7735 => 1,
            Panel::St7789 => 40,
        }
    }

    /// Rows of the controller's memory above the visible area.
    #[verifier::when_used_as_spec(spec_y_offset)]
    pub fn y_offset(self) -> (dy: u16)
        ensures
            dy == self.spec_y_offset(),
    {
        match self {
            Panel::St7735 => 26,
            Panel::St7789 => 53,
        }
    }

    /// The visible area in the controller's own coordinates.
    #[verifier::when_used_as_spec(spec_window)]
    pub fn window(self) -> (w: Window)
        ensures
            w == self.spec_window(),
    {
        let ex: u16 = self.width() - 1;
        let ey: u16 = self.height() - 1;
        Window {
            x0: self.x_offset(),
            y0: self.y_offset(),
            x1: ex + self.x_offset(),
            y1: ey + self.y_offset(),
        }
    }
}

/// The colour word of white.
pub const WHITE: u16 = 0xFFFF;

/// A frame as it goes over the wire.
pub enum Payload {
    Bytes(Seq<u8>),
    Words(Seq<u16>),
}

/// One bulk transfer to the panel, and how it ended.
pub struct Flush {
    pub window: Window,
    pub payload: Payload,
    pub reply: Result<(), TransportError>,
}

/// What `panel` is sent for the colour words `cells`.
pub open spec fn encoded(panel: Panel, cells: Seq<u16>) -> Payload {
    match panel {
        Panel::St7735 => Payload::Bytes(low_high_bytes(cells)),
        Panel::St7789 => Payload::Words(cells),
    }
}

/// What the caller of a flush is told for the transport's reply.
pub open spec fn flush_failure(reply: Result<(), TransportError>) -> Option<Error> {
    match reply {
        Ok(_) => None,
        Err(e) => Some(Error::Transport(e)),
    }
}

/// The panel behind its transport.
pub struct Display<D> {
    panel: Panel,
    link: D,
    sent: Ghost<Seq<Flush>>,
}

impl<D: DisplayTransport> Display<D> {
    /// The panel this adapter feeds.
    pub closed spec fn panel(&self) -> Panel {
        self.panel
    }

    /// Every transfer so far, oldest first.
    pub closed spec fn sent(&self) -> Seq<Flush> {
        self.sent@
    }

    /// An adapter for `panel`, which `link` reaches. Nothing is sent.
    pub fn new(panel: Panel, link: D) -> (display: Self)
        ensures
            display.panel() == panel,
            display.sent() == Seq::<Flush>::empty(),
    {
        Display { panel, link, sent: Ghost(Seq::empty()) }
    }

    /// Pixels in a row of the panel.
    pub fn width(&self) -> (w: usize)
        ensures
            w == self.panel().spec_width(),
    {
        self.panel.width() as usize
    }

    /// Rows of the panel.
    pub fn height(&self) -> (h: usize)
        ensures
            h == self.panel().spec_height(),
    {
        self.panel.height() as usize
    }

    /// Turns the whole panel white: one transfer of a white frame of the
    /// panel's extent.
    pub fn clear(&mut self) -> (r: Result<(), Error>)
        ensures
            final(self).panel() == old(self).panel(),
            final(self).sent() == old(self).sent().push(final(self).sent().last()),
            final(self).sent().last().window == old(self).panel().spec_window(),
            final(self).sent().last().payload == encoded(
                old(self).panel(),
                Seq::new(
                    (old(self).panel().spec_width() * old(self).panel().spec_height()) as nat,
                    |i: int| WHITE,
                ),
            ),
            crate::bus::failure(r) == flush_failure(final(self).sent().last().reply),
    {
        let white = DisplayBuffer::new(WHITE, WHITE, self.width(), self.height());
        assert(white.cells() =~= Seq::new(
            (self.panel().spec_width() * self.panel().spec_height()) as nat,
            |i: int| WHITE,
        ));
        self.draw(&white)
    }

    /// Sends the whole frame in one transfer, into the panel's window and
    /// in the panel's encoding. A failure of the transport is handed on as
    /// it is; the transfer is not tried again.
    pub fn draw(&mut self, display_buffer: &DisplayBuffer) -> (r: Result<(), Error>)
        ensures
            final(self).panel() == old(self).panel(),
            final(self).sent() == old(self).sent().push(final(self).sent().last()),
            final(self).sent().last().window == old(self).panel().spec_window(),
            final(self).sent().last().payload == encoded(
                old(self).panel(),
                display_buffer.cells(),
            ),
            crate::bus::failure(r) == flush_failure(final(self).sent().last().reply),
    {
        let window = self.panel.window();
        let reply = match self.panel {
            Panel::St7735 => {
                let data = display_buffer.as_bytes();
                self.link.bulk_write_bytes(window, data.as_slice())
            },
            Panel::St7789 => {
                let data = display_buffer.as_pixels();
                self.link.bulk_write_words(window, data.as_slice())
            },
        };
        proof {
            self.sent@ = self.sent@.push(
                Flush {
                    window,
                    payload: encoded(self.panel, display_buffer.cells()),
                    reply,
                },
            );
        }
        match reply {
            Ok(()) => Ok(()),
            Err(e) => Err(Error::Transport(e)),
        }
    }
}

} // verus!
