//! The capabilities the drivers are handed, and the errors they report.
//!
//! Nothing is assumed of an implementation of these traits: whatever a
//! transport answers, the drivers are proved to behave as their contracts
//! say.

use vstd::prelude::*;

verus! {

/// A failure of the wire itself, carried through the library untouched.
#[derive(Clone, Copy, Debug, PartialEq, Eq)]
pub struct TransportError {
    /// The code the transport reported.
    pub code: i32,
}

/// Everything an operation of this library can fail with.
#[derive(Clone, Copy, Debug, PartialEq, Eq)]
pub enum Error {
    /// The wire failed; the transport's own error is inside, unchanged.
    Transport(TransportError),
    /// A device answered, but not as its protocol demands: a wrong identity
    /// byte, or a reply of the wrong length.
    Protocol,
    /// An argument was outside its documented range; nothing was sent.
    Validation,
    /// A bus was claimed a second time, or a proxy was used on a bus it was
    /// not derived from.
    Resource,
}

/// The two-wire bus as the electrical layer offers it.
pub trait Transport {
    /// Sends `bytes` to the device at `address`.
    fn write(&mut self, address: u8, bytes: &[u8]) -> Result<(), TransportError>;

    /// Sends `out` to the device at `address`, then reads `count` bytes
    /// from it without releasing the bus in between.
    fn write_read(&mut self, address: u8, out: &[u8], count: usize) -> Result<
        Vec<u8>,
        TransportError,
    >;

    /// Leaves the wire idle for at least `ms` milliseconds.
    fn settle(&mut self, ms: u32);
}

/// The addressable rectangle of a panel, corners included.
#[derive(Clone, Copy, Debug, PartialEq, Eq)]
pub struct Window {
    pub x0: u16,
    pub y0: u16,
    pub x1: u16,
    pub y1: u16,
}

/// The panel controller's bulk transfer.
pub trait DisplayTransport {
    /// Fills `window` with colour data packed as bytes.
    fn bulk_write_bytes(&mut self, window: Window, data: &[u8]) -> Result<(), TransportError>;

    /// Fills `window` with colour data packed as 16-bit words.
    fn bulk_write_words(&mut self, window: Window, data: &[u16]) -> Result<(), TransportError>;
}

} // verus!
