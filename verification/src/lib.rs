//! Board support for a small battery-powered stick computer: one shared
//! two-wire bus with a power-management chip and a motion sensor on it, a
//! colour panel fed from an in-memory frame, two push buttons.
//!
//! Everything here is plain computation over values handed in by the caller;
//! the hardware is reached through the capability traits in [`transport`].

pub mod misc;
pub mod codec;
pub mod transport;
pub mod bus;
pub mod axp192;
pub mod mpu6886;
pub mod button;
pub mod font;
pub mod display_buffer;
pub mod display;
pub mod board;
