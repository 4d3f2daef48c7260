//! Driver logic for daisy-chained MAX7219 LED-matrix controllers.
//!
//! Several MAX7219 chips, each driving an 8x8 block of LEDs, hang on one SPI
//! bus and one chip-select line and form a single shift register. This crate
//! is everything about driving them that does not touch the bus:
//!
//! - `register`: the register map, and a register write as two bytes;
//! - `chain`: the frame that carries one pair to every chip, or to one chip
//!   and a no-op to the others;
//! - `framebuffer`: the image of every digit register, written pixel by
//!   pixel or row by row, and the frames that flush it;
//! - `led_matrix`: the framebuffer as a drawing surface with a bounding box
//!   and a pixel write;
//! - `driver`: initialization and the states the driver goes through;
//! - `transport`: the frames of one operation, handed to the owner of the
//!   bus one at a time;
//! - `chip`: a model of what the chips latch, against which initialization
//!   and flush are shown to do what they are for;
//! - `error`: what can go wrong.
//!
//! The crate never performs a transfer. An operation that has something to
//! send returns a `Transmission`; whoever owns the SPI device sends its
//! frames, each inside one chip-select cycle, and reports the outcome.

pub mod chain;
pub mod chip;
pub mod driver;
pub mod error;
pub mod framebuffer;
pub mod led_matrix;
pub mod register;
pub mod transport;
