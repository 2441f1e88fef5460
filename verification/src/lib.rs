//! Protocol layer for a family of USB button pads with a display under
//! every key.
//!
//! The crate turns operations such as "show this image on that key" into the
//! exact reports a device expects, and turns the reports a device sends back
//! into typed events. It performs no I/O: reports are handed out and taken
//! in as bytes.

pub mod buttons;
pub mod bytes;
pub mod deck;
pub mod error;
pub mod filter;
pub mod hex;
pub mod images;
pub mod info;
pub mod input;
pub mod keys;
pub mod pids;
pub mod report;
pub mod text;
pub mod transform;

pub use crate::deck::StreamDeck;
pub use crate::error::Error;
pub use crate::filter::Filter;
pub use crate::hex::u16_parse_hex;
pub use crate::images::{Colour, DeviceImage, ImageOptions};
pub use crate::info::{ColourOrder, ImageMode, KeyDirection, Kind, Mirroring, Rotation};
pub use crate::input::{Input, KnobInput, TouchInput};
pub use crate::text::TextPosition;
pub use crate::transform::PixelBuffer;
