//! Placing text on a key.

use vstd::prelude::*;

verus! {

/// Where text is placed on a key's image.
#[derive(Debug, Clone, Copy, PartialEq, Eq, Structural)]
pub enum TextPosition {
    /// The text's top left corner, in pixels from the image's top left
    /// corner.
    Absolute { x: i32, y: i32 },
}

} // verus!
