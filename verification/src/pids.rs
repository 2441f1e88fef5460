//! USB product identifiers of the supported models.

use vstd::prelude::*;

verus! {

pub const ORIGINAL: u16 = 0x0060;

pub const ORIGINAL_V2: u16 = 0x006d;

pub const MINI: u16 = 0x0063;

pub const XL: u16 = 0x006c;

pub const MK2: u16 = 0x0080;

pub const PLUS: u16 = 0x0084;

} // verus!
