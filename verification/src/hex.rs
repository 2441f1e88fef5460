//! Numbers and colours written in hexadecimal.

use crate::images::Colour;
use vstd::prelude::*;
use vstd::string::StringSliceAdditionalSpecFns;

verus! {

/// The value of a hexadecimal digit in ASCII, if the byte is one.
pub open spec fn hex_digit(b: u8) -> Option<int> {
    if 0x30 <= b <= 0x39 {
        Some(b - 0x30)
    } else if 0x61 <= b <= 0x66 {
        Some(b - 0x61 + 10)
    } else if 0x41 <= b <= 0x46 {
        Some(b - 0x41 + 10)
    } else {
        None
    }
}

/// Whether every byte is a hexadecimal digit.
pub open spec fn all_hex_digits(digits: Seq<u8>) -> bool {
    forall|i: int| 0 <= i < digits.len() ==> (#[trigger] hex_digit(digits[i])) is Some
}

/// The number that hexadecimal digits write, the most significant first.
pub open spec fn hex_number(digits: Seq<u8>) -> int
    decreases digits.len(),
{
    if digits.len() == 0 {
        0
    } else {
        16 * hex_number(digits.drop_last()) + hex_digit(digits.last()).unwrap()
    }
}

/// The text without the plus sign that may stand in front of a number.
pub open spec fn without_sign(text: Seq<u8>) -> Seq<u8> {
    if text.len() > 0 && text[0] == 0x2b {
        text.subrange(1, text.len() as int)
    } else {
        text
    }
}

/// The 16-bit number that a text writes in hexadecimal: an optional plus
/// sign, then one or more digits and nothing else, with a value that fits.
pub open spec fn parsed_hex(text: Seq<u8>) -> Option<u16> {
    let digits = without_sign(text);
    if digits.len() > 0 && all_hex_digits(digits) && hex_number(digits) <= u16::MAX {
        Some(hex_number(digits) as u16)
    } else {
        None
    }
}

/// A number is never below the number that its leading digits write.
proof fn lemma_hex_number_grows(digits: Seq<u8>, k: int)
    requires
        all_hex_digits(digits),
        0 <= k <= digits.len(),
    ensures
        0 <= hex_number(digits.subrange(0, k)) <= hex_number(digits),
    decreases digits.len(),
{
    if digits.len() == 0 {
        assert(digits.subrange(0, k) =~= digits);
    } else if k == digits.len() {
        assert(digits.subrange(0, k) =~= digits);
        assert(hex_digit(digits.last()) is Some);
        lemma_hex_number_grows(digits.drop_last(), k - 1);
    } else {
        assert(hex_digit(digits.last()) is Some);
        assert(digits.drop_last().subrange(0, k) =~= digits.subrange(0, k));
        lemma_hex_number_grows(digits.drop_last(), k);
    }
}

/// The value of a hexadecimal digit in ASCII, if the byte is one.
pub fn hex_digit_value(b: u8) -> (res: Option<u8>)
    ensures
        match res {
            Some(v) => hex_digit(b) == Some(v as int) && v < 16,
            None => hex_digit(b) is None,
        },
{
    if 0x30 <= b && b <= 0x39 {
        Some(b - 0x30)
    } else if 0x61 <= b && b <= 0x66 {
        Some(b - 0x61 + 10)
    } else if 0x41 <= b && b <= 0x46 {
        Some(b - 0x41 + 10)
    } else {
        None
    }
}

/// Reads a 16-bit number written in hexadecimal, as a USB identifier is.
///
/// The text may start with a plus sign; after it come one or more digits,
/// in either case of the letters, and nothing else. Gives nothing for any
/// other text and for a number that does not fit into 16 bits.
pub fn u16_parse_hex(s: &str) -> (res: Option<u16>)
    ensures
        res == parsed_hex(s.spec_bytes()),
{
    let bytes = s.as_bytes();
    let len: usize = bytes.len();
    let start: usize = if len > 0 && bytes[0] == 0x2b {
        1
    } else {
        0
    };
    let ghost digits = without_sign(bytes@);
    assert(digits =~= bytes@.subrange(start as int, len as int));
    if start == len {
        return None;
    }
    let mut value: u32 = 0;
    let mut i: usize = start;
    while i < len
        invariant
            start <= i <= len,
            len == bytes@.len(),
            bytes@ == s.spec_bytes(),
            digits == without_sign(bytes@),
            digits == bytes@.subrange(start as int, len as int),
            all_hex_digits(digits.subrange(0, i - start)),
            value == hex_number(digits.subrange(0, i - start)),
            value <= u16::MAX,
        decreases len - i,
    {
        let ghost before = digits.subrange(0, i - start);
        let ghost after = digits.subrange(0, i - start + 1);
        assert(after.drop_last() =~= before);
        assert(after.last() == bytes@[i as int]);
        match hex_digit_value(bytes[i]) {
            None => {
                assert(hex_digit(digits[i - start]) is None);
                return None;
            },
            Some(digit) => {
                assert forall|j: int| 0 <= j < after.len() implies (#[trigger] hex_digit(
                    after[j],
                )) is Some by {
                    if j < before.len() {
                        assert(after[j] == before[j]);
                    }
                }
                value = value * 16 + digit as u32;
                assert(value == hex_number(after));
                if value > 0xffff {
                    proof {
                        if all_hex_digits(digits) {
                            lemma_hex_number_grows(digits, i - start + 1);
                        }
                    }
                    return None;
                }
            },
        }
        i += 1;
    }
    assert(digits.subrange(0, i - start) =~= digits);
    Some(value as u16)
}

/// The colour that a text writes as six hexadecimal digits, two each for
/// red, green and blue.
pub open spec fn parsed_colour(text: Seq<u8>) -> Option<Colour> {
    if text.len() == 6 && all_hex_digits(text) {
        Some(
            Colour {
                r: (16 * hex_digit(text[0]).unwrap() + hex_digit(text[1]).unwrap()) as u8,
                g: (16 * hex_digit(text[2]).unwrap() + hex_digit(text[3]).unwrap()) as u8,
                b: (16 * hex_digit(text[4]).unwrap() + hex_digit(text[5]).unwrap()) as u8,
            },
        )
    } else {
        None
    }
}

/// The byte that two hexadecimal digits write, if both are digits.
fn hex_byte(high: u8, low: u8) -> (res: Option<u8>)
    ensures
        match res {
            Some(v) => hex_digit(high) is Some && hex_digit(low) is Some && v == 16 * hex_digit(
                high,
            ).unwrap() + hex_digit(low).unwrap(),
            None => hex_digit(high) is None || hex_digit(low) is None,
        },
{
    match (hex_digit_value(high), hex_digit_value(low)) {
        (Some(h), Some(l)) => Some(16 * h + l),
        _ => None,
    }
}

impl Colour {
    /// Reads a colour written as six hexadecimal digits, two each for red,
    /// green and blue, like `ff8000`. Gives nothing for any other text.
    pub fn from_hex(s: &str) -> (res: Option<Colour>)
        ensures
            res == parsed_colour(s.spec_bytes()),
    {
        let bytes = s.as_bytes();
        if bytes.len() != 6 {
            return None;
        }
        match (
            hex_byte(bytes[0], bytes[1]),
            hex_byte(bytes[2], bytes[3]),
            hex_byte(bytes[4], bytes[5]),
        ) {
            (Some(r), Some(g), Some(b)) => {
                assert forall|i: int| 0 <= i < bytes@.len() implies (#[trigger] hex_digit(
                    bytes@[i],
                )) is Some by {
                    assert(i == 0 || i == 1 || i == 2 || i == 3 || i == 4 || i == 5);
                }
                Some(Colour { r, g, b })
            },
            _ => None,
        }
    }
}

impl std::str::FromStr for Colour {
    type Err = String;

    /// Reads a colour as [`Colour::from_hex`] does, and says what was
    /// expected where that gives nothing.
    fn from_str(s: &str) -> Result<Self, Self::Err> {
        match Colour::from_hex(s) {
            Some(colour) => Ok(colour),
            None => Err("expected a colour in the hex form RRGGBB".to_string()),
        }
    }
}

} // verus!
