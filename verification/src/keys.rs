//! Translation between the key numbering this crate offers and the
//! numbering a device uses.
//!
//! Callers number keys from zero, left to right and top to bottom. Most
//! models do the same. The first model numbers each row from right to left,
//! starting at one.

use crate::deck::StreamDeck;
use crate::error::Error;
use crate::info::{KeyDirection, Kind};
use vstd::prelude::*;

verus! {

/// The number a device gives to the key that callers number `key`.
pub open spec fn native_key_index(kind: Kind, key: int) -> int {
    match kind.key_direction() {
        KeyDirection::LeftToRight => key,
        KeyDirection::RightToLeft => {
            let cols = kind.key_columns() as int;
            (key / cols) * cols + cols - key % cols
        },
    }
}

/// The number callers give to the key that a device numbers `native`.
pub open spec fn logical_key_index(kind: Kind, native: int) -> int {
    match kind.key_direction() {
        KeyDirection::LeftToRight => native,
        KeyDirection::RightToLeft => {
            let cols = kind.key_columns() as int;
            ((native - 1) / cols) * cols + cols - 1 - (native - 1) % cols
        },
    }
}

/// The lowest number a device gives to a key.
pub open spec fn first_native_key(kind: Kind) -> int {
    match kind.key_direction() {
        KeyDirection::LeftToRight => 0,
        KeyDirection::RightToLeft => 1,
    }
}

impl StreamDeck {
    /// The device's number for a key. Fails with `InvalidKeyIndex` exactly
    /// when the device has no key `key`.
    pub fn translate_key_index(&self, key: u8) -> (native: Result<u8, Error>)
        ensures
            match native {
                Ok(n) => key < self@.keys() && n == native_key_index(self@, key as int)
                    && first_native_key(self@) <= n < first_native_key(self@) + self@.keys(),
                Err(e) => key >= self@.keys() && e is InvalidKeyIndex,
            },
    {
        let kind = self.kind();
        if key >= kind.keys() {
            return Err(Error::InvalidKeyIndex);
        }
        proof {
            lemma_native_key_in_range(kind, key as int);
        }
        match kind.key_direction() {
            KeyDirection::LeftToRight => Ok(key),
            KeyDirection::RightToLeft => {
                let cols: u8 = kind.key_columns();
                let col: u8 = key % cols;
                let row: u8 = key / cols;
                Ok(row * cols + cols - col)
            },
        }
    }
}

/// Translation maps the keys of a device onto a run of as many numbers,
/// which starts at zero, or at one where rows are numbered from the right.
pub proof fn lemma_native_key_in_range(kind: Kind, key: int)
    requires
        0 <= key < kind.keys(),
    ensures
        first_native_key(kind) <= native_key_index(kind, key) < first_native_key(kind)
            + kind.keys(),
        kind.key_direction() == KeyDirection::LeftToRight ==> native_key_index(kind, key) == key,
{
    if kind.key_direction() == KeyDirection::RightToLeft {
        assert(kind.key_columns() == 5);
        assert(kind.keys() == 15);
    }
}

/// Translating a key and translating the result back gives the key again.
pub proof fn lemma_translate_then_back(kind: Kind, key: int)
    requires
        0 <= key < kind.keys(),
    ensures
        logical_key_index(kind, native_key_index(kind, key)) == key,
{
    if kind.key_direction() == KeyDirection::RightToLeft {
        assert(kind.key_columns() == 5);
        assert(kind.keys() == 15);
    }
}

/// Every number a device uses is the translation of exactly one key: the
/// one that translating back gives.
pub proof fn lemma_back_then_translate(kind: Kind, native: int)
    requires
        first_native_key(kind) <= native < first_native_key(kind) + kind.keys(),
    ensures
        0 <= logical_key_index(kind, native) < kind.keys(),
        native_key_index(kind, logical_key_index(kind, native)) == native,
{
    if kind.key_direction() == KeyDirection::RightToLeft {
        assert(kind.key_columns() == 5);
        assert(kind.keys() == 15);
    }
}

/// No two keys of a device translate to the same number.
pub proof fn lemma_translate_injective(kind: Kind, a: int, b: int)
    requires
        0 <= a < kind.keys(),
        0 <= b < kind.keys(),
        native_key_index(kind, a) == native_key_index(kind, b),
    ensures
        a == b,
{
    lemma_translate_then_back(kind, a);
    lemma_translate_then_back(kind, b);
}

/// Where rows are numbered from the right, translation keeps a key in its
/// row and reverses its place within the row.
pub proof fn lemma_translate_reverses_rows(kind: Kind, key: int)
    requires
        0 <= key < kind.keys(),
        kind.key_direction() == KeyDirection::RightToLeft,
    ensures
        (native_key_index(kind, key) - 1) / (kind.key_columns() as int) == key / (
        kind.key_columns() as int),
        (native_key_index(kind, key) - 1) % (kind.key_columns() as int) == kind.key_columns()
            - 1 - key % (kind.key_columns() as int),
{
    assert(kind.key_columns() == 5);
    assert(kind.keys() == 15);
}

} // verus!
