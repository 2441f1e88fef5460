//! Decoding of the reports a device sends.

use crate::bytes::{as_signed, byte_at, byte_or_zero, i8_from_byte, le16, u16_from_le};
use crate::deck::StreamDeck;
use crate::error::Error;
use crate::info::{KeyDirection, Kind};
use crate::keys::native_key_index;
use vstd::prelude::*;

verus! {

/// What a device reported.
#[derive(Debug, Clone, PartialEq, Eq)]
pub enum Input {
    /// The state of every key, in the caller's numbering: zero for a
    /// released key.
    Button(Vec<u8>),
    /// A touch on the strip display.
    Touch(TouchInput),
    /// A press or a turn of the knobs.
    Knob(KnobInput),
    /// A report of a type this crate does not know.
    Other,
}

/// A report from the knobs.
#[derive(Debug, Clone, PartialEq, Eq)]
pub enum KnobInput {
    /// The state of each knob's push button.
    Press(Vec<u8>),
    /// How far each knob was turned.
    Rotate(Vec<i8>),
}

/// A report from the touch strip.
#[derive(Debug, Clone, Copy, PartialEq, Eq, Structural)]
pub enum TouchInput {
    Short { x: u16, y: u16 },
    Long { x: u16, y: u16 },
    Swipe { x0: u16, y0: u16, x1: u16, y1: u16 },
}

/// The mathematical content of a [`KnobInput`].
pub ghost enum KnobInputView {
    Press(Seq<u8>),
    Rotate(Seq<i8>),
}

/// The mathematical content of an [`Input`].
pub ghost enum InputView {
    Button(Seq<u8>),
    Touch(TouchInput),
    Knob(KnobInputView),
    Other,
}

impl View for KnobInput {
    type V = KnobInputView;

    open spec fn view(&self) -> KnobInputView {
        match self {
            KnobInput::Press(states) => KnobInputView::Press(states@),
            KnobInput::Rotate(turns) => KnobInputView::Rotate(turns@),
        }
    }
}

impl View for Input {
    type V = InputView;

    open spec fn view(&self) -> InputView {
        match self {
            Input::Button(states) => InputView::Button(states@),
            Input::Touch(touch) => InputView::Touch(*touch),
            Input::Knob(knob) => InputView::Knob(knob@),
            Input::Other => InputView::Other,
        }
    }
}

/// Position, within a report, of the state of the key that callers number
/// `key`.
pub open spec fn key_state_position(kind: Kind, key: int) -> int {
    match kind.key_direction() {
        KeyDirection::RightToLeft => kind.key_data_offset() + native_key_index(kind, key),
        KeyDirection::LeftToRight => 1 + kind.key_data_offset() + key,
    }
}

/// The key states a report carries, in the caller's numbering.
pub open spec fn key_states(kind: Kind, report: Seq<u8>) -> Seq<u8> {
    Seq::new(kind.keys() as nat, |key: int| byte_at(report, key_state_position(kind, key)))
}

/// What a touch report says. A report with an unknown kind of touch counts
/// as a report of unknown type.
pub open spec fn touch_event(report: Seq<u8>) -> InputView {
    let x = le16(byte_at(report, 6), byte_at(report, 7));
    let y = byte_at(report, 8) as u16;
    if byte_at(report, 4) == 0x01 && byte_at(report, 5) == 0x01 {
        InputView::Touch(TouchInput::Short { x, y })
    } else if byte_at(report, 4) == 0x02 && byte_at(report, 5) == 0x01 {
        InputView::Touch(TouchInput::Long { x, y })
    } else if byte_at(report, 4) == 0x03 && byte_at(report, 5) == 0x00 {
        InputView::Touch(
            TouchInput::Swipe {
                x0: x,
                y0: y,
                x1: le16(byte_at(report, 10), byte_at(report, 11)),
                y1: y,
            },
        )
    } else {
        InputView::Other
    }
}

/// What a knob report says. A report with an unknown kind of knob event
/// counts as a report of unknown type.
pub open spec fn knob_event(report: Seq<u8>) -> InputView {
    if byte_at(report, 4) == 0 {
        InputView::Knob(
            KnobInputView::Press(Seq::new(4, |i: int| byte_at(report, 5 + i))),
        )
    } else if byte_at(report, 4) == 1 {
        InputView::Knob(
            KnobInputView::Rotate(Seq::new(4, |i: int| as_signed(byte_at(report, 5 + i)))),
        )
    } else {
        InputView::Other
    }
}

/// What a report says, or nothing if its first byte is zero: so a device
/// says that it has nothing new.
pub open spec fn decoded(kind: Kind, report: Seq<u8>) -> Option<InputView> {
    if byte_at(report, 0) == 0 {
        None
    } else if byte_at(report, 1) == 0x00 && byte_at(report, 2) == 0x08 {
        Some(InputView::Button(key_states(kind, report)))
    } else if byte_at(report, 1) == 0x02 && byte_at(report, 2) == 0x0e {
        Some(touch_event(report))
    } else if byte_at(report, 1) == 0x03 && byte_at(report, 2) == 0x05 {
        Some(knob_event(report))
    } else {
        Some(InputView::Other)
    }
}

/// Length of the cleared buffer that input reports are read into: room for
/// the longest report of any model.
pub const INPUT_BUFFER_LEN: usize = 36;

impl Kind {
    pub open spec fn spec_input_report_len(&self) -> usize {
        (self.keys() + self.key_data_offset() + 1) as usize
    }

    /// Number of bytes to ask the device for when reading input: the first
    /// byte, the bytes in front of the key states, and one state for every
    /// key.
    #[verifier::when_used_as_spec(spec_input_report_len)]
    pub fn input_report_len(&self) -> (len: usize)
        ensures
            len == self.spec_input_report_len(),
            len == self.keys() + self.key_data_offset() + 1,
            len <= INPUT_BUFFER_LEN,
    {
        self.keys() as usize + self.key_data_offset() + 1
    }
}

impl StreamDeck {
    /// Reads the key states out of a report, in the caller's numbering.
    fn key_states(&self, report: &[u8]) -> (states: Vec<u8>)
        ensures
            states@ == key_states(self@, report@),
    {
        let kind = self.kind();
        let keys: u8 = kind.keys();
        let offset: usize = kind.key_data_offset();
        let direction = kind.key_direction();
        let mut states: Vec<u8> = Vec::new();
        let mut key: u8 = 0;
        while key < keys
            invariant
                key <= keys,
                kind == self@,
                keys == kind.keys(),
                offset == kind.key_data_offset(),
                direction == kind.key_direction(),
                states@.len() == key,
                forall|k: int|
                    0 <= k < key ==> states@[k] == byte_at(
                        report@,
                        key_state_position(kind, k),
                    ),
            decreases keys - key,
        {
            let position: usize = match direction {
                KeyDirection::RightToLeft => match self.translate_key_index(key) {
                    Ok(native) => offset + native as usize,
                    Err(_) => 0,
                },
                KeyDirection::LeftToRight => 1 + offset + key as usize,
            };
            states.push(byte_or_zero(report, position));
            key += 1;
        }
        assert(states@ =~= key_states(kind, report@));
        states
    }

    /// Decodes one input report.
    ///
    /// Fails with `NoData` exactly when the report's first byte is zero; an
    /// empty report counts as such. Otherwise the report's type tag selects
    /// the event, and a tag or sub-tag this crate does not know gives
    /// `Other`.
    pub fn read_input(&self, report: &[u8]) -> (res: Result<Input, Error>)
        ensures
            match res {
                Ok(input) => decoded(self@, report@) == Some(input@),
                Err(e) => decoded(self@, report@) is None && e is NoData,
            },
    {
        if byte_or_zero(report, 0) == 0 {
            return Err(Error::NoData);
        }
        let tag_hi: u8 = byte_or_zero(report, 1);
        let tag_lo: u8 = byte_or_zero(report, 2);
        if tag_hi == 0x00 && tag_lo == 0x08 {
            Ok(Input::Button(self.key_states(report)))
        } else if tag_hi == 0x02 && tag_lo == 0x0e {
            let kind_hi: u8 = byte_or_zero(report, 4);
            let kind_lo: u8 = byte_or_zero(report, 5);
            let x: u16 = u16_from_le(byte_or_zero(report, 6), byte_or_zero(report, 7));
            let y: u16 = byte_or_zero(report, 8) as u16;
            if kind_hi == 0x01 && kind_lo == 0x01 {
                Ok(Input::Touch(TouchInput::Short { x, y }))
            } else if kind_hi == 0x02 && kind_lo == 0x01 {
                Ok(Input::Touch(TouchInput::Long { x, y }))
            } else if kind_hi == 0x03 && kind_lo == 0x00 {
                let x1: u16 = u16_from_le(byte_or_zero(report, 10), byte_or_zero(report, 11));
                Ok(Input::Touch(TouchInput::Swipe { x0: x, y0: y, x1, y1: y }))
            } else {
                Ok(Input::Other)
            }
        } else if tag_hi == 0x03 && tag_lo == 0x05 {
            let event: u8 = byte_or_zero(report, 4);
            if event == 0 {
                let mut states: Vec<u8> = Vec::new();
                states.push(byte_or_zero(report, 5));
                states.push(byte_or_zero(report, 6));
                states.push(byte_or_zero(report, 7));
                states.push(byte_or_zero(report, 8));
                assert(states@ =~= Seq::new(4, |i: int| byte_at(report@, 5 + i)));
                Ok(Input::Knob(KnobInput::Press(states)))
            } else if event == 1 {
                let mut turns: Vec<i8> = Vec::new();
                turns.push(i8_from_byte(byte_or_zero(report, 5)));
                turns.push(i8_from_byte(byte_or_zero(report, 6)));
                turns.push(i8_from_byte(byte_or_zero(report, 7)));
                turns.push(i8_from_byte(byte_or_zero(report, 8)));
                assert(turns@ =~= Seq::new(4, |i: int| as_signed(byte_at(report@, 5 + i))));
                Ok(Input::Knob(KnobInput::Rotate(turns)))
            } else {
                Ok(Input::Other)
            }
        } else {
            Ok(Input::Other)
        }
    }

    /// Decodes the key states of one input report, whatever its type tag
    /// says. Fails with `NoData` exactly when the report's first byte is
    /// zero.
    pub fn read_buttons(&self, report: &[u8]) -> (res: Result<Vec<u8>, Error>)
        ensures
            match res {
                Ok(states) => byte_at(report@, 0) != 0 && states@ == key_states(
                    self@,
                    report@,
                ),
                Err(e) => byte_at(report@, 0) == 0 && e is NoData,
            },
    {
        if byte_or_zero(report, 0) == 0 {
            return Err(Error::NoData);
        }
        Ok(self.key_states(report))
    }
}

} // verus!
