//! The protocol state of one device.

use crate::error::Error;
use crate::info::Kind;
use crate::pids;
use vstd::prelude::*;

verus! {

/// The model that a USB product identifier stands for, if it is one of the
/// supported models.
pub open spec fn kind_of_pid(pid: u16) -> Option<Kind> {
    if pid == pids::ORIGINAL {
        Some(Kind::Original)
    } else if pid == pids::MINI {
        Some(Kind::Mini)
    } else if pid == pids::ORIGINAL_V2 {
        Some(Kind::OriginalV2)
    } else if pid == pids::XL {
        Some(Kind::Xl)
    } else if pid == pids::MK2 {
        Some(Kind::Mk2)
    } else if pid == pids::PLUS {
        Some(Kind::Plus)
    } else {
        None
    }
}

impl Kind {
    /// The model with the given USB product identifier. Fails with
    /// `UnrecognisedPID` exactly when no supported model has it.
    pub fn from_pid(pid: u16) -> (res: Result<Kind, Error>)
        ensures
            match res {
                Ok(kind) => kind_of_pid(pid) == Some(kind),
                Err(e) => kind_of_pid(pid) is None && e is UnrecognisedPID,
            },
    {
        if pid == pids::ORIGINAL {
            Ok(Kind::Original)
        } else if pid == pids::MINI {
            Ok(Kind::Mini)
        } else if pid == pids::ORIGINAL_V2 {
            Ok(Kind::OriginalV2)
        } else if pid == pids::XL {
            Ok(Kind::Xl)
        } else if pid == pids::MK2 {
            Ok(Kind::Mk2)
        } else if pid == pids::PLUS {
            Ok(Kind::Plus)
        } else {
            Err(Error::UnrecognisedPID)
        }
    }
}

/// One device, as far as the protocol is concerned: its model.
///
/// The methods build the reports to send to the device and decode the
/// reports it sent. Moving them over USB is the caller's business.
#[derive(Debug, Clone, Copy, PartialEq, Eq, Structural)]
pub struct StreamDeck {
    kind: Kind,
}

impl View for StreamDeck {
    type V = Kind;

    closed spec fn view(&self) -> Kind {
        self.kind
    }
}

impl StreamDeck {
    /// The protocol state of a device of the given model.
    pub fn new(kind: Kind) -> (deck: StreamDeck)
        ensures
            deck@ == kind,
    {
        StreamDeck { kind }
    }

    /// The device's model.
    pub fn kind(&self) -> (kind: Kind)
        ensures
            kind == self@,
    {
        self.kind
    }

    /// Width and height of the device's key images, in pixels.
    pub fn image_size(&self) -> (size: (usize, usize))
        ensures
            size == self@.image_size(),
    {
        self.kind.image_size()
    }
}

} // verus!
