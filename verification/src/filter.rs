//! Choosing the device to talk to.

use vstd::prelude::*;

verus! {

/// Which device to open: its USB vendor and product identifiers and,
/// where several such devices are attached, its serial number.
#[derive(Debug, Clone, PartialEq, Eq)]
pub struct Filter {
    /// USB vendor identifier.
    pub vid: u16,
    /// USB product identifier.
    pub pid: u16,
    /// Serial number of the device.
    pub serial: Option<String>,
}

} // verus!
