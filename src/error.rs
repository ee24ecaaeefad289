//! The ways a provisioning run can fail.

use vstd::prelude::*;

verus! {

/// Why a provisioning run stopped.
#[derive(Clone, Copy, Debug, PartialEq, Eq, Structural)]
pub enum SetupError {
    /// No Bluetooth adapter is present.
    AdapterUnavailable,
    /// Neither the advertised names nor the characteristic values of the
    /// discovered peripherals mention the target serial number.
    DeviceNotFound,
    /// The Bluetooth connection to the charger could not be opened.
    ConnectionFailed,
    /// The status request could not be sent or answered.
    StatusRequestFailed,
    /// The status reply could not be read as a status record.
    MalformedResponse,
}

} // verus!
