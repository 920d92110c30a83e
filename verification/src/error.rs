//! The error taxonomy shared by both components.

use vstd::prelude::*;

verus! {

/// Every failure the subsystem reports. Each connect phase has exactly one
/// variant, so a caller sees precisely where bring-up stopped.
#[derive(Clone, Copy, Debug, PartialEq, Eq, Structural)]
pub enum Error {
    /// The caller-supplied network identifier or secret is malformed;
    /// detected before any hardware interaction.
    InvalidCredentials,
    /// The driver rejected the client-mode configuration (or, at
    /// construction, an unsupported output line was requested).
    ConfigurationFailed,
    /// The radio could not be activated.
    RadioStartFailed,
    /// Association with the target network failed (authentication rejected,
    /// network not found, or the driver's own timeout).
    AssociationFailed,
    /// The interface never reported a usable address.
    AddressAcquisitionFailed,
    /// A diagnostic query was made outside the connected state.
    NotConnected,
    /// The underlying driver itself is unreachable or faulted.
    StatusUnavailable,
    /// An output-line write failed.
    HardwareFault,
}

/// The failures that a connect phase can leave behind: exactly the four
/// phase errors, one per bring-up phase.
pub open spec fn is_phase_failure(e: Error) -> bool {
    e == Error::ConfigurationFailed || e == Error::RadioStartFailed
        || e == Error::AssociationFailed || e == Error::AddressAcquisitionFailed
}

} // verus!
