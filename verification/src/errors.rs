//! The error taxonomy of the command surface.
//!
//! Every failure that crosses the public boundary is one of these variants,
//! rendered for the caller as a descriptive string.

use vstd::prelude::*;

verus! {

/// A typed failure of an adapter, registry or media operation.
#[derive(Clone, Copy, Debug, PartialEq, Eq, Structural)]
pub enum BtError {
    /// No usable adapter identifier responded during initialization.
    NoAdapterFound,
    /// An operation was attempted before initialization succeeded.
    NotInitialized,
    /// The address could not be parsed, or no device handle was obtainable.
    ResolutionFailure,
    /// A control-plane call itself returned an error.
    ExternalCallFailure,
}

/// The string rendering of each error variant.
pub open spec fn message_of(e: BtError) -> Seq<char> {
    match e {
        BtError::NoAdapterFound => "No Bluetooth adapter found"@,
        BtError::NotInitialized => "Bluetooth manager is not initialized"@,
        BtError::ResolutionFailure => "Device address could not be resolved"@,
        BtError::ExternalCallFailure => "Bluetooth operation failed"@,
    }
}

impl BtError {
    /// Renders the error as the descriptive string handed across the
    /// command boundary.
    pub fn message(&self) -> (r: String)
        ensures
            r@ == message_of(*self),
    {
        match self {
            BtError::NoAdapterFound => String::from_str("No Bluetooth adapter found"),
            BtError::NotInitialized => String::from_str("Bluetooth manager is not initialized"),
            BtError::ResolutionFailure => String::from_str("Device address could not be resolved"),
            BtError::ExternalCallFailure => String::from_str("Bluetooth operation failed"),
        }
    }
}

} // verus!
