//! State of the radio and network layers: what is configured, what is
//! connected, and which event each operation publishes.
//!
//! The radio and the network stack are driven by the caller. An operation
//! here changes the recorded state and returns the event that the caller
//! passes on.

pub mod ble;
pub mod config;
pub mod tcp;
pub mod wifi;

use vstd::prelude::*;
use crate::net::ble::{BleController, BleError};
use crate::net::wifi::WifiError;

verus! {

/// Prepares the WiFi layer. The radio is set up by the caller, so nothing
/// is left to do.
pub fn init_wifi() -> (r: Result<(), WifiError>)
    ensures
        r is Ok,
{
    Ok(())
}

/// Prepares the BLE layer. The controller is made by the caller with
/// `BleController::new`; this entry point is not supported.
pub fn init_ble() -> (r: Result<BleController, BleError>)
    ensures
        r matches Err(e) && e == BleError::Unsupported,
{
    Err(BleError::Unsupported)
}

} // verus!
