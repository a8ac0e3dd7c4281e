//! Core of a nearby-sharing library: discovery registry, encrypted session
//! handshake, framed message codec and the transfer state machines.

use vstd::prelude::*;

pub mod communication;
pub mod connect;
pub mod connection_request;
pub mod discovery;
pub mod encryption;
pub mod errors;
pub mod nearby;
pub mod protocol;
pub mod send;
pub mod stream;
pub mod transform;
pub mod transmission;
pub mod utf8;

verus! {

/// Service UUID under which peers advertise themselves over Bluetooth LE.
pub const BLE_SERVICE_UUID: &'static str = "68D60EB2-8AAA-4D72-8851-BD6D64E169B7";

/// Characteristic UUID that carries the discovery payload.
pub const BLE_CHARACTERISTIC_UUID: &'static str = "0BEBF3FE-9A5E-4ED1-8157-76281B3F0DA5";

/// Largest number of bytes moved by one read or write of a transfer.
pub const BLE_BUFFER_SIZE: usize = 1024;

/// Version of the wire protocol spoken by this library.
pub const PROTOCOL_VERSION: i32 = 1;

/// The discovery service UUID as an owned string.
pub fn get_ble_service_uuid() -> (uuid: String)
    ensures
        uuid@ == BLE_SERVICE_UUID@,
{
    BLE_SERVICE_UUID.to_owned()
}

/// The discovery characteristic UUID as an owned string.
pub fn get_ble_characteristic_uuid() -> (uuid: String)
    ensures
        uuid@ == BLE_CHARACTERISTIC_UUID@,
{
    BLE_CHARACTERISTIC_UUID.to_owned()
}

} // verus!
