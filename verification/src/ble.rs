//! Data records for the Bluetooth transport boundary.
//!
//! The transport itself (scanning, connecting, downloading) is owned by the
//! embedding application; the library only defines the plain records and
//! error codes exchanged across that boundary.

use vstd::prelude::*;

verus! {

/// A discovered Bluetooth device.
#[derive(Clone, Debug)]
pub struct BleDeviceInfo {
    pub id: String,
    pub name: String,
    pub rssi: i16,
}

/// One chunk of a downloaded dive log.
#[derive(Clone, Debug)]
pub struct BleChunk {
    pub offset: u32,
    pub data: Vec<u8>,
    pub crc: Option<u32>,
}

/// Error codes of the Bluetooth transport.
#[derive(Clone, Debug)]
pub enum BleError {
    PermissionDenied,
    BluetoothOff,
    DeviceNotFound,
    ConnectionFailed,
    GattError,
    ChecksumMismatch,
    Timeout,
    Cancelled,
    Unknown,
}

/// Connection state used by the mock transport.
#[derive(Clone, Debug, Default)]
pub struct MockSession {
    pub connected_device_id: Option<String>,
}

} // verus!
