//! BTP over GATT, used by Matter for commissioning over BLE.
//!
//! The peripheral (accessory) and the central (commissioner) side are two independent state
//! machines. They share the addresses and UUIDs declared here.

use vstd::prelude::*;

pub mod central;
pub mod central_laws;
pub mod peripheral;
pub mod peripheral_laws;

verus! {

/// A size which is enough to accommodate the maximum BTP payload plus the GATT header.
pub const MAX_MTU_SIZE: usize = 512;

/// The maximum size of the BTP advertising payload (AD1 Flags + AD2 UUID16 & Service Data).
pub const MAX_ADV_DATA_SIZE: usize = 32;

/// The 16-bit UUID of the Matter BTP service.
pub const MATTER_BLE_SERVICE_UUID16: u16 = 0xFFF6;

/// The UUID of `C1`, which the central writes.
pub const C1_CHARACTERISTIC_UUID: u128 = 0x18EE2EF5263D4559959F4F9C429F9D11;

/// The UUID of `C2`, which the peripheral indicates.
pub const C2_CHARACTERISTIC_UUID: u128 = 0x18EE2EF5263D4559959F4F9C429F9D12;

/// The UUID of `C3`, which the central reads.
pub const C3_CHARACTERISTIC_UUID: u128 = 0x64630238877245F2B87D748A83218F04;

/// A Bluetooth address.
#[derive(Debug, Clone, Copy, PartialEq, Eq)]
pub struct BtAddr(pub [u8; 6]);

/// A BLE UUID, either 16-bit (assigned) or 128-bit (vendor-specific).
#[derive(Debug, Clone, Copy, PartialEq, Eq, Structural)]
pub enum BleUuid {
    Uuid16(u16),
    Uuid128(u128),
}

/// The kind of our own address.
#[derive(Debug, Clone, Copy, PartialEq, Eq, Structural)]
pub enum OwnAddrType {
    Public,
    Random,
}

/// A host-lifecycle event.
#[derive(Debug, Clone, Copy, PartialEq, Eq, Structural)]
pub enum HostEvent {
    /// The host has synchronized with the controller. Fires again after a reset.
    Sync,
    /// The host reset, with the reason code.
    Reset { reason: i32 },
}

} // verus!
