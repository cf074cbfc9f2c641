use vstd::prelude::*;

verus! {

/// Number of host BLE profiles (profile slots `0..NUM_BLE_PROFILE`).
pub const NUM_BLE_PROFILE: usize = 3;

/// Number of dedicated dongle bond slots, placed right after the host profiles.
pub const NUM_DONGLE_PROFILES: usize = 2;

/// Bond slots kept by the profile manager: host profiles plus dongle slots.
pub const BOND_SLOTS: usize = 5;

/// Size in bytes of the macro buffer.
pub const MACRO_SPACE_SIZE: usize = 256;

/// The most one user-data slot holds.
pub const USER_DATA_MAX_SIZE: usize = 16;

/// The most payload bytes a custom message carries.
pub const CUSTOM_MESSAGE_MAX_SIZE: usize = 32;

/// Capacity of the raw client attribute table stored with a bond.
pub const CCCD_TABLE_SIZE: usize = 64;

/// Capacity of the list of bonded dongle slots.
pub const DONGLE_SLOT_LIST_SIZE: usize = 8;

} // verus!
