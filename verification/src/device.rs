//! Board-level decisions: the BLE static address derived from the chip's
//! device id, the window after plug-in in which a USB DFU detach is honoured,
//! and where the settings storage and the settings-reset erase lie in flash.
use vstd::prelude::*;

use crate::task::{spec_storage_range, StorageConfig};

verus! {

/// The bits that mark a BLE random static address (the top two bits of its
/// most significant byte).
pub const STATIC_ADDR_MARK: u64 = 0x0000_c000_0000_0000;

/// The 48-bit address value the board advertises with: the chip's 64-bit
/// device id (`id1` high, `id0` low) with the static-address bits set.
pub open spec fn spec_ble_addr_value(id0: u32, id1: u32) -> u64 {
    ((id1 as u64) << 32u64 | id0 as u64) | STATIC_ADDR_MARK
}

/// The BLE address bytes, least significant first: the low six bytes of the
/// address value.
pub open spec fn spec_ble_addr(id0: u32, id1: u32) -> Seq<u8> {
    let v = spec_ble_addr_value(id0, id1);
    seq![
        v as u8,
        (v >> 8u64) as u8,
        (v >> 16u64) as u8,
        (v >> 24u64) as u8,
        (v >> 32u64) as u8,
        (v >> 40u64) as u8,
    ]
}

/// The board's BLE address from the two device-id words of the chip: the
/// low six bytes, least significant first, of the 64-bit id with the two
/// static-address bits set. The address is therefore always a valid random
/// static address: the top two bits of its last byte are set.
pub fn ble_addr(id0: u32, id1: u32) -> (r: [u8; 6])
    ensures
        r@ == spec_ble_addr(id0, id1),
        r[5] & 0xc0u8 == 0xc0u8,
        r[0] == id0 as u8,
        r[3] == (id0 >> 24u32) as u8,
        r[4] == id1 as u8,
{
    let high: u64 = id1 as u64;
    let addr: u64 = high << 32u64 | id0 as u64;
    let addr: u64 = addr | STATIC_ADDR_MARK;
    let r = [
        addr as u8,
        (addr >> 8u64) as u8,
        (addr >> 16u64) as u8,
        (addr >> 24u64) as u8,
        (addr >> 32u64) as u8,
        (addr >> 40u64) as u8,
    ];
    proof {
        let v = addr;
        assert(v == spec_ble_addr_value(id0, id1));
        assert(r@ =~= spec_ble_addr(id0, id1));
        assert(((v >> 40u64) as u8) & 0xc0u8 == 0xc0u8) by (bit_vector)
            requires
                v == ((id1 as u64) << 32u64 | id0 as u64) | 0x0000_c000_0000_0000u64,
        ;
        assert(v as u8 == id0 as u8 && (v >> 24u64) as u8 == (id0 >> 24u32) as u8 && (v >> 32u64) as u8
            == id1 as u8) by (bit_vector)
            requires
                v == ((id1 as u64) << 32u64 | id0 as u64) | 0x0000_c000_0000_0000u64,
        ;
    }
    r
}

/// How long after plug-in, in microseconds, a USB DFU detach request is
/// honoured. The dongle is bus-powered, so its boot time is its plug-in time.
pub const DFU_PLUG_WINDOW_US: u64 = 30_000_000;

/// Whether a DFU detach request that arrives `since_boot_us` microseconds
/// after boot reboots into the bootloader: only inside the plug-in window,
/// its last instant included. Later requests are ignored.
pub fn dfu_detach_allowed(since_boot_us: u64) -> (r: bool)
    ensures
        r == (since_boot_us <= DFU_PLUG_WINDOW_US),
{
    since_boot_us <= DFU_PLUG_WINDOW_US
}

/// The size of one flash page (the erase unit) of the board's chip.
pub const FLASH_PAGE_SIZE: usize = 4096;

/// The first flash address the firmware keeps its settings at.
pub const STORAGE_START_ADDR: usize = 0xA0000;

/// The number of flash pages the settings storage uses.
pub const STORAGE_NUM_SECTORS: u8 = 6;

/// The first flash address the settings-reset tool erases.
pub const SETTINGS_RESET_START: u32 = 0xA0000;

/// The flash address, exclusive, at which the settings-reset erase ends.
pub const SETTINGS_RESET_END: u32 = 0xB8000;

/// The first flash address the bootloader occupies.
pub const BOOTLOADER_START: u32 = 0xF4000;

/// The board's storage configuration: six pages from `0xA0000`, kept across
/// boots.
pub fn board_storage_config() -> (r: StorageConfig)
    ensures
        r.start_addr == STORAGE_START_ADDR,
        r.num_sectors == STORAGE_NUM_SECTORS,
        !r.clear_storage,
        !r.clear_layout,
{
    StorageConfig {
        start_addr: STORAGE_START_ADDR,
        num_sectors: STORAGE_NUM_SECTORS,
        clear_storage: false,
        clear_layout: false,
    }
}

/// The settings-reset tool erases whole pages, and every page the firmware
/// keeps its settings in, wherever the flash ends; neither the settings nor
/// the erase reach the bootloader.
pub proof fn lemma_settings_reset_covers_storage(capacity: int, nrf_ble_without_dfu: bool)
    ensures
        (SETTINGS_RESET_START as int) % (FLASH_PAGE_SIZE as int) == 0,
        (SETTINGS_RESET_END as int) % (FLASH_PAGE_SIZE as int) == 0,
        SETTINGS_RESET_START < SETTINGS_RESET_END,
        ({
            let config = StorageConfig {
                start_addr: STORAGE_START_ADDR,
                num_sectors: STORAGE_NUM_SECTORS,
                clear_storage: false,
                clear_layout: false,
            };
            let range = spec_storage_range(config, capacity, FLASH_PAGE_SIZE as int, nrf_ble_without_dfu);
            SETTINGS_RESET_START <= range.0 && range.1 <= SETTINGS_RESET_END
        }),
        SETTINGS_RESET_END <= BOOTLOADER_START,
{
}

} // verus!
