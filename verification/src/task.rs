//! Decisions of the storage task: where the storage lives, what a boot does
//! with what it finds, how requests and replies are matched, and how user
//! data is framed. The flash and the channels themselves are driven by the
//! caller.
use vstd::prelude::*;

use crate::bytes::{user_data_contents, UserDataBytes};
use crate::config::USER_DATA_MAX_SIZE;
use crate::storage::{spec_item_key, spec_item_value, StorageItem, StorageKey, StorageValue};

verus! {

/// Where and how the storage is set up.
#[derive(Clone, Copy, Debug)]
pub struct StorageConfig {
    /// Start address of the storage; 0 means the last `num_sectors` sectors.
    pub start_addr: usize,
    /// Number of sectors the storage uses.
    pub num_sectors: u8,
    /// Erase the storage at boot.
    pub clear_storage: bool,
    /// Rewrite the stored layout with the compiled-in one at boot.
    pub clear_layout: bool,
}

impl StorageConfig {
    /// The default configuration: the last two sectors, nothing cleared.
    pub fn default() -> (r: StorageConfig)
        ensures
            r.start_addr == 0,
            r.num_sectors == 2,
            !r.clear_storage,
            !r.clear_layout,
    {
        StorageConfig { start_addr: 0, num_sectors: 2, clear_storage: false, clear_layout: false }
    }
}

/// The start address a boot uses: on nRF BLE builds without DFU, 0 means the
/// historical `0x6_0000`.
pub open spec fn spec_effective_start(start_addr: usize, nrf_ble_without_dfu: bool) -> int {
    if nrf_ble_without_dfu && start_addr == 0 {
        0x0006_0000
    } else {
        start_addr as int
    }
}

/// The flash range `[start, end)` the storage uses.
pub open spec fn spec_storage_range(
    config: StorageConfig,
    capacity: int,
    erase_size: int,
    nrf_ble_without_dfu: bool,
) -> (int, int) {
    let start = spec_effective_start(config.start_addr, nrf_ble_without_dfu);
    let len = config.num_sectors * erase_size;
    if start == 0 {
        (capacity - len, capacity)
    } else {
        (start, start + len)
    }
}

/// The flash range the storage uses: the last `num_sectors` sectors of the
/// flash when the start address is 0, else `num_sectors` sectors from it.
///
/// A configuration with fewer than two sectors, a start address that is not
/// sector-aligned, or a range that does not fit the flash's 32-bit address
/// space makes the storage task panic, so it is left out here.
pub fn storage_range(config: &StorageConfig, capacity: usize, erase_size: usize, nrf_ble_without_dfu: bool) -> (r: (
    u32,
    u32,
))
    requires
        config.num_sectors >= 2,
        erase_size > 0,
        capacity <= u32::MAX,
        spec_effective_start(config.start_addr, nrf_ble_without_dfu) == 0 ==> config.num_sectors
            * erase_size <= capacity,
        spec_effective_start(config.start_addr, nrf_ble_without_dfu) != 0 ==> {
            &&& spec_effective_start(config.start_addr, nrf_ble_without_dfu) % (erase_size as int) == 0
            &&& spec_effective_start(config.start_addr, nrf_ble_without_dfu) + config.num_sectors * erase_size
                <= u32::MAX
        },
    ensures
        r.0 as int == spec_storage_range(*config, capacity as int, erase_size as int, nrf_ble_without_dfu).0,
        r.1 as int == spec_storage_range(*config, capacity as int, erase_size as int, nrf_ble_without_dfu).1,
        r.0 < r.1,
        (r.1 - r.0) as int == config.num_sectors * erase_size,
{
    let start_addr: usize = if nrf_ble_without_dfu && config.start_addr == 0 {
        0x0006_0000
    } else {
        config.start_addr
    };
    assert(config.num_sectors * erase_size >= 2 * erase_size) by (nonlinear_arith)
        requires
            config.num_sectors >= 2,
            erase_size > 0,
    ;
    if start_addr == 0 {
        let len: usize = config.num_sectors as usize * erase_size;
        ((capacity - len) as u32, capacity as u32)
    } else {
        let len: usize = config.num_sectors as usize * erase_size;
        (start_addr as u32, (start_addr + len) as u32)
    }
}

/// True when a boot's probe of the config item found this firmware's schema.
pub open spec fn spec_schema_matches(stored: Result<Option<StorageValue>, ()>, schema_hash: u32) -> bool {
    stored matches Ok(Some(StorageValue::StorageConfig(h))) && h == schema_hash
}

/// What a boot does with the storage it finds.
pub struct BootPlan {
    /// Erase the whole storage.
    pub erase: bool,
    /// The item to write right after erasing: this firmware's schema hash.
    pub config_item: Option<StorageItem>,
    /// Rewrite the stored layout with the compiled-in one.
    pub clear_layout: bool,
}

/// Decides a boot from the configuration and the probed config item.
///
/// The storage is erased when asked to, or when its config item does not hold
/// this firmware's schema hash (an item written under another schema could
/// decode as the wrong variant); then the new schema hash is written and the
/// layout rewrite is not needed. Otherwise the layout rewrite follows the
/// configuration.
pub fn plan_boot(config: &StorageConfig, stored: &Result<Option<StorageValue>, ()>, schema_hash: u32) -> (r: BootPlan)
    ensures
        r.erase == (config.clear_storage || !spec_schema_matches(*stored, schema_hash)),
        r.erase ==> r.config_item == Some(StorageItem::StorageConfig(schema_hash)),
        !r.erase ==> r.config_item is None,
        r.clear_layout == (!r.erase && config.clear_layout),
{
    let matches = match stored {
        Ok(Some(StorageValue::StorageConfig(h))) => *h == schema_hash,
        _ => false,
    };
    if config.clear_storage || !matches {
        BootPlan { erase: true, config_item: Some(StorageItem::StorageConfig(schema_hash)), clear_layout: false }
    } else {
        BootPlan { erase: false, config_item: None, clear_layout: config.clear_layout }
    }
}

/// An operation request to the storage task.
pub enum FlashOperationMessage {
    /// Save an item; `Some(id)` is answered once the write lands.
    Store(StorageItem, Option<u8>),
    /// Read a stored value; answered with the request id.
    Read(StorageKey, u8),
    /// Fully erase and reset the storage.
    Reset,
}

/// What the storage task does for one message.
#[allow(inconsistent_fields)]
pub enum FlashCommand {
    /// Write `value` under `key`, answering `reply_to` if set.
    Put { key: StorageKey, value: StorageValue, reply_to: Option<u8> },
    /// Read the value under `key` and answer `reply_to`.
    Fetch { key: StorageKey, reply_to: u8 },
    /// Erase everything and reboot.
    EraseAllAndReboot,
}

/// Turns a request into the storage task's command.
pub fn dispatch(message: FlashOperationMessage) -> (r: FlashCommand)
    ensures
        match message {
            FlashOperationMessage::Store(item, ack) => r matches FlashCommand::Put { key, value, reply_to }
                && key == spec_item_key(item) && value == spec_item_value(item) && reply_to == ack,
            FlashOperationMessage::Read(k, id) => r matches FlashCommand::Fetch { key, reply_to } && key == k
                && reply_to == id,
            FlashOperationMessage::Reset => r is EraseAllAndReboot,
        },
{
    match message {
        FlashOperationMessage::Store(item, ack) => {
            let (key, value) = item.split();
            FlashCommand::Put { key, value, reply_to: ack }
        },
        FlashOperationMessage::Read(key, id) => FlashCommand::Fetch { key, reply_to: id },
        FlashOperationMessage::Reset => FlashCommand::EraseAllAndReboot,
    }
}

/// The reply to a write: nothing on success, the failure otherwise.
pub fn store_reply(result: Result<(), ()>) -> (r: Result<Option<StorageValue>, ()>)
    ensures
        result is Ok ==> r matches Ok(None),
        result is Err ==> r is Err,
{
    match result {
        Ok(()) => Ok(None),
        Err(()) => Err(()),
    }
}

/// The id of the next request: one more, wrapping at 256.
pub fn next_request_id(id: u8) -> (r: u8)
    ensures
        r == (id + 1) % 256,
        r != id,
{
    id.wrapping_add(1)
}

/// A reply answers the waiting request exactly when it carries its id; any
/// other reply belongs to a cancelled predecessor and is skipped.
pub fn is_own_reply(replied: u8, id: u8) -> (r: bool)
    ensures
        r == (replied == id),
{
    replied == id
}

/// The request id a message waits on, if it waits for a reply at all.
pub fn awaited_reply(message: &FlashOperationMessage) -> (r: Option<u8>)
    ensures
        match *message {
            FlashOperationMessage::Store(_, ack) => r == ack,
            FlashOperationMessage::Read(_, id) => r == Some(id),
            FlashOperationMessage::Reset => r is None,
        },
{
    match message {
        FlashOperationMessage::Store(_, ack) => *ack,
        FlashOperationMessage::Read(_, id) => Some(*id),
        FlashOperationMessage::Reset => None,
    }
}

/// The item that persists user-defined `bytes` in board-defined slot `slot`.
///
/// `Err` when `bytes` is longer than `USER_DATA_MAX_SIZE`.
pub fn store_user_data(slot: u8, bytes: &[u8]) -> (r: Result<StorageItem, heapless::CapacityError>)
    ensures
        r is Ok <==> bytes@.len() <= USER_DATA_MAX_SIZE,
        r matches Ok(item) ==> item matches StorageItem::UserData { slot: s, data } && s == slot
            && user_data_contents(data) == bytes@,
{
    match UserDataBytes::from_slice(bytes) {
        Ok(data) => Ok(StorageItem::UserData { slot, data }),
        Err(e) => Err(e),
    }
}

/// The key user-data slot `slot` is stored under.
pub fn user_data_key(slot: u8) -> (r: StorageKey)
    ensures
        r == StorageKey::UserData(slot),
{
    StorageKey::UserData(slot)
}

/// What a read of a user-data slot answers: the stored bytes, or `None` if
/// nothing was ever stored there (or the read failed).
pub open spec fn spec_read_user_data(reply: Result<Option<StorageValue>, ()>) -> Option<UserDataBytes> {
    match reply {
        Ok(Some(StorageValue::UserData(data))) => Some(data),
        _ => None,
    }
}

/// The bytes a read of a user-data slot answers.
pub fn read_user_data(reply: Result<Option<StorageValue>, ()>) -> (r: Option<UserDataBytes>)
    ensures
        r == spec_read_user_data(reply),
{
    match reply {
        Ok(Some(StorageValue::UserData(data))) => Some(data),
        _ => None,
    }
}

/// Reading back the value of a stored user-data item gives the bytes stored,
/// under the slot's key.
pub proof fn lemma_user_data_round_trip(item: StorageItem, slot: u8, bytes: Seq<u8>)
    requires
        item matches StorageItem::UserData { slot: s, data } && s == slot && user_data_contents(data) == bytes,
    ensures
        spec_item_key(item) == StorageKey::UserData(slot),
        spec_read_user_data(Ok(Some(spec_item_value(item)))) matches Some(d) && user_data_contents(d) == bytes,
{
}

} // verus!
