use charybdis_rmk::action::{Action, EncoderAction, HidKeyCode, KeyAction};
use charybdis_rmk::behavior::{BehaviorConfig, ComboConfig, Fork, Morse, MorseProfile, StoredBehaviorConfig};
use charybdis_rmk::config::{MACRO_SPACE_SIZE, USER_DATA_MAX_SIZE};
use charybdis_rmk::flash::{FlashError, InMemoryFlash};
use charybdis_rmk::host_context::{KeyMap, KeyboardContext};
use charybdis_rmk::keymap::KeymapData;
use charybdis_rmk::layout::layout_items;
use charybdis_rmk::profile::ProfileInfo;
use charybdis_rmk::restore::read_keymap;
use charybdis_rmk::storage::{ConnectionType, PeerAddress, StorageItem, StorageKey, StorageValue};
use charybdis_rmk::task::{
    awaited_reply, dispatch, is_own_reply, next_request_id, plan_boot, read_user_data, store_reply, store_user_data,
    user_data_key, FlashCommand, FlashOperationMessage, StorageConfig,
};

/// 16 KB of byte-writable flash in 4 KB sectors.
type Part = InMemoryFlash<16_384, 4_096, 1>;

/// The schema hash this test firmware writes.
const SCHEMA_HASH: u32 = 0x1234_5678;

/// A config item written by some other firmware.
fn stale_config() -> Result<Option<StorageValue>, ()> {
    Ok(Some(StorageValue::StorageConfig(0)))
}

/// A small key-value store standing in for the flash map: a later write under
/// the same key replaces the earlier one.
#[derive(Default)]
struct Store {
    entries: Vec<(StorageKey, StorageValue)>,
}

impl Store {
    fn put(&mut self, item: StorageItem) {
        let (key, value) = item.split();
        self.entries.retain(|(k, _)| *k != key);
        self.entries.push((key, value));
    }

    fn take(&mut self, key: StorageKey) -> Option<StorageValue> {
        let idx = self.entries.iter().position(|(k, _)| *k == key)?;
        Some(self.entries.remove(idx).1)
    }

    fn has(&self, key: StorageKey) -> bool {
        self.entries.iter().any(|(k, _)| *k == key)
    }

    /// Reads user-data slot `slot` the way the storage task answers it.
    fn read_slot(&mut self, slot: u8) -> Option<Vec<u8>> {
        let key = user_data_key(slot);
        let data = read_user_data(Ok(self.take(key)))?;
        let bytes = data.as_slice().to_vec();
        self.entries.push((key, StorageValue::UserData(data)));
        Some(bytes)
    }

    /// Every entry, as the storage iterator yields them.
    fn items(self) -> Vec<Result<(StorageKey, StorageValue), ()>> {
        self.entries.into_iter().map(Ok).collect()
    }
}

fn key_a() -> KeyAction {
    KeyAction::Single(Action::Key(HidKeyCode::A))
}

fn key_b() -> KeyAction {
    KeyAction::Single(Action::Key(HidKeyCode::B))
}

fn one_key(action: KeyAction) -> KeymapData {
    KeymapData::from_layers(&[[[action]]], 0)
}

#[test]
fn request_skips_a_cancelled_predecessors_reply() {
    // The first request takes an id and is cancelled after sending.
    let stale = next_request_id(0);
    let first = FlashOperationMessage::Read(StorageKey::StorageConfig, stale);
    assert_eq!(awaited_reply(&first), Some(stale));

    // The second request takes the next one.
    let live = next_request_id(stale);
    let second = FlashOperationMessage::Read(StorageKey::StorageConfig, live);
    assert_eq!(awaited_reply(&second), Some(live));
    assert_ne!(stale, live);

    // The stale reply arrives first and is skipped; the live one is taken.
    assert!(!is_own_reply(stale, live));
    assert!(is_own_reply(live, live));
}

#[test]
fn user_data_round_trips_through_its_slot() {
    let mut store = Store::default();
    assert_eq!(store.read_slot(3), None, "an untouched slot reads back empty");

    store.put(store_user_data(3, &[0xAA, 0x55]).unwrap());
    assert_eq!(store.read_slot(3).as_deref(), Some(&[0xAA, 0x55][..]));

    // Slots are independent, and a second store replaces the first.
    store.put(store_user_data(4, &[1]).unwrap());
    store.put(store_user_data(3, &[9, 8, 7]).unwrap());
    assert_eq!(store.read_slot(3).as_deref(), Some(&[9, 8, 7][..]));
    assert_eq!(store.read_slot(4).as_deref(), Some(&[1][..]));

    assert!(
        store_user_data(3, &[0; USER_DATA_MAX_SIZE + 1]).is_err(),
        "too long for a slot, and nothing is written"
    );
    assert_eq!(store.read_slot(3).as_deref(), Some(&[9, 8, 7][..]));
}

#[test]
fn store_reports_its_own_failure() {
    let mut part = Part::new();
    part.fail_writes(true);
    let result = part.write(0, &[1, 2, 3, 4]).map_err(|_| ());
    assert!(store_reply(result).is_err());
    // A failed write is not sticky: the next one answers for itself.
    part.fail_writes(false);
    let result = part.write(0, &[1, 2, 3, 4]).map_err(|_| ());
    assert!(matches!(store_reply(result), Ok(None)));
    let mut back = [0u8; 4];
    assert!(part.read(0, &mut back).is_ok());
    assert_eq!(back, [1, 2, 3, 4]);
}

#[test]
fn firmware_mismatch_reinitializes_storage() {
    let plan = plan_boot(&StorageConfig::default(), &stale_config(), SCHEMA_HASH);
    assert!(plan.erase);
    // The config item is rewritten for this firmware.
    assert!(matches!(plan.config_item, Some(StorageItem::StorageConfig(h)) if h == SCHEMA_HASH));

    // The erase wipes the layout items that were on flash.
    let mut part = Part::new();
    part.write(8_192, &[7, 42, 0, 0]).unwrap();
    part.erase(8_192, 16_384).unwrap();
    let mut back = [0u8; 4];
    part.read(8_192, &mut back).unwrap();
    assert_eq!(back, [0xFF; 4]);
}

#[test]
fn schema_mismatch_drops_even_the_pairings() {
    let plan = plan_boot(&StorageConfig::default(), &stale_config(), SCHEMA_HASH);
    assert!(plan.erase);
    assert!(!plan.clear_layout);
    // An unreadable config item counts as a mismatch too.
    assert!(plan_boot(&StorageConfig::default(), &Err(()), SCHEMA_HASH).erase);
    assert!(plan_boot(&StorageConfig::default(), &Ok(None), SCHEMA_HASH).erase);
}

#[test]
fn stored_keymap_outranks_the_compiled_one_until_clear_layout() {
    let mut behavior = BehaviorConfig::new(0, 0, 0);
    let mut store = Store::default();
    store.put(StorageItem::Keymap { layer: 0, row: 0, col: 0, action: key_a() });
    store.put(StorageItem::ConnectionType(ConnectionType::Ble));

    // A reboot into a firmware compiled with the other keymap: the stored edit still wins.
    let kept = plan_boot(&StorageConfig::default(), &Ok(Some(StorageValue::StorageConfig(SCHEMA_HASH))), SCHEMA_HASH);
    assert!(!kept.erase);
    let mut data = one_key(key_b());
    let items: Vec<_> = store
        .entries
        .iter()
        .map(|(k, v)| match v {
            StorageValue::KeyAction(a) => Ok((*k, StorageValue::KeyAction(*a))),
            StorageValue::ConnectionType(c) => Ok((*k, StorageValue::ConnectionType(*c))),
            _ => Err(()),
        })
        .collect();
    read_keymap(&mut data, &mut behavior, &items).unwrap();
    assert_eq!(data.action_at(0, 0, 0), key_a());

    // `clear_layout` hands the compiled-in layout the win, and keeps the pairing.
    let clear_layout = StorageConfig { clear_layout: true, ..StorageConfig::default() };
    let plan = plan_boot(&clear_layout, &Ok(Some(StorageValue::StorageConfig(SCHEMA_HASH))), SCHEMA_HASH);
    assert!(plan.clear_layout, "a matching schema arms the layout rewrite");
    for item in layout_items(&one_key(key_b()), &behavior) {
        store.put(item);
    }

    assert!(store.has(StorageKey::ConnectionType));
    assert!(matches!(
        store.take(StorageKey::ConnectionType),
        Some(StorageValue::ConnectionType(ConnectionType::Ble))
    ));
    let mut data = one_key(key_a());
    read_keymap(&mut data, &mut behavior, &store.items()).unwrap();
    assert_eq!(data.action_at(0, 0, 0), key_b());
}

#[test]
fn storage_variant_order_is_pinned() {
    let keys = [
        StorageKey::StorageConfig,
        StorageKey::DefaultLayer,
        StorageKey::LayoutOption,
        StorageKey::BehaviorConfig,
        StorageKey::ConnectionType,
        StorageKey::MacroData,
        StorageKey::Keymap { layer: 2, row: 3, col: 4 },
        StorageKey::Encoder { layer: 1, idx: 5 },
        StorageKey::Combo(6),
        StorageKey::Fork(7),
        StorageKey::Morse(8),
        StorageKey::PeerAddress(9),
        StorageKey::ActiveBleProfile,
        StorageKey::BondInfo(10),
    ];
    let mut buffer = [0u8; 64];
    for (tag, key) in keys.iter().enumerate() {
        let size = key.serialize_into(&mut buffer).unwrap();
        assert_eq!(buffer[0], tag as u8, "{key:?}");
        assert_eq!(StorageKey::deserialize_from(&buffer[..size]).unwrap(), (*key, size));
    }

    let behavior = BehaviorConfig::new(0, 0, 0);
    let data = [
        StorageValue::StorageConfig(0),
        StorageValue::DefaultLayer(0),
        StorageValue::LayoutOption(0),
        StorageValue::BehaviorConfig(StoredBehaviorConfig::from_behavior(&behavior)),
        StorageValue::ConnectionType(ConnectionType::Usb),
        StorageValue::MacroData(vec![0; MACRO_SPACE_SIZE]),
        StorageValue::KeyAction(KeyAction::No),
        StorageValue::EncoderAction(EncoderAction::new_empty()),
        StorageValue::Combo(ComboConfig::empty()),
        StorageValue::Fork(Fork::empty()),
        StorageValue::Morse(Morse::new(MorseProfile(0))),
        StorageValue::PeerAddress(PeerAddress::new(0, false, [0; 6])),
        StorageValue::BondInfo(ProfileInfo::default()),
        StorageValue::ActiveBleProfile(0),
    ];
    for (tag, item) in data.iter().enumerate() {
        assert_eq!(item.tag(), tag as u8);
    }
}

#[test]
fn layout_option_restored_from_storage() {
    // A matching config item keeps the stored records across the boot.
    let stored = Ok(Some(StorageValue::StorageConfig(SCHEMA_HASH)));
    assert!(!plan_boot(&StorageConfig::default(), &stored, SCHEMA_HASH).erase);
    let items = vec![
        Ok((StorageKey::StorageConfig, StorageValue::StorageConfig(SCHEMA_HASH))),
        Ok((StorageKey::LayoutOption, StorageValue::LayoutOption(42))),
    ];

    let mut data = one_key(KeyAction::No);
    let mut behavior = BehaviorConfig::new(0, 0, 0);
    read_keymap(&mut data, &mut behavior, &items).unwrap();

    let keymap = KeyMap::new(data, behavior, vec![0]);
    let context = KeyboardContext::new(keymap);
    assert_eq!(context.layout_options(), 42);
}

#[test]
fn a_read_failure_stops_the_restore_there() {
    let items = vec![
        Ok((StorageKey::LayoutOption, StorageValue::LayoutOption(7))),
        Err(()),
        Ok((StorageKey::LayoutOption, StorageValue::LayoutOption(9))),
    ];
    let mut data = one_key(KeyAction::No);
    let mut behavior = BehaviorConfig::new(0, 0, 0);
    assert!(read_keymap(&mut data, &mut behavior, &items).is_err());
    assert_eq!(data.layout_option, 7);
}

#[test]
fn dispatch_splits_a_store_and_keeps_its_ack() {
    let message = FlashOperationMessage::Store(StorageItem::LayoutOption(42), None);
    assert_eq!(awaited_reply(&message), None);
    match dispatch(message) {
        FlashCommand::Put { key, value, reply_to } => {
            assert_eq!(key, StorageKey::LayoutOption);
            assert!(matches!(value, StorageValue::LayoutOption(42)));
            assert_eq!(reply_to, None);
        },
        _ => panic!("a store becomes a put"),
    }
    let message = FlashOperationMessage::Store(StorageItem::PeerAddress(PeerAddress::new(0, true, [1; 6])), Some(5));
    assert_eq!(awaited_reply(&message), Some(5));
    assert!(matches!(dispatch(message), FlashCommand::Put { key: StorageKey::PeerAddress(0), reply_to: Some(5), .. }));
    assert!(matches!(
        dispatch(FlashOperationMessage::Read(StorageKey::DefaultLayer, 9)),
        FlashCommand::Fetch { key: StorageKey::DefaultLayer, reply_to: 9 }
    ));
    assert!(matches!(dispatch(FlashOperationMessage::Reset), FlashCommand::EraseAllAndReboot));
}

#[test]
fn request_ids_wrap_around() {
    assert_eq!(next_request_id(255), 0);
    assert_eq!(next_request_id(41), 42);
}

#[test]
fn clear_storage_always_erases() {
    let config = StorageConfig { clear_storage: true, clear_layout: true, ..StorageConfig::default() };
    let plan = plan_boot(&config, &Ok(Some(StorageValue::StorageConfig(SCHEMA_HASH))), SCHEMA_HASH);
    assert!(plan.erase);
    assert!(!plan.clear_layout);
}

#[test]
fn flash_refuses_misaligned_and_out_of_range_access() {
    let mut part = Part::new();
    assert_eq!(part.capacity(), 16_384);
    let mut buf = [0u8; 4];
    assert_eq!(part.read(16_382, &mut buf), Err(FlashError::OutOfBounds));
    assert_eq!(part.erase(1, 4_096), Err(FlashError::NotAligned));
    assert_eq!(part.erase(0, 20_480), Err(FlashError::OutOfBounds));
    assert!(part.erase(0, 4_096).is_ok());
}

#[test]
fn peer_address_write_waits_for_its_own_reply() {
    // An older fire-and-forget write is queued first; the peer address write
    // takes an id and waits for the reply carrying it.
    let older = FlashOperationMessage::Store(StorageItem::LayoutOption(42), None);
    let id = next_request_id(7);
    let write = FlashOperationMessage::Store(StorageItem::PeerAddress(PeerAddress::new(0, true, [1; 6])), Some(id));
    assert_eq!(awaited_reply(&older), None);
    assert_eq!(awaited_reply(&write), Some(id));

    // The storage task sees the older write first, then this one.
    assert!(matches!(
        dispatch(older),
        FlashCommand::Put { key: StorageKey::LayoutOption, value: StorageValue::LayoutOption(42), reply_to: None }
    ));
    let reply_to = match dispatch(write) {
        FlashCommand::Put { key: StorageKey::PeerAddress(0), value: StorageValue::PeerAddress(p), reply_to } => {
            assert!(p.is_valid);
            assert_eq!(p.address, [1; 6]);
            reply_to
        },
        _ => panic!("expected the peer address write"),
    };
    assert_eq!(reply_to, Some(id));
    assert!(is_own_reply(id, id));
    assert!(matches!(store_reply(Ok(())), Ok(None)));
}

#[test]
fn the_latest_stored_settings_win() {
    let mut older = BehaviorConfig::new(0, 0, 0);
    older.combo_timeout_ms = 70;
    let mut newer = BehaviorConfig::new(0, 0, 0);
    newer.combo_timeout_ms = 90;
    newer.one_shot_timeout_ms = 800;
    newer.prior_idle_time_ms = 125;
    newer.tap_interval = 25;
    newer.tap_capslock_interval = 35;
    newer.morse_default_profile = MorseProfile(9);
    let items = vec![
        Ok((StorageKey::BehaviorConfig, StorageValue::BehaviorConfig(StoredBehaviorConfig::from_behavior(&older)))),
        Ok((StorageKey::DefaultLayer, StorageValue::DefaultLayer(2))),
        Ok((StorageKey::BehaviorConfig, StorageValue::BehaviorConfig(StoredBehaviorConfig::from_behavior(&newer)))),
        Ok((StorageKey::LayoutOption, StorageValue::LayoutOption(3))),
        Ok((StorageKey::DefaultLayer, StorageValue::DefaultLayer(5))),
    ];
    let mut data = one_key(KeyAction::No);
    let mut behavior = BehaviorConfig::new(0, 0, 0);
    read_keymap(&mut data, &mut behavior, &items).unwrap();
    assert_eq!(behavior.combo_timeout_ms, 90);
    assert_eq!(behavior.one_shot_timeout_ms, 800);
    assert_eq!(behavior.prior_idle_time_ms, 125);
    assert_eq!((behavior.tap_interval, behavior.tap_capslock_interval), (25, 35));
    assert_eq!(behavior.morse_default_profile, MorseProfile(9));
    assert_eq!(behavior.default_layer, 5);
    assert_eq!(data.layout_option, 3);
}
