use charybdis_rmk::action::{Action, HidKeyCode, KeyAction, KeyboardAction, MOD_LALT, MOD_LCTRL, MOD_LSHIFT};
use charybdis_rmk::behavior::{BehaviorConfig, ComboConfig, Fork, Morse, MorseProfile};
use charybdis_rmk::board::{get_default_keymap, COL, NUM_LAYER, ROW};
use charybdis_rmk::bytes::{CccdTable, UserDataBytes};
use charybdis_rmk::codec::KeyCodecError;
use charybdis_rmk::custom_message::{send, should_forward, CustomMessage, CustomMessageTarget};
use charybdis_rmk::device::{
    ble_addr, board_storage_config, dfu_detach_allowed, SETTINGS_RESET_END, SETTINGS_RESET_START,
};
use charybdis_rmk::host_context::{HostBehaviorConfig, KeyMap, KeyboardContext};
use charybdis_rmk::keymap::KeymapData;
use charybdis_rmk::macro_bytes::{decode_macro_bytes, decode_macro_seq, MacroBytesError};
use charybdis_rmk::pointing::{PointingMode, PointingProcessorController};
use charybdis_rmk::profile::{
    is_dongle_profile, next_profile, previous_profile, varint_max, BleProfileAction, BondIdentity, BondInfo, ProfileInfo,
    ProfileManager, SecurityLevel,
};
use charybdis_rmk::schema::{fnv_hash, get_buffer_size, schema_hash, FNV_OFFSET};
use charybdis_rmk::storage::{StorageItem, StorageKey};
use charybdis_rmk::task::storage_range;

fn key(code: HidKeyCode) -> KeyAction {
    KeyAction::Single(Action::Key(code))
}

#[test]
fn default_keymap_base_and_layer_keys() {
    let km = get_default_keymap();
    assert_eq!(km.len(), NUM_LAYER);
    assert_eq!(km[0].len(), ROW);
    assert_eq!(km[0][0].len(), COL);
    assert_eq!(km[0][0][0], key(HidKeyCode::Tab));
    assert_eq!(km[0][0][2], KeyAction::TapHold(Action::Key(HidKeyCode::W), Action::LayerOn(7)));
    assert_eq!(km[0][0][4], KeyAction::TapHold(Action::Key(HidKeyCode::R), Action::LayerOn(6)));
    // The mouse layer reaches the scroll and sniper layers too.
    assert_eq!(km[1][0][2], KeyAction::Single(Action::LayerOn(7)));
    assert_eq!(km[1][0][3], KeyAction::Single(Action::LayerOn(6)));
    // The reset layer: both dongles, then the three host profiles.
    assert_eq!(km[8][0][1], KeyAction::Single(Action::User(9)));
    assert_eq!(km[8][0][2], KeyAction::Single(Action::User(0)));
    assert_eq!(km[8][0][4], KeyAction::Single(Action::User(2)));
    assert_eq!(km[0][1][4], KeyAction::TapHold(Action::Key(HidKeyCode::F), Action::Modifier(MOD_LCTRL)));
    assert_eq!(km[2][2][4], KeyAction::Single(Action::KeyWithModifier(HidKeyCode::P, MOD_LCTRL | MOD_LALT)));
    assert_eq!(km[2][0][1], KeyAction::Single(Action::KeyWithModifier(HidKeyCode::Kc1, MOD_LSHIFT)));
    assert_eq!(km[1][3][9], KeyAction::Single(Action::LayerToggleOnly(0)));
    assert_eq!(km[8][0][5], KeyAction::Single(Action::KeyboardControl(KeyboardAction::Bootloader)));
    assert_eq!(km[8][0][0], KeyAction::Single(Action::User(8)));
    assert_eq!(km[1][0][0], KeyAction::Transparent);
    assert_eq!(km[4][3][0], KeyAction::No);
}

#[test]
fn default_keymap_layer_switches_stay_inside_the_keymap() {
    let km = get_default_keymap();
    for layer in km.iter() {
        for row in layer.iter() {
            for action in row.iter() {
                let targets: Vec<u8> = match action {
                    KeyAction::Single(a) => vec![*a].into_iter().filter_map(layer_of).collect(),
                    KeyAction::TapHold(t, h) => vec![*t, *h].into_iter().filter_map(layer_of).collect(),
                    _ => vec![],
                };
                assert!(targets.iter().all(|&l| (l as usize) < NUM_LAYER));
            }
        }
    }
    assert!(km[0].iter().flatten().all(|a| *a != KeyAction::Transparent));
}

fn layer_of(a: Action) -> Option<u8> {
    match a {
        Action::LayerOn(l) | Action::LayerToggle(l) | Action::LayerToggleOnly(l) => Some(l),
        _ => None,
    }
}

#[test]
fn keymap_data_flattens_layer_by_layer() {
    let km = get_default_keymap();
    let data = KeymapData::from_layers(&km, 0);
    assert_eq!((data.num_layers, data.rows, data.cols), (9, 4, 12));
    assert_eq!(data.keymap.len(), 432);
    assert_eq!(data.action_at(7, 0, 3), km[7][0][3]);
    assert_eq!(data.action_at(3, 1, 11), key(HidKeyCode::Left));
    assert_eq!(data.action_at(9, 0, 0), KeyAction::No);
    let with_encoders = KeymapData::from_layers(&km, 2);
    assert_eq!(with_encoders.encoder_map.len(), 18);
    assert_eq!(with_encoders.encoder_at(8, 1).map(|e| e.clockwise), Some(KeyAction::No));
    assert_eq!(with_encoders.encoder_at(9, 0), None);
}

#[test]
fn ble_address_is_static_random() {
    let addr = ble_addr(0x1122_3344, 0x0055_6677);
    assert_eq!(addr, [0x44, 0x33, 0x22, 0x11, 0x77, 0x66 | 0xC0]);
    let addr = ble_addr(0, 0);
    assert_eq!(addr, [0, 0, 0, 0, 0, 0xC0]);
    assert_eq!(ble_addr(u32::MAX, u32::MAX), [0xFF; 6]);
}

#[test]
fn dfu_detach_only_inside_the_plug_window() {
    assert!(dfu_detach_allowed(0));
    assert!(dfu_detach_allowed(30_000_000));
    assert!(!dfu_detach_allowed(30_000_001));
}

#[test]
fn settings_reset_covers_the_storage() {
    let config = board_storage_config();
    let (start, end) = storage_range(&config, 1 << 20, 4096, true);
    assert_eq!((start, end), (0xA0000, 0xA6000));
    assert!(SETTINGS_RESET_START <= start && end <= SETTINGS_RESET_END);
}

#[test]
fn storage_range_at_zero_takes_the_last_sectors() {
    let mut config = board_storage_config();
    config.start_addr = 0;
    config.num_sectors = 2;
    assert_eq!(storage_range(&config, 16_384, 4096, false), (8_192, 16_384));
    // On nRF BLE builds without DFU, zero keeps the historical address.
    assert_eq!(storage_range(&config, 1 << 20, 4096, true), (0x6_0000, 0x6_2000));
}

#[test]
fn macro_bytes_need_the_exact_length() {
    let full = vec![7u8; 256];
    assert_eq!(decode_macro_bytes(&full).unwrap(), full);
    assert_eq!(decode_macro_bytes(&[1, 2, 3]), Err(MacroBytesError::InvalidLength(3)));
    assert_eq!(decode_macro_bytes(&vec![0; 257]), Err(MacroBytesError::InvalidLength(257)));
}

#[test]
fn macro_sequence_reports_what_is_missing_or_extra() {
    let ok: Vec<Result<u8, u32>> = (0..256).map(|i| Ok(i as u8)).collect();
    let decoded = decode_macro_seq(&ok).unwrap();
    assert_eq!(decoded[255], 255);
    assert_eq!(decoded.len(), 256);

    let short: Vec<Result<u8, u32>> = (0..10).map(|i| Ok(i as u8)).collect();
    assert_eq!(decode_macro_seq(&short), Err(MacroBytesError::InvalidLength(10)));

    let long: Vec<Result<u8, u32>> = (0..300).map(|i| Ok(i as u8)).collect();
    assert_eq!(decode_macro_seq(&long), Err(MacroBytesError::InvalidLength(257)));

    let mut broken = ok.clone();
    broken[5] = Err(99);
    broken[9] = Err(100);
    assert_eq!(decode_macro_seq(&broken), Err(MacroBytesError::Element(5)));

    let mut trailing_error = ok.clone();
    trailing_error.push(Err(3));
    assert_eq!(decode_macro_seq(&trailing_error), Err(MacroBytesError::Element(256)));
}

#[test]
fn key_bytes_match_postcard() {
    let mut buffer = [0u8; 8];
    let size = StorageKey::Keymap { layer: 2, row: 3, col: 4 }.serialize_into(&mut buffer).unwrap();
    let mut expected = [0u8; 8];
    let expected = postcard::to_slice(&(6u32, 2u8, 3u8, 4u8), &mut expected).unwrap();
    assert_eq!(&buffer[..size], &expected[..]);

    let size = StorageKey::UserData(200).serialize_into(&mut buffer).unwrap();
    let mut expected = [0u8; 8];
    let expected = postcard::to_slice(&(14u32, 200u8), &mut expected).unwrap();
    assert_eq!(&buffer[..size], &expected[..]);

    let size = StorageKey::ActiveBleProfile.serialize_into(&mut buffer).unwrap();
    assert_eq!(&buffer[..size], &[12]);
}

#[test]
fn key_codec_errors() {
    let mut tiny = [0u8; 2];
    assert_eq!(
        StorageKey::Keymap { layer: 0, row: 0, col: 0 }.serialize_into(&mut tiny),
        Err(KeyCodecError::BufferTooSmall)
    );
    assert_eq!(StorageKey::deserialize_from(&[]), Err(KeyCodecError::InvalidFormat));
    assert_eq!(StorageKey::deserialize_from(&[6, 1]), Err(KeyCodecError::InvalidFormat));
    assert_eq!(StorageKey::deserialize_from(&[99]), Err(KeyCodecError::InvalidFormat));
    assert_eq!(StorageKey::get_len(&[7, 1, 2, 0xFF]), Ok(3));
    assert_eq!(StorageKey::to_bytes(&StorageKey::Encoder { layer: 1, idx: 5 }), vec![7, 1, 5]);
}

#[test]
fn fnv_hash_known_values() {
    assert_eq!(fnv_hash(FNV_OFFSET, b""), 0x811c_9dc5);
    assert_eq!(fnv_hash(FNV_OFFSET, b"a"), 0xe40c_292c);
    assert_eq!(fnv_hash(FNV_OFFSET, b"foobar"), 0xbf9c_f968);
    // Hashing continues across pieces.
    assert_eq!(fnv_hash(fnv_hash(FNV_OFFSET, b"foo"), b"bar"), fnv_hash(FNV_OFFSET, b"foobar"));
    let h = schema_hash(b"1.0", b"abc", b"host", 256, 8, 8);
    assert_ne!(h, schema_hash(b"1.0", b"abd", b"host", 256, 8, 8));
    assert_eq!(get_buffer_size(), 288);
}

#[test]
fn heapless_buffers_keep_their_bytes() {
    let data = UserDataBytes::from_slice(&[1, 2, 3]).unwrap();
    assert_eq!(data.as_slice(), &[1, 2, 3]);
    assert!(UserDataBytes::from_slice(&[0; 17]).is_err());
    let table = CccdTable::from_slice(&[9, 8]).unwrap();
    assert_eq!(table.as_slice(), &[9, 8]);
    assert_eq!(CccdTable::new().as_slice(), &[] as &[u8]);
}

#[test]
fn profiles_cycle_through_the_hosts() {
    assert_eq!(next_profile(0), 1);
    assert_eq!(next_profile(2), 0);
    assert_eq!(previous_profile(0), 2);
    assert_eq!(previous_profile(next_profile(1)), 1);
    // From a dongle slot both land on a host profile.
    assert_eq!(next_profile(3), 0);
    assert_eq!(previous_profile(4), 2);
    assert!(!is_dongle_profile(2));
    assert!(is_dongle_profile(3));
    assert!(is_dongle_profile(4));
    assert!(!is_dongle_profile(5));
}

fn bond(slot: u8, addr: u8) -> ProfileInfo {
    ProfileInfo {
        slot_num: slot,
        removed: false,
        info: BondInfo {
            ltk: addr as u128 + 1000,
            identity: BondIdentity { addr_kind: 0, addr: [addr; 6], irk: None },
            is_bonded: true,
            security_level: SecurityLevel::Encrypted,
        },
        cccd_table: CccdTable::new(),
    }
}

#[test]
fn recorded_bond_becomes_the_active_profiles_bond() {
    let mut manager = ProfileManager::new();
    assert!(manager.active_bond_info().is_none());
    assert!(matches!(manager.add_profile_info(bond(0, 1)), Some(StorageItem::BondInfo(_))));
    assert_eq!(manager.bond_to_install().map(|b| b.ltk), Some(1001));
    // The same bond again changes nothing.
    assert!(manager.add_profile_info(bond(0, 1)).is_none());
    // A new bond for the slot replaces it.
    assert!(manager.add_profile_info(bond(0, 2)).is_some());
    assert_eq!(manager.bond_to_install().map(|b| b.ltk), Some(1002));
}

#[test]
fn cleared_slot_has_no_bond() {
    let mut manager = ProfileManager::new();
    manager.add_profile_info(bond(0, 1));
    match manager.clear_bond(0) {
        StorageItem::BondInfo(p) => {
            assert_eq!(p.slot_num, 0);
            assert!(p.removed);
            assert!(!p.info.is_bonded);
        },
        _ => panic!("a cleared bond is stored as a removed record"),
    }
    assert!(manager.active_bond_info().is_none());
}

#[test]
fn dongle_slots_alternate() {
    let mut manager = ProfileManager::new();
    assert_eq!(manager.next_bonded_dongle_slot(3), None);
    manager.add_profile_info(bond(3, 1));
    assert_eq!(manager.next_bonded_dongle_slot(3), None);
    manager.add_profile_info(bond(4, 2));
    manager.add_profile_info(bond(1, 3));
    assert_eq!(manager.bonded_dongle_slots().as_slice(), &[3, 4]);
    assert_eq!(manager.next_bonded_dongle_slot(3), Some(4));
    assert_eq!(manager.next_bonded_dongle_slot(4), Some(3));
    assert_eq!(manager.next_bonded_dongle_slot(0), Some(3));
}

#[test]
fn bonded_dongle_is_recognised_by_its_identity() {
    let mut manager = ProfileManager::new();
    manager.add_profile_info(bond(3, 7));
    manager.add_profile_info(bond(0, 8));
    assert!(manager.is_bonded_dongle(&BondIdentity { addr_kind: 0, addr: [7; 6], irk: None }));
    // A host bond is no dongle, and an unknown peer is neither.
    assert!(!manager.is_bonded_dongle(&BondIdentity { addr_kind: 0, addr: [8; 6], irk: None }));
    assert!(!manager.is_bonded_dongle(&BondIdentity { addr_kind: 0, addr: [9; 6], irk: None }));
}

#[test]
fn profile_actions() {
    let mut manager = ProfileManager::new();
    let step = manager.handle_action(BleProfileAction::Switch(0));
    assert!(!step.done && step.item.is_none());
    let step = manager.handle_action(BleProfileAction::Next);
    assert!(step.done && step.update_stack);
    assert!(matches!(step.item, Some(StorageItem::ActiveBleProfile(1))));
    assert_eq!(manager.active_profile(), 1);
    let step = manager.handle_action(BleProfileAction::Previous);
    assert!(matches!(step.item, Some(StorageItem::ActiveBleProfile(0))));
}

#[test]
fn pointing_mode_follows_the_layer() {
    let mut controller = PointingProcessorController::new();
    let event = controller.on_layer_change_event(6);
    assert_eq!(event.device_id, 255);
    match event.mode {
        PointingMode::Sniper(s) => assert_eq!((s.multiplier, s.divisor), (1, 6)),
        _ => panic!("layer 6 snipes"),
    }
    match controller.on_layer_change_event(7).mode {
        PointingMode::Scroll(s) => {
            assert_eq!((s.divisor_x, s.divisor_y), (3, 3));
            assert!(s.invert_y && !s.invert_x);
        },
        _ => panic!("layer 7 scrolls"),
    }
    assert!(matches!(controller.on_layer_change_event(0).mode, PointingMode::Cursor(_)));
}

#[test]
fn custom_messages_fit_and_route() {
    assert!(CustomMessage::new(&[0; 33], CustomMessageTarget::Dongle).is_err());
    let message = CustomMessage::new(&[1, 2, 3], CustomMessageTarget::Central).unwrap();
    assert_eq!(message.data.as_slice(), &[1, 2, 3]);
    let out = send(message);
    assert_eq!(out.0.target, CustomMessageTarget::Central);
    assert!(should_forward(None, CustomMessageTarget::Peripherals));
    assert!(should_forward(Some(CustomMessageTarget::Dongle), CustomMessageTarget::Dongle));
    assert!(!should_forward(Some(CustomMessageTarget::Dongle), CustomMessageTarget::Central));
}

#[test]
fn host_edits_reach_the_keymap_and_storage() {
    let data = KeymapData::from_layers(&get_default_keymap(), 0);
    let mut context = KeyboardContext::new(KeyMap::new(data, BehaviorConfig::new(0, 0, 0), vec![0; 8]));
    assert_eq!(context.keymap_dimensions(), (4, 12, 9));
    assert_eq!(context.get_action(0, 0, 1), key(HidKeyCode::Q));
    let item = context.set_action(0, 0, 1, key(HidKeyCode::Z));
    assert!(matches!(item, StorageItem::Keymap { layer: 0, row: 0, col: 1, action } if action == key(HidKeyCode::Z)));
    assert_eq!(context.get_action(0, 0, 1), key(HidKeyCode::Z));
    // Outside the grid nothing changes.
    context.set_action(9, 0, 0, key(HidKeyCode::Z));
    assert_eq!(context.get_action(9, 0, 0), KeyAction::No);

    let item = context.write_macro_buffer(254, &[1, 2, 3]);
    match item {
        StorageItem::MacroData(bytes) => {
            assert_eq!(bytes.len(), 256);
            assert_eq!(&bytes[254..], &[1, 2]);
        },
        _ => panic!("a macro write stores the buffer"),
    }
    let mut back = [9u8; 4];
    context.read_macro_buffer(253, &mut back);
    assert_eq!(back, [0, 1, 2, 0]);
    assert!(matches!(context.set_layout_options(5), StorageItem::LayoutOption(5)));
    assert_eq!(context.layout_options(), 5);
}

#[test]
fn pairing_the_work_dongle_keeps_the_home_dongle() {
    let mut manager = ProfileManager::new();
    manager.add_profile_info(bond(3, 1));
    manager.add_profile_info(bond(0, 5));
    manager.add_profile_info(bond(4, 2));
    // Re-pairing the work dongle replaces only its own slot.
    manager.add_profile_info(bond(4, 9));
    assert_eq!(manager.bonded_dongle_slots().as_slice(), &[3, 4]);
    manager.handle_action(BleProfileAction::Switch(3));
    assert_eq!(manager.bond_to_install().map(|b| b.ltk), Some(1001));
    manager.handle_action(BleProfileAction::Switch(4));
    assert_eq!(manager.bond_to_install().map(|b| b.ltk), Some(1009));
    manager.handle_action(BleProfileAction::Switch(0));
    assert_eq!(manager.bond_to_install().map(|b| b.ltk), Some(1005));
}

#[test]
fn clearing_a_slot_by_number_leaves_the_active_profile() {
    let mut manager = ProfileManager::new();
    manager.add_profile_info(bond(0, 1));
    manager.add_profile_info(bond(3, 2));
    let step = manager.handle_action(BleProfileAction::ClearSlot(3));
    assert!(step.done && step.update_stack);
    assert!(matches!(step.item, Some(StorageItem::BondInfo(ref p)) if p.slot_num == 3 && p.removed));
    assert_eq!(manager.active_profile(), 0);
    assert_eq!(manager.bond_to_install().map(|b| b.ltk), Some(1001));
    assert_eq!(manager.bonded_dongle_slots().as_slice(), &[] as &[u8]);
}

#[test]
fn profiles_load_skipping_removed_bonds() {
    let mut manager = ProfileManager::new();
    let mut removed = bond(1, 7);
    removed.removed = true;
    let stored = vec![Some(bond(0, 1)), Some(removed), None, Some(bond(3, 4)), None];
    manager.load_bonded_devices(&stored, Some(3));
    assert_eq!(manager.active_profile(), 3);
    assert_eq!(manager.bond_to_install().map(|b| b.ltk), Some(1004));
    assert_eq!(manager.bonded_dongle_slots().as_slice(), &[3]);
    manager.load_bonded_devices(&vec![], None);
    assert_eq!(manager.active_profile(), 0);
    assert!(manager.bond_to_install().is_none());
}

#[test]
fn cccd_table_updates_only_when_it_changes() {
    let mut manager = ProfileManager::new();
    assert!(manager.update_profile_cccd_table(CccdTable::from_slice(&[1]).unwrap()).is_none());
    manager.add_profile_info(bond(0, 1));
    let item = manager.update_profile_cccd_table(CccdTable::from_slice(&[1, 2]).unwrap());
    assert!(matches!(item, Some(StorageItem::BondInfo(ref p)) if p.cccd_table.as_slice() == [1, 2]));
    assert!(manager.update_profile_cccd_table(CccdTable::from_slice(&[1, 2]).unwrap()).is_none());
}

#[test]
fn host_context_getters_and_behavior_settings() {
    let data = KeymapData::from_layers(&get_default_keymap(), 1);
    let mut behavior = BehaviorConfig::new(2, 2, 2);
    behavior.macro_sequences[0] = 42;
    let mut context = KeyboardContext::new(KeyMap::new(data, behavior, vec![0xA5, 0x0F]));

    assert_eq!(context.get_action_flat(2), KeyAction::TapHold(Action::Key(HidKeyCode::W), Action::LayerOn(7)));
    assert_eq!(context.get_action_flat(432), KeyAction::No);
    assert_eq!(context.num_encoders(), 1);
    assert_eq!(context.get_encoder(8, 0).map(|e| e.counter_clockwise), Some(KeyAction::No));
    assert_eq!(context.get_encoder(0, 1), None);
    assert!(matches!(
        context.set_encoder_direction(2, 0, true, key(HidKeyCode::A)),
        Some(StorageItem::Encoder { layer: 2, idx: 0, action }) if action.clockwise == key(HidKeyCode::A)
    ));
    assert_eq!(context.get_encoder(2, 0).map(|e| e.clockwise), Some(key(HidKeyCode::A)));
    assert!(context.set_encoder_direction(2, 1, true, key(HidKeyCode::A)).is_none());

    let mut mat = [0u8; 3];
    context.read_matrix_state(&mut mat);
    assert_eq!(mat, [0xA5, 0x0F, 0]);

    let mut first = [0u8; 1];
    context.read_macro_buffer(0, &mut first);
    assert_eq!(first, [42]);
    context.reset_macro_buffer();
    context.read_macro_buffer(0, &mut first);
    assert_eq!(first, [0]);

    assert_eq!(context.with_combos(|combos| combos.len()), 2);
    let mut combo = ComboConfig::empty();
    combo.actions.push(key(HidKeyCode::Q));
    combo.actions.push(key(HidKeyCode::P));
    combo.output = key(HidKeyCode::Y);
    assert!(matches!(context.set_combo(1, combo), Some(StorageItem::Combo { idx: 1, .. })));
    assert!(context.with_combos(|combos| combos[1].is_some() && combos[0].is_none()));
    // An empty configuration clears the slot.
    assert!(context.set_combo(1, ComboConfig::empty()).is_some());
    assert!(context.with_combos(|combos| combos[1].is_none()));
    assert!(context.set_combo(2, ComboConfig::empty()).is_none());

    assert_eq!(context.morses_len(), 2);
    assert_eq!(context.get_morse(0).map(|m| m.actions.len()), Some(0));
    let item = context.update_morse(1, |mut m: Morse| {
        m.profile = MorseProfile(7);
        m.actions.push((0b101, Action::Key(HidKeyCode::A)));
        m
    });
    assert!(matches!(item, Some(StorageItem::Morse { idx: 1, ref morse }) if morse.profile == MorseProfile(7)));
    assert_eq!(context.get_morse(1).map(|m| m.actions), Some(vec![(0b101, Action::Key(HidKeyCode::A))]));
    assert!(context.update_morse(2, |m: Morse| m).is_none());
    assert!(context.get_morse(2).is_none());

    let mut fork = Fork::empty();
    fork.trigger = key(HidKeyCode::Dot);
    assert!(matches!(context.set_fork(0, fork), Some(StorageItem::Fork { idx: 0, .. })));
    assert_eq!(context.get_fork(0), Some(fork));
    assert!(context.set_fork(5, fork).is_none());
    assert_eq!(context.get_fork(5), None);

    assert_eq!(context.combo_timeout(), 50);
    assert!(matches!(context.set_combo_timeout(80), StorageItem::BehaviorConfig(c) if c.combo_timeout == 80));
    assert_eq!(context.combo_timeout(), 80);
    assert!(matches!(context.set_one_shot_timeout(700), StorageItem::BehaviorConfig(c) if c.one_shot_timeout == 700));
    assert_eq!(context.one_shot_timeout(), 700);
    context.set_tap_interval(30);
    context.set_tap_capslock_interval(40);
    assert_eq!((context.tap_interval(), context.tap_capslock_interval()), (30, 40));
    context.set_morse_prior_idle_time(125);
    assert_eq!(context.morse_prior_idle_time(), 125);
    context.set_morse_default_profile(MorseProfile(3));
    assert_eq!(context.morse_default_profile(), MorseProfile(3));
    let stored = context.set_behavior_config(HostBehaviorConfig {
        combo_timeout_ms: 1,
        oneshot_timeout_ms: 2,
        tap_interval_ms: 3,
        tap_capslock_interval_ms: 4,
        morse_default_profile: MorseProfile(5),
        morse_prior_idle_time_ms: 6,
    });
    assert!(matches!(stored, StorageItem::BehaviorConfig(c)
        if (c.combo_timeout, c.one_shot_timeout, c.tap_interval, c.tap_capslock_interval, c.prior_idle_time)
            == (1, 2, 3, 4, 6) && c.morse_default_profile == MorseProfile(5)));

    assert_eq!(context.default_layer(), 0);
    assert_eq!(context.active_layer(), 0);
    assert!(matches!(context.set_default_layer(3), StorageItem::DefaultLayer(3)));
    assert_eq!(context.default_layer(), 3);
    assert!(context.layout_blob().is_empty());
    assert!(matches!(context.reset_storage(), charybdis_rmk::task::FlashOperationMessage::Reset));

    assert_eq!(varint_max::<u32>(), 5);
    assert_eq!(varint_max::<u64>(), 10);
    assert_eq!(varint_max::<u8>(), 2);
}
