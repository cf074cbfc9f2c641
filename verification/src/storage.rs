//! The storage schema: what is stored under which key, how a key is framed on
//! flash, the schema hash that guards stored data, and the decisions of the
//! storage task (boot, requests, replies).
use vstd::prelude::*;

use crate::action::{EncoderAction, KeyAction};
use crate::behavior::{ComboConfig, ComboView, Fork, Morse, MorseView, StoredBehaviorConfig};
use crate::bytes::user_data_contents;
use crate::config::MACRO_SPACE_SIZE;
use crate::bytes::UserDataBytes;
use crate::profile::ProfileInfo;

verus! {

/// How the keyboard talks to the host.
#[derive(Clone, Copy, Debug, PartialEq, Eq, Structural)]
pub enum ConnectionType {
    Usb,
    Ble,
}

/// The bonded address of one split peripheral.
#[derive(Clone, Copy, Debug)]
pub struct PeerAddress {
    pub peer_id: u8,
    pub is_valid: bool,
    pub address: [u8; 6],
}

impl PeerAddress {
    /// A peer address record.
    pub fn new(peer_id: u8, is_valid: bool, address: [u8; 6]) -> (r: PeerAddress)
        ensures
            r.peer_id == peer_id,
            r.is_valid == is_valid,
            r.address == address,
    {
        PeerAddress { peer_id, is_valid, address }
    }
}

/// The key a stored value lives under.
///
/// The variant order is the on-flash tag: variants are only ever appended.
#[derive(Clone, Copy, Debug, PartialEq, Eq, Structural)]
pub enum StorageKey {
    StorageConfig,
    DefaultLayer,
    LayoutOption,
    BehaviorConfig,
    ConnectionType,
    MacroData,
    Keymap { layer: u8, row: u8, col: u8 },
    Encoder { layer: u8, idx: u8 },
    Combo(u8),
    Fork(u8),
    Morse(u8),
    PeerAddress(u8),
    ActiveBleProfile,
    BondInfo(u8),
    /// A slot the board defines.
    UserData(u8),
}

/// A stored value.
///
/// The variant order is the on-flash tag and parallels `StorageKey`.
pub enum StorageValue {
    /// The schema hash of the firmware that wrote this storage.
    StorageConfig(u32),
    DefaultLayer(u8),
    LayoutOption(u32),
    BehaviorConfig(StoredBehaviorConfig),
    ConnectionType(ConnectionType),
    MacroData(Vec<u8>),
    KeyAction(KeyAction),
    EncoderAction(EncoderAction),
    Combo(ComboConfig),
    Fork(Fork),
    Morse(Morse),
    PeerAddress(PeerAddress),
    BondInfo(ProfileInfo),
    ActiveBleProfile(u8),
    UserData(UserDataBytes),
}

/// A storage item: a (key, value) pair.
#[allow(inconsistent_fields)]
pub enum StorageItem {
    StorageConfig(u32),
    DefaultLayer(u8),
    LayoutOption(u32),
    BehaviorConfig(StoredBehaviorConfig),
    ConnectionType(ConnectionType),
    MacroData(Vec<u8>),
    Keymap { layer: u8, row: u8, col: u8, action: KeyAction },
    Encoder { layer: u8, idx: u8, action: EncoderAction },
    Combo { idx: u8, config: ComboConfig },
    Fork { idx: u8, fork: Fork },
    Morse { idx: u8, morse: Morse },
    PeerAddress(PeerAddress),
    BondInfo(ProfileInfo),
    ActiveBleProfile(u8),
    UserData { slot: u8, data: UserDataBytes },
}

/// A stored value as values.
pub enum ValueView {
    StorageConfig(u32),
    DefaultLayer(u8),
    LayoutOption(u32),
    BehaviorConfig(StoredBehaviorConfig),
    ConnectionType(ConnectionType),
    MacroData(Seq<u8>),
    KeyAction(KeyAction),
    EncoderAction(EncoderAction),
    Combo(ComboView),
    Fork(Fork),
    Morse(MorseView),
    PeerAddress(PeerAddress),
    BondInfo(ProfileInfo),
    ActiveBleProfile(u8),
    UserData(Seq<u8>),
}

impl View for StorageValue {
    type V = ValueView;

    open spec fn view(&self) -> ValueView {
        match self {
            StorageValue::StorageConfig(v) => ValueView::StorageConfig(*v),
            StorageValue::DefaultLayer(v) => ValueView::DefaultLayer(*v),
            StorageValue::LayoutOption(v) => ValueView::LayoutOption(*v),
            StorageValue::BehaviorConfig(v) => ValueView::BehaviorConfig(*v),
            StorageValue::ConnectionType(v) => ValueView::ConnectionType(*v),
            StorageValue::MacroData(v) => ValueView::MacroData(v@),
            StorageValue::KeyAction(v) => ValueView::KeyAction(*v),
            StorageValue::EncoderAction(v) => ValueView::EncoderAction(*v),
            StorageValue::Combo(v) => ValueView::Combo(v@),
            StorageValue::Fork(v) => ValueView::Fork(*v),
            StorageValue::Morse(v) => ValueView::Morse(v@),
            StorageValue::PeerAddress(v) => ValueView::PeerAddress(*v),
            StorageValue::BondInfo(v) => ValueView::BondInfo(*v),
            StorageValue::ActiveBleProfile(v) => ValueView::ActiveBleProfile(*v),
            StorageValue::UserData(v) => ValueView::UserData(user_data_contents(*v)),
        }
    }
}

/// Well-formed value: a macro buffer has its full size.
pub open spec fn spec_value_wf(v: ValueView) -> bool {
    v matches ValueView::MacroData(bytes) ==> bytes.len() == MACRO_SPACE_SIZE
}

// ---------------------------------------------------------------------------
// Tags and the key/value split
// ---------------------------------------------------------------------------

/// The on-flash tag of a key: its declaration position.
pub open spec fn spec_key_tag(k: StorageKey) -> u8 {
    match k {
        StorageKey::StorageConfig => 0,
        StorageKey::DefaultLayer => 1,
        StorageKey::LayoutOption => 2,
        StorageKey::BehaviorConfig => 3,
        StorageKey::ConnectionType => 4,
        StorageKey::MacroData => 5,
        StorageKey::Keymap { .. } => 6,
        StorageKey::Encoder { .. } => 7,
        StorageKey::Combo(_) => 8,
        StorageKey::Fork(_) => 9,
        StorageKey::Morse(_) => 10,
        StorageKey::PeerAddress(_) => 11,
        StorageKey::ActiveBleProfile => 12,
        StorageKey::BondInfo(_) => 13,
        StorageKey::UserData(_) => 14,
    }
}

/// The on-flash tag of a value: its declaration position.
pub open spec fn spec_value_tag(v: StorageValue) -> u8 {
    match v {
        StorageValue::StorageConfig(_) => 0,
        StorageValue::DefaultLayer(_) => 1,
        StorageValue::LayoutOption(_) => 2,
        StorageValue::BehaviorConfig(_) => 3,
        StorageValue::ConnectionType(_) => 4,
        StorageValue::MacroData(_) => 5,
        StorageValue::KeyAction(_) => 6,
        StorageValue::EncoderAction(_) => 7,
        StorageValue::Combo(_) => 8,
        StorageValue::Fork(_) => 9,
        StorageValue::Morse(_) => 10,
        StorageValue::PeerAddress(_) => 11,
        StorageValue::BondInfo(_) => 12,
        StorageValue::ActiveBleProfile(_) => 13,
        StorageValue::UserData(_) => 14,
    }
}

impl StorageKey {
    /// The on-flash tag of this key.
    pub fn tag(&self) -> (r: u8)
        ensures
            r == spec_key_tag(*self),
    {
        match self {
            StorageKey::StorageConfig => 0,
            StorageKey::DefaultLayer => 1,
            StorageKey::LayoutOption => 2,
            StorageKey::BehaviorConfig => 3,
            StorageKey::ConnectionType => 4,
            StorageKey::MacroData => 5,
            StorageKey::Keymap { .. } => 6,
            StorageKey::Encoder { .. } => 7,
            StorageKey::Combo(_) => 8,
            StorageKey::Fork(_) => 9,
            StorageKey::Morse(_) => 10,
            StorageKey::PeerAddress(_) => 11,
            StorageKey::ActiveBleProfile => 12,
            StorageKey::BondInfo(_) => 13,
            StorageKey::UserData(_) => 14,
        }
    }
}

impl StorageValue {
    /// The on-flash tag of this value.
    pub fn tag(&self) -> (r: u8)
        ensures
            r == spec_value_tag(*self),
    {
        match self {
            StorageValue::StorageConfig(_) => 0,
            StorageValue::DefaultLayer(_) => 1,
            StorageValue::LayoutOption(_) => 2,
            StorageValue::BehaviorConfig(_) => 3,
            StorageValue::ConnectionType(_) => 4,
            StorageValue::MacroData(_) => 5,
            StorageValue::KeyAction(_) => 6,
            StorageValue::EncoderAction(_) => 7,
            StorageValue::Combo(_) => 8,
            StorageValue::Fork(_) => 9,
            StorageValue::Morse(_) => 10,
            StorageValue::PeerAddress(_) => 11,
            StorageValue::BondInfo(_) => 12,
            StorageValue::ActiveBleProfile(_) => 13,
            StorageValue::UserData(_) => 14,
        }
    }
}

/// The key an item is stored under.
pub open spec fn spec_item_key(item: StorageItem) -> StorageKey {
    match item {
        StorageItem::StorageConfig(_) => StorageKey::StorageConfig,
        StorageItem::DefaultLayer(_) => StorageKey::DefaultLayer,
        StorageItem::LayoutOption(_) => StorageKey::LayoutOption,
        StorageItem::BehaviorConfig(_) => StorageKey::BehaviorConfig,
        StorageItem::ConnectionType(_) => StorageKey::ConnectionType,
        StorageItem::MacroData(_) => StorageKey::MacroData,
        StorageItem::Keymap { layer, row, col, .. } => StorageKey::Keymap { layer, row, col },
        StorageItem::Encoder { layer, idx, .. } => StorageKey::Encoder { layer, idx },
        StorageItem::Combo { idx, .. } => StorageKey::Combo(idx),
        StorageItem::Fork { idx, .. } => StorageKey::Fork(idx),
        StorageItem::Morse { idx, .. } => StorageKey::Morse(idx),
        StorageItem::PeerAddress(p) => StorageKey::PeerAddress(p.peer_id),
        StorageItem::BondInfo(p) => StorageKey::BondInfo(p.slot_num),
        StorageItem::ActiveBleProfile(_) => StorageKey::ActiveBleProfile,
        StorageItem::UserData { slot, .. } => StorageKey::UserData(slot),
    }
}

/// The value an item stores.
pub open spec fn spec_item_value(item: StorageItem) -> StorageValue {
    match item {
        StorageItem::StorageConfig(v) => StorageValue::StorageConfig(v),
        StorageItem::DefaultLayer(v) => StorageValue::DefaultLayer(v),
        StorageItem::LayoutOption(v) => StorageValue::LayoutOption(v),
        StorageItem::BehaviorConfig(v) => StorageValue::BehaviorConfig(v),
        StorageItem::ConnectionType(v) => StorageValue::ConnectionType(v),
        StorageItem::MacroData(v) => StorageValue::MacroData(v),
        StorageItem::Keymap { action, .. } => StorageValue::KeyAction(action),
        StorageItem::Encoder { action, .. } => StorageValue::EncoderAction(action),
        StorageItem::Combo { config, .. } => StorageValue::Combo(config),
        StorageItem::Fork { fork, .. } => StorageValue::Fork(fork),
        StorageItem::Morse { morse, .. } => StorageValue::Morse(morse),
        StorageItem::PeerAddress(p) => StorageValue::PeerAddress(p),
        StorageItem::BondInfo(p) => StorageValue::BondInfo(p),
        StorageItem::ActiveBleProfile(v) => StorageValue::ActiveBleProfile(v),
        StorageItem::UserData { data, .. } => StorageValue::UserData(data),
    }
}

/// The tag of a value read back under the key it was stored with.
///
/// Keys and values share their declaration order up to the bond record, where
/// the value enum lists the bond before the active profile.
pub open spec fn spec_value_tag_for_key(k: StorageKey) -> u8 {
    match k {
        StorageKey::ActiveBleProfile => 13,
        StorageKey::BondInfo(_) => 12,
        _ => spec_key_tag(k),
    }
}

/// Every record lives under its own key: an item for a numbered record (a
/// key position, an encoder, a combo, fork or morse slot, a peer, a bond slot,
/// a user-data slot) is stored under a key that carries that number, so two
/// bonds share a key exactly when they are for the same slot; and two items
/// only ever share a key when they are of the same kind.
pub proof fn lemma_item_key_names_its_record(a: StorageItem, b: StorageItem)
    ensures
        a matches StorageItem::BondInfo(p) ==> spec_item_key(a) == StorageKey::BondInfo(p.slot_num),
        a matches StorageItem::PeerAddress(p) ==> spec_item_key(a) == StorageKey::PeerAddress(p.peer_id),
        a matches StorageItem::Keymap { layer, row, col, .. } ==> spec_item_key(a) == (StorageKey::Keymap {
            layer,
            row,
            col,
        }),
        a matches StorageItem::Encoder { layer, idx, .. } ==> spec_item_key(a) == (StorageKey::Encoder { layer, idx }),
        a matches StorageItem::Combo { idx, .. } ==> spec_item_key(a) == StorageKey::Combo(idx),
        a matches StorageItem::Fork { idx, .. } ==> spec_item_key(a) == StorageKey::Fork(idx),
        a matches StorageItem::Morse { idx, .. } ==> spec_item_key(a) == StorageKey::Morse(idx),
        a matches StorageItem::UserData { slot, .. } ==> spec_item_key(a) == StorageKey::UserData(slot),
        a is BondInfo && b is BondInfo ==> (spec_item_key(a) == spec_item_key(b) <==> a->BondInfo_0.slot_num
            == b->BondInfo_0.slot_num),
        spec_item_key(a) == spec_item_key(b) ==> spec_value_tag(spec_item_value(a)) == spec_value_tag(
            spec_item_value(b),
        ),
{
    if let (StorageItem::BondInfo(p), StorageItem::BondInfo(q)) = (a, b) {
        assert(spec_item_key(a) == StorageKey::BondInfo(p.slot_num));
        assert(spec_item_key(b) == StorageKey::BondInfo(q.slot_num));
        if spec_item_key(a) == spec_item_key(b) {
            assert(p.slot_num == q.slot_num);
        }
    }
}

impl StorageItem {
    /// Splits the item into the key it is stored under and the value stored.
    pub fn split(self) -> (r: (StorageKey, StorageValue))
        ensures
            r.0 == spec_item_key(self),
            r.1 == spec_item_value(self),
            spec_value_tag(r.1) == spec_value_tag_for_key(r.0),
    {
        match self {
            StorageItem::StorageConfig(v) => (StorageKey::StorageConfig, StorageValue::StorageConfig(v)),
            StorageItem::DefaultLayer(v) => (StorageKey::DefaultLayer, StorageValue::DefaultLayer(v)),
            StorageItem::LayoutOption(v) => (StorageKey::LayoutOption, StorageValue::LayoutOption(v)),
            StorageItem::BehaviorConfig(v) => (StorageKey::BehaviorConfig, StorageValue::BehaviorConfig(v)),
            StorageItem::ConnectionType(v) => (StorageKey::ConnectionType, StorageValue::ConnectionType(v)),
            StorageItem::MacroData(v) => (StorageKey::MacroData, StorageValue::MacroData(v)),
            StorageItem::Keymap { layer, row, col, action } => {
                (StorageKey::Keymap { layer, row, col }, StorageValue::KeyAction(action))
            },
            StorageItem::Encoder { layer, idx, action } => {
                (StorageKey::Encoder { layer, idx }, StorageValue::EncoderAction(action))
            },
            StorageItem::Combo { idx, config } => (StorageKey::Combo(idx), StorageValue::Combo(config)),
            StorageItem::Fork { idx, fork } => (StorageKey::Fork(idx), StorageValue::Fork(fork)),
            StorageItem::Morse { idx, morse } => (StorageKey::Morse(idx), StorageValue::Morse(morse)),
            StorageItem::PeerAddress(v) => (StorageKey::PeerAddress(v.peer_id), StorageValue::PeerAddress(v)),
            StorageItem::BondInfo(v) => (StorageKey::BondInfo(v.slot_num), StorageValue::BondInfo(v)),
            StorageItem::ActiveBleProfile(v) => (StorageKey::ActiveBleProfile, StorageValue::ActiveBleProfile(v)),
            StorageItem::UserData { slot, data } => (StorageKey::UserData(slot), StorageValue::UserData(data)),
        }
    }
}

} // verus!
