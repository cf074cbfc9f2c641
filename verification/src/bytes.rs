//! Fixed-capacity collections backed by `heapless::Vec`.
//!
//! Each collection is a struct whose one private field is the `heapless::Vec`;
//! its contents are named by an uninterpreted spec function, and each method
//! that touches the vector is a small trusted wrapper whose contract states
//! what `heapless::Vec` does (see the doc comment above each).
use vstd::prelude::*;

use crate::config::{
    BOND_SLOTS, CCCD_TABLE_SIZE, CUSTOM_MESSAGE_MAX_SIZE, DONGLE_SLOT_LIST_SIZE, USER_DATA_MAX_SIZE,
};
use crate::profile::ProfileInfo;

verus! {

/// Error of `heapless::Vec::from_slice` when the slice does not fit.
#[verifier::external_type_specification]
#[verifier::external_body]
pub struct ExCapacityError(heapless::CapacityError);

// ---------------------------------------------------------------------------
// User data bytes
// ---------------------------------------------------------------------------

/// The bytes of one user-data slot, at most `USER_DATA_MAX_SIZE` of them.
#[verifier::external_body]
pub struct UserDataBytes {
    inner: heapless::Vec<u8, USER_DATA_MAX_SIZE>,
}

/// What a `UserDataBytes` holds.
pub uninterp spec fn user_data_contents(v: UserDataBytes) -> Seq<u8>;

impl View for UserDataBytes {
    type V = Seq<u8>;

    open spec fn view(&self) -> Seq<u8> {
        user_data_contents(*self)
    }
}

impl UserDataBytes {
    /// `heapless::Vec::from_slice`: `Err` exactly when the slice is longer than
    /// the capacity, else a vector holding a copy of the slice.
    #[verifier::external_body]
    fn heapless_from_slice(bytes: &[u8]) -> (r: Result<UserDataBytes, heapless::CapacityError>)
        ensures
            r is Ok <==> bytes@.len() <= USER_DATA_MAX_SIZE,
            r matches Ok(v) ==> user_data_contents(v) == bytes@,
    {
        heapless::Vec::from_slice(bytes).map(|inner| UserDataBytes { inner })
    }

    /// A copy of `bytes`; `Err` exactly when it is longer than the capacity.
    pub fn from_slice(bytes: &[u8]) -> (r: Result<UserDataBytes, heapless::CapacityError>)
        ensures
            r is Ok <==> bytes@.len() <= USER_DATA_MAX_SIZE,
            r matches Ok(v) ==> user_data_contents(v) == bytes@,
    {
        Self::heapless_from_slice(bytes)
    }

    /// `heapless::Vec::as_slice`: the stored bytes, in order.
    #[verifier::external_body]
    fn heapless_as_slice(&self) -> (r: &[u8])
        ensures
            r@ == user_data_contents(*self),
            r@.len() <= USER_DATA_MAX_SIZE,
    {
        self.inner.as_slice()
    }

    /// The stored bytes, in order.
    pub fn as_slice(&self) -> (r: &[u8])
        ensures
            r@ == user_data_contents(*self),
            r@.len() <= USER_DATA_MAX_SIZE,
    {
        self.heapless_as_slice()
    }
}

// ---------------------------------------------------------------------------
// Custom message payload
// ---------------------------------------------------------------------------

/// The payload of a custom message, at most `CUSTOM_MESSAGE_MAX_SIZE` bytes.
#[verifier::external_body]
pub struct MessageBytes {
    inner: heapless::Vec<u8, CUSTOM_MESSAGE_MAX_SIZE>,
}

/// What a `MessageBytes` holds.
pub uninterp spec fn message_contents(v: MessageBytes) -> Seq<u8>;

impl View for MessageBytes {
    type V = Seq<u8>;

    open spec fn view(&self) -> Seq<u8> {
        message_contents(*self)
    }
}

impl MessageBytes {
    /// `heapless::Vec::from_slice`: `Err` exactly when the slice is longer than
    /// the capacity, else a vector holding a copy of the slice.
    #[verifier::external_body]
    fn heapless_from_slice(bytes: &[u8]) -> (r: Result<MessageBytes, heapless::CapacityError>)
        ensures
            r is Ok <==> bytes@.len() <= CUSTOM_MESSAGE_MAX_SIZE,
            r matches Ok(v) ==> message_contents(v) == bytes@,
    {
        heapless::Vec::from_slice(bytes).map(|inner| MessageBytes { inner })
    }

    /// A copy of `bytes`; `Err` exactly when it is longer than the capacity.
    pub fn from_slice(bytes: &[u8]) -> (r: Result<MessageBytes, heapless::CapacityError>)
        ensures
            r is Ok <==> bytes@.len() <= CUSTOM_MESSAGE_MAX_SIZE,
            r matches Ok(v) ==> message_contents(v) == bytes@,
    {
        Self::heapless_from_slice(bytes)
    }

    /// `heapless::Vec::as_slice`: the stored bytes, in order.
    #[verifier::external_body]
    fn heapless_as_slice(&self) -> (r: &[u8])
        ensures
            r@ == message_contents(*self),
            r@.len() <= CUSTOM_MESSAGE_MAX_SIZE,
    {
        self.inner.as_slice()
    }

    /// The stored bytes, in order.
    pub fn as_slice(&self) -> (r: &[u8])
        ensures
            r@ == message_contents(*self),
            r@.len() <= CUSTOM_MESSAGE_MAX_SIZE,
    {
        self.heapless_as_slice()
    }
}

// ---------------------------------------------------------------------------
// Client attribute table of a bond
// ---------------------------------------------------------------------------

/// Raw bytes of the client attribute table kept with a bond.
#[verifier::external_body]
pub struct CccdTable {
    inner: heapless::Vec<u8, CCCD_TABLE_SIZE>,
}

/// What a `CccdTable` holds.
pub uninterp spec fn cccd_contents(v: CccdTable) -> Seq<u8>;

impl View for CccdTable {
    type V = Seq<u8>;

    open spec fn view(&self) -> Seq<u8> {
        cccd_contents(*self)
    }
}

impl CccdTable {
    /// `heapless::Vec::new`: an empty table.
    #[verifier::external_body]
    fn heapless_new() -> (r: CccdTable)
        ensures
            cccd_contents(r) == Seq::<u8>::empty(),
    {
        CccdTable { inner: heapless::Vec::new() }
    }

    /// An empty table.
    pub fn new() -> (r: CccdTable)
        ensures
            cccd_contents(r) == Seq::<u8>::empty(),
    {
        Self::heapless_new()
    }

    /// `heapless::Vec::from_slice`: `Err` exactly when the slice is longer than
    /// the capacity, else a table holding a copy of the slice.
    #[verifier::external_body]
    fn heapless_from_slice(bytes: &[u8]) -> (r: Result<CccdTable, heapless::CapacityError>)
        ensures
            r is Ok <==> bytes@.len() <= CCCD_TABLE_SIZE,
            r matches Ok(v) ==> cccd_contents(v) == bytes@,
    {
        heapless::Vec::from_slice(bytes).map(|inner| CccdTable { inner })
    }

    /// A copy of `bytes`; `Err` exactly when it is longer than the capacity.
    pub fn from_slice(bytes: &[u8]) -> (r: Result<CccdTable, heapless::CapacityError>)
        ensures
            r is Ok <==> bytes@.len() <= CCCD_TABLE_SIZE,
            r matches Ok(v) ==> cccd_contents(v) == bytes@,
    {
        Self::heapless_from_slice(bytes)
    }

    /// `heapless::Vec::as_slice`: the stored bytes, in order.
    #[verifier::external_body]
    fn heapless_as_slice(&self) -> (r: &[u8])
        ensures
            r@ == cccd_contents(*self),
            r@.len() <= CCCD_TABLE_SIZE,
    {
        self.inner.as_slice()
    }

    /// The stored bytes, in order.
    pub fn as_slice(&self) -> (r: &[u8])
        ensures
            r@ == cccd_contents(*self),
            r@.len() <= CCCD_TABLE_SIZE,
    {
        self.heapless_as_slice()
    }

    /// `Clone` of `heapless::Vec<u8, _>`: a new table with the same bytes.
    #[verifier::external_body]
    fn heapless_duplicate(&self) -> (r: CccdTable)
        ensures
            r@ == cccd_contents(*self),
    {
        CccdTable { inner: self.inner.clone() }
    }

    /// A new table with the same bytes.
    pub fn duplicate(&self) -> (r: CccdTable)
        ensures
            r@ == cccd_contents(*self),
    {
        self.heapless_duplicate()
    }
}

// ---------------------------------------------------------------------------
// List of bonded dongle slots
// ---------------------------------------------------------------------------

/// A list of slot numbers, at most `DONGLE_SLOT_LIST_SIZE` of them.
#[verifier::external_body]
pub struct SlotList {
    inner: heapless::Vec<u8, DONGLE_SLOT_LIST_SIZE>,
}

/// What a `SlotList` holds.
pub uninterp spec fn slot_list_contents(v: SlotList) -> Seq<u8>;

impl View for SlotList {
    type V = Seq<u8>;

    open spec fn view(&self) -> Seq<u8> {
        slot_list_contents(*self)
    }
}

impl SlotList {
    /// `heapless::Vec::new`: an empty list.
    #[verifier::external_body]
    fn heapless_new() -> (r: SlotList)
        ensures
            slot_list_contents(r) == Seq::<u8>::empty(),
    {
        SlotList { inner: heapless::Vec::new() }
    }

    /// An empty list.
    pub fn new() -> (r: SlotList)
        ensures
            slot_list_contents(r) == Seq::<u8>::empty(),
    {
        Self::heapless_new()
    }

    /// `heapless::Vec::push`: appends when there is room and answers `true`,
    /// else leaves the list unchanged and answers `false` (the item is dropped).
    #[verifier::external_body]
    fn heapless_push(&mut self, slot: u8) -> (r: bool)
        ensures
            r <==> slot_list_contents(*old(self)).len() < DONGLE_SLOT_LIST_SIZE,
            r ==> slot_list_contents(*final(self)) == slot_list_contents(*old(self)).push(slot),
            !r ==> slot_list_contents(*final(self)) == slot_list_contents(*old(self)),
    {
        self.inner.push(slot).is_ok()
    }

    /// Appends `slot` when there is room and answers `true`; else leaves the
    /// list unchanged and answers `false`.
    pub fn push(&mut self, slot: u8) -> (r: bool)
        ensures
            r <==> slot_list_contents(*old(self)).len() < DONGLE_SLOT_LIST_SIZE,
            r ==> slot_list_contents(*final(self)) == slot_list_contents(*old(self)).push(slot),
            !r ==> slot_list_contents(*final(self)) == slot_list_contents(*old(self)),
    {
        self.heapless_push(slot)
    }

    /// `heapless::Vec::as_slice`: the stored slots, in order.
    #[verifier::external_body]
    fn heapless_as_slice(&self) -> (r: &[u8])
        ensures
            r@ == slot_list_contents(*self),
            r@.len() <= DONGLE_SLOT_LIST_SIZE,
    {
        self.inner.as_slice()
    }

    /// The stored slots, in order.
    pub fn as_slice(&self) -> (r: &[u8])
        ensures
            r@ == slot_list_contents(*self),
            r@.len() <= DONGLE_SLOT_LIST_SIZE,
    {
        self.heapless_as_slice()
    }
}

// ---------------------------------------------------------------------------
// Bonded devices of the profile manager
// ---------------------------------------------------------------------------

/// The bond cache of the profile manager, at most `BOND_SLOTS` entries.
#[verifier::external_body]
pub struct BondList {
    inner: heapless::Vec<ProfileInfo, BOND_SLOTS>,
}

/// What a `BondList` holds.
pub uninterp spec fn bond_list_contents(v: BondList) -> Seq<ProfileInfo>;

impl View for BondList {
    type V = Seq<ProfileInfo>;

    open spec fn view(&self) -> Seq<ProfileInfo> {
        bond_list_contents(*self)
    }
}

impl BondList {
    /// `heapless::Vec::new`: an empty list.
    #[verifier::external_body]
    pub(crate) fn new() -> (r: BondList)
        ensures
            bond_list_contents(r) == Seq::<ProfileInfo>::empty(),
    {
        BondList { inner: heapless::Vec::new() }
    }

    /// `heapless::Vec::len`: the number of entries, never above the capacity.
    #[verifier::external_body]
    pub(crate) fn len(&self) -> (r: usize)
        ensures
            r == bond_list_contents(*self).len(),
            r <= BOND_SLOTS,
    {
        self.inner.len()
    }

    /// Indexing a `heapless::Vec`: the entry at `i`.
    #[verifier::external_body]
    pub(crate) fn get(&self, i: usize) -> (r: &ProfileInfo)
        requires
            i < bond_list_contents(*self).len(),
        ensures
            *r == bond_list_contents(*self)[i as int],
    {
        &self.inner[i]
    }

    /// Index assignment on a `heapless::Vec`: replaces the entry at `i`.
    #[verifier::external_body]
    pub(crate) fn set(&mut self, i: usize, info: ProfileInfo)
        requires
            i < bond_list_contents(*old(self)).len(),
        ensures
            bond_list_contents(*final(self)) == bond_list_contents(*old(self)).update(i as int, info),
    {
        self.inner[i] = info;
    }

    /// `heapless::Vec::push`: appends when there is room and answers `true`,
    /// else leaves the list unchanged and answers `false` (the item is dropped).
    #[verifier::external_body]
    pub(crate) fn push(&mut self, info: ProfileInfo) -> (r: bool)
        ensures
            r <==> bond_list_contents(*old(self)).len() < BOND_SLOTS,
            r ==> bond_list_contents(*final(self)) == bond_list_contents(*old(self)).push(info),
            !r ==> bond_list_contents(*final(self)) == bond_list_contents(*old(self)),
    {
        self.inner.push(info).is_ok()
    }

    /// `heapless::Vec::clear`: removes every entry.
    #[verifier::external_body]
    pub(crate) fn clear(&mut self)
        ensures
            bond_list_contents(*final(self)) == Seq::<ProfileInfo>::empty(),
    {
        self.inner.clear()
    }
}

} // verus!
