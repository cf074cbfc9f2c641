//! BLE bond profiles: the bond record kept per slot, and the in-memory part of
//! the profile manager (which bond is active, switching, clearing, updating).
use vstd::prelude::*;

use crate::bytes::{bond_list_contents, cccd_contents, slot_list_contents, BondList, CccdTable, SlotList};
use crate::config::{BOND_SLOTS, DONGLE_SLOT_LIST_SIZE, NUM_BLE_PROFILE, NUM_DONGLE_PROFILES};
use crate::storage::StorageItem;

verus! {

// ---------------------------------------------------------------------------
// Encoded sizes
// ---------------------------------------------------------------------------

/// The largest number of bytes a 7-bits-per-byte varint needs for a value of
/// `size_bytes` bytes: `ceil(8 * size_bytes / 7)`.
pub open spec fn spec_varint_max(size_bytes: int) -> int {
    (size_bytes * 8 + 6) / 7
}

/// Returns the maximum number of bytes required to encode `T` as a varint.
pub fn varint_max<T: Sized>() -> (r: usize)
    requires
        vstd::layout::size_of::<T>() * 8 + 6 <= usize::MAX,
    ensures
        r == spec_varint_max(vstd::layout::size_of::<T>() as int),
{
    let bits_per_byte: usize = 8;
    let bits_per_varint_byte: usize = 7;
    let size = core::mem::size_of::<T>();
    // How many data bits do we need for this type?
    let bits = size * bits_per_byte;
    // Round up so that a remainder adds exactly one more byte.
    let roundup_bits = bits + (bits_per_varint_byte - 1);
    roundup_bits / bits_per_varint_byte
}

// ---------------------------------------------------------------------------
// Slots
// ---------------------------------------------------------------------------

/// True for a dedicated dongle slot: those right after the host profiles.
pub open spec fn spec_is_dongle_profile(slot: u8) -> bool {
    NUM_BLE_PROFILE <= slot < NUM_BLE_PROFILE + NUM_DONGLE_PROFILES
}

/// Returns true if the given slot number is a dongle profile slot.
pub fn is_dongle_profile(slot: u8) -> (r: bool)
    ensures
        r == spec_is_dongle_profile(slot),
{
    let start = NUM_BLE_PROFILE as u8;
    let end = start + NUM_DONGLE_PROFILES as u8;
    slot >= start && slot < end
}

// ---------------------------------------------------------------------------
// Bond records
// ---------------------------------------------------------------------------

/// Security level of a bond's key.
#[derive(Clone, Copy, Debug, PartialEq, Eq, Structural)]
pub enum SecurityLevel {
    NoEncryption,
    Encrypted,
    EncryptedAuthenticated,
}

/// Identity of a peer: its address kind and address, and its identity
/// resolving key, if it sent one (a zero key counts as none).
#[derive(Clone, Copy, Debug)]
pub struct BondIdentity {
    pub addr_kind: u8,
    pub addr: [u8; 6],
    pub irk: Option<u128>,
}

/// The key material and identity of one bond.
#[derive(Clone, Copy, Debug)]
pub struct BondInfo {
    pub ltk: u128,
    pub identity: BondIdentity,
    pub is_bonded: bool,
    pub security_level: SecurityLevel,
}

/// An identity resolving key as the BLE host keeps it: zero means none.
pub open spec fn spec_norm_irk(irk: Option<u128>) -> Option<u128> {
    match irk {
        Some(k) => if k == 0 { None } else { Some(k) },
        None => None,
    }
}

/// Address equality of the BLE host: same six bytes, and the same kind up to
/// the identity bit (a resolved public/random identity equals public/random).
pub open spec fn spec_address_eq(a: BondIdentity, b: BondIdentity) -> bool {
    a.addr@ == b.addr@ && a.addr_kind % 2 == b.addr_kind % 2
}

/// Equality of two bonds as the BLE host compares them.
pub open spec fn spec_bond_info_eq(a: BondInfo, b: BondInfo) -> bool {
    &&& a.ltk == b.ltk
    &&& spec_address_eq(a.identity, b.identity)
    &&& spec_norm_irk(a.identity.irk) == spec_norm_irk(b.identity.irk)
    &&& a.is_bonded == b.is_bonded
    &&& a.security_level == b.security_level
}

fn norm_irk(irk: Option<u128>) -> (r: Option<u128>)
    ensures
        r == spec_norm_irk(irk),
{
    match irk {
        Some(k) => if k == 0 { None } else { Some(k) },
        None => None,
    }
}

fn address_eq(a: &BondIdentity, b: &BondIdentity) -> (r: bool)
    ensures
        r == spec_address_eq(*a, *b),
{
    let same_bytes = a.addr[0] == b.addr[0] && a.addr[1] == b.addr[1] && a.addr[2] == b.addr[2]
        && a.addr[3] == b.addr[3] && a.addr[4] == b.addr[4] && a.addr[5] == b.addr[5];
    proof {
        if same_bytes {
            assert(a.addr@ =~= b.addr@);
        }
    }
    same_bytes && a.addr_kind % 2 == b.addr_kind % 2
}

impl BondInfo {
    /// Equality of two bonds as the BLE host compares them.
    pub fn same_as(&self, other: &BondInfo) -> (r: bool)
        ensures
            r == spec_bond_info_eq(*self, *other),
    {
        self.ltk == other.ltk && address_eq(&self.identity, &other.identity)
            && norm_irk(self.identity.irk) == norm_irk(other.identity.irk)
            && self.is_bonded == other.is_bonded
            && self.security_level == other.security_level
    }
}

/// What `trouble_host::Identity::match_identity` answers for two identities.
pub uninterp spec fn spec_identity_matches(a: BondIdentity, b: BondIdentity) -> bool;

/// `trouble_host::Identity::match_identity`. Its first test is address
/// equality, so equal addresses always match; whether an identity resolving
/// key resolves the other address is left to the named result.
#[verifier::external_body]
fn identity_matches(a: &BondIdentity, b: &BondIdentity) -> (r: bool)
    ensures
        r == spec_identity_matches(*a, *b),
        spec_address_eq(*a, *b) ==> r,
{
    let ia = trouble_host::Identity {
        addr: trouble_host::Address::new(trouble_host::prelude::AddrKind::new(a.addr_kind), trouble_host::prelude::BdAddr::new(a.addr)),
        irk: a.irk.and_then(trouble_host::IdentityResolvingKey::new),
    };
    let ib = trouble_host::Identity {
        addr: trouble_host::Address::new(trouble_host::prelude::AddrKind::new(b.addr_kind), trouble_host::prelude::BdAddr::new(b.addr)),
        irk: b.irk.and_then(trouble_host::IdentityResolvingKey::new),
    };
    ia.match_identity(&ib)
}

/// BLE profile info: the bond kept in one slot.
pub struct ProfileInfo {
    pub slot_num: u8,
    pub removed: bool,
    pub info: BondInfo,
    /// Raw bytes of the client attribute table for this peer.
    pub cccd_table: CccdTable,
}

/// The bond record with every field at its default: a zero public address
/// without resolving key, a zero key, not bonded, no encryption.
pub open spec fn spec_is_default_bond(b: BondInfo) -> bool {
    &&& b.ltk == 0
    &&& b.identity.addr_kind == 0
    &&& b.identity.addr@ == seq![0u8, 0u8, 0u8, 0u8, 0u8, 0u8]
    &&& b.identity.irk is None
    &&& !b.is_bonded
    &&& b.security_level == SecurityLevel::NoEncryption
}

impl ProfileInfo {
    /// The default profile: slot 0, not removed, an empty default bond.
    pub fn default() -> (r: ProfileInfo)
        ensures
            r.slot_num == 0,
            !r.removed,
            spec_is_default_bond(r.info),
            r.cccd_table@ == Seq::<u8>::empty(),
    {
        let addr = [0u8; 6];
        assert(addr@ =~= seq![0u8, 0u8, 0u8, 0u8, 0u8, 0u8]);
        ProfileInfo {
            slot_num: 0,
            removed: false,
            info: BondInfo {
                ltk: 0,
                identity: BondIdentity { addr_kind: 0, addr, irk: None },
                is_bonded: false,
                security_level: SecurityLevel::NoEncryption,
            },
            cccd_table: CccdTable::new(),
        }
    }

    /// A copy of this profile.
    pub fn duplicate(&self) -> (r: ProfileInfo)
        ensures
            r@ == self@,
    {
        ProfileInfo {
            slot_num: self.slot_num,
            removed: self.removed,
            info: self.info,
            cccd_table: self.cccd_table.duplicate(),
        }
    }
}

/// A bond profile as values.
#[verifier::ext_equal]
pub struct ProfileView {
    pub slot_num: u8,
    pub removed: bool,
    pub info: BondInfo,
    pub cccd_table: Seq<u8>,
}

impl View for ProfileInfo {
    type V = ProfileView;

    open spec fn view(&self) -> ProfileView {
        ProfileView {
            slot_num: self.slot_num,
            removed: self.removed,
            info: self.info,
            cccd_table: cccd_contents(self.cccd_table),
        }
    }
}

/// True when two byte slices hold the same bytes.
fn bytes_eq(a: &[u8], b: &[u8]) -> (r: bool)
    ensures
        r == (a@ == b@),
{
    if a.len() != b.len() {
        return false;
    }
    let n = a.len();
    for i in 0..n
        invariant
            n == a@.len(),
            n == b@.len(),
            forall|j: int| 0 <= j < i ==> a@[j] == b@[j],
    {
        if a[i] != b[i] {
            return false;
        }
    }
    assert(a@ =~= b@);
    true
}

// ---------------------------------------------------------------------------
// Profile cycling
// ---------------------------------------------------------------------------

/// The profile before `current`, wrapping from the first host profile (or
/// any dongle slot) to the last host profile.
pub open spec fn spec_previous_profile(current: u8) -> u8 {
    if current == 0 || current >= NUM_BLE_PROFILE {
        (NUM_BLE_PROFILE - 1) as u8
    } else {
        (current - 1) as u8
    }
}

/// The profile after `current`, wrapping from the last host profile (or any
/// dongle slot) to the first.
pub open spec fn spec_next_profile(current: u8) -> u8 {
    if current >= NUM_BLE_PROFILE - 1 {
        0
    } else {
        (current + 1) as u8
    }
}

/// The profile before `current` among the host profiles.
pub fn previous_profile(current: u8) -> (r: u8)
    ensures
        r == spec_previous_profile(current),
        r < NUM_BLE_PROFILE,
{
    if current == 0 || current >= NUM_BLE_PROFILE as u8 {
        NUM_BLE_PROFILE as u8 - 1
    } else {
        current - 1
    }
}

/// The profile after `current` among the host profiles.
pub fn next_profile(current: u8) -> (r: u8)
    ensures
        r == spec_next_profile(current),
        r < NUM_BLE_PROFILE,
{
    if current >= NUM_BLE_PROFILE as u8 - 1 {
        0
    } else {
        current + 1
    }
}

/// Cycling through the host profiles: going to the next profile and back, or
/// back and then forward, returns to the profile one started from; and from
/// any slot (a dongle slot too) both land on a host profile, never on a
/// dongle slot.
pub proof fn lemma_profile_cycle(p: u8)
    ensures
        spec_previous_profile(p) < NUM_BLE_PROFILE,
        spec_next_profile(p) < NUM_BLE_PROFILE,
        p < NUM_BLE_PROFILE ==> spec_previous_profile(spec_next_profile(p)) == p,
        p < NUM_BLE_PROFILE ==> spec_next_profile(spec_previous_profile(p)) == p,
        !spec_is_dongle_profile(spec_previous_profile(p)),
        !spec_is_dongle_profile(spec_next_profile(p)),
{
}

// ---------------------------------------------------------------------------
// The profile manager
// ---------------------------------------------------------------------------

/// A BLE profile switch action.
#[derive(Clone, Copy, Debug, PartialEq, Eq, Structural)]
pub enum BleProfileAction {
    /// Switch to the given profile.
    Switch(u8),
    /// Switch to the previous host profile.
    Previous,
    /// Switch to the next host profile.
    Next,
    /// Clear the bond of the active profile.
    ClearBond,
    /// Clear the bond of the given slot, whichever is active.
    ClearSlot(u8),
}

/// True when `p` is a bond in use for `slot`.
pub open spec fn spec_live(p: ProfileView, slot: u8) -> bool {
    !p.removed && p.slot_num == slot
}

/// The first position from `i` on holding a bond in use for `slot`.
pub open spec fn spec_first_live_from(s: Seq<ProfileView>, slot: u8, i: nat) -> Option<int>
    decreases s.len() - i,
{
    if i >= s.len() {
        None
    } else if spec_live(s[i as int], slot) {
        Some(i as int)
    } else {
        spec_first_live_from(s, slot, i + 1)
    }
}

/// The first position from `i` on holding any record for `slot`.
pub open spec fn spec_first_slot_from(s: Seq<ProfileView>, slot: u8, i: nat) -> Option<int>
    decreases s.len() - i,
{
    if i >= s.len() {
        None
    } else if s[i as int].slot_num == slot {
        Some(i as int)
    } else {
        spec_first_slot_from(s, slot, i + 1)
    }
}

proof fn lemma_first_live_from(s: Seq<ProfileView>, slot: u8, i: nat)
    ensures
        spec_first_live_from(s, slot, i) matches Some(j) ==> i <= j < s.len() && spec_live(s[j], slot),
        spec_first_live_from(s, slot, i) is None ==> forall|j: int| i <= j < s.len() ==> !spec_live(s[j], slot),
    decreases s.len() - i,
{
    if i < s.len() {
        lemma_first_live_from(s, slot, i + 1);
    }
}

proof fn lemma_first_slot_from(s: Seq<ProfileView>, slot: u8, i: nat)
    ensures
        spec_first_slot_from(s, slot, i) matches Some(j) ==> i <= j < s.len() && s[j].slot_num == slot,
        spec_first_slot_from(s, slot, i) is None ==> forall|j: int| i <= j < s.len() ==> s[j].slot_num != slot,
    decreases s.len() - i,
{
    if i < s.len() {
        lemma_first_slot_from(s, slot, i + 1);
    }
}

/// The slots of the dongle bonds in use, in list order.
pub open spec fn spec_dongle_slots(s: Seq<ProfileView>) -> Seq<u8>
    decreases s.len(),
{
    if s.len() == 0 {
        Seq::empty()
    } else {
        let last = s.last();
        if !last.removed && spec_is_dongle_profile(last.slot_num) {
            spec_dongle_slots(s.drop_last()).push(last.slot_num)
        } else {
            spec_dongle_slots(s.drop_last())
        }
    }
}

proof fn lemma_dongle_slots_len(s: Seq<ProfileView>)
    ensures
        spec_dongle_slots(s).len() <= s.len(),
        forall|i: int| 0 <= i < spec_dongle_slots(s).len() ==> spec_is_dongle_profile(#[trigger] spec_dongle_slots(s)[i]),
        forall|i: int| #![trigger spec_dongle_slots(s)[i]] 0 <= i < spec_dongle_slots(s).len() ==> exists|j: int|
            0 <= j < s.len() && !s[j].removed && s[j].slot_num == spec_dongle_slots(s)[i],
    decreases s.len(),
{
    if s.len() > 0 {
        lemma_dongle_slots_len(s.drop_last());
        let d = spec_dongle_slots(s);
        let p = spec_dongle_slots(s.drop_last());
        assert forall|i: int| #![trigger d[i]] 0 <= i < d.len() implies exists|j: int|
            0 <= j < s.len() && !s[j].removed && s[j].slot_num == d[i] by {
            if i < p.len() {
                assert(d[i] == p[i]);
                let j = choose|j: int| 0 <= j < s.drop_last().len() && !s.drop_last()[j].removed && s.drop_last()[j].slot_num == p[i];
                assert(s[j] == s.drop_last()[j]);
            } else {
                assert(s[s.len() - 1] == s.last());
            }
        }
    }
}

/// The first position of `x` in `s`.
pub open spec fn spec_position_from(s: Seq<u8>, x: u8, i: nat) -> Option<int>
    decreases s.len() - i,
{
    if i >= s.len() {
        None
    } else if s[i as int] == x {
        Some(i as int)
    } else {
        spec_position_from(s, x, i + 1)
    }
}

proof fn lemma_position_from(s: Seq<u8>, x: u8, i: nat)
    ensures
        spec_position_from(s, x, i) matches Some(j) ==> i <= j < s.len() && s[j] == x && forall|k: int|
            i <= k < j ==> s[k] != x,
        spec_position_from(s, x, i) is None ==> forall|k: int| i <= k < s.len() ==> s[k] != x,
    decreases s.len() - i,
{
    if i < s.len() {
        lemma_position_from(s, x, i + 1);
    }
}

/// The bonded dongle slot to try after `current` during auto-reconnect: none
/// with fewer than two dongle bonds; the slot after `current` in list order
/// (wrapping), or the first one if `current` has no dongle bond.
pub open spec fn spec_next_dongle_slot(slots: Seq<u8>, current: u8) -> Option<u8> {
    if slots.len() <= 1 {
        None
    } else {
        match spec_position_from(slots, current, 0) {
            Some(pos) => Some(slots[(pos + 1) % (slots.len() as int)]),
            None => Some(slots[0]),
        }
    }
}

/// Manages the bonded BLE profiles: which bond belongs to which slot, and
/// which profile is active.
pub struct ProfileManager {
    bonded_devices: BondList,
    active_profile: u8,
}

impl ProfileManager {
    /// The bonds in the cache, in order.
    pub closed spec fn bonds(&self) -> Seq<ProfileView> {
        bond_list_contents(self.bonded_devices).map_values(|p: ProfileInfo| p@)
    }

    /// The active profile.
    pub closed spec fn spec_active(&self) -> u8 {
        self.active_profile
    }

    /// A manager with no bonds and profile 0 active.
    pub fn new() -> (r: ProfileManager)
        ensures
            r.bonds() == Seq::<ProfileView>::empty(),
            r.spec_active() == 0,
    {
        let r = ProfileManager { bonded_devices: BondList::new(), active_profile: 0 };
        assert(r.bonds() =~= Seq::<ProfileView>::empty());
        r
    }

    /// The active profile.
    pub fn active_profile(&self) -> (r: u8)
        ensures
            r == self.spec_active(),
    {
        self.active_profile
    }

    /// The bond of the active profile: the first bond in use for its slot.
    pub fn active_bond_info(&self) -> (r: Option<ProfileInfo>)
        ensures
            match spec_first_live_from(self.bonds(), self.spec_active(), 0) {
                Some(i) => r matches Some(p) && p@ == self.bonds()[i],
                None => r is None,
            },
    {
        let ghost s = self.bonds();
        let n = self.bonded_devices.len();
        let mut i: usize = 0;
        while i < n
            invariant
                n == s.len(),
                s == self.bonds(),
                i <= n,
                spec_first_live_from(s, self.active_profile, 0) == spec_first_live_from(s, self.active_profile, i as nat),
            decreases n - i,
        {
            let p = self.bonded_devices.get(i);
            assert(s[i as int] == p@);
            if !p.removed && p.slot_num == self.active_profile {
                return Some(p.duplicate());
            }
            i += 1;
        }
        None
    }

    /// The bond the BLE stack should hold: the active profile's, if any.
    pub fn bond_to_install(&self) -> (r: Option<BondInfo>)
        ensures
            match spec_first_live_from(self.bonds(), self.spec_active(), 0) {
                Some(i) => r == Some(self.bonds()[i].info),
                None => r is None,
            },
    {
        match self.active_bond_info() {
            Some(p) => Some(p.info),
            None => None,
        }
    }

    /// True if `identity` is the identity of a bonded dongle (in any dongle
    /// slot), so that searching for a host skips it.
    pub fn is_bonded_dongle(&self, identity: &BondIdentity) -> (r: bool)
        ensures
            r == exists|i: int|
                0 <= i < self.bonds().len() && !self.bonds()[i].removed && spec_is_dongle_profile(
                    self.bonds()[i].slot_num,
                ) && spec_identity_matches(#[trigger] self.bonds()[i].info.identity, *identity),
    {
        let ghost s = self.bonds();
        let n = self.bonded_devices.len();
        for i in 0..n
            invariant
                n == s.len(),
                s == self.bonds(),
                forall|j: int|
                    0 <= j < i ==> !(!s[j].removed && spec_is_dongle_profile(s[j].slot_num) && spec_identity_matches(
                        #[trigger] s[j].info.identity,
                        *identity,
                    )),
        {
            let p = self.bonded_devices.get(i);
            assert(s[i as int] == p@);
            if !p.removed && is_dongle_profile(p.slot_num) && identity_matches(&p.info.identity, identity) {
                assert(spec_identity_matches(self.bonds()[i as int].info.identity, *identity));
                return true;
            }
        }
        false
    }

    /// The slots that hold a dongle bond in use, in list order.
    pub fn bonded_dongle_slots(&self) -> (r: SlotList)
        ensures
            slot_list_contents(r) == spec_dongle_slots(self.bonds()),
    {
        let ghost s = self.bonds();
        let mut slots = SlotList::new();
        let n = self.bonded_devices.len();
        for i in 0..n
            invariant
                n == s.len(),
                s == self.bonds(),
                n <= BOND_SLOTS,
                slot_list_contents(slots) == spec_dongle_slots(s.take(i as int)),
        {
            let p = self.bonded_devices.get(i);
            proof {
                assert(s[i as int] == p@);
                assert(s.take(i + 1).drop_last() =~= s.take(i as int));
                assert(s.take(i + 1).last() == s[i as int]);
                lemma_dongle_slots_len(s.take(i as int));
            }
            if !p.removed && is_dongle_profile(p.slot_num) {
                let _ = slots.push(p.slot_num);
            }
        }
        assert(s.take(n as int) =~= s);
        slots
    }

    /// The next bonded dongle slot to alternate with during auto-reconnect.
    pub fn next_bonded_dongle_slot(&self, current_slot: u8) -> (r: Option<u8>)
        ensures
            r == spec_next_dongle_slot(spec_dongle_slots(self.bonds()), current_slot),
    {
        let bonded = self.bonded_dongle_slots();
        let slots = bonded.as_slice();
        let ghost d = spec_dongle_slots(self.bonds());
        let n = slots.len();
        if n <= 1 {
            return None;
        }
        let mut pos: usize = 0;
        while pos < n
            invariant
                n == d.len(),
                n > 1,
                d == spec_dongle_slots(self.bonds()),
                slots@ == d,
                pos <= n,
                spec_position_from(d, current_slot, 0) == spec_position_from(d, current_slot, pos as nat),
            decreases n - pos,
        {
            if slots[pos] == current_slot {
                assert(spec_position_from(d, current_slot, pos as nat) == Some(pos as int));
                let next_pos = (pos + 1) % n;
                return Some(slots[next_pos]);
            }
            pos += 1;
        }
        Some(slots[0])
    }
}

/// A profile with its client attribute table replaced.
pub open spec fn spec_with_table(p: ProfileView, table: Seq<u8>) -> ProfileView {
    ProfileView { cccd_table: table, ..p }
}

/// The bond cache after recording `p`: the first record for its slot is
/// replaced (unless it already holds an equal bond), or `p` is appended when
/// there is no record for the slot and the cache has room.
pub open spec fn spec_add_profile(s: Seq<ProfileView>, p: ProfileView) -> Seq<ProfileView> {
    match spec_first_slot_from(s, p.slot_num, 0) {
        Some(i) => if spec_bond_info_eq(s[i].info, p.info) {
            s
        } else {
            s.update(i, p)
        },
        None => if s.len() < BOND_SLOTS {
            s.push(p)
        } else {
            s
        },
    }
}

/// True when recording `p` changes nothing: the first record for its slot
/// already holds an equal bond.
pub open spec fn spec_add_is_noop(s: Seq<ProfileView>, p: ProfileView) -> bool {
    spec_first_slot_from(s, p.slot_num, 0) matches Some(i) && spec_bond_info_eq(s[i].info, p.info)
}

/// The bond cache after clearing `slot`: every record for it is marked removed.
pub open spec fn spec_clear_slot(s: Seq<ProfileView>, slot: u8) -> Seq<ProfileView> {
    Seq::new(
        s.len(),
        |j: int|
            if s[j].slot_num == slot {
                ProfileView { removed: true, ..s[j] }
            } else {
                s[j]
            },
    )
}

/// The bond cache loaded from storage: every stored bond that is not marked
/// removed, in slot order.
pub open spec fn spec_loaded(stored: Seq<Option<ProfileView>>) -> Seq<ProfileView>
    decreases stored.len(),
{
    if stored.len() == 0 {
        Seq::empty()
    } else {
        let rest = spec_loaded(stored.drop_last());
        match stored.last() {
            Some(p) => if !p.removed {
                rest.push(p)
            } else {
                rest
            },
            None => rest,
        }
    }
}

proof fn lemma_loaded_len(stored: Seq<Option<ProfileView>>)
    ensures
        spec_loaded(stored).len() <= stored.len(),
    decreases stored.len(),
{
    if stored.len() > 0 {
        lemma_loaded_len(stored.drop_last());
    }
}

/// The view of a list of optional profiles.
pub open spec fn spec_stored_views(stored: Seq<Option<ProfileInfo>>) -> Seq<Option<ProfileView>> {
    stored.map_values(
        |o: Option<ProfileInfo>|
            match o {
                Some(p) => Some(p@),
                None => None,
            },
    )
}

/// What the profile task does after handling one action.
pub struct ProfileStep {
    /// The action is handled and the task returns; `false` means a switch to
    /// the already active profile, which waits for the next event.
    pub done: bool,
    /// The BLE stack's bonds must be reinstalled from `bond_to_install`.
    pub update_stack: bool,
    /// The item to persist, if any.
    pub item: Option<StorageItem>,
}

impl ProfileManager {
    /// The position of the first record for `slot`.
    fn position_of_slot(&self, slot: u8) -> (r: Option<usize>)
        ensures
            r matches Some(j) ==> spec_first_slot_from(self.bonds(), slot, 0) == Some(j as int) && j
                < self.bonds().len(),
            r is None ==> spec_first_slot_from(self.bonds(), slot, 0) is None,
    {
        let ghost s = self.bonds();
        let n = self.bonded_devices.len();
        let mut i: usize = 0;
        while i < n
            invariant
                n == s.len(),
                s == self.bonds(),
                i <= n,
                spec_first_slot_from(s, slot, 0) == spec_first_slot_from(s, slot, i as nat),
            decreases n - i,
        {
            if self.bonded_devices.get(i).slot_num == slot {
                assert(spec_first_slot_from(s, slot, i as nat) == Some(i as int));
                return Some(i);
            }
            i += 1;
        }
        None
    }

    /// Replaces the cache with the bonds loaded from storage, skipping those
    /// marked removed, and activates the stored active profile (0 if none).
    pub fn load_bonded_devices(&mut self, stored: &Vec<Option<ProfileInfo>>, active: Option<u8>)
        requires
            stored@.len() <= BOND_SLOTS,
        ensures
            final(self).bonds() == spec_loaded(spec_stored_views(stored@)),
            final(self).spec_active() == match active {
                Some(p) => p,
                None => 0u8,
            },
    {
        self.bonded_devices.clear();
        let ghost sv = spec_stored_views(stored@);
        let n = stored.len();
        for i in 0..n
            invariant
                n == stored@.len(),
                n <= BOND_SLOTS,
                sv == spec_stored_views(stored@),
                self.bonds() == spec_loaded(sv.take(i as int)),
        {
            proof {
                assert(sv.take(i + 1).drop_last() =~= sv.take(i as int));
                assert(sv.take(i + 1).last() == sv[i as int]);
                lemma_loaded_len(sv.take(i as int));
            }
            match &stored[i] {
                Some(info) => {
                    if !info.removed {
                        let ghost before = bond_list_contents(self.bonded_devices);
                        let _ = self.bonded_devices.push(info.duplicate());
                        proof {
                            assert(self.bonds() =~= before.map_values(|p: ProfileInfo| p@).push(info@));
                        }
                    }
                },
                None => {},
            }
        }
        assert(sv.take(n as int) =~= sv);
        self.active_profile = match active {
            Some(p) => p,
            None => 0,
        };
    }

    /// Records the bond `profile_info` for its slot. Nothing changes when the
    /// first record for that slot already holds an equal bond; else the
    /// record is replaced, or appended if the slot has none (and the cache has
    /// room). Answers the item to persist, `None` when nothing changed; the
    /// stack's bonds are to be reinstalled whenever an item is answered.
    pub fn add_profile_info(&mut self, profile_info: ProfileInfo) -> (r: Option<StorageItem>)
        ensures
            final(self).bonds() == spec_add_profile(old(self).bonds(), profile_info@),
            final(self).spec_active() == old(self).spec_active(),
            spec_add_is_noop(old(self).bonds(), profile_info@) ==> r is None,
            !spec_add_is_noop(old(self).bonds(), profile_info@) ==> r == Some(StorageItem::BondInfo(profile_info)),
    {
        let ghost s = self.bonds();
        let slot = profile_info.slot_num;
        let n = self.bonded_devices.len();
        let found = self.position_of_slot(slot);
        if let Some(i) = found {
            proof {
                lemma_first_slot_from(s, slot, 0);
            }
            if self.bonded_devices.get(i).info.same_as(&profile_info.info) {
                return None;
            }
            self.bonded_devices.set(i, profile_info.duplicate());
            proof {
                assert(self.bonds() =~= s.update(i as int, profile_info@));
            }
        } else {
            let pushed = self.bonded_devices.push(profile_info.duplicate());
            proof {
                if pushed {
                    assert(self.bonds() =~= s.push(profile_info@));
                } else {
                    assert(self.bonds() =~= s);
                }
            }
        }
        Some(StorageItem::BondInfo(profile_info))
    }

    /// Replaces the client attribute table of the active profile's record
    /// (the first record for its slot). Answers the updated record to persist;
    /// `None` when the table is unchanged or the profile has no record.
    pub fn update_profile_cccd_table(&mut self, table: CccdTable) -> (r: Option<StorageItem>)
        ensures
            final(self).spec_active() == old(self).spec_active(),
            match spec_first_slot_from(old(self).bonds(), old(self).spec_active(), 0) {
                Some(i) => if old(self).bonds()[i].cccd_table == cccd_contents(table) {
                    final(self).bonds() == old(self).bonds() && r is None
                } else {
                    &&& final(self).bonds() == old(self).bonds().update(
                        i,
                        spec_with_table(old(self).bonds()[i], cccd_contents(table)),
                    )
                    &&& r matches Some(StorageItem::BondInfo(p)) && p@ == final(self).bonds()[i]
                },
                None => final(self).bonds() == old(self).bonds() && r is None,
            },
    {
        let ghost s = self.bonds();
        let active = self.active_profile;
        let i = match self.position_of_slot(active) {
            Some(i) => i,
            None => return None,
        };
        proof {
            lemma_first_slot_from(s, active, 0);
        }
        let current = self.bonded_devices.get(i);
        assert(s[i as int] == current@);
        if bytes_eq(current.cccd_table.as_slice(), table.as_slice()) {
            assert(s[i as int].cccd_table == cccd_contents(table));
            return None;
        }
        assert(s[i as int].cccd_table != cccd_contents(table));
        let updated = ProfileInfo {
            slot_num: current.slot_num,
            removed: current.removed,
            info: current.info,
            cccd_table: table,
        };
        let stored = updated.duplicate();
        self.bonded_devices.set(i, updated);
        proof {
            assert(self.bonds() =~= s.update(i as int, spec_with_table(s[i as int], cccd_contents(table))));
            assert(s == old(self).bonds());
        }
        Some(StorageItem::BondInfo(stored))
    }

    /// Marks every record for `slot` removed. Answers the removal record to
    /// persist (the default record for that slot, marked removed); the stack's
    /// bonds are to be reinstalled.
    pub fn clear_bond(&mut self, slot_num: u8) -> (r: StorageItem)
        ensures
            final(self).bonds() == spec_clear_slot(old(self).bonds(), slot_num),
            final(self).spec_active() == old(self).spec_active(),
            r matches StorageItem::BondInfo(p) && p.slot_num == slot_num && p.removed && spec_is_default_bond(p.info)
                && p@.cccd_table == Seq::<u8>::empty(),
    {
        let ghost s = self.bonds();
        let n = self.bonded_devices.len();
        for i in 0..n
            invariant
                n == s.len(),
                n == self.bonds().len(),
                forall|j: int| 0 <= j < i ==> self.bonds()[j] == spec_clear_slot(s, slot_num)[j],
                forall|j: int| i <= j < n ==> self.bonds()[j] == s[j],
                self.spec_active() == old(self).spec_active(),
                s == old(self).bonds(),
        {
            let current = self.bonded_devices.get(i);
            if current.slot_num == slot_num {
                let ghost before = self.bonds();
                let mut updated = current.duplicate();
                updated.removed = true;
                self.bonded_devices.set(i, updated);
                proof {
                    assert(self.bonds() =~= before.update(i as int, ProfileView { removed: true, ..s[i as int] }));
                }
            }
        }
        assert(self.bonds() =~= spec_clear_slot(s, slot_num));
        let mut record = ProfileInfo::default();
        record.slot_num = slot_num;
        record.removed = true;
        StorageItem::BondInfo(record)
    }

    /// Switches to `profile`. Answers the item to persist, `None` when it is
    /// already active; on a switch the stack's bonds are to be reinstalled.
    pub fn switch_profile(&mut self, profile: u8) -> (r: Option<StorageItem>)
        ensures
            final(self).bonds() == old(self).bonds(),
            final(self).spec_active() == profile,
            profile == old(self).spec_active() ==> r is None,
            profile != old(self).spec_active() ==> r == Some(StorageItem::ActiveBleProfile(profile)),
    {
        if profile == self.active_profile {
            return None;
        }
        self.active_profile = profile;
        Some(StorageItem::ActiveBleProfile(profile))
    }

    /// Handles one profile action.
    pub fn handle_action(&mut self, action: BleProfileAction) -> (r: ProfileStep)
        ensures
            match action {
                BleProfileAction::Switch(p) => {
                    &&& final(self).bonds() == old(self).bonds()
                    &&& final(self).spec_active() == p
                    &&& r.done == (p != old(self).spec_active())
                    &&& r.update_stack == r.done
                    &&& (r.done ==> r.item == Some(StorageItem::ActiveBleProfile(p)))
                    &&& (!r.done ==> r.item is None)
                },
                BleProfileAction::Previous | BleProfileAction::Next => {
                    let t = if action is Previous {
                        spec_previous_profile(old(self).spec_active())
                    } else {
                        spec_next_profile(old(self).spec_active())
                    };
                    &&& final(self).bonds() == old(self).bonds()
                    &&& final(self).spec_active() == t
                    &&& r.done
                    &&& r.update_stack == (t != old(self).spec_active())
                    &&& (t != old(self).spec_active() ==> r.item == Some(StorageItem::ActiveBleProfile(t)))
                    &&& (t == old(self).spec_active() ==> r.item is None)
                },
                BleProfileAction::ClearBond | BleProfileAction::ClearSlot(_) => {
                    let slot = if let BleProfileAction::ClearSlot(s) = action {
                        s
                    } else {
                        old(self).spec_active()
                    };
                    &&& final(self).bonds() == spec_clear_slot(old(self).bonds(), slot)
                    &&& final(self).spec_active() == old(self).spec_active()
                    &&& r.done && r.update_stack
                    &&& r.item matches Some(StorageItem::BondInfo(p)) && p.slot_num == slot && p.removed
                        && spec_is_default_bond(p.info) && p@.cccd_table == Seq::<u8>::empty()
                },
            },
    {
        match action {
            BleProfileAction::Switch(profile) => {
                match self.switch_profile(profile) {
                    Some(item) => ProfileStep { done: true, update_stack: true, item: Some(item) },
                    // The profile is already active: keep waiting.
                    None => ProfileStep { done: false, update_stack: false, item: None },
                }
            },
            BleProfileAction::Previous => {
                let profile = previous_profile(self.active_profile);
                let item = self.switch_profile(profile);
                let update_stack = item.is_some();
                ProfileStep { done: true, update_stack, item }
            },
            BleProfileAction::Next => {
                let profile = next_profile(self.active_profile);
                let item = self.switch_profile(profile);
                let update_stack = item.is_some();
                ProfileStep { done: true, update_stack, item }
            },
            BleProfileAction::ClearBond => {
                let active = self.active_profile;
                let item = self.clear_bond(active);
                ProfileStep { done: true, update_stack: true, item: Some(item) }
            },
            BleProfileAction::ClearSlot(slot) => {
                let item = self.clear_bond(slot);
                ProfileStep { done: true, update_stack: true, item: Some(item) }
            },
        }
    }
}

// ---------------------------------------------------------------------------
// Laws of the bond cache
// ---------------------------------------------------------------------------

proof fn lemma_first_live_skips(s: Seq<ProfileView>, slot: u8, k: nat, m: nat)
    requires
        k <= m <= s.len(),
        forall|j: int| k <= j < m ==> !spec_live(s[j], slot),
    ensures
        spec_first_live_from(s, slot, k) == spec_first_live_from(s, slot, m),
    decreases m - k,
{
    if k < m {
        lemma_first_live_skips(s, slot, k + 1, m);
    }
}

/// A bond recorded for the active slot becomes the active bond: after
/// recording a bond in use for `slot`, the first bond in use for `slot` holds
/// an equal bond. (Excluded: a full cache without a record for the slot, and a
/// removed record holding an equal bond, which recording leaves removed.)
pub proof fn lemma_recorded_bond_is_active(s: Seq<ProfileView>, p: ProfileView)
    requires
        !p.removed,
        spec_first_slot_from(s, p.slot_num, 0) is None ==> s.len() < BOND_SLOTS,
        spec_first_slot_from(s, p.slot_num, 0) matches Some(i) ==> !(s[i].removed && spec_bond_info_eq(
            s[i].info,
            p.info,
        )),
    ensures
        spec_first_live_from(spec_add_profile(s, p), p.slot_num, 0) matches Some(i) && spec_bond_info_eq(
            spec_add_profile(s, p)[i].info,
            p.info,
        ),
{
    let slot = p.slot_num;
    let r = spec_add_profile(s, p);
    lemma_first_slot_from(s, slot, 0);
    match spec_first_slot_from(s, slot, 0) {
        Some(i) => {
            assert forall|j: int| 0 <= j < i implies !spec_live(r[j], slot) by {
                if s[j].slot_num == slot {
                    lemma_first_slot_before(s, slot, 0, j);
                }
            }
            lemma_first_live_skips(r, slot, 0, i as nat);
            assert(spec_live(r[i], slot));
        },
        None => {
            assert(r == s.push(p));
            assert forall|j: int| 0 <= j < s.len() implies !spec_live(r[j], slot) by {
                assert(r[j] == s[j]);
            }
            lemma_first_live_skips(r, slot, 0, s.len());
            assert(r[s.len() as int] == p);
        },
    }
}

proof fn lemma_first_slot_before(s: Seq<ProfileView>, slot: u8, k: nat, j: int)
    requires
        k <= j < s.len(),
        s[j].slot_num == slot,
    ensures
        spec_first_slot_from(s, slot, k) matches Some(i) && i <= j,
    decreases j - k,
{
    if s[k as int].slot_num != slot {
        lemma_first_slot_before(s, slot, k + 1, j);
    }
}

/// After clearing a slot no bond is in use for it: the slot has no active
/// bond, and it is no longer listed among the bonded dongle slots.
pub proof fn lemma_cleared_slot_has_no_bond(s: Seq<ProfileView>, slot: u8)
    ensures
        spec_first_live_from(spec_clear_slot(s, slot), slot, 0) is None,
        !spec_dongle_slots(spec_clear_slot(s, slot)).contains(slot),
{
    let r = spec_clear_slot(s, slot);
    lemma_first_live_from(r, slot, 0);
    lemma_dongle_slots_len(r);
    if spec_dongle_slots(r).contains(slot) {
        let i = choose|i: int| 0 <= i < spec_dongle_slots(r).len() && spec_dongle_slots(r)[i] == slot;
        assert(spec_dongle_slots(r)[i] == slot);
    }
}

/// Recording a bond touches no other slot: every record for another slot
/// keeps its position and contents, and records are only ever added.
pub proof fn lemma_recording_keeps_other_slots(s: Seq<ProfileView>, p: ProfileView)
    ensures
        spec_add_profile(s, p).len() >= s.len(),
        forall|i: int| 0 <= i < s.len() && s[i].slot_num != p.slot_num ==> #[trigger] spec_add_profile(s, p)[i] == s[i],
{
    lemma_first_slot_from(s, p.slot_num, 0);
}

proof fn lemma_dongle_slot_kept(s: Seq<ProfileView>, slot: u8, d: u8)
    requires
        d != slot,
        spec_dongle_slots(s).contains(d),
    ensures
        spec_dongle_slots(spec_clear_slot(s, slot)).contains(d),
    decreases s.len(),
{
    let r = spec_clear_slot(s, slot);
    let prev = s.drop_last();
    assert(r.drop_last() =~= spec_clear_slot(prev, slot));
    let last = s.last();
    let rl = r.last();
    if !last.removed && spec_is_dongle_profile(last.slot_num) && last.slot_num == d {
        assert(rl == last);
        assert(spec_dongle_slots(r) == spec_dongle_slots(r.drop_last()).push(d));
        assert(spec_dongle_slots(r).last() == d);
    } else {
        assert(spec_dongle_slots(s) =~= spec_dongle_slots(prev) || spec_dongle_slots(s) =~= spec_dongle_slots(prev).push(
            last.slot_num,
        ));
        if spec_dongle_slots(s) =~= spec_dongle_slots(prev).push(last.slot_num) {
            let i = choose|i: int| 0 <= i < spec_dongle_slots(s).len() && spec_dongle_slots(s)[i] == d;
            assert(i < spec_dongle_slots(prev).len());
            assert(spec_dongle_slots(prev)[i] == d);
        }
        assert(spec_dongle_slots(prev).contains(d));
        lemma_dongle_slot_kept(prev, slot, d);
        let dp = spec_dongle_slots(r.drop_last());
        let j = choose|j: int| 0 <= j < dp.len() && dp[j] == d;
        if !rl.removed && spec_is_dongle_profile(rl.slot_num) {
            assert(spec_dongle_slots(r) == dp.push(rl.slot_num));
            assert(spec_dongle_slots(r)[j] == d);
        } else {
            assert(spec_dongle_slots(r) == dp);
        }
    }
}

/// Clearing a slot touches only that slot's records: each record for it is
/// marked removed and keeps everything else, and every record for another
/// slot (the other dongle's bond, a host bond) stays exactly as it was; the
/// cache keeps its length and order. So clearing one dongle leaves the other
/// dongle bonded.
pub proof fn lemma_clear_touches_only_its_slot(s: Seq<ProfileView>, slot: u8)
    ensures
        spec_clear_slot(s, slot).len() == s.len(),
        forall|j: int| 0 <= j < s.len() && s[j].slot_num != slot ==> #[trigger] spec_clear_slot(s, slot)[j] == s[j],
        forall|j: int|
            0 <= j < s.len() && s[j].slot_num == slot ==> {
                let r = #[trigger] spec_clear_slot(s, slot)[j];
                &&& r.removed
                &&& r.slot_num == s[j].slot_num
                &&& r.info == s[j].info
                &&& r.cccd_table == s[j].cccd_table
            },
        forall|d: u8| d != slot && spec_dongle_slots(s).contains(d) ==> spec_dongle_slots(spec_clear_slot(s, slot)).contains(d),
{
    let r = spec_clear_slot(s, slot);
    assert forall|d: u8| d != slot && spec_dongle_slots(s).contains(d) implies spec_dongle_slots(r).contains(d) by {
        lemma_dongle_slot_kept(s, slot, d);
    }
}

/// Auto-reconnect rotation: with two or more bonded dongle slots the next
/// slot is one of them; with fewer there is none; and when the slots are
/// distinct and `current` is one of them, the next slot is another one.
pub proof fn lemma_next_dongle_slot_rotates(slots: Seq<u8>, current: u8)
    ensures
        slots.len() <= 1 ==> spec_next_dongle_slot(slots, current) is None,
        slots.len() >= 2 ==> (spec_next_dongle_slot(slots, current) matches Some(x) && slots.contains(x)),
        slots.len() >= 2 && slots.no_duplicates() && slots.contains(current) ==> spec_next_dongle_slot(
            slots,
            current,
        ) != Some(current),
{
    lemma_position_from(slots, current, 0);
    if slots.len() >= 2 {
        match spec_position_from(slots, current, 0) {
            Some(pos) => {
                let n = slots.len() as int;
                let k = (pos + 1) % n;
                vstd::arithmetic::div_mod::lemma_mod_pos_bound(pos + 1, n);
                assert(slots[k] == slots[k]);
                if pos + 1 < n {
                    vstd::arithmetic::div_mod::lemma_small_mod((pos + 1) as nat, n as nat);
                } else {
                    vstd::arithmetic::div_mod::lemma_mod_self_0(n);
                }
                assert(k != pos);
            },
            None => {
                assert(slots[0] == slots[0]);
            },
        }
    }
}

} // verus!
