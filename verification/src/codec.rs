//! The on-flash framing of a storage key: its tag as an unsigned LEB128 varint
//! (one byte for every tag in use), then each `u8` field as one byte.
use vstd::prelude::*;

use crate::storage::{spec_key_tag, StorageKey};

verus! {

/// Why a key could not be framed or read back.
#[derive(Clone, Copy, Debug, PartialEq, Eq, Structural)]
pub enum KeyCodecError {
    /// The buffer is too small for the framed key.
    BufferTooSmall,
    /// The bytes do not frame a key.
    InvalidFormat,
}

/// The fields of a key, one byte each, in declaration order.
pub open spec fn spec_key_fields(k: StorageKey) -> Seq<u8> {
    match k {
        StorageKey::Keymap { layer, row, col } => seq![layer, row, col],
        StorageKey::Encoder { layer, idx } => seq![layer, idx],
        StorageKey::Combo(i) => seq![i],
        StorageKey::Fork(i) => seq![i],
        StorageKey::Morse(i) => seq![i],
        StorageKey::PeerAddress(i) => seq![i],
        StorageKey::BondInfo(i) => seq![i],
        StorageKey::UserData(i) => seq![i],
        _ => Seq::empty(),
    }
}

/// The framed bytes of a key.
pub open spec fn spec_key_bytes(k: StorageKey) -> Seq<u8> {
    seq![spec_key_tag(k)] + spec_key_fields(k)
}

/// `128^i` for the five byte positions of a 32-bit varint.
pub open spec fn pow128(i: nat) -> int {
    if i == 0 {
        1
    } else if i == 1 {
        128
    } else if i == 2 {
        16384
    } else if i == 3 {
        2097152
    } else {
        268435456
    }
}

/// The value carried from byte `i` on of an unsigned 32-bit LEB128 varint
/// (byte `j` weighs `128^j`), and the position just after its last byte.
/// A varint ends at the first byte below `0x80`; it has at most five bytes and
/// its fifth byte holds at most four bits.
pub open spec fn spec_varint_from(s: Seq<u8>, i: nat) -> Option<(int, nat)>
    decreases 5 - i,
{
    if i >= 5 || i >= s.len() {
        None
    } else if s[i as int] < 128 {
        if i == 4 && s[i as int] > 15 {
            None
        } else {
            Some((s[i as int] * pow128(i), i + 1))
        }
    } else {
        match spec_varint_from(s, i + 1) {
            Some((v, n)) => Some(((s[i as int] - 128) * pow128(i) + v, n)),
            None => None,
        }
    }
}

/// The number of one-byte fields a key with tag `t` has.
pub open spec fn spec_field_count(t: int) -> nat {
    if t == 6 {
        3
    } else if t == 7 {
        2
    } else if 8 <= t <= 11 || t == 13 || t == 14 {
        1
    } else {
        0
    }
}

/// The key with tag `t` and the given field bytes.
pub open spec fn spec_key_from(t: int, f: Seq<u8>) -> StorageKey {
    if t == 0 {
        StorageKey::StorageConfig
    } else if t == 1 {
        StorageKey::DefaultLayer
    } else if t == 2 {
        StorageKey::LayoutOption
    } else if t == 3 {
        StorageKey::BehaviorConfig
    } else if t == 4 {
        StorageKey::ConnectionType
    } else if t == 5 {
        StorageKey::MacroData
    } else if t == 6 {
        StorageKey::Keymap { layer: f[0], row: f[1], col: f[2] }
    } else if t == 7 {
        StorageKey::Encoder { layer: f[0], idx: f[1] }
    } else if t == 8 {
        StorageKey::Combo(f[0])
    } else if t == 9 {
        StorageKey::Fork(f[0])
    } else if t == 10 {
        StorageKey::Morse(f[0])
    } else if t == 11 {
        StorageKey::PeerAddress(f[0])
    } else if t == 12 {
        StorageKey::ActiveBleProfile
    } else if t == 13 {
        StorageKey::BondInfo(f[0])
    } else {
        StorageKey::UserData(f[0])
    }
}

/// The key the front of `s` frames, and how many bytes it takes: a varint tag
/// naming a variant, followed by that variant's field bytes.
pub open spec fn spec_decode_key(s: Seq<u8>) -> Option<(StorageKey, nat)> {
    match spec_varint_from(s, 0) {
        None => None,
        Some((t, n)) => {
            if t > 14 || n + spec_field_count(t) > s.len() {
                None
            } else {
                Some((spec_key_from(t, s.subrange(n as int, (n + spec_field_count(t)) as int)), n + spec_field_count(t)))
            }
        },
    }
}

/// `128^5`, above every value a 32-bit varint can carry.
pub open spec fn pow128_5() -> int {
    34359738368
}

proof fn lemma_varint_bounds(s: Seq<u8>, i: nat)
    ensures
        spec_varint_from(s, i) matches Some((v, n)) ==> 0 <= v && v + pow128(i) <= pow128_5() && i < n
            <= 5 && n <= s.len(),
    decreases 5 - i,
{
    if i < 5 && i < s.len() {
        let c: int = s[i as int] as int;
        let p = pow128(i);
        assert(p > 0);
        if c < 128 {
            assert(c * p <= 127 * p) by (nonlinear_arith)
                requires
                    c <= 127,
                    p > 0,
            ;
            assert(0 <= c * p) by (nonlinear_arith)
                requires
                    c >= 0,
                    p > 0,
            ;
        } else {
            lemma_varint_bounds(s, i + 1);
            assert(i < 4 ==> pow128(i + 1) == 128 * p);
            assert((c - 128) * p <= 127 * p) by (nonlinear_arith)
                requires
                    c - 128 <= 127,
                    p > 0,
            ;
            assert(0 <= (c - 128) * p) by (nonlinear_arith)
                requires
                    c >= 128,
                    p > 0,
            ;
        }
    }
}

fn pow128_exec(i: usize) -> (r: u64)
    requires
        i < 5,
    ensures
        r == pow128(i as nat),
{
    if i == 0 {
        1
    } else if i == 1 {
        128
    } else if i == 2 {
        16384
    } else if i == 3 {
        2097152
    } else {
        268435456
    }
}

/// Reads an unsigned 32-bit LEB128 varint from byte `i` of `s` on.
fn decode_varint_from(s: &[u8], i: usize) -> (r: Option<(u64, usize)>)
    requires
        i <= 5,
    ensures
        match spec_varint_from(s@, i as nat) {
            Some((v, n)) => r == Some((v as u64, n as usize)),
            None => r is None,
        },
    decreases 5 - i,
{
    if i >= 5 || i >= s.len() {
        return None;
    }
    let b = s[i];
    proof {
        lemma_varint_bounds(s@, i as nat);
    }
    if b < 128 {
        if i == 4 && b > 15 {
            None
        } else {
            Some((b as u64 * pow128_exec(i), i + 1))
        }
    } else {
        match decode_varint_from(s, i + 1) {
            Some((v, n)) => {
                proof {
                    lemma_varint_bounds(s@, (i + 1) as nat);
                }
                Some(((b - 128) as u64 * pow128_exec(i) + v, n))
            },
            None => None,
        }
    }
}

/// The key with tag `t`, reading its fields from `s` at `at`.
fn key_from(t: u64, s: &[u8], at: usize) -> (r: StorageKey)
    requires
        t <= 14,
        at + spec_field_count(t as int) <= s@.len(),
    ensures
        r == spec_key_from(t as int, s@.subrange(at as int, at + spec_field_count(t as int))),
{
    let ghost f = s@.subrange(at as int, at + spec_field_count(t as int));
    if t == 0 {
        StorageKey::StorageConfig
    } else if t == 1 {
        StorageKey::DefaultLayer
    } else if t == 2 {
        StorageKey::LayoutOption
    } else if t == 3 {
        StorageKey::BehaviorConfig
    } else if t == 4 {
        StorageKey::ConnectionType
    } else if t == 5 {
        StorageKey::MacroData
    } else if t == 6 {
        assert(f[0] == s@[at as int] && f[1] == s@[at + 1] && f[2] == s@[at + 2]);
        StorageKey::Keymap { layer: s[at], row: s[at + 1], col: s[at + 2] }
    } else if t == 7 {
        assert(f[0] == s@[at as int] && f[1] == s@[at + 1]);
        StorageKey::Encoder { layer: s[at], idx: s[at + 1] }
    } else if t == 12 {
        StorageKey::ActiveBleProfile
    } else {
        assert(f[0] == s@[at as int]);
        let b = s[at];
        if t == 8 {
            StorageKey::Combo(b)
        } else if t == 9 {
            StorageKey::Fork(b)
        } else if t == 10 {
            StorageKey::Morse(b)
        } else if t == 11 {
            StorageKey::PeerAddress(b)
        } else if t == 13 {
            StorageKey::BondInfo(b)
        } else {
            StorageKey::UserData(b)
        }
    }
}

fn field_count(t: u64) -> (r: usize)
    ensures
        r == spec_field_count(t as int),
{
    if t == 6 {
        3
    } else if t == 7 {
        2
    } else if (8 <= t && t <= 11) || t == 13 || t == 14 {
        1
    } else {
        0
    }
}

impl StorageKey {
    /// The framed bytes of this key.
    pub fn to_bytes(&self) -> (r: Vec<u8>)
        ensures
            r@ == spec_key_bytes(*self),
    {
        let mut r: Vec<u8> = Vec::new();
        r.push(self.tag());
        match *self {
            StorageKey::Keymap { layer, row, col } => {
                r.push(layer);
                r.push(row);
                r.push(col);
            },
            StorageKey::Encoder { layer, idx } => {
                r.push(layer);
                r.push(idx);
            },
            StorageKey::Combo(i) | StorageKey::Fork(i) | StorageKey::Morse(i) | StorageKey::PeerAddress(i)
            | StorageKey::BondInfo(i) | StorageKey::UserData(i) => {
                r.push(i);
            },
            _ => {},
        }
        assert(r@ =~= spec_key_bytes(*self));
        r
    }

    /// Frames this key at the front of `buffer`, returning the number of bytes
    /// used; `BufferTooSmall` when it does not fit, with `buffer` untouched.
    pub fn serialize_into(&self, buffer: &mut [u8]) -> (r: Result<usize, KeyCodecError>)
        ensures
            final(buffer)@.len() == old(buffer)@.len(),
            r is Ok <==> spec_key_bytes(*self).len() <= old(buffer)@.len(),
            r matches Ok(n) ==> {
                &&& n == spec_key_bytes(*self).len()
                &&& final(buffer)@.subrange(0, n as int) == spec_key_bytes(*self)
                &&& final(buffer)@.subrange(n as int, old(buffer)@.len() as int) == old(buffer)@.subrange(
                    n as int,
                    old(buffer)@.len() as int,
                )
            },
            r is Err ==> r == Err::<usize, KeyCodecError>(KeyCodecError::BufferTooSmall) && final(buffer)@
                == old(buffer)@,
    {
        let bytes = self.to_bytes();
        let n = bytes.len();
        if n > buffer.len() {
            return Err(KeyCodecError::BufferTooSmall);
        }
        let ghost before = buffer@;
        for i in 0..n
            invariant
                n == bytes@.len(),
                n <= buffer@.len(),
                buffer@.len() == before.len(),
                forall|j: int| 0 <= j < i ==> buffer@[j] == bytes@[j],
                forall|j: int| i <= j < before.len() ==> buffer@[j] == before[j],
        {
            buffer[i] = bytes[i];
        }
        assert(buffer@.subrange(0, n as int) =~= bytes@);
        assert(buffer@.subrange(n as int, before.len() as int) =~= before.subrange(
            n as int,
            before.len() as int,
        ));
        Ok(n)
    }

    /// Reads the key framed at the front of `buffer`, with the number of bytes
    /// it takes; `InvalidFormat` when the bytes frame no key.
    pub fn deserialize_from(buffer: &[u8]) -> (r: Result<(StorageKey, usize), KeyCodecError>)
        ensures
            match spec_decode_key(buffer@) {
                Some((k, n)) => r == Ok::<(StorageKey, usize), KeyCodecError>((k, n as usize)),
                None => r == Err::<(StorageKey, usize), KeyCodecError>(KeyCodecError::InvalidFormat),
            },
    {
        proof {
            lemma_varint_bounds(buffer@, 0);
        }
        match decode_varint_from(buffer, 0) {
            None => Err(KeyCodecError::InvalidFormat),
            Some((t, n)) => {
                if t > 14 {
                    return Err(KeyCodecError::InvalidFormat);
                }
                let c = field_count(t);
                if c > buffer.len() - n {
                    return Err(KeyCodecError::InvalidFormat);
                }
                let k = key_from(t, buffer, n);
                Ok((k, n + c))
            },
        }
    }

    /// The number of bytes the key framed at the front of `buffer` takes.
    pub fn get_len(buffer: &[u8]) -> (r: Result<usize, KeyCodecError>)
        ensures
            match spec_decode_key(buffer@) {
                Some((_, n)) => r == Ok::<usize, KeyCodecError>(n as usize),
                None => r == Err::<usize, KeyCodecError>(KeyCodecError::InvalidFormat),
            },
    {
        match Self::deserialize_from(buffer) {
            Ok((_, n)) => Ok(n),
            Err(e) => Err(e),
        }
    }
}

/// Reading back a framed key gives the key and its length, whatever follows it.
pub proof fn lemma_key_roundtrip(k: StorageKey, rest: Seq<u8>)
    ensures
        spec_decode_key(spec_key_bytes(k) + rest) == Some((k, spec_key_bytes(k).len())),
        spec_key_bytes(k)[0] == spec_key_tag(k),
{
    let s = spec_key_bytes(k) + rest;
    assert(s[0] == spec_key_tag(k));
    assert(spec_varint_from(s, 0) == Some((spec_key_tag(k) as int, 1nat)));
    let t = spec_key_tag(k) as int;
    assert(spec_field_count(t) == spec_key_fields(k).len());
    assert(s.subrange(1, 1 + spec_field_count(t) as int) =~= spec_key_fields(k));
}

} // verus!
