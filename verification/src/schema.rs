//! The schema hash that stored data is written under, and the size of the
//! storage task's item buffer.
use vstd::prelude::*;

use crate::config::MACRO_SPACE_SIZE;

verus! {

/// The FNV-1a offset basis, the seed the schema hash folds its byte runs into.
pub const FNV_OFFSET: u32 = 0x811c_9dc5;

/// The FNV-1a prime.
pub const FNV_PRIME: u32 = 0x0100_0193;

/// One FNV-1a step: xor in the byte, then multiply by the prime modulo `2^32`.
pub open spec fn spec_fnv_step(h: u32, b: u8) -> u32 {
    (((h ^ (b as u32)) as nat * FNV_PRIME as nat) % 0x1_0000_0000) as u32
}

/// FNV-1a over `s`, continuing `h`.
pub open spec fn spec_fnv(h: u32, s: Seq<u8>) -> u32
    decreases s.len(),
{
    if s.len() == 0 {
        h
    } else {
        spec_fnv_step(spec_fnv(h, s.drop_last()), s.last())
    }
}

/// FNV-1a over `bytes`, continuing `hash`.
pub fn fnv_hash(hash: u32, bytes: &[u8]) -> (r: u32)
    ensures
        r == spec_fnv(hash, bytes@),
{
    let mut h = hash;
    let mut i: usize = 0;
    while i < bytes.len()
        invariant
            i <= bytes@.len(),
            h == spec_fnv(hash, bytes@.take(i as int)),
        decreases bytes@.len() - i,
    {
        assert(bytes@.take(i + 1).drop_last() =~= bytes@.take(i as int));
        h = (h ^ bytes[i] as u32).wrapping_mul(FNV_PRIME);
        i += 1;
    }
    assert(bytes@.take(i as int) =~= bytes@);
    h
}

/// Hashing two runs one after the other is hashing their concatenation: the
/// hash can be continued.
pub proof fn lemma_fnv_continues(h: u32, a: Seq<u8>, b: Seq<u8>)
    ensures
        spec_fnv(h, a + b) == spec_fnv(spec_fnv(h, a), b),
    decreases b.len(),
{
    if b.len() == 0 {
        assert(a + b =~= a);
    } else {
        lemma_fnv_continues(h, a, b.drop_last());
        assert((a + b).drop_last() =~= a + b.drop_last());
        assert((a + b).last() == b.last());
    }
}

/// The little-endian bytes of a 32-bit value.
pub open spec fn spec_u32_le_bytes(x: u32) -> Seq<u8> {
    seq![(x % 256) as u8, ((x / 256) % 256) as u8, ((x / 65536) % 256) as u8, (x / 16777216) as u8]
}

/// The little-endian bytes of a 32-bit value.
pub fn u32_le_bytes(x: u32) -> (r: [u8; 4])
    ensures
        r@ == spec_u32_le_bytes(x),
{
    let r = [(x % 256) as u8, ((x / 256) % 256) as u8, ((x / 65536) % 256) as u8, (x / 16777216) as u8];
    assert(r@ =~= spec_u32_le_bytes(x));
    r
}

/// FNV-1a over everything that frames stored bytes: the package version, the
/// commit, the enabled features, then the sizes that decide how a stored value
/// is framed (macro space, combo and morse slot counts, as little-endian u32).
pub open spec fn spec_schema_hash(
    version: Seq<u8>,
    commit: Seq<u8>,
    features: Seq<u8>,
    macro_space: u32,
    combo_size: u32,
    morse_size: u32,
) -> u32 {
    let h = spec_fnv(FNV_OFFSET, version);
    let h = spec_fnv(h, commit);
    let h = spec_fnv(h, features);
    let h = spec_fnv(h, spec_u32_le_bytes(macro_space));
    let h = spec_fnv(h, spec_u32_le_bytes(combo_size));
    spec_fnv(h, spec_u32_le_bytes(morse_size))
}

/// The schema hash of a firmware with the given version, commit, features and
/// sizes. A stored config item that holds another hash means the storage was
/// written under another schema.
pub fn schema_hash(
    version: &[u8],
    commit: &[u8],
    features: &[u8],
    macro_space: u32,
    combo_size: u32,
    morse_size: u32,
) -> (r: u32)
    ensures
        r == spec_schema_hash(version@, commit@, features@, macro_space, combo_size, morse_size),
{
    let mut hash = fnv_hash(FNV_OFFSET, version);
    hash = fnv_hash(hash, commit);
    // Features gate variants of the key and value enums, shifting their tags.
    hash = fnv_hash(hash, features);
    // The configured sizes decide how a stored value is framed.
    hash = fnv_hash(hash, &u32_le_bytes(macro_space));
    hash = fnv_hash(hash, &u32_le_bytes(combo_size));
    hash = fnv_hash(hash, &u32_le_bytes(morse_size));
    hash
}

/// Multiplying by the FNV prime modulo `2^32` is undone by multiplying by its
/// inverse `0x359c_449b`.
proof fn lemma_prime_invertible(x: u32)
    ensures
        (((x * 0x0100_0193u32) % 0x1_0000_0000) * 0x359c_449bu32) % 0x1_0000_0000 == x,
{
    assert((((x * 0x0100_0193u32) % 0x1_0000_0000) * 0x359c_449bu32) % 0x1_0000_0000 == x) by (bit_vector);
}

/// One FNV-1a step loses nothing: the same byte folded into two different
/// hashes gives two different hashes, and two different bytes folded into
/// the same hash give two different hashes.
pub proof fn lemma_fnv_step_injective(h1: u32, b1: u8, h2: u32, b2: u8)
    ensures
        b1 == b2 && h1 != h2 ==> spec_fnv_step(h1, b1) != spec_fnv_step(h2, b2),
        h1 == h2 && b1 != b2 ==> spec_fnv_step(h1, b1) != spec_fnv_step(h2, b2),
{
    let x1: u32 = h1 ^ (b1 as u32);
    let x2: u32 = h2 ^ (b2 as u32);
    lemma_prime_invertible(x1);
    lemma_prime_invertible(x2);
    assert(b1 == b2 && h1 != h2 ==> x1 != x2) by (bit_vector)
        requires
            x1 == h1 ^ (b1 as u32),
            x2 == h2 ^ (b2 as u32),
    ;
    assert(h1 == h2 && b1 != b2 ==> x1 != x2) by (bit_vector)
        requires
            x1 == h1 ^ (b1 as u32),
            x2 == h2 ^ (b2 as u32),
    ;
}

/// FNV-1a over the same bytes from two different hashes ends in two different
/// hashes.
pub proof fn lemma_fnv_keeps_difference(h1: u32, h2: u32, s: Seq<u8>)
    requires
        h1 != h2,
    ensures
        spec_fnv(h1, s) != spec_fnv(h2, s),
    decreases s.len(),
{
    if s.len() > 0 {
        lemma_fnv_keeps_difference(h1, h2, s.drop_last());
        lemma_fnv_step_injective(spec_fnv(h1, s.drop_last()), s.last(), spec_fnv(h2, s.drop_last()), s.last());
    }
}

/// Two 32-bit values that differ only in their lowest byte fold into
/// different hashes from the same hash.
pub proof fn lemma_fnv_sees_low_byte(h: u32, a: u32, b: u32)
    requires
        a != b,
        a / 256 == b / 256,
    ensures
        spec_fnv(h, spec_u32_le_bytes(a)) != spec_fnv(h, spec_u32_le_bytes(b)),
{
    let sa = spec_u32_le_bytes(a);
    let sb = spec_u32_le_bytes(b);
    assert(sa[0] != sb[0]);
    let rest = sa.subrange(1, 4);
    assert(sb.subrange(1, 4) =~= rest);
    let ha = spec_fnv(h, seq![sa[0]]);
    let hb = spec_fnv(h, seq![sb[0]]);
    assert(seq![sa[0]].drop_last() =~= Seq::<u8>::empty());
    assert(seq![sb[0]].drop_last() =~= Seq::<u8>::empty());
    assert(spec_fnv(h, Seq::<u8>::empty()) == h);
    assert(ha == spec_fnv_step(h, sa[0]));
    assert(hb == spec_fnv_step(h, sb[0]));
    lemma_fnv_step_injective(h, sa[0], h, sb[0]);
    lemma_fnv_keeps_difference(ha, hb, rest);
    lemma_fnv_continues(h, seq![sa[0]], rest);
    lemma_fnv_continues(h, seq![sb[0]], rest);
    assert(seq![sa[0]] + rest =~= sa);
    assert(seq![sb[0]] + rest =~= sb);
}

/// The schema hash follows each of the three configured sizes that frame
/// stored values, the morse slot count included: two firmwares that differ
/// only in the macro space, only in the combo slot count or only in the
/// morse slot count, by a change inside the lowest byte (as between any two
/// counts below 256), get different schema hashes, so the boot after such an
/// update erases the storage.
pub proof fn lemma_schema_hash_sees_sizes(
    version: Seq<u8>,
    commit: Seq<u8>,
    features: Seq<u8>,
    macro_space: u32,
    combo_size: u32,
    morse_size: u32,
    other: u32,
)
    ensures
        other != morse_size && other / 256 == morse_size / 256 ==> spec_schema_hash(
            version,
            commit,
            features,
            macro_space,
            combo_size,
            morse_size,
        ) != spec_schema_hash(version, commit, features, macro_space, combo_size, other),
        other != combo_size && other / 256 == combo_size / 256 ==> spec_schema_hash(
            version,
            commit,
            features,
            macro_space,
            combo_size,
            morse_size,
        ) != spec_schema_hash(version, commit, features, macro_space, other, morse_size),
        other != macro_space && other / 256 == macro_space / 256 ==> spec_schema_hash(
            version,
            commit,
            features,
            macro_space,
            combo_size,
            morse_size,
        ) != spec_schema_hash(version, commit, features, other, combo_size, morse_size),
{
    let h0 = spec_fnv(spec_fnv(spec_fnv(FNV_OFFSET, version), commit), features);
    let hm = spec_fnv(h0, spec_u32_le_bytes(macro_space));
    let hc = spec_fnv(hm, spec_u32_le_bytes(combo_size));
    if other != morse_size && other / 256 == morse_size / 256 {
        lemma_fnv_sees_low_byte(hc, morse_size, other);
    }
    if other != combo_size && other / 256 == combo_size / 256 {
        lemma_fnv_sees_low_byte(hm, combo_size, other);
        lemma_fnv_keeps_difference(hc, spec_fnv(hm, spec_u32_le_bytes(other)), spec_u32_le_bytes(morse_size));
    }
    if other != macro_space && other / 256 == macro_space / 256 {
        let hm2 = spec_fnv(h0, spec_u32_le_bytes(other));
        lemma_fnv_sees_low_byte(h0, macro_space, other);
        lemma_fnv_keeps_difference(hm, hm2, spec_u32_le_bytes(combo_size));
        lemma_fnv_keeps_difference(hc, spec_fnv(hm2, spec_u32_le_bytes(combo_size)), spec_u32_le_bytes(morse_size));
    }
}

/// `x` rounded up to a multiple of 32.
pub open spec fn spec_round_up_32(x: int) -> int {
    ((x + 31) / 32) * 32
}

/// The item buffer size for a macro space of `macro_space` bytes: the macro
/// buffer plus its framing (at least 256), rounded up to 32-byte alignment.
pub open spec fn spec_buffer_size_for(macro_space: int) -> int {
    spec_round_up_32(if macro_space < 248 { 256 } else { macro_space + 8 })
}

/// The item buffer size for a macro space of `macro_space` bytes.
pub fn buffer_size_for(macro_space: usize) -> (r: usize)
    requires
        macro_space + 8 + 31 <= usize::MAX,
    ensures
        r == spec_buffer_size_for(macro_space as int),
        r % 32 == 0,
{
    // The largest item is the macro buffer plus its framing.
    let buffer_size: usize = if macro_space < 248 { 256 } else { macro_space + 8 };
    let x: usize = buffer_size + 31;
    assert((x & !31usize) == x - x % 32) by (bit_vector);
    x & !31usize
}

/// The size of the storage task's item buffer.
pub fn get_buffer_size() -> (r: usize)
    ensures
        r == spec_buffer_size_for(MACRO_SPACE_SIZE as int),
        r == 288,
{
    buffer_size_for(MACRO_SPACE_SIZE)
}

} // verus!
