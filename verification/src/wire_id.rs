//! Stable identifiers for types, made from their names.
use vstd::prelude::*;
use vstd::utf8::encode_utf8;

use crate::registration::{EnvelopeType, FIRST_ENVELOPE_ID, FIRST_USER_ID};

verus! {

/// The multiplier of the 32-bit FNV-1a hash.
pub const FNV_PRIME: u32 = 16777619;

/// The start value of the 32-bit FNV-1a hash.
pub const FNV_OFFSET: u32 = 2166136261;

/// The bit that tells these identifiers from the small ones.
pub const WIRE_ID_BIT: u32 = 0x8000_0000;

/// The 32-bit FNV-1a hash of a byte sequence.
pub open spec fn fnv1a(bytes: Seq<u8>) -> u32
    decreases bytes.len(),
{
    if bytes.len() == 0 {
        FNV_OFFSET
    } else {
        (((fnv1a(bytes.drop_last()) ^ (bytes.last() as u32)) as nat * FNV_PRIME as nat)
            % 0x1_0000_0000) as u32
    }
}

/// The identifier of a type of the given name.
pub open spec fn wire_id(name: Seq<char>) -> u32 {
    fnv1a(encode_utf8(name)) | WIRE_ID_BIT
}

/// Computes a stable 32-bit identifier from a fully qualified type name.
///
/// The high bit is always set, so that the identifier differs from those that
/// are assigned by hand.
pub fn fory_wire_id(name: &str) -> (id: u32)
    ensures
        id == wire_id(name@),
{
    let bytes = name.as_bytes();
    let mut hash: u32 = FNV_OFFSET;
    let mut i: usize = 0;
    while i < bytes.len()
        invariant
            i <= bytes@.len(),
            hash == fnv1a(bytes@.take(i as int)),
        decreases bytes@.len() - i,
    {
        hash = hash ^ (bytes[i] as u32);
        hash = hash.wrapping_mul(FNV_PRIME);
        i = i + 1;
        proof {
            assert(bytes@.take(i as int).drop_last() =~= bytes@.take(i - 1));
        }
    }
    proof {
        assert(bytes@.take(i as int) =~= bytes@);
    }
    hash | WIRE_ID_BIT
}

/// An identifier made from a name has the high bit set. So it is none of the
/// envelope types' identifiers, and it lies above all small ones.
pub proof fn law_wire_id_is_large(name: Seq<char>, envelope: EnvelopeType)
    ensures
        wire_id(name) >= 0x8000_0000,
        wire_id(name) & WIRE_ID_BIT == WIRE_ID_BIT,
        wire_id(name) != FIRST_ENVELOPE_ID + envelope.place(),
        wire_id(name) > FIRST_USER_ID,
{
    let h = fnv1a(encode_utf8(name));
    assert((h | 0x8000_0000u32) >= 0x8000_0000u32) by (bit_vector);
    assert((h | 0x8000_0000u32) & 0x8000_0000u32 == 0x8000_0000u32) by (bit_vector);
}

/// The hash takes in every byte, one after the other: it starts at 2166136261,
/// and each byte is mixed in and the whole multiplied by 16777619, in 32 bits,
/// however many bytes went before.
pub proof fn law_hash_takes_in_every_byte(s: Seq<u8>, b: u8)
    ensures
        fnv1a(Seq::<u8>::empty()) == 2166136261,
        fnv1a(s.push(b)) == ((fnv1a(s) ^ (b as u32)) * 16777619) % 0x1_0000_0000,
{
    assert(s.push(b).drop_last() =~= s);
}

/// A name's identifier is the hash of all the bytes of its UTF-8 form, with the
/// high bit set.
pub proof fn law_wire_id_hashes_the_whole_name(name: &str, id: u32)
    requires
        call_ensures(fory_wire_id, (name,), id),
    ensures
        id == fnv1a(encode_utf8(name@)) | 0x8000_0000u32,
        id & 0x7fff_ffffu32 == fnv1a(encode_utf8(name@)) & 0x7fff_ffffu32,
{
    let h = fnv1a(encode_utf8(name@));
    assert((h | 0x8000_0000u32) & 0x7fff_ffffu32 == h & 0x7fff_ffffu32) by (bit_vector);
}

/// Byte sequences that differ in their last byte alone have different hashes,
/// with and without the high bit.
pub proof fn law_last_byte_tells_hashes_apart(s: Seq<u8>, a: u8, b: u8)
    requires
        a != b,
    ensures
        fnv1a(s.push(a)) != fnv1a(s.push(b)),
        fnv1a(s.push(a)) | 0x8000_0000u32 != fnv1a(s.push(b)) | 0x8000_0000u32,
{
    let h = fnv1a(s);
    let x = fnv1a(s.push(a));
    let y = fnv1a(s.push(b));
    law_hash_takes_in_every_byte(s, a);
    law_hash_takes_in_every_byte(s, b);
    assert(x | 0x8000_0000u32 != y | 0x8000_0000u32) by (bit_vector)
        requires
            a != b,
            x == ((h ^ (a as u32)) * 16777619u32) % 0x1_0000_0000,
            y == ((h ^ (b as u32)) * 16777619u32) % 0x1_0000_0000,
    ;
}

/// Names whose UTF-8 forms differ in their last byte alone have different
/// identifiers.
pub proof fn law_last_byte_tells_names_apart(
    first: &str,
    second: &str,
    first_id: u32,
    second_id: u32,
)
    requires
        call_ensures(fory_wire_id, (first,), first_id),
        call_ensures(fory_wire_id, (second,), second_id),
        encode_utf8(first@).len() > 0,
        encode_utf8(second@).len() > 0,
        encode_utf8(first@).drop_last() == encode_utf8(second@).drop_last(),
        encode_utf8(first@).last() != encode_utf8(second@).last(),
    ensures
        first_id != second_id,
{
    let p = encode_utf8(first@);
    let q = encode_utf8(second@);
    assert(p.drop_last().push(p.last()) =~= p);
    assert(q.drop_last().push(q.last()) =~= q);
    law_wire_id_hashes_the_whole_name(first, first_id);
    law_wire_id_hashes_the_whole_name(second, second_id);
    law_last_byte_tells_hashes_apart(p.drop_last(), p.last(), q.last());
}

} // verus!
