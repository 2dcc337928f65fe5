//! The byte-level formats of the scalar fields: variable-length unsigned
//! integers, fixed-width little-endian integers and length-prefixed strings.
//!
//! Everything here is mathematics over byte sequences; the functions that move
//! real bytes are in [`crate::codec`].
use vstd::prelude::*;
use vstd::utf8::encode_utf8;

verus! {

/// `v` in groups of seven bits, the lowest first. Each group but the last has
/// its high bit set. There are at most `groups` such groups: the byte after
/// them is the last and carries eight bits.
pub open spec fn var_bytes(v: nat, groups: nat) -> Seq<u8>
    decreases groups,
{
    if groups == 0 || v < 128 {
        seq![v as u8]
    } else {
        seq![(v % 128 + 128) as u8] + var_bytes(v / 128, (groups - 1) as nat)
    }
}

/// The first number that does not fit `groups` groups and a last byte.
pub open spec fn var_limit(groups: nat) -> nat
    decreases groups,
{
    if groups == 0 {
        256
    } else {
        128 * var_limit((groups - 1) as nat)
    }
}

/// The number at the start of `s` and the count of its bytes, or `None` where
/// `s` ends before the number does.
pub open spec fn var_read(s: Seq<u8>, groups: nat) -> Option<(nat, nat)>
    decreases groups,
{
    if s.len() == 0 {
        None
    } else if groups == 0 || s[0] < 128 {
        Some((s[0] as nat, 1))
    } else {
        match var_read(s.skip(1), (groups - 1) as nat) {
            Some((v, n)) => Some(((s[0] - 128 + 128 * v) as nat, n + 1)),
            None => None,
        }
    }
}

/// The lowest `width` bytes of `v`, the lowest first.
pub open spec fn le_bytes(v: nat, width: nat) -> Seq<u8>
    decreases width,
{
    if width == 0 {
        seq![]
    } else {
        seq![(v % 256) as u8] + le_bytes(v / 256, (width - 1) as nat)
    }
}

/// The number whose bytes are `s`, the lowest first.
pub open spec fn le_value(s: Seq<u8>) -> nat
    decreases s.len(),
{
    if s.len() == 0 {
        0
    } else {
        s[0] as nat + 256 * le_value(s.skip(1))
    }
}

/// The zero bytes that follow a string header of `n` significant bytes: a header
/// of three goes out as four bytes, one of five as eight.
pub open spec fn header_padding(n: nat) -> Seq<u8> {
    if n == 3 {
        seq![0u8]
    } else if n == 5 {
        seq![0u8, 0u8, 0u8]
    } else {
        seq![]
    }
}

/// The header of a UTF-8 string of `len` bytes: the length and the two-bit mark
/// 2, as one variable-length number, padded.
pub open spec fn string_header(len: nat) -> Seq<u8> {
    let significant = var_bytes(4 * len + 2, 4);
    significant + header_padding(significant.len())
}

/// Whether a string can be written: the length in bytes, cut to 32 bits, is not
/// negative as a signed number.
pub open spec fn string_writable(text: Seq<char>) -> bool {
    encode_utf8(text).len() % 0x1_0000_0000 < 0x8000_0000
}

/// The bytes of a string: its header and its UTF-8 bytes.
pub open spec fn string_bytes(text: Seq<char>) -> Seq<u8> {
    string_header(encode_utf8(text).len() % 0x1_0000_0000) + encode_utf8(text)
}

/// Whether a string reads back as it was written: its header is one without
/// padding, which the reading side does not skip.
pub open spec fn string_faithful(text: Seq<char>) -> bool {
    let n = encode_utf8(text).len();
    n < 4096 || 524288 <= n < 67108864
}

/// A string header where fewer than eight bytes are left: up to `left` groups of
/// seven bits, which the end of the input closes too.
pub open spec fn short_header(s: Seq<u8>, left: nat) -> (nat, Option<nat>)
    decreases left,
{
    if s.len() == 0 {
        (0, Some(0))
    } else if s[0] < 128 {
        (1, Some(s[0] as nat))
    } else if left <= 1 {
        (1, None)
    } else {
        let (n, rest) = short_header(s.skip(1), (left - 1) as nat);
        (
            n + 1,
            match rest {
                Some(v) => Some((s[0] - 128 + 128 * v) as nat),
                None => None,
            },
        )
    }
}

/// The string header at the start of `s`: the count of its bytes and its number.
pub open spec fn header_read(s: Seq<u8>) -> (nat, Option<nat>) {
    if s.len() >= 8 {
        match var_read(s, 4) {
            Some((v, n)) => (n, Some(v)),
            None => (0, None),
        }
    } else {
        short_header(s, 6)
    }
}

/// The text of a Latin-1 body: each byte is a character.
pub open spec fn latin1_text(body: Seq<u8>) -> Seq<char> {
    Seq::new(body.len(), |i: int| body[i] as char)
}

/// The UTF-16 units in a body: pairs of bytes, the low byte first. An odd last
/// byte is dropped.
pub open spec fn utf16_units(body: Seq<u8>) -> Seq<u16> {
    Seq::new(body.len() / 2, |i: int| (body[2 * i] + 256 * body[2 * i + 1]) as u16)
}

/// The text of UTF-16 units, with U+FFFD for each surrogate without a partner.
pub open spec fn utf16_text(units: Seq<u16>) -> Seq<char>
    decreases units.len(),
{
    if units.len() == 0 {
        seq![]
    } else if units.len() > 1 && 0xd800 <= units[0] < 0xdc00 && 0xdc00 <= units[1] < 0xe000 {
        seq![(0x10000 + 0x400 * (units[0] - 0xd800) + (units[1] - 0xdc00)) as char] + utf16_text(
            units.skip(2),
        )
    } else if 0xd800 <= units[0] < 0xe000 {
        seq!['\u{fffd}'] + utf16_text(units.skip(1))
    } else {
        seq![units[0] as char] + utf16_text(units.skip(1))
    }
}

/// What stands at the place of a string.
pub enum StringFrame {
    /// A body, and the mark that says how it holds its text: 0 for Latin-1, 1 for
    /// UTF-16, 2 for UTF-8.
    Body { mark: nat, body: Seq<u8> },
    /// Nothing that reads as a string.
    Nothing,
    /// A length that the machine's `usize` does not hold: what comes out is not
    /// determined.
    TooLong,
}

/// The string at the place `at` in `s`: the count of its bytes and its frame.
/// Where there is none, those are the bytes of its header.
pub open spec fn string_at(s: Seq<u8>, at: nat) -> (nat, StringFrame) {
    if at > s.len() {
        (0, StringFrame::Nothing)
    } else {
        let (n, header) = header_read(s.skip(at as int));
        match header {
            None => (n, StringFrame::Nothing),
            Some(v) => {
                let len = v / 4;
                if v % 4 == 3 {
                    (n, StringFrame::Nothing)
                } else if len > usize::MAX {
                    (n, StringFrame::TooLong)
                } else if at + n + len > s.len() {
                    (n, StringFrame::Nothing)
                } else {
                    (
                        n + len,
                        StringFrame::Body {
                            mark: v % 4,
                            body: s.subrange((at + n) as int, (at + n + len) as int),
                        },
                    )
                }
            },
        }
    }
}

/// The byte at the place `at` in `s`, if there is one.
pub open spec fn u8_at(s: Seq<u8>, at: nat) -> Option<u8> {
    if at < s.len() {
        Some(s[at as int])
    } else {
        None
    }
}

/// The `u32` at the place `at` in `s` and the count of its bytes: four bits of a
/// fifth byte count.
pub open spec fn u32_at(s: Seq<u8>, at: nat) -> Option<(u32, nat)> {
    if at > s.len() {
        None
    } else {
        match var_read(s.skip(at as int), 4) {
            Some((v, n)) => Some(((v % 0x1_0000_0000) as u32, n)),
            None => None,
        }
    }
}

/// The `u64` at the place `at` in `s` and the count of its bytes.
pub open spec fn u64_at(s: Seq<u8>, at: nat) -> Option<(u64, nat)> {
    if at > s.len() {
        None
    } else {
        match var_read(s.skip(at as int), 8) {
            Some((v, n)) => Some((v as u64, n)),
            None => None,
        }
    }
}

/// The `u128` in the sixteen bytes at the place `at` in `s`.
pub open spec fn u128_at(s: Seq<u8>, at: nat) -> Option<u128> {
    if at + 16 <= s.len() {
        Some(le_value(s.subrange(at as int, (at + 16) as int)) as u128)
    } else {
        None
    }
}

/// A variable-length number lies within the bytes it is read from.
pub proof fn lemma_var_read_bounded(s: Seq<u8>, groups: nat)
    ensures
        var_read(s, groups) matches Some((v, n)) ==> 1 <= n <= s.len() && n <= groups + 1,
        var_read(s, groups) is None ==> s.len() <= groups,
    decreases groups,
{
    if s.len() > 0 && groups > 0 {
        lemma_var_read_bounded(s.skip(1), (groups - 1) as nat);
    }
}

/// A number that fits reads back from its own bytes.
pub proof fn lemma_var_round_trip(v: nat, groups: nat, rest: Seq<u8>)
    requires
        v < var_limit(groups),
    ensures
        var_read(var_bytes(v, groups) + rest, groups) == Some((v, var_bytes(v, groups).len())),
    decreases groups,
{
    if groups > 0 && v >= 128 {
        let tail = var_bytes(v / 128, (groups - 1) as nat);
        lemma_var_round_trip(v / 128, (groups - 1) as nat, rest);
        assert((var_bytes(v, groups) + rest).skip(1) =~= tail + rest);
    }
}

/// A `u32` reads back.
pub proof fn lemma_u32_round_trip(v: u32, before: Seq<u8>, rest: Seq<u8>)
    ensures
        u32_at(before + var_bytes(v as nat, 4) + rest, before.len()) == Some(
            (v, var_bytes(v as nat, 4).len()),
        ),
{
    let bytes = var_bytes(v as nat, 4);
    reveal_with_fuel(var_limit, 5);
    lemma_var_round_trip(v as nat, 4, rest);
    assert((before + bytes + rest).skip(before.len() as int) =~= bytes + rest);
}

/// A `u64` reads back.
pub proof fn lemma_u64_round_trip(v: u64, before: Seq<u8>, rest: Seq<u8>)
    ensures
        u64_at(before + var_bytes(v as nat, 8) + rest, before.len()) == Some(
            (v, var_bytes(v as nat, 8).len()),
        ),
{
    let bytes = var_bytes(v as nat, 8);
    reveal_with_fuel(var_limit, 9);
    lemma_var_round_trip(v as nat, 8, rest);
    assert((before + bytes + rest).skip(before.len() as int) =~= bytes + rest);
}

/// The first number that does not fit `width` bytes.
pub open spec fn le_limit(width: nat) -> nat
    decreases width,
{
    if width == 0 {
        1
    } else {
        256 * le_limit((width - 1) as nat)
    }
}

/// A number that fits its width is the value of its bytes.
pub proof fn lemma_le_round_trip(v: nat, width: nat)
    requires
        v < le_limit(width),
    ensures
        le_bytes(v, width).len() == width,
        le_value(le_bytes(v, width)) == v,
    decreases width,
{
    if width > 0 {
        lemma_le_round_trip(v / 256, (width - 1) as nat);
        assert(le_bytes(v, width).skip(1) =~= le_bytes(v / 256, (width - 1) as nat));
    }
}

/// A `u128` reads back.
pub proof fn lemma_u128_round_trip(v: u128, before: Seq<u8>, rest: Seq<u8>)
    ensures
        u128_at(before + le_bytes(v as nat, 16) + rest, before.len()) == Some(v),
        le_bytes(v as nat, 16).len() == 16,
{
    let bytes = le_bytes(v as nat, 16);
    reveal_with_fuel(le_limit, 17);
    lemma_le_round_trip(v as nat, 16);
    assert((before + bytes + rest).subrange(before.len() as int, (before.len() + 16) as int)
        =~= bytes);
}

/// A header in the short form lies within its bytes.
proof fn lemma_short_header_bounded(s: Seq<u8>, left: nat)
    ensures
        short_header(s, left).0 <= s.len(),
    decreases left,
{
    if s.len() > 0 && left > 1 && s[0] >= 128 {
        lemma_short_header_bounded(s.skip(1), (left - 1) as nat);
    }
}

/// A string lies within the bytes it is read from.
pub proof fn lemma_string_bounded(s: Seq<u8>, at: nat)
    requires
        at <= s.len(),
    ensures
        at + string_at(s, at).0 <= s.len(),
{
    lemma_short_header_bounded(s.skip(at as int), 6);
    lemma_var_read_bounded(s.skip(at as int), 4);
}

/// Where a number ends before its groups run out, the short form of a header
/// reads it as the long form does.
proof fn lemma_short_header_agrees(s: Seq<u8>, groups: nat, left: nat)
    requires
        left > groups,
        var_read(s, groups) is Some,
        var_read(s, groups).unwrap().1 <= groups,
    ensures
        short_header(s, left) == (
            var_read(s, groups).unwrap().1,
            Some(var_read(s, groups).unwrap().0),
        ),
    decreases groups,
{
    lemma_var_read_bounded(s, groups);
    if groups > 0 && s[0] >= 128 {
        lemma_var_read_bounded(s.skip(1), (groups - 1) as nat);
        lemma_short_header_agrees(s.skip(1), (groups - 1) as nat, (left - 1) as nat);
    }
}

/// The count of bytes of a number in at most four groups and a last byte.
pub proof fn lemma_var_length(v: nat)
    ensures
        var_bytes(v, 4).len() == if v < 128 {
            1nat
        } else if v < 16384 {
            2
        } else if v < 2097152 {
            3
        } else if v < 268435456 {
            4
        } else {
            5
        },
        var_limit(4) == 68719476736,
{
    assert(var_limit(4) == 68719476736) by {
        reveal_with_fuel(var_limit, 5);
    }
    reveal_with_fuel(var_bytes, 5);
}

/// A string is found as it was written wherever its header has no padding.
pub proof fn lemma_string_round_trip(text: Seq<char>, before: Seq<u8>, rest: Seq<u8>)
    requires
        string_faithful(text),
    ensures
        string_at(before + string_bytes(text) + rest, before.len()) == (
            string_bytes(text).len(),
            StringFrame::Body { mark: 2, body: encode_utf8(text) },
        ),
{
    let body = encode_utf8(text);
    let v = 4 * body.len() + 2;
    let number = var_bytes(v, 4);
    lemma_var_length(v);
    assert(string_bytes(text) =~= number + body);
    let s = before + string_bytes(text) + rest;
    let at = before.len();
    assert(s.skip(at as int) =~= number + (body + rest));
    lemma_var_round_trip(v, 4, body + rest);
    if s.len() - at < 8 {
        lemma_short_header_agrees(s.skip(at as int), 4, 6);
    }
    assert(s.subrange((at + number.len()) as int, (at + number.len() + body.len()) as int)
        =~= body);
}

} // verus!
