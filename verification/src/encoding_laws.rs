//! What the bytes of numbers and strings are, digit by digit.
use vstd::arithmetic::div_mod::lemma_div_denominator;
use vstd::arithmetic::power::{lemma_pow0, lemma_pow_positive, pow};
use vstd::prelude::*;

use crate::encoding::{
    header_read, latin1_text, le_bytes, le_value, lemma_var_read_bounded, short_header, string_at,
    u128_at, u32_at, u64_at, u8_at, utf16_text, utf16_units, var_bytes, var_limit, var_read,
    StringFrame,
};

verus! {

/// A digit of a number is the one before it of the rest.
proof fn lemma_digit_moves(v: nat, base: int, i: nat)
    requires
        base > 1,
        i > 0,
    ensures
        (v as int / base) / pow(base, (i - 1) as nat) == v as int / pow(base, i),
        pow(base, i) == base * pow(base, (i - 1) as nat),
        pow(base, (i - 1) as nat) > 0,
{
    reveal(pow);
    lemma_pow_positive(base, (i - 1) as nat);
    lemma_div_denominator(v as int, base, pow(base, (i - 1) as nat));
}

/// The bytes of a number hold its digits to the base 128, the lowest first, each
/// with the high bit but the last; the last holds what is left of the number, and
/// there are no more bytes than that takes.
pub proof fn law_digits_of_a_number(v: nat, groups: nat, i: nat)
    requires
        v < 256 * pow(128, groups),
    ensures
        ({
            let bytes = var_bytes(v, groups);
            &&& 1 <= bytes.len() <= groups + 1
            &&& i + 1 < bytes.len() ==> bytes[i as int] == (v as int / pow(128, i)) % 128 + 128
            &&& i + 1 == bytes.len() ==> bytes[i as int] == v as int / pow(128, i)
            &&& i + 1 == bytes.len() && i < groups ==> bytes[i as int] < 128
            &&& i + 1 == bytes.len() && i > 0 ==> v >= pow(128, i)
        }),
    decreases groups,
{
    lemma_pow0(128);
    if groups > 0 && v >= 128 {
        reveal(pow);
        let tail = var_bytes(v / 128, (groups - 1) as nat);
        assert(v / 128 < 256 * pow(128, (groups - 1) as nat)) by {
            assert(pow(128, groups) == 128 * pow(128, (groups - 1) as nat));
            let p = pow(128, (groups - 1) as nat);
            assert(v < 128 * (256 * p));
        }
        if i > 0 {
            law_digits_of_a_number(v / 128, (groups - 1) as nat, (i - 1) as nat);
            lemma_digit_moves(v, 128, i);
            if i < var_bytes(v, groups).len() {
                assert(var_bytes(v, groups)[i as int] == tail[i - 1]);
            }
        } else {
            law_digits_of_a_number(v / 128, (groups - 1) as nat, 0);
        }
    }
}

/// A number that is read has as digits to the base 128 what its bytes hold, and
/// ends at the first byte without the high bit, or after the last that it may
/// have. There is none only where the bytes end first.
pub proof fn law_digits_of_a_number_that_is_read(s: Seq<u8>, groups: nat, i: nat)
    ensures
        match var_read(s, groups) {
            Some((v, n)) => {
                &&& 1 <= n <= groups + 1
                &&& n <= s.len()
                &&& i + 1 < n ==> s[i as int] >= 128 && (v as int / pow(128, i)) % 128
                    == s[i as int] - 128
                &&& i + 1 == n ==> v as int / pow(128, i) == s[i as int]
                &&& i + 1 == n && i < groups ==> s[i as int] < 128
            },
            None => s.len() <= groups && (i < s.len() ==> s[i as int] >= 128),
        },
    decreases groups,
{
    lemma_pow0(128);
    lemma_var_read_bounded(s, groups);
    if s.len() > 0 && groups > 0 && s[0] >= 128 {
        let rest = s.skip(1);
        if i > 0 {
            law_digits_of_a_number_that_is_read(rest, (groups - 1) as nat, (i - 1) as nat);
            if let Some((w, m)) = var_read(rest, (groups - 1) as nat) {
                let v = (s[0] - 128 + 128 * w) as nat;
                lemma_digit_moves(v, 128, i);
                assert(v as int / 128 == w);
            }
            if i < s.len() {
                assert(rest[i - 1] == s[i as int]);
            }
        } else {
            law_digits_of_a_number_that_is_read(rest, (groups - 1) as nat, 0);
            if let Some((w, m)) = var_read(rest, (groups - 1) as nat) {
                let v = (s[0] - 128 + 128 * w) as nat;
                assert(v as int / 1 == v);
                assert(v as int % 128 == s[0] - 128);
            }
        }
    }
}

/// The bytes of a number of fixed width hold its digits to the base 256, the
/// lowest first.
pub proof fn law_bytes_of_fixed_width(v: nat, width: nat, i: nat)
    ensures
        le_bytes(v, width).len() == width,
        i < width ==> le_bytes(v, width)[i as int] == (v as int / pow(256, i)) % 256,
    decreases width,
{
    lemma_pow0(256);
    if width > 0 {
        law_bytes_of_fixed_width(v / 256, (width - 1) as nat, if i > 0 {
            (i - 1) as nat
        } else {
            0
        });
        if i > 0 {
            lemma_digit_moves(v, 256, i);
        }
    }
}

/// A number of fixed width that is read has as digits to the base 256 its bytes,
/// and no others.
pub proof fn law_value_of_fixed_width(s: Seq<u8>, i: nat)
    ensures
        i < s.len() ==> (le_value(s) as int / pow(256, i)) % 256 == s[i as int],
        le_value(s) < pow(256, s.len()),
    decreases s.len(),
{
    lemma_pow0(256);
    if s.len() > 0 {
        let rest = s.skip(1);
        law_value_of_fixed_width(rest, if i > 0 {
            (i - 1) as nat
        } else {
            0
        });
        reveal(pow);
        assert(pow(256, s.len()) == 256 * pow(256, rest.len()));
        assert(le_value(s) as int / 256 == le_value(rest));
        if i > 0 {
            lemma_digit_moves(le_value(s), 256, i);
        } else {
            assert(le_value(s) as int / 1 == le_value(s));
        }
    }
}

/// Numbers stand where the reader is, and nowhere beyond the end.
pub proof fn law_places_of_numbers(s: Seq<u8>, at: nat)
    ensures
        at < s.len() ==> u8_at(s, at) == Some(s[at as int]),
        at >= s.len() ==> u8_at(s, at) is None,
        at > s.len() ==> u32_at(s, at) is None && u64_at(s, at) is None,
        at <= s.len() ==> match var_read(s.skip(at as int), 4) {
            Some((w, n)) => u32_at(s, at) matches Some((v, m)) && v == w % 0x1_0000_0000 && m == n,
            None => u32_at(s, at) is None,
        },
        at <= s.len() ==> match var_read(s.skip(at as int), 8) {
            Some((w, n)) => u64_at(s, at) matches Some((v, m)) && v == w && m == n,
            None => u64_at(s, at) is None,
        },
        at + 16 <= s.len() ==> (u128_at(s, at) matches Some(v) && v == le_value(
            s.subrange(at as int, (at + 16) as int),
        )),
        at + 16 > s.len() ==> u128_at(s, at) is None,
{
    if at <= s.len() {
        lemma_value_bounded(s.skip(at as int), 8);
        reveal_with_fuel(var_limit, 9);
    }
    if at + 16 <= s.len() {
        let t = s.subrange(at as int, (at + 16) as int);
        law_value_of_fixed_width(t, 0);
        assert(pow(256, 16) == 0x1_0000_0000_0000_0000_0000_0000_0000_0000) by {
            reveal(pow);
            reveal_with_fuel(pow, 17);
        }
    }
}

/// A number that is read fits its groups.
proof fn lemma_value_bounded(s: Seq<u8>, groups: nat)
    ensures
        var_limit(groups) >= 256,
        var_read(s, groups) matches Some((v, n)) ==> v < var_limit(groups),
    decreases groups,
{
    if groups > 0 {
        lemma_value_bounded(s.skip(1), (groups - 1) as nat);
    }
}

/// A string's header is a number; where fewer than eight bytes are left, the end
/// closes it too.
pub proof fn law_string_headers(s: Seq<u8>, i: nat)
    ensures
        s.len() >= 8 ==> match var_read(s, 4) {
            Some((v, n)) => header_read(s) == (n, Some(v)),
            None => header_read(s).1 is None,
        },
        s.len() < 8 ==> {
            let (n, header) = header_read(s);
            &&& n <= 6 && n <= s.len()
            &&& i + 1 < n ==> s[i as int] >= 128
            &&& match header {
                Some(v) => {
                    &&& n < s.len() ==> n > 0 && s[n - 1] < 128
                    &&& i < n ==> (v as int / pow(128, i)) % 128 == s[i as int] as int % 128
                    &&& v < pow(128, n)
                },
                None => n == 6 && s[5] >= 128,
            }
        },
{
    if s.len() < 8 {
        lemma_short_header_digits(s, 6, i);
    }
}

proof fn lemma_short_header_digits(s: Seq<u8>, left: nat, i: nat)
    requires
        left > 0,
    ensures
        ({
            let (n, header) = short_header(s, left);
            &&& n <= left && n <= s.len()
            &&& i + 1 < n ==> s[i as int] >= 128
            &&& match header {
                Some(v) => {
                    &&& n < s.len() ==> n > 0 && s[n - 1] < 128
                    &&& i < n ==> (v as int / pow(128, i)) % 128 == s[i as int] as int % 128
                    &&& v < pow(128, n)
                },
                None => n == left && s[left - 1] >= 128,
            }
        }),
    decreases left,
{
    lemma_pow0(128);
    reveal(pow);
    if s.len() > 0 && s[0] < 128 {
        assert(pow(128, 1) == 128 * pow(128, 0));
        assert(s[0] as int / 1 == s[0]);
    } else if s.len() > 0 && left > 1 {
        let rest = s.skip(1);
        lemma_short_header_digits(rest, (left - 1) as nat, if i > 0 {
            (i - 1) as nat
        } else {
            0
        });
        let (m, header) = short_header(rest, (left - 1) as nat);
        if let Some(w) = header {
            let v = (s[0] - 128 + 128 * w) as nat;
            assert(pow(128, m + 1) == 128 * pow(128, m));
            assert(v as int / 128 == w);
            if i > 0 {
                lemma_digit_moves(v, 128, i);
            } else {
                assert(v as int / 1 == v);
            }
        }
    }
}

/// A string stands where its header says: a quarter of the number is the count of
/// its bytes, and what is left of it is its mark, which is no 3.
pub proof fn law_string_frames(s: Seq<u8>, at: nat)
    ensures
        at > s.len() ==> string_at(s, at) == (0nat, StringFrame::Nothing),
        at <= s.len() ==> match header_read(s.skip(at as int)) {
            (n, None) => string_at(s, at) == (n, StringFrame::Nothing),
            (n, Some(v)) => {
                let len = v / 4;
                let mark = v % 4;
                &&& mark == 3 ==> string_at(s, at) == (n, StringFrame::Nothing)
                &&& mark != 3 && len <= usize::MAX && at + n + len > s.len() ==> string_at(s, at)
                    == (n, StringFrame::Nothing)
                &&& mark != 3 && len <= usize::MAX && at + n + len <= s.len() ==> string_at(s, at)
                    == (
                    n + len,
                    StringFrame::Body {
                        mark,
                        body: s.subrange((at + n) as int, (at + n + len) as int),
                    },
                )
            },
        },
{
}

/// Each byte of a Latin-1 body is a character.
pub proof fn law_latin1(body: Seq<u8>, i: int)
    requires
        0 <= i < body.len(),
    ensures
        latin1_text(body).len() == body.len(),
        latin1_text(body)[i] as int == body[i],
{
}

/// Each unit of a UTF-16 body that is no surrogate is a character, two surrogates
/// that make a pair are one, and any other surrogate is U+FFFD.
pub proof fn law_utf16(body: Seq<u8>, first: u16, second: u16, rest: Seq<u16>, i: int)
    ensures
        utf16_units(body).len() == body.len() / 2,
        0 <= i < body.len() / 2 ==> utf16_units(body)[i] == body[2 * i] + 256 * body[2 * i + 1],
        utf16_text(Seq::<u16>::empty()) == Seq::<char>::empty(),
        first < 0xd800 || first >= 0xe000 ==> utf16_text(seq![first] + rest) == seq![first as char]
            + utf16_text(rest),
        0xd800 <= first < 0xdc00 && 0xdc00 <= second < 0xe000 ==> utf16_text(
            seq![first, second] + rest,
        ) == seq![(0x10000 + 0x400 * (first - 0xd800) + (second - 0xdc00)) as char] + utf16_text(
            rest,
        ),
        0xdc00 <= first < 0xe000 ==> utf16_text(seq![first] + rest) == seq!['\u{fffd}']
            + utf16_text(rest),
        0xd800 <= first < 0xe000 && (rest.len() == 0 || rest[0] < 0xdc00 || rest[0] >= 0xe000)
            ==> utf16_text(seq![first] + rest) == seq!['\u{fffd}'] + utf16_text(rest),
{
    assert((seq![first] + rest).skip(1) =~= rest);
    assert((seq![first, second] + rest).skip(2) =~= rest);
}

} // verus!
