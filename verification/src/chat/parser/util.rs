//! Small helpers shared by the field parsers: bit tests, decimal fields,
//! text comparison and user id normalization.

use crate::chat::events::texts_view;
use crate::text::{lemma_decode_ascii, lemma_encode_utf8_concat};
use vstd::prelude::*;
use vstd::string::*;
use vstd::utf8::*;

verus! {

/// `flags` has every bit of `flag` set.
pub fn is(flags: u32, flag: u32) -> (r: bool)
    ensures
        r == (flags & flag == flag),
{
    flags & flag == flag
}

/// An ASCII decimal digit, `'0'..='9'`.
pub open spec fn is_ascii_digit(b: u8) -> bool {
    0x30 <= b && b <= 0x39
}

/// Every byte of `s` is an ASCII decimal digit.
pub open spec fn digits_only(s: Seq<u8>) -> bool {
    forall|i: int| 0 <= i < s.len() ==> is_ascii_digit(#[trigger] s[i])
}

/// The number that the decimal digits `s` write, most significant first.
pub open spec fn digits_value(s: Seq<u8>) -> nat
    recommends
        digits_only(s),
    decreases s.len(),
{
    if s.len() == 0 {
        0
    } else {
        digits_value(s.drop_last()) * 10 + (s.last() - 0x30) as nat
    }
}

/// `s` without one leading `'+'`, if it has one.
pub open spec fn unsigned_part(s: Seq<u8>) -> Seq<u8> {
    if s.len() > 0 && s[0] == 0x2b {
        s.skip(1)
    } else {
        s
    }
}

/// The value of `s` read as an unsigned decimal number no greater than `max`:
/// an optional `'+'`, then one or more ASCII digits and nothing else.
/// Anything else, and any number above `max`, has no value.
pub open spec fn decimal(s: Seq<u8>, max: nat) -> Option<nat> {
    let d = unsigned_part(s);
    if d.len() > 0 && digits_only(d) && digits_value(d) <= max {
        Some(digits_value(d))
    } else {
        None
    }
}

/// The `u32` that `s` writes in decimal, or `default` where it writes none.
pub open spec fn u32_or(s: Seq<u8>, default: u32) -> u32 {
    match decimal(s, u32::MAX as nat) {
        Some(v) => v as u32,
        None => default,
    }
}

/// The number that a text field holds under "parse or `default`": the
/// `u32` that its UTF-8 bytes write in decimal, `default` where they write
/// none.
pub open spec fn field_u32(s: Seq<char>, default: u32) -> u32 {
    u32_or(encode_utf8(s), default)
}

/// A prefix of a digit string never writes a greater number than the whole.
pub proof fn lemma_digits_value_prefix(s: Seq<u8>, k: int)
    requires
        digits_only(s),
        0 <= k <= s.len(),
    ensures
        digits_value(s.take(k)) <= digits_value(s),
    decreases s.len() - k,
{
    if k == s.len() {
        assert(s.take(k) =~= s);
    } else {
        lemma_digits_value_prefix(s, k + 1);
        let t = s.take(k + 1);
        assert(t.drop_last() =~= s.take(k));
        assert(is_ascii_digit(s[k]));
        assert(t.last() == s[k]);
    }
}

/// Reads `bytes` as an unsigned decimal number no greater than `max`.
pub fn parse_decimal(bytes: &[u8], max: u64) -> (r: Option<u64>)
    ensures
        match r {
            Some(v) => decimal(bytes@, max as nat) == Some(v as nat),
            None => decimal(bytes@, max as nat) is None,
        },
{
    let n: usize = bytes.len();
    let start: usize = if n > 0 && bytes[0] == 0x2b { 1 } else { 0 };
    if start == n {
        return None;
    }
    let ghost d = unsigned_part(bytes@);
    let mut value: u64 = 0;
    let mut i: usize = start;
    proof {
        assert(d.take(0) =~= Seq::<u8>::empty());
    }
    while i < n
        invariant
            start <= i <= n,
            n == bytes@.len(),
            d == unsigned_part(bytes@),
            d == bytes@.skip(start as int),
            d.len() == n - start,
            digits_only(d.take(i - start)),
            value as nat == digits_value(d.take(i - start)),
            value <= max,
        decreases n - i,
    {
        let b: u8 = bytes[i];
        if b < 0x30 || b > 0x39 {
            proof {
                assert(d[i - start] == b);
                assert(!is_ascii_digit(d[i - start]));
            }
            return None;
        }
        let digit: u64 = (b - 0x30) as u64;
        proof {
            let t = d.take(i - start + 1);
            assert(t.drop_last() =~= d.take(i - start));
            assert(t.last() == b);
            assert(digits_value(t) == value * 10 + digit);
            assert forall|j: int| 0 <= j < t.len() implies is_ascii_digit(#[trigger] t[j]) by {
                if j < i - start {
                    assert(t[j] == d.take(i - start)[j]);
                }
            }
            if digits_only(d) {
                lemma_digits_value_prefix(d, i - start + 1);
            }
        }
        if digit > max || value > (max - digit) / 10 {
            return None;
        }
        value = value * 10 + digit;
        i = i + 1;
    }
    proof {
        assert(d.take(i - start) =~= d);
    }
    Some(value)
}

/// Reads a number field under "parse or 0": the `u32` that `s` writes, 0
/// where it writes none.
pub fn parse_u32_or_default(s: &str) -> (r: u32)
    ensures
        r == field_u32(s@, 0),
{
    match parse_decimal(s.as_bytes(), 0xffff_ffff) {
        Some(v) => v as u32,
        None => 0,
    }
}

/// Reads a number field, `default` where it holds no `u32`.
pub fn parse_u32_or(s: &str, default: u32) -> (r: u32)
    ensures
        r == field_u32(s@, default),
{
    match parse_decimal(s.as_bytes(), 0xffff_ffff) {
        Some(v) => v as u32,
        None => default,
    }
}

/// The text of field `i` of a body.
pub fn field(body: &Vec<String>, i: usize) -> (s: &str)
    requires
        i < body@.len(),
    ensures
        s@ == texts_view(body@)[i as int],
{
    body[i].as_str()
}

/// A copy of field `i` of a body.
pub fn field_text(body: &Vec<String>, i: usize) -> (s: String)
    requires
        i < body@.len(),
    ensures
        s@ == texts_view(body@)[i as int],
{
    body[i].clone()
}

/// Field `i` of a body is exactly `"1"`: how the wire says yes.
pub fn field_is_one(body: &Vec<String>, i: usize) -> (r: bool)
    requires
        i < body@.len(),
    ensures
        r == (texts_view(body@)[i as int] == "1"@),
{
    text_eq(body[i].as_str(), "1")
}

/// The user id of field `i` of a body, without its instance suffix.
pub fn field_user_id(body: &Vec<String>, i: usize) -> (s: String)
    requires
        i < body@.len(),
    ensures
        s@ == normalized_id(texts_view(body@)[i as int]),
{
    normalize_user_id(body[i].as_str())
}

/// The number that field `i` of a body holds, 0 where it holds none.
pub fn field_number(body: &Vec<String>, i: usize) -> (r: u32)
    requires
        i < body@.len(),
    ensures
        r == field_u32(texts_view(body@)[i as int], 0),
{
    parse_u32_or_default(body[i].as_str())
}

/// Two texts hold the same characters.
pub fn text_eq(a: &str, b: &str) -> (r: bool)
    ensures
        r == (a@ == b@),
{
    let x = a.as_bytes();
    let y = b.as_bytes();
    proof {
        encode_utf8_decode_utf8(a@);
        encode_utf8_decode_utf8(b@);
    }
    if x.len() != y.len() {
        return false;
    }
    let mut i: usize = 0;
    while i < x.len()
        invariant
            i <= x@.len(),
            x@.len() == y@.len(),
            x@ == encode_utf8(a@),
            y@ == encode_utf8(b@),
            forall|j: int| 0 <= j < i ==> x@[j] == y@[j],
        decreases x@.len() - i,
    {
        if x[i] != y[i] {
            return false;
        }
        i = i + 1;
    }
    proof {
        assert(x@ =~= y@);
    }
    true
}

/// A decimal digit character, `'0'..='9'`.
pub open spec fn is_digit_char(c: char) -> bool {
    '0' <= c && c <= '9'
}

/// The text ends in a connection-instance suffix: `'('`, one decimal digit, `')'`.
pub open spec fn has_instance_suffix(s: Seq<char>) -> bool {
    let n = s.len() as int;
    n >= 3 && s[n - 3] == '(' && is_digit_char(s[n - 2]) && s[n - 1] == ')'
}

/// The user id without its connection-instance suffix, if it has one.
pub open spec fn normalized_id(s: Seq<char>) -> Seq<char> {
    if has_instance_suffix(s) {
        s.take(s.len() - 3)
    } else {
        s
    }
}

/// Normalizing is idempotent: a normalized id is normalized to itself.
/// This holds of every id but those that end in two instance suffixes, one
/// after the other: normalizing strips one suffix, and what is left of such
/// an id ends in the other.
pub proof fn lemma_normalize_idempotent(s: Seq<char>)
    requires
        !has_instance_suffix(normalized_id(s)),
    ensures
        normalized_id(normalized_id(s)) == normalized_id(s),
{
}

/// Normalizing strips one suffix and no more: the normalized id is the id
/// itself, or the id without its last three characters.
pub proof fn lemma_normalize_strips_one(s: Seq<char>)
    ensures
        has_instance_suffix(s) ==> normalized_id(s).len() + 3 == s.len() && normalized_id(s)
            + seq!['(', s[s.len() - 2], ')'] == s,
        !has_instance_suffix(s) ==> normalized_id(s) == s,
{
    if has_instance_suffix(s) {
        assert(normalized_id(s) + seq!['(', s[s.len() - 2], ')'] =~= s);
    }
}

/// The same test on the UTF-8 bytes of a text.
pub open spec fn bytes_have_instance_suffix(b: Seq<u8>) -> bool {
    let n = b.len() as int;
    n >= 3 && b[n - 3] == 0x28 && is_ascii_digit(b[n - 2]) && b[n - 1] == 0x29
}

/// A text ends in an instance suffix exactly when its UTF-8 bytes do, and
/// the suffix then takes the last three bytes.
pub proof fn lemma_instance_suffix_bytes(s: Seq<char>)
    ensures
        has_instance_suffix(s) == bytes_have_instance_suffix(encode_utf8(s)),
        has_instance_suffix(s) ==> encode_utf8(s.take(s.len() - 3)) == encode_utf8(s).take(
            encode_utf8(s).len() - 3,
        ),
{
    let b = encode_utf8(s);
    let n = s.len() as int;
    let m = b.len() as int;
    encode_utf8_valid_utf8(s);
    encode_utf8_decode_utf8(s);
    if has_instance_suffix(s) {
        let head = s.take(n - 3);
        let tail = s.skip(n - 3);
        assert(s =~= head + tail);
        lemma_encode_utf8_concat(head, tail);
        assert(is_ascii_chars(tail));
        is_ascii_chars_encode_utf8(tail);
        let tb = encode_utf8(tail);
        assert(tb.len() == 3);
        assert(tb[0] == tail[0] as u8);
        assert(tb[1] == tail[1] as u8);
        assert(tb[2] == tail[2] as u8);
        assert(b =~= encode_utf8(head) + tb);
        assert(b[m - 3] == tb[0]);
        assert(b[m - 2] == tb[1]);
        assert(b[m - 1] == tb[2]);
        assert(b.take(m - 3) =~= encode_utf8(head));
    }
    if bytes_have_instance_suffix(b) {
        is_char_boundary_iff_not_is_continuation_byte(b, m - 3);
        let hb = b.subrange(0, m - 3);
        let tb = b.subrange(m - 3, m);
        valid_utf8_split(b, m - 3);
        decode_utf8_split(b, m - 3);
        lemma_decode_ascii(tb);
        let tail = decode_utf8(tb);
        let head = decode_utf8(hb);
        assert(s =~= head + tail);
        assert(tail.len() == 3);
        assert(s[n - 3] == tail[0]);
        assert(s[n - 2] == tail[1]);
        assert(s[n - 1] == tail[2]);
    }
}

/// Strips a trailing `"(<digit>)"` from a user id: it names one connection
/// of the user, not the user.
pub fn normalize_user_id(user_id: &str) -> (r: String)
    ensures
        r@ == normalized_id(user_id@),
{
    let bytes = user_id.as_bytes();
    let len: usize = bytes.len();
    proof {
        lemma_instance_suffix_bytes(user_id@);
        encode_utf8_valid_utf8(user_id@);
        encode_utf8_decode_utf8(user_id@);
    }
    if len >= 3 && bytes[len - 1] == 0x29 && bytes[len - 2] >= 0x30 && bytes[len - 2] <= 0x39
        && bytes[len - 3] == 0x28 {
        proof {
            is_char_boundary_iff_not_is_continuation_byte(bytes@, len - 3);
        }
        let (head, _tail) = user_id.split_at(len - 3);
        proof {
            encode_utf8_decode_utf8(head@);
            encode_utf8_decode_utf8(user_id@.take(user_id@.len() - 3));
            assert(bytes@.subrange(0, len - 3) =~= bytes@.take(len - 3));
        }
        head.to_owned()
    } else {
        user_id.to_owned()
    }
}

} // verus!
