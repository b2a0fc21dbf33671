//! Text and its UTF-8 bytes: the conversions between the two, and decimal
//! numbers written out as digits.

use vstd::prelude::*;
use vstd::string::*;
use vstd::utf8::*;

verus! {

/// The text that `bytes` becomes when every ill-formed part of it is
/// replaced by U+FFFD, as the standard library's lossy conversion does it.
/// For well-formed UTF-8 this is the decoded text; for the rest the
/// conversion is left unstated here.
pub uninterp spec fn lossy_text(bytes: Seq<u8>) -> Seq<char>;

/// The text that `s` becomes in lower case, by the Unicode rules that the
/// standard library follows.
pub uninterp spec fn lowercase_text(s: Seq<char>) -> Seq<char>;

/// `std::str::from_utf8`: the text that the bytes encode, where they are
/// well-formed UTF-8, and nothing where they are not.
#[verifier::external_body]
pub(crate) fn utf8_text(bytes: &[u8]) -> (r: Option<&str>)
    ensures
        r is Some <==> valid_utf8(bytes@),
        r matches Some(s) ==> s@ == decode_utf8(bytes@),
{
    match std::str::from_utf8(bytes) {
        Ok(s) => Some(s),
        Err(_) => None,
    }
}

/// `String::from_utf8_lossy`: never fails; on well-formed UTF-8 it returns
/// the text unchanged.
#[verifier::external_body]
pub(crate) fn utf8_lossy_text(bytes: &[u8]) -> (r: String)
    ensures
        r@ == lossy_text(bytes@),
        valid_utf8(bytes@) ==> r@ == decode_utf8(bytes@),
{
    String::from_utf8_lossy(bytes).into_owned()
}

/// `str::to_lowercase`: the text in lower case.
#[verifier::external_body]
pub(crate) fn to_lowercase(s: &str) -> (r: String)
    ensures
        r@ == lowercase_text(s@),
{
    s.to_lowercase()
}

/// The text that bytes stand for: the decoded text where they are
/// well-formed UTF-8, else the lossy conversion.
pub open spec fn text_of(bytes: Seq<u8>) -> Seq<char> {
    if valid_utf8(bytes) {
        decode_utf8(bytes)
    } else {
        lossy_text(bytes)
    }
}

/// Decodes bytes as UTF-8, substituting replacement characters for
/// ill-formed sequences.
pub fn decode_text(bytes: &[u8]) -> (r: String)
    ensures
        r@ == text_of(bytes@),
{
    match utf8_text(bytes) {
        Some(s) => s.to_owned(),
        None => utf8_lossy_text(bytes),
    }
}

/// The UTF-8 encoding of a concatenation is the concatenation of the
/// encodings.
pub proof fn lemma_encode_utf8_concat(a: Seq<char>, b: Seq<char>)
    ensures
        encode_utf8(a + b) == encode_utf8(a) + encode_utf8(b),
    decreases a.len(),
{
    if a.len() == 0 {
        assert(a + b =~= b);
        assert(encode_utf8(a) + encode_utf8(b) =~= encode_utf8(b));
    } else {
        lemma_encode_utf8_concat(a.drop_first(), b);
        assert((a + b).drop_first() =~= a.drop_first() + b);
        assert((a + b)[0] == a[0]);
        assert(encode_utf8(a + b) =~= encode_scalar(a[0] as u32) + (encode_utf8(a.drop_first())
            + encode_utf8(b)));
        assert(encode_utf8(a) + encode_utf8(b) =~= encode_scalar(a[0] as u32) + (encode_utf8(
            a.drop_first(),
        ) + encode_utf8(b)));
    }
}

/// Bytes below 0x80 are valid UTF-8 and decode to one character each.
pub proof fn lemma_decode_ascii(b: Seq<u8>)
    requires
        forall|i: int| 0 <= i < b.len() ==> #[trigger] b[i] < 0x80,
    ensures
        valid_utf8(b),
        decode_utf8(b).len() == b.len(),
        forall|i: int| 0 <= i < b.len() ==> #[trigger] decode_utf8(b)[i] == b[i] as char,
    decreases b.len(),
{
    if b.len() > 0 {
        let first = b[0];
        assert(first < 0x80);
        assert(first & 0x7f == first) by (bit_vector)
            requires
                first < 0x80,
        ;
        let rest = pop_first_scalar(b);
        assert(rest =~= b.subrange(1, b.len() as int));
        assert forall|i: int| 0 <= i < rest.len() implies #[trigger] rest[i] < 0x80 by {
            assert(rest[i] == b[i + 1]);
        }
        lemma_decode_ascii(rest);
        assert forall|i: int| 0 <= i < b.len() implies #[trigger] decode_utf8(b)[i]
            == b[i] as char by {
            if i > 0 {
                assert(decode_utf8(b)[i] == decode_utf8(rest)[i - 1]);
                assert(rest[i - 1] == b[i]);
            }
        }
    }
}

/// The byte of a carriage return.
pub const CARRIAGE_RETURN: u8 = 0x0d;

/// A character that is no carriage return.
pub open spec fn is_kept_char() -> spec_fn(char) -> bool {
    |c: char| c != '\r'
}

/// A byte that is no carriage return.
pub open spec fn is_kept_byte() -> spec_fn(u8) -> bool {
    |b: u8| b != CARRIAGE_RETURN
}

/// The text without its carriage returns.
pub open spec fn without_carriage_returns(s: Seq<char>) -> Seq<char> {
    s.filter(is_kept_char())
}

/// A sequence whose items are all kept is kept whole, and one whose items
/// are all dropped is dropped whole.
proof fn lemma_filter_all_or_none<A>(s: Seq<A>, keep: spec_fn(A) -> bool)
    ensures
        (forall|i: int| 0 <= i < s.len() ==> keep(#[trigger] s[i])) ==> s.filter(keep) == s,
        (forall|i: int| 0 <= i < s.len() ==> !keep(#[trigger] s[i])) ==> s.filter(keep).len() == 0,
    decreases s.len(),
{
    reveal(Seq::filter);
    if s.len() > 0 {
        lemma_filter_all_or_none(s.drop_last(), keep);
        if forall|i: int| 0 <= i < s.len() ==> keep(#[trigger] s[i]) {
            assert forall|i: int| 0 <= i < s.drop_last().len() implies keep(
                #[trigger] s.drop_last()[i],
            ) by {
                assert(s.drop_last()[i] == s[i]);
            }
            assert(keep(s.last()));
            assert(s.drop_last().push(s.last()) =~= s);
        }
        if forall|i: int| 0 <= i < s.len() ==> !keep(#[trigger] s[i]) {
            assert forall|i: int| 0 <= i < s.drop_last().len() implies !keep(
                #[trigger] s.drop_last()[i],
            ) by {
                assert(s.drop_last()[i] == s[i]);
            }
            assert(!keep(s.last()));
        }
    }
}

/// The encoding of one character holds the byte of a carriage return only
/// where the character is one, and is then that byte alone.
proof fn lemma_carriage_return_in_scalar(c: char)
    ensures
        c == '\r' ==> encode_scalar(c as u32).filter(is_kept_byte()).len() == 0,
        c != '\r' ==> encode_scalar(c as u32).filter(is_kept_byte()) == encode_scalar(c as u32),
{
    let v = c as u32;
    let e = encode_scalar(v);
    char_is_scalar(c);
    if has_width_1_encoding(v) {
        let b0 = leading_byte_width_1(v);
        assert(b0 == v) by (bit_vector)
            requires
                v <= 0x7f,
                b0 == (v & 0x7f) as u8,
        ;
        assert(e =~= seq![b0]);
        assert forall|i: int| 0 <= i < e.len() implies (#[trigger] e[i] != CARRIAGE_RETURN) == (c
            != '\r') by {
            assert(e[i] == b0);
        }
    } else {
        let high = (v >> 18) & 0x7;
        let upper = (v >> 12) & 0x3f;
        let top = (v >> 12) & 0x0f;
        let middle = (v >> 6) & 0x3f;
        let mid = (v >> 6) & 0x1f;
        let low = v & 0x3f;
        assert((0xC0u8 | (mid as u8)) >= 0x80 && (0xE0u8 | (top as u8)) >= 0x80 && (0xF0u8 | (
        high as u8)) >= 0x80 && (0x80u8 | (upper as u8)) >= 0x80 && (0x80u8 | (middle as u8))
            >= 0x80 && (0x80u8 | (low as u8)) >= 0x80) by (bit_vector);
        assert forall|i: int| 0 <= i < e.len() implies #[trigger] e[i] != CARRIAGE_RETURN by {
            if has_width_2_encoding(v) {
                assert(e =~= seq![leading_byte_width_2(v), last_continuation_byte(v)]);
            } else if has_width_3_encoding(v) {
                assert(e =~= seq![
                    leading_byte_width_3(v),
                    second_last_continuation_byte(v),
                    last_continuation_byte(v),
                ]);
            } else {
                assert(e =~= seq![
                    leading_byte_width_4(v),
                    third_last_continuation_byte(v),
                    second_last_continuation_byte(v),
                    last_continuation_byte(v),
                ]);
            }
        }
    }
    lemma_filter_all_or_none(e, is_kept_byte());
}

/// Dropping the carriage returns of a text drops their bytes from its
/// encoding, and nothing else.
pub proof fn lemma_without_carriage_returns(s: Seq<char>)
    ensures
        encode_utf8(s).filter(is_kept_byte()) == encode_utf8(without_carriage_returns(s)),
    decreases s.len(),
{
    let keep_char = is_kept_char();
    let keep_byte = is_kept_byte();
    if s.len() == 0 {
        lemma_filter_all_or_none(s, keep_char);
        lemma_filter_all_or_none(encode_utf8(s), keep_byte);
    } else {
        let first = seq![s[0]];
        let rest = s.drop_first();
        let head = encode_scalar(s[0] as u32);
        let kept_rest = rest.filter(keep_char);
        lemma_without_carriage_returns(rest);
        lemma_carriage_return_in_scalar(s[0]);
        lemma_filter_all_or_none(first, keep_char);
        assert(s.filter(keep_char) == first.filter(keep_char) + kept_rest) by {
            assert(s =~= first + rest);
            Seq::filter_distributes_over_add(first, rest, keep_char);
        }
        assert(encode_utf8(s).filter(keep_byte) == head.filter(keep_byte) + encode_utf8(
            kept_rest,
        )) by {
            Seq::filter_distributes_over_add(head, encode_utf8(rest), keep_byte);
        }
        if s[0] == '\r' {
            assert(first.filter(keep_char) + kept_rest =~= kept_rest);
            assert(head.filter(keep_byte) + encode_utf8(kept_rest) =~= encode_utf8(kept_rest));
        } else {
            let kept = first + kept_rest;
            assert(kept[0] == s[0]);
            assert(kept.drop_first() =~= kept_rest);
        }
    }
}

/// Copies a text without its carriage returns.
pub fn strip_carriage_returns(s: &str) -> (r: String)
    ensures
        r@ == without_carriage_returns(s@),
{
    let bytes = s.as_bytes();
    let mut kept: Vec<u8> = Vec::new();
    let mut i: usize = 0;
    proof {
        reveal(Seq::filter);
        assert(bytes@.take(0) =~= Seq::<u8>::empty());
    }
    while i < bytes.len()
        invariant
            i <= bytes@.len(),
            kept@ == bytes@.take(i as int).filter(is_kept_byte()),
        decreases bytes@.len() - i,
    {
        let b: u8 = bytes[i];
        if b != CARRIAGE_RETURN {
            kept.push(b);
        }
        proof {
            reveal(Seq::filter);
            let next = bytes@.take(i + 1);
            assert(next.drop_last() =~= bytes@.take(i as int));
            assert(next.last() == b);
        }
        i = i + 1;
    }
    proof {
        assert(bytes@.take(i as int) =~= bytes@);
        lemma_without_carriage_returns(s@);
        encode_utf8_valid_utf8(without_carriage_returns(s@));
        encode_utf8_decode_utf8(without_carriage_returns(s@));
    }
    match utf8_text(kept.as_slice()) {
        Some(text) => text.to_owned(),
        None => String::new(),
    }
}

/// The decimal digits of `n`, most significant first, without leading zeros.
pub open spec fn decimal_digits(n: nat) -> Seq<u8>
    decreases n,
{
    if n < 10 {
        seq![(0x30 + n) as u8]
    } else {
        decimal_digits(n / 10).push((0x30 + n % 10) as u8)
    }
}

/// The last `width` decimal digits of `n`, most significant first, with
/// zeros in front where `n` has fewer.
pub open spec fn padded_digits(n: nat, width: nat) -> Seq<u8>
    decreases width,
{
    if width == 0 {
        Seq::<u8>::empty()
    } else {
        padded_digits(n / 10, (width - 1) as nat).push((0x30 + n % 10) as u8)
    }
}

/// Ten to the power `e`.
pub open spec fn pow10(e: nat) -> nat
    decreases e,
{
    if e == 0 {
        1
    } else {
        10 * pow10((e - 1) as nat)
    }
}

/// Fixed-width digits are as many as the width, each in `'0'..='9'`.
pub proof fn lemma_padded_digits(n: nat, width: nat)
    ensures
        padded_digits(n, width).len() == width,
        forall|i: int|
            0 <= i < width ==> 0x30 <= #[trigger] padded_digits(n, width)[i] <= 0x39,
    decreases width,
{
    if width > 0 {
        lemma_padded_digits(n / 10, (width - 1) as nat);
    }
}

/// A number has at least one digit, each in `'0'..='9'`.
pub proof fn lemma_decimal_digits(n: nat)
    ensures
        decimal_digits(n).len() >= 1,
        forall|i: int|
            0 <= i < decimal_digits(n).len() ==> 0x30 <= #[trigger] decimal_digits(n)[i] <= 0x39,
    decreases n,
{
    if n >= 10 {
        lemma_decimal_digits(n / 10);
    }
}

/// Writes `n` in exactly `width` decimal digits, zero-filled on the left.
/// Of a number with more digits only the last `width` are written.
pub fn write_padded(out: &mut Vec<u8>, n: u64, width: usize)
    ensures
        final(out)@ == old(out)@ + padded_digits(n as nat, width as nat),
{
    let ghost before = out@;
    let mut digits: Vec<u8> = Vec::new();
    let mut rest: u64 = n;
    let mut k: usize = 0;
    // least significant digit first
    while k < width
        invariant
            k <= width,
            digits@.len() == k,
            forall|w: nat| #[trigger]
                padded_digits(n as nat, (k + w) as nat) == padded_digits(rest as nat, w)
                    + digits@.reverse(),
        decreases width - k,
    {
        let d: u8 = (rest % 10) as u8;
        let ghost prev = digits@;
        let ghost prev_rest = rest;
        digits.push(0x30 + d);
        rest = rest / 10;
        k = k + 1;
        proof {
            assert forall|w: nat| #[trigger]
                padded_digits(n as nat, (k + w) as nat) == padded_digits(rest as nat, w)
                    + digits@.reverse() by {
                assert(padded_digits(n as nat, ((k - 1) + (w + 1)) as nat) == padded_digits(
                    prev_rest as nat,
                    w + 1,
                ) + prev.reverse());
                assert(padded_digits(prev_rest as nat, w + 1) == padded_digits(rest as nat, w).push(
                    (0x30 + prev_rest % 10) as u8,
                ));
                assert(digits@.reverse() =~= seq![(0x30 + d) as u8] + prev.reverse());
                assert(padded_digits(rest as nat, w).push((0x30 + d) as u8) + prev.reverse()
                    =~= padded_digits(rest as nat, w) + (seq![(0x30 + d) as u8] + prev.reverse()));
            }
        }
    }
    proof {
        assert(padded_digits(n as nat, (k + 0) as nat) == padded_digits(rest as nat, 0)
            + digits@.reverse());
        assert(padded_digits(rest as nat, 0) + digits@.reverse() =~= digits@.reverse());
    }
    let mut j: usize = width;
    while j > 0
        invariant
            j <= width,
            digits@.len() == width,
            out@ == before + digits@.reverse().take(width - j),
        decreases j,
    {
        j = j - 1;
        out.push(digits[j]);
        proof {
            let r = digits@.reverse();
            assert(r[width - 1 - j] == digits@[j as int]);
            assert(r.take(width - j) =~= r.take(width - j - 1).push(r[width - 1 - j]));
        }
    }
    proof {
        assert(digits@.reverse().take(width as int) =~= digits@.reverse());
    }
}

/// A number as decimal text.
pub open spec fn decimal_text(n: nat) -> Seq<char> {
    decode_utf8(decimal_digits(n))
}

/// Writes `n` in decimal, without leading zeros.
pub fn u64_to_text(n: u64) -> (r: String)
    ensures
        r@ == decimal_text(n as nat),
{
    let mut reversed: Vec<u8> = Vec::new();
    let mut rest: u64 = n;
    // least significant digit first
    while rest >= 10
        invariant
            decimal_digits(n as nat) == decimal_digits(rest as nat) + reversed@.reverse(),
        decreases rest,
    {
        let d: u8 = (rest % 10) as u8;
        let ghost prev = reversed@;
        let ghost prev_rest = rest;
        reversed.push(0x30 + d);
        rest = rest / 10;
        proof {
            assert(reversed@.reverse() =~= seq![(0x30 + d) as u8] + prev.reverse());
            assert(decimal_digits(prev_rest as nat) == decimal_digits(rest as nat).push(
                (0x30 + d) as u8,
            ));
            assert(decimal_digits(rest as nat).push((0x30 + d) as u8) + prev.reverse()
                =~= decimal_digits(rest as nat) + (seq![(0x30 + d) as u8] + prev.reverse()));
        }
    }
    let mut digits: Vec<u8> = Vec::new();
    digits.push(0x30 + (rest as u8));
    let mut j: usize = reversed.len();
    while j > 0
        invariant
            j <= reversed@.len(),
            digits@ == seq![(0x30 + rest) as u8] + reversed@.reverse().take(reversed@.len() - j),
        decreases j,
    {
        j = j - 1;
        digits.push(reversed[j]);
        proof {
            let r = reversed@.reverse();
            let m = reversed@.len() as int;
            assert(r[m - 1 - j] == reversed@[j as int]);
            assert(r.take(m - j) =~= r.take(m - j - 1).push(r[m - 1 - j]));
        }
    }
    proof {
        assert(reversed@.reverse().take(reversed@.len() as int) =~= reversed@.reverse());
        assert(digits@ =~= decimal_digits(n as nat));
        lemma_decimal_digits(n as nat);
        lemma_decode_ascii(digits@);
    }
    match utf8_text(digits.as_slice()) {
        Some(s) => s.to_owned(),
        None => String::new(),
    }
}

} // verus!
