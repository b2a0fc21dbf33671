//! Decoding of a frame: the two numbers of its header and the text fields
//! of its body.
//!
//! The body length that the header declares is not consulted: the body is
//! whatever follows the header, to the end of the frame.

use crate::chat::constants::message_codes::MessageCode;
use crate::chat::constants::{HEADER_LEN, SEPARATOR_U8};
use crate::chat::events::{texts_view, Timestamp};
use crate::chat::parser::util::{parse_decimal, u32_or};
use crate::error::Error;
use crate::text::{decode_text, text_of};
use vstd::prelude::*;
use vstd::slice::slice_subrange;

verus! {

/// A decoded frame.
#[derive(Debug, PartialEq, Eq)]
pub struct RawMessage {
    /// The opcode.
    pub code: MessageCode,
    /// The return code of the header. Informational.
    pub ret_code: u32,
    /// The fields of the body, in order.
    pub body: Vec<String>,
    /// When the frame was received.
    pub received_time: Timestamp,
}

/// The mathematical model of a [`RawMessage`].
pub struct RawMessageView {
    pub code: MessageCode,
    pub ret_code: u32,
    pub body: Seq<Seq<char>>,
    pub received_time: Timestamp,
}

impl View for RawMessage {
    type V = RawMessageView;

    open spec fn view(&self) -> RawMessageView {
        RawMessageView {
            code: self.code,
            ret_code: self.ret_code,
            body: texts_view(self.body@),
            received_time: self.received_time,
        }
    }
}

/// The two numbers of a header.
#[derive(Debug, Clone, Copy, PartialEq, Eq, Structural)]
pub struct MessageHeader {
    pub code: MessageCode,
    pub ret_code: u32,
}

/// How many bytes of `s` come before its first `sep`; all of them where it
/// holds none.
pub open spec fn chunk_len(s: Seq<u8>, sep: u8) -> nat
    decreases s.len(),
{
    if s.len() == 0 || s[0] == sep {
        0
    } else {
        1 + chunk_len(s.skip(1), sep)
    }
}

/// The pieces of `s` between its separators, in order. A sequence with `n`
/// separators has `n + 1` pieces; a piece is empty where two separators
/// meet, or where one stands at either end.
pub open spec fn split_on(s: Seq<u8>, sep: u8) -> Seq<Seq<u8>>
    decreases s.len(),
    via split_on_decreases
{
    let n = chunk_len(s, sep) as int;
    if n >= s.len() {
        seq![s]
    } else {
        seq![s.take(n)] + split_on(s.skip(n + 1), sep)
    }
}

#[via_fn]
proof fn split_on_decreases(s: Seq<u8>, sep: u8) {
    lemma_chunk_len(s, sep);
}

/// The first chunk ends at the first separator, or at the end.
pub proof fn lemma_chunk_len(s: Seq<u8>, sep: u8)
    ensures
        chunk_len(s, sep) <= s.len(),
        forall|k: int| 0 <= k < chunk_len(s, sep) ==> s[k] != sep,
        chunk_len(s, sep) < s.len() ==> s[chunk_len(s, sep) as int] == sep,
    decreases s.len(),
{
    if s.len() == 0 || s[0] == sep {
    } else {
        lemma_chunk_len(s.skip(1), sep);
        assert forall|k: int| 0 <= k < chunk_len(s, sep) implies s[k] != sep by {
            if k > 0 {
                assert(s.skip(1)[k - 1] == s[k]);
            }
        }
    }
}

/// A run without a separator that ends at one, or at the end, is the
/// first chunk.
pub proof fn lemma_chunk_len_is(s: Seq<u8>, sep: u8, m: int)
    requires
        0 <= m <= s.len(),
        forall|k: int| 0 <= k < m ==> s[k] != sep,
        m < s.len() ==> s[m] == sep,
    ensures
        chunk_len(s, sep) == m,
{
    lemma_chunk_len(s, sep);
    let c = chunk_len(s, sep) as int;
    if c < m {
        assert(s[c] == sep);
    }
}

/// No piece holds a separator, and the pieces number one more than the
/// separators of the sequence.
pub proof fn lemma_split_on(s: Seq<u8>, sep: u8)
    ensures
        split_on(s, sep).len() == 1 + s.filter(|b: u8| b == sep).len(),
        forall|i: int, k: int|
            0 <= i < split_on(s, sep).len() && 0 <= k < split_on(s, sep)[i].len()
                ==> #[trigger] split_on(s, sep)[i][k] != sep,
    decreases s.len(),
{
    let is_sep = |b: u8| b == sep;
    lemma_chunk_len(s, sep);
    let n = chunk_len(s, sep) as int;
    let head = s.take(n);
    assert(head.filter(is_sep).len() == 0) by {
        lemma_filter_none(head, sep);
    }
    if n >= s.len() {
        assert(head =~= s);
    } else {
        let rest = s.skip(n + 1);
        lemma_split_on(rest, sep);
        assert(s =~= head + seq![sep] + rest);
        Seq::filter_distributes_over_add(head + seq![sep], rest, is_sep);
        Seq::filter_distributes_over_add(head, seq![sep], is_sep);
        assert(seq![sep].filter(is_sep) =~= seq![sep]) by {
            reveal(Seq::filter);
            assert(seq![sep].drop_last() =~= Seq::<u8>::empty());
        }
        let pieces = split_on(s, sep);
        assert forall|i: int, k: int| 0 <= i < pieces.len() && 0 <= k < pieces[i].len() implies
            #[trigger] pieces[i][k] != sep by {
            if i > 0 {
                assert(pieces[i] == split_on(rest, sep)[i - 1]);
            }
        }
    }
}

/// The pieces with a separator between each two of them.
pub open spec fn joined(pieces: Seq<Seq<u8>>, sep: u8) -> Seq<u8>
    decreases pieces.len(),
{
    if pieces.len() == 0 {
        Seq::<u8>::empty()
    } else if pieces.len() == 1 {
        pieces[0]
    } else {
        pieces[0] + seq![sep] + joined(pieces.drop_first(), sep)
    }
}

/// Splitting loses nothing: the pieces, joined again, are the sequence.
pub proof fn lemma_split_join(s: Seq<u8>, sep: u8)
    ensures
        joined(split_on(s, sep), sep) == s,
    decreases s.len(),
{
    lemma_chunk_len(s, sep);
    let n = chunk_len(s, sep) as int;
    if n < s.len() {
        let rest = s.skip(n + 1);
        lemma_split_join(rest, sep);
        lemma_split_on(rest, sep);
        let pieces = split_on(s, sep);
        assert(pieces.drop_first() =~= split_on(rest, sep));
        assert(pieces[0] == s.take(n));
        assert(s =~= s.take(n) + seq![sep] + rest);
    }
}

/// A run without a separator has none to keep.
proof fn lemma_filter_none(s: Seq<u8>, sep: u8)
    requires
        forall|k: int| 0 <= k < s.len() ==> s[k] != sep,
    ensures
        s.filter(|b: u8| b == sep).len() == 0,
    decreases s.len(),
{
    reveal(Seq::filter);
    if s.len() > 0 {
        lemma_filter_none(s.drop_last(), sep);
    }
}

/// The text fields of a body. A body of fewer than two bytes has none.
/// Otherwise the first byte, the leading separator, is dropped, the rest is
/// split at each separator, and every piece is decoded as text. Empty pieces
/// are kept, also at the end: the number of fields is significant.
pub open spec fn body_fields(body: Seq<u8>) -> Seq<Seq<char>> {
    if body.len() < 2 {
        Seq::<Seq<char>>::empty()
    } else {
        texts_of(split_on(body.skip(1), SEPARATOR_U8))
    }
}

/// The texts that pieces of bytes stand for, one by one.
pub open spec fn texts_of(pieces: Seq<Seq<u8>>) -> Seq<Seq<char>> {
    Seq::new(pieces.len(), |i: int| text_of(pieces[i]))
}

/// The opcode that a header holds: bytes 2 to 5, read as decimal, 0 where
/// they are no number.
pub open spec fn header_code(frame: Seq<u8>) -> u32 {
    u32_or(frame.subrange(2, 6), 0)
}

/// The return code that a header holds: bytes 12 and 13.
pub open spec fn header_ret_code(frame: Seq<u8>) -> u32 {
    u32_or(frame.subrange(12, 14), 0)
}

/// The body length that a header declares: bytes 6 to 11.
pub open spec fn header_body_len(frame: Seq<u8>) -> u32 {
    u32_or(frame.subrange(6, 12), 0)
}

/// The message that a frame of at least 14 bytes decodes to.
pub open spec fn decoded(frame: Seq<u8>, received_time: Timestamp) -> RawMessageView {
    RawMessageView {
        code: header_code(frame),
        ret_code: header_ret_code(frame),
        body: body_fields(frame.skip(HEADER_LEN as int)),
        received_time,
    }
}

/// The body length that a header declares is not consulted. Two frames
/// that differ in nothing but the six bytes that declare it decode to the
/// same message; and where the declared length is the length of what follows
/// the header, the fields are those of exactly that many bytes.
pub proof fn lemma_declared_length_not_consulted(
    frame: Seq<u8>,
    other: Seq<u8>,
    received_time: Timestamp,
)
    requires
        frame.len() >= HEADER_LEN,
        other.len() == frame.len(),
        forall|i: int| 0 <= i < frame.len() && !(6 <= i < 12) ==> frame[i] == other[i],
    ensures
        decoded(frame, received_time) == decoded(other, received_time),
        header_body_len(frame) == frame.len() - HEADER_LEN ==> decoded(frame, received_time).body
            == body_fields(frame.subrange(HEADER_LEN as int, HEADER_LEN + header_body_len(frame))),
{
    assert(frame.subrange(2, 6) =~= other.subrange(2, 6));
    assert(frame.subrange(12, 14) =~= other.subrange(12, 14));
    assert(frame.skip(HEADER_LEN as int) =~= other.skip(HEADER_LEN as int));
    if header_body_len(frame) == frame.len() - HEADER_LEN {
        assert(frame.subrange(HEADER_LEN as int, HEADER_LEN + header_body_len(frame))
            =~= frame.skip(HEADER_LEN as int));
    }
}

/// The clock of the machine, by `chrono::Utc::now`, taken apart into whole
/// seconds and nanoseconds. Nothing is claimed of the instant.
#[verifier::external_body]
pub(crate) fn now_utc() -> Timestamp {
    let now = chrono::Utc::now();
    Timestamp { seconds: now.timestamp(), nanos: now.timestamp_subsec_nanos() }
}

/// Decodes a frame, stamped with the time of the call.
///
/// Fails with `InvalidFrame` exactly on a frame shorter than its header.
pub fn parse_message(data: &[u8]) -> (r: Result<RawMessage, Error>)
    ensures
        match r {
            Ok(message) => data@.len() >= HEADER_LEN && message@ == decoded(
                data@,
                message.received_time,
            ),
            Err(e) => data@.len() < HEADER_LEN && e is InvalidFrame,
        },
{
    let now = now_utc();
    parse_message_at(data, now)
}

/// Decodes a frame that was received at `received_time`.
///
/// Fails with `InvalidFrame` exactly on a frame shorter than its header.
pub fn parse_message_at(data: &[u8], received_time: Timestamp) -> (r: Result<RawMessage, Error>)
    ensures
        match r {
            Ok(message) => data@.len() >= HEADER_LEN && message@ == decoded(data@, received_time),
            Err(e) => data@.len() < HEADER_LEN && e is InvalidFrame,
        },
{
    if data.len() < HEADER_LEN {
        return Err(Error::InvalidFrame);
    }
    let header_bytes = slice_subrange(data, 0, HEADER_LEN);
    let header = match parse_header(header_bytes) {
        Ok(header) => header,
        Err(e) => {
            return Err(e);
        },
    };
    let body = slice_subrange(data, HEADER_LEN, data.len());
    proof {
        assert(header_bytes@.subrange(2, 6) =~= data@.subrange(2, 6));
        assert(header_bytes@.subrange(12, 14) =~= data@.subrange(12, 14));
        assert(body@ =~= data@.skip(HEADER_LEN as int));
    }
    Ok(
        RawMessage {
            code: header.code,
            ret_code: header.ret_code,
            body: parse_body(body),
            received_time,
        },
    )
}

/// Reads the opcode and the return code from a header.
///
/// Fails with `InvalidFrame` exactly where `header` is not 14 bytes long.
pub fn parse_header(header: &[u8]) -> (r: Result<MessageHeader, Error>)
    ensures
        match r {
            Ok(h) => header@.len() == HEADER_LEN && h.code == header_code(header@) && h.ret_code
                == header_ret_code(header@),
            Err(e) => header@.len() != HEADER_LEN && e is InvalidFrame,
        },
{
    if header.len() != HEADER_LEN {
        return Err(Error::InvalidFrame);
    }
    Ok(
        MessageHeader {
            code: parse_bytes_to_u32(slice_subrange(header, 2, 6)),
            ret_code: parse_bytes_to_u32(slice_subrange(header, 12, 14)),
        },
    )
}

/// Splits a body into its text fields.
pub fn parse_body(body: &[u8]) -> (fields: Vec<String>)
    ensures
        texts_view(fields@) == body_fields(body@),
{
    let mut fields: Vec<String> = Vec::new();
    if body.len() < 2 {
        proof {
            assert(texts_view(fields@) =~= body_fields(body@));
        }
        return fields;
    }
    let data = slice_subrange(body, 1, body.len());
    let n: usize = data.len();
    let ghost mut done: Seq<Seq<u8>> = Seq::empty();
    let mut start: usize = 0;
    let mut i: usize = 0;
    proof {
        assert(data@ =~= body@.skip(1));
        assert(data@.skip(0) =~= data@);
        assert(texts_view(fields@) =~= texts_of(done));
    }
    while i < n
        invariant
            start <= i <= n,
            n == data@.len(),
            split_on(data@, SEPARATOR_U8) == done + split_on(data@.skip(start as int), SEPARATOR_U8),
            texts_view(fields@) == texts_of(done),
            forall|k: int| start <= k < i ==> data@[k] != SEPARATOR_U8,
        decreases n - i,
    {
        if data[i] == SEPARATOR_U8 {
            let piece = slice_subrange(data, start, i);
            let ghost before = fields@;
            fields.push(decode_text(piece));
            proof {
                let rest = data@.skip(start as int);
                lemma_chunk_len_is(rest, SEPARATOR_U8, i - start);
                assert(rest.take(i - start) =~= piece@);
                assert(rest.skip(i - start + 1) =~= data@.skip(i + 1));
                assert(done + (seq![piece@] + split_on(data@.skip(i + 1), SEPARATOR_U8)) =~= done.push(
                    piece@,
                ) + split_on(data@.skip(i + 1), SEPARATOR_U8));
                assert(texts_view(before).len() == before.len());
                assert(texts_of(done).len() == done.len());
                assert forall|k: int| 0 <= k < fields@.len() implies texts_view(fields@)[k]
                    == texts_of(done.push(piece@))[k] by {
                    if k < before.len() {
                        assert(texts_view(before)[k] == texts_of(done)[k]);
                    }
                }
                assert(texts_view(fields@) =~= texts_of(done.push(piece@)));
                done = done.push(piece@);
            }
            start = i + 1;
        }
        i = i + 1;
    }
    let piece = slice_subrange(data, start, n);
    let ghost before = fields@;
    fields.push(decode_text(piece));
    proof {
        let rest = data@.skip(start as int);
        lemma_chunk_len_is(rest, SEPARATOR_U8, n - start);
        assert(rest =~= piece@);
        assert(texts_view(before).len() == before.len());
        assert(texts_of(done).len() == done.len());
        assert forall|k: int| 0 <= k < fields@.len() implies texts_view(fields@)[k] == texts_of(
            done.push(piece@),
        )[k] by {
            if k < before.len() {
                assert(texts_view(before)[k] == texts_of(done)[k]);
            }
        }
        assert(texts_view(fields@) =~= texts_of(done.push(piece@)));
        assert(done + seq![piece@] =~= done.push(piece@));
    }
    fields
}

/// Reads bytes as a decimal number, 0 where they are none that a `u32`
/// holds.
pub fn parse_bytes_to_u32(bytes: &[u8]) -> (r: u32)
    ensures
        r == u32_or(bytes@, 0),
{
    match parse_decimal(bytes, 0xffff_ffff) {
        Some(v) => v as u32,
        None => 0,
    }
}

} // verus!
