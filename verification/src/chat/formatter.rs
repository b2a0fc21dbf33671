//! Encoding of frames, and the bodies of the frames that the client sends.

use crate::chat::commands::MessageType;
use crate::chat::constants::message_codes;
use crate::chat::constants::{
    BODY_LIMIT, HEADER_LEN, OPCODE_LIMIT, SEPARATOR, SEPARATOR_3_TIMES, SEPARATOR_U8, STARTER_0,
    STARTER_1,
};
use crate::chat::parser::raw::{body_fields, decoded, header_body_len};
use crate::chat::events::Timestamp;
use crate::chat::parser::util::{decimal, digits_only, digits_value, u32_or, unsigned_part};
use crate::error::Error;
use crate::models::{LiveDetail, LiveDetailView};
use crate::text::{lemma_padded_digits, padded_digits, pow10, write_padded};
use vstd::prelude::*;
use vstd::string::*;
use vstd::utf8::*;

verus! {

/// What a JOIN body starts with.
pub const JOIN_HEAD: &'static str = "\x0c";

/// What stands between the room and the password in a JOIN body: the fixed
/// block of client settings, up to and including the password's key.
pub const JOIN_LOG: &'static str =
    "\x0c\x0c0\x0c\x0clog\x11\x06&\x06set_bps\x06=\x068000\x06&\x06view_bps\x06=\x061000\x06&\x06quality\x06=\x06normal\x06&\x06uuid\x06=\x06\x06&\x06geo_cc\x06=\x06KR\x06&\x06geo_rc\x06=\x0626\x06&\x06acpt_lang\x06=\x06ko_KR\x06&\x06svc_lang\x06=\x06ko_KR\x06&\x06subscribe\x06=\x060\x06&\x06lowlatency\x06=\x060\x06&\x06mode\x06=\x06landing\x12pwd\x11";

/// What a JOIN body ends with, after the password.
pub const JOIN_TAIL: &'static str =
    "\x12auth_info\x11NULL\x12pver\x112\x12access_system\x11html5\x12\x0c";

/// The header of a frame: the starter, the opcode in four digits, the body
/// length in six, and the reserved `"00"`.
pub open spec fn frame_header(opcode: u32, body_len: nat) -> Seq<u8> {
    seq![STARTER_0, STARTER_1] + padded_digits(opcode as nat, 4) + padded_digits(body_len, 6)
        + seq![0x30u8, 0x30u8]
}

/// The frame that carries `body` under `opcode`.
pub open spec fn frame_of(opcode: u32, body: Seq<u8>) -> Seq<u8> {
    frame_header(opcode, body.len()) + body
}

/// A frame can be written for this opcode and this body.
pub open spec fn encodable(opcode: u32, body: Seq<u8>) -> bool {
    opcode < OPCODE_LIMIT && body.len() < BODY_LIMIT
}

/// The body of a CONNECT frame.
pub open spec fn connect_packet() -> Seq<char> {
    SEPARATOR_3_TIMES@ + "16"@ + "\x0c"@
}

/// The body of a JOIN frame for a room and a password.
pub open spec fn join_packet(room: Seq<char>, password: Seq<char>) -> Seq<char> {
    JOIN_HEAD@ + room + JOIN_LOG@ + password + JOIN_TAIL@
}

/// The body of a CHAT frame: the text between two separators.
pub open spec fn chat_packet(text: Seq<char>) -> Seq<char> {
    "\x0c"@ + text + "\x0c"@
}

/// The parts, one after the other.
pub open spec fn flattened(parts: Seq<&[u8]>) -> Seq<u8>
    decreases parts.len(),
{
    if parts.len() == 0 {
        Seq::<u8>::empty()
    } else {
        flattened(parts.drop_last()) + parts.last()@
    }
}

/// Copies the parts, one after the other, into one vector.
pub fn flatten_byte_slices(parts: &[&[u8]]) -> (bytes: Vec<u8>)
    ensures
        bytes@ == flattened(parts@),
{
    let mut bytes: Vec<u8> = Vec::new();
    let mut i: usize = 0;
    proof {
        assert(parts@.take(0) =~= Seq::<&[u8]>::empty());
    }
    while i < parts.len()
        invariant
            i <= parts@.len(),
            bytes@ == flattened(parts@.take(i as int)),
        decreases parts@.len() - i,
    {
        bytes.extend_from_slice(parts[i]);
        proof {
            let next = parts@.take(i + 1);
            assert(next.drop_last() =~= parts@.take(i as int));
            assert(next.last() == parts@[i as int]);
        }
        i = i + 1;
    }
    proof {
        assert(parts@.take(i as int) =~= parts@);
    }
    bytes
}

/// Packs a body into a frame.
///
/// Fails with `InvalidFrame` exactly where the opcode has more than four
/// digits or the body is a million bytes or longer.
pub fn encode(opcode: u32, body: &[u8]) -> (r: Result<Vec<u8>, Error>)
    ensures
        match r {
            Ok(frame) => encodable(opcode, body@) && frame@ == frame_of(opcode, body@),
            Err(e) => !encodable(opcode, body@) && e is InvalidFrame,
        },
{
    if opcode >= OPCODE_LIMIT || body.len() >= BODY_LIMIT {
        return Err(Error::InvalidFrame);
    }
    let starter: [u8; 2] = [STARTER_0, STARTER_1];
    let mut code: Vec<u8> = Vec::new();
    write_padded(&mut code, opcode as u64, 4);
    let mut body_len: Vec<u8> = Vec::new();
    write_padded(&mut body_len, body.len() as u64, 6);
    let reserved: [u8; 2] = [0x30, 0x30];
    let mut header_parts: Vec<&[u8]> = Vec::new();
    header_parts.push(starter.as_slice());
    header_parts.push(code.as_slice());
    header_parts.push(body_len.as_slice());
    header_parts.push(reserved.as_slice());
    let mut frame = flatten_byte_slices(header_parts.as_slice());
    proof {
        reveal_with_fuel(flattened, 5);
        let parts = header_parts@;
        assert(parts.drop_last().drop_last().drop_last().drop_last() =~= Seq::<&[u8]>::empty());
        assert(frame@ =~= frame_header(opcode, body@.len()));
    }
    frame.extend_from_slice(body);
    Ok(frame)
}

/// Packs a body into a frame of one of the kinds that the client sends.
///
/// Fails with `InvalidFrame` exactly where the body is a million bytes or
/// longer.
pub fn bundle(message_type: MessageType, body: &[u8]) -> (r: Result<Vec<u8>, Error>)
    ensures
        match r {
            Ok(frame) => body@.len() < BODY_LIMIT && frame@ == frame_of(
                message_type.code(),
                body@,
            ),
            Err(e) => body@.len() >= BODY_LIMIT && e is InvalidFrame,
        },
{
    encode(message_type.to_code(), body)
}

/// Fixed-width digits write the number they were made from.
pub proof fn lemma_padded_digits_value(n: nat, width: nat)
    requires
        n < pow10(width),
    ensures
        digits_value(padded_digits(n, width)) == n,
    decreases width,
{
    if width > 0 {
        let p = padded_digits(n, width);
        assert(p.drop_last() =~= padded_digits(n / 10, (width - 1) as nat));
        assert(p.last() == (0x30 + n % 10) as u8);
        lemma_padded_digits_value(n / 10, (width - 1) as nat);
    }
}

/// A number of at most nine digits, written in fixed width, is read back
/// as itself.
pub proof fn lemma_padded_digits_read_back(n: nat, width: nat)
    requires
        n < pow10(width),
        1 <= width <= 9,
    ensures
        u32_or(padded_digits(n, width), 0) == n,
{
    reveal_with_fuel(pow10, 10);
    let p = padded_digits(n, width);
    lemma_padded_digits(n, width);
    lemma_padded_digits_value(n, width);
    assert(p[0] != 0x2b);
    assert(unsigned_part(p) == p);
    assert(digits_only(p));
    assert(decimal(p, u32::MAX as nat) == Some(n));
}

/// Decoding undoes encoding: the decoded opcode is the encoded one, what
/// follows the header is the body, byte for byte, and the fields are those
/// of the body. The header is 14 bytes long and declares the length of the
/// body.
pub proof fn lemma_encode_decode(opcode: u32, body: Seq<u8>, received_time: Timestamp)
    requires
        opcode < 10000,
        body.len() < 1_000_000,
    ensures
        frame_of(opcode, body).len() == HEADER_LEN + body.len(),
        frame_of(opcode, body).skip(HEADER_LEN as int) == body,
        header_body_len(frame_of(opcode, body)) == body.len(),
        decoded(frame_of(opcode, body), received_time).code == opcode,
        decoded(frame_of(opcode, body), received_time).ret_code == 0,
        decoded(frame_of(opcode, body), received_time).body == body_fields(body),
        decoded(frame_of(opcode, body), received_time).received_time == received_time,
{
    reveal_with_fuel(pow10, 10);
    let frame = frame_of(opcode, body);
    lemma_padded_digits(opcode as nat, 4);
    lemma_padded_digits(body.len(), 6);
    assert(frame.skip(HEADER_LEN as int) =~= body);
    assert(frame.subrange(2, 6) =~= padded_digits(opcode as nat, 4));
    assert(frame.subrange(6, 12) =~= padded_digits(body.len(), 6));
    assert(frame.subrange(12, 14) =~= padded_digits(0, 2)) by {
        reveal_with_fuel(padded_digits, 3);
    }
    lemma_padded_digits_read_back(opcode as nat, 4);
    lemma_padded_digits_read_back(body.len(), 6);
    lemma_padded_digits_read_back(0, 2);
}

/// The bodies of CONNECT, JOIN and CHAT frames begin with a separator, as
/// text and as bytes.
pub proof fn lemma_packets_begin_with_separator(
    room: Seq<char>,
    password: Seq<char>,
    text: Seq<char>,
)
    ensures
        connect_packet()[0] == SEPARATOR,
        join_packet(room, password)[0] == SEPARATOR,
        chat_packet(text)[0] == SEPARATOR,
        encode_utf8(connect_packet())[0] == SEPARATOR_U8,
        encode_utf8(join_packet(room, password))[0] == SEPARATOR_U8,
        encode_utf8(chat_packet(text))[0] == SEPARATOR_U8,
{
    reveal_strlit("\x0c\x0c\x0c");
    reveal_strlit("\x0c");
    lemma_begins_with_separator(connect_packet());
    lemma_begins_with_separator(join_packet(room, password));
    lemma_begins_with_separator(chat_packet(text));
}

/// A text that begins with a separator is encoded to bytes that begin with
/// one.
proof fn lemma_begins_with_separator(s: Seq<char>)
    requires
        s.len() > 0,
        s[0] == SEPARATOR,
    ensures
        encode_utf8(s)[0] == SEPARATOR_U8,
{
    let c = s[0] as u32;
    assert(c == 0x0c);
    assert(has_width_1_encoding(c));
    assert(leading_byte_width_1(c) == 0x0c) by {
        assert(0x0cu32 & 0x7f == 0x0c) by (bit_vector);
    }
    assert(encode_scalar(c) =~= seq![0x0cu8]);
    assert(encode_utf8(s) == encode_scalar(c) + encode_utf8(s.drop_first()));
}

/// Builds the frames that the client sends.
#[derive(Debug, Clone, PartialEq, Eq)]
pub struct ChatFormatter {
    /// The stream whose room is joined.
    pub live_detail: LiveDetail,
    /// Opaque password handed over on join.
    pub password: String,
}

/// The mathematical model of a [`ChatFormatter`].
pub struct ChatFormatterView {
    pub live_detail: LiveDetailView,
    pub password: Seq<char>,
}

impl View for ChatFormatter {
    type V = ChatFormatterView;

    open spec fn view(&self) -> ChatFormatterView {
        ChatFormatterView { live_detail: self.live_detail@, password: self.password@ }
    }
}

impl ChatFormatterView {
    /// The body that a frame of this kind carries: empty for every kind but
    /// CONNECT and JOIN.
    pub open spec fn payload(self, message_type: MessageType) -> Seq<char> {
        match message_type {
            MessageType::Connect => connect_packet(),
            MessageType::JOIN => join_packet(self.live_detail.ch_no, self.password),
            _ => Seq::<char>::empty(),
        }
    }
}

impl ChatFormatter {
    pub fn new(live_detail: LiveDetail, password: String) -> (formatter: ChatFormatter)
        ensures
            formatter.live_detail == live_detail,
            formatter.password == password,
    {
        ChatFormatter { live_detail, password }
    }

    /// The frame of one of the kinds that the client sends.
    ///
    /// Fails with `InvalidFrame` exactly where the body, which for JOIN holds
    /// the room and the password, comes to a million bytes or more.
    pub fn format_message(&self, message_type: MessageType) -> (r: Result<Vec<u8>, Error>)
        ensures
            match r {
                Ok(frame) => encode_utf8(self@.payload(message_type)).len() < BODY_LIMIT && frame@
                    == frame_of(message_type.code(), encode_utf8(self@.payload(message_type))),
                Err(e) => encode_utf8(self@.payload(message_type)).len() >= BODY_LIMIT && e
                    is InvalidFrame,
            },
    {
        let payload: String = match message_type {
            MessageType::Connect => self.format_connect_packet(),
            MessageType::JOIN => self.format_join_packet(),
            _ => String::new(),
        };
        bundle(message_type, payload.as_str().as_bytes())
    }

    /// The frame that sends a chat text.
    ///
    /// Fails with `InvalidFrame` exactly where the text with its two
    /// separators comes to a million bytes or more.
    pub fn format_chat(&self, text: &str) -> (r: Result<Vec<u8>, Error>)
        ensures
            match r {
                Ok(frame) => encode_utf8(chat_packet(text@)).len() < BODY_LIMIT && frame@
                    == frame_of(message_codes::CHAT, encode_utf8(chat_packet(text@))),
                Err(e) => encode_utf8(chat_packet(text@)).len() >= BODY_LIMIT && e is InvalidFrame,
            },
    {
        let mut payload: String = "\x0c".to_owned();
        payload.append(text);
        payload.append("\x0c");
        encode(message_codes::CHAT, payload.as_str().as_bytes())
    }

    /// The body of a CONNECT frame.
    pub fn format_connect_packet(&self) -> (packet: String)
        ensures
            packet@ == connect_packet(),
    {
        let mut packet: String = SEPARATOR_3_TIMES.to_owned();
        packet.append("16");
        packet.append("\x0c");
        packet
    }

    /// The body of a JOIN frame: the room, the fixed block of client
    /// settings, and the password.
    pub fn format_join_packet(&self) -> (packet: String)
        ensures
            packet@ == join_packet(self.live_detail.ch_no@, self.password@),
    {
        let mut packet: String = JOIN_HEAD.to_owned();
        packet.append(self.live_detail.ch_no.as_str());
        packet.append(JOIN_LOG);
        packet.append(self.password.as_str());
        packet.append(JOIN_TAIL);
        packet
    }
}

} // verus!
