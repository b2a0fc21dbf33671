use soup_sdk::chat::commands::MessageType;
use soup_sdk::chat::events::Timestamp;
use soup_sdk::chat::formatter::{bundle, encode, flatten_byte_slices};
use soup_sdk::chat::parser::raw::{
    parse_body, parse_bytes_to_u32, parse_header, parse_message, parse_message_at, MessageHeader,
};
use soup_sdk::error::Error;

fn at() -> Timestamp {
    Timestamp { seconds: 1_700_000_000, nanos: 5 }
}

fn frame(header: &str, body: &[u8]) -> Vec<u8> {
    let mut bytes = vec![0x1b, 0x09];
    bytes.extend_from_slice(header.as_bytes());
    bytes.extend_from_slice(body);
    bytes
}

#[test]
fn ping_frame_is_fourteen_bytes() {
    let bytes = encode(0, b"").unwrap();
    assert_eq!(
        bytes,
        vec![0x1b, 0x09, b'0', b'0', b'0', b'0', b'0', b'0', b'0', b'0', b'0', b'0', b'0', b'0']
    );
    assert_eq!(bundle(MessageType::Ping, b"").unwrap(), bytes);
}

#[test]
fn header_is_zero_padded() {
    let bytes = encode(127, b"\x0cabc").unwrap();
    assert_eq!(&bytes[..14], b"\x1b\x09012700000400" as &[u8]);
    assert_eq!(&bytes[..14], &[0x1b, 0x09, b'0', b'1', b'2', b'7', b'0', b'0', b'0', b'0', b'0', b'4', b'0', b'0']);
    assert_eq!(&bytes[14..], b"\x0cabc");
}

#[test]
fn bundle_uses_the_code_of_the_kind() {
    assert_eq!(&bundle(MessageType::Connect, b"x").unwrap()[2..6], b"0001");
    assert_eq!(&bundle(MessageType::JOIN, b"x").unwrap()[2..6], b"0002");
    assert_eq!(&bundle(MessageType::Unknown, b"x").unwrap()[2..6], b"0000");
    assert_eq!(&bundle(MessageType::Ping, b"x").unwrap()[6..12], b"000001");
}

#[test]
fn encode_rejects_wide_opcodes() {
    assert_eq!(encode(10000, b""), Err(Error::InvalidFrame));
    assert_eq!(encode(u32::MAX, b"abc"), Err(Error::InvalidFrame));
    assert!(encode(9999, b"").is_ok());
    assert_eq!(&encode(9999, b"").unwrap()[2..6], b"9999");
}

#[test]
fn encode_rejects_long_bodies() {
    let longest = vec![b'a'; 999_999];
    let frame = encode(5, &longest).unwrap();
    assert_eq!(&frame[6..12], b"999999");
    assert_eq!(frame.len(), 14 + 999_999);
    let too_long = vec![b'a'; 1_000_000];
    assert_eq!(encode(5, &too_long), Err(Error::InvalidFrame));
    assert_eq!(bundle(MessageType::Ping, &too_long), Err(Error::InvalidFrame));
}

#[test]
fn decode_undoes_encode() {
    let bodies: Vec<&[u8]> = vec![b"", b"\x0c", b"\x0chi\x0cu1", b"\x0c\x0c\x0c16\x0c", b"no separator"];
    for opcode in [0u32, 1, 5, 42, 127, 999, 1000, 9999] {
        for body in &bodies {
            let bytes = encode(opcode, body).unwrap();
            assert_eq!(bytes.len(), 14 + body.len());
            assert_eq!(&bytes[14..], *body);
            let message = parse_message_at(&bytes, at()).unwrap();
            assert_eq!(message.code, opcode);
            assert_eq!(message.ret_code, 0);
            assert_eq!(message.body, parse_body(body));
            assert_eq!(message.received_time, at());
            assert_eq!(parse_bytes_to_u32(&bytes[6..12]) as usize, body.len());
        }
    }
}

#[test]
fn chat_frame_decodes_to_its_fields() {
    let body: [u8; 24] = [
        0x0c, 0x68, 0x69, 0x0c, 0x75, 0x31, 0x0c, 0x0c, 0x0c, 0x0c, 0x6e, 0x69, 0x63, 0x6b, 0x0c,
        0x31, 0x7c, 0x30, 0x0c, 0x30, 0x0c, 0x0c, 0x0c, 0x30,
    ];
    let message = parse_message_at(&frame("000500002400", &body), at()).unwrap();
    assert_eq!(message.code, 5);
    assert_eq!(message.ret_code, 0);
    assert_eq!(message.body, vec!["hi", "u1", "", "", "", "nick", "1|0", "0", "", "", "0"]);
    assert_eq!(message.received_time, at());
}

#[test]
fn short_frames_are_invalid() {
    assert_eq!(parse_message_at(b"", at()), Err(Error::InvalidFrame));
    assert_eq!(parse_message_at(b"\x1b\x09000500000000"[..13].as_ref(), at()), Err(Error::InvalidFrame));
    assert_eq!(parse_message(b"\x1b\x09"), Err(Error::InvalidFrame));
    assert!(parse_message_at(b"\x1b\x09000500000000", at()).is_ok());
}

#[test]
fn header_must_be_fourteen_bytes() {
    assert_eq!(parse_header(b"\x1b\x090005000000000"), Err(Error::InvalidFrame));
    assert_eq!(parse_header(b"\x1b\x0900050000000"), Err(Error::InvalidFrame));
    assert_eq!(parse_header(b""), Err(Error::InvalidFrame));
    assert_eq!(
        parse_header(b"\x1b\x09000500000042"),
        Ok(MessageHeader { code: 5, ret_code: 42 })
    );
}

#[test]
fn parse_message_stamps_the_frame() {
    let message = parse_message(b"\x1b\x09001800000300\x0ca\x0c").unwrap();
    assert_eq!(message.code, 18);
    assert_eq!(message.body, vec!["a", ""]);
    assert!(message.received_time.seconds > 1_600_000_000);
    assert!(message.received_time.nanos < 2_000_000_000);
}

#[test]
fn header_numbers_are_tolerant() {
    let message = parse_message_at(b"\x1b\x09ab12000000zz", at()).unwrap();
    assert_eq!(message.code, 0);
    assert_eq!(message.ret_code, 0);
    let message = parse_message_at(b"\x1b\x09+123      07", at()).unwrap();
    assert_eq!(message.code, 123);
    assert_eq!(message.ret_code, 7);
    let message = parse_message_at(b"\x1b\x09\xff\xfe12000000-1", at()).unwrap();
    assert_eq!(message.code, 0);
    assert_eq!(message.ret_code, 0);
}

#[test]
fn declared_length_is_not_consulted() {
    let body = b"\x0ca\x0cb";
    let right = parse_message_at(&frame("000500000400", body), at()).unwrap();
    let short = parse_message_at(&frame("000500000200", body), at()).unwrap();
    let long = parse_message_at(&frame("000500009900", body), at()).unwrap();
    let junk = parse_message_at(&frame("0005xxxxxx00", body), at()).unwrap();
    assert_eq!(right.body, vec!["a", "b"]);
    assert_eq!(short, right);
    assert_eq!(long, right);
    assert_eq!(junk, right);
}

#[test]
fn bodies_of_fewer_than_two_bytes_have_no_fields() {
    assert_eq!(parse_body(b""), Vec::<String>::new());
    assert_eq!(parse_body(b"\x0c"), Vec::<String>::new());
    assert_eq!(parse_body(b"a"), Vec::<String>::new());
}

#[test]
fn empty_fields_are_kept() {
    assert_eq!(parse_body(b"\x0c\x0c"), vec!["", ""]);
    assert_eq!(parse_body(b"\x0ca"), vec!["a"]);
    assert_eq!(parse_body(b"\x0ca\x0c"), vec!["a", ""]);
    assert_eq!(parse_body(b"\x0c\x0ca"), vec!["", "a"]);
    assert_eq!(parse_body(b"\x0ca\x0c\x0c\x0c"), vec!["a", "", "", ""]);
    assert_eq!(parse_body(b"xa\x0cb"), vec!["a", "b"]);
}

#[test]
fn inner_separators_stay_in_the_field() {
    assert_eq!(parse_body(b"\x0clog\x11\x06&\x06a\x12\x0cnext"), vec!["log\u{11}\u{6}&\u{6}a\u{12}", "next"]);
}

#[test]
fn fields_are_decoded_as_utf8() {
    let mut body = vec![0x0c];
    body.extend_from_slice("안녕 héllo".as_bytes());
    body.push(0x0c);
    body.extend_from_slice("🎈".as_bytes());
    assert_eq!(parse_body(&body), vec!["안녕 héllo", "🎈"]);
}

#[test]
fn ill_formed_utf8_is_replaced() {
    assert_eq!(parse_body(b"\x0ca\xffb\x0cok"), vec!["a\u{fffd}b", "ok"]);
    assert_eq!(parse_body(b"\x0c\xe3\x81"), vec!["\u{fffd}"]);
    assert_eq!(parse_body(b"\x0c\xc0\x80z"), vec!["\u{fffd}\u{fffd}z"]);
}

#[test]
fn bytes_to_u32_parses_or_gives_zero() {
    assert_eq!(parse_bytes_to_u32(b"0005"), 5);
    assert_eq!(parse_bytes_to_u32(b"4294967295"), 4_294_967_295);
    assert_eq!(parse_bytes_to_u32(b"4294967296"), 0);
    assert_eq!(parse_bytes_to_u32(b"+7"), 7);
    assert_eq!(parse_bytes_to_u32(b"-7"), 0);
    assert_eq!(parse_bytes_to_u32(b"+"), 0);
    assert_eq!(parse_bytes_to_u32(b""), 0);
    assert_eq!(parse_bytes_to_u32(b" 7"), 0);
    assert_eq!(parse_bytes_to_u32(b"7 "), 0);
    assert_eq!(parse_bytes_to_u32(b"1_0"), 0);
    assert_eq!(parse_bytes_to_u32(b"\xff1"), 0);
    assert_eq!(parse_bytes_to_u32(b"00000000000000000012"), 12);
}

#[test]
fn parts_are_flattened_in_order() {
    let parts: Vec<&[u8]> = vec![b"ab", b"", b"c", b"def"];
    assert_eq!(flatten_byte_slices(&parts), b"abcdef".to_vec());
    assert_eq!(flatten_byte_slices(&[]), Vec::<u8>::new());
}
