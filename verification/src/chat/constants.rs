//! Delimiters of the wire format and the numeric codes it carries.

use vstd::prelude::*;

pub mod chat_message_fields;
pub mod message_codes;
pub mod user_flags;

verus! {

/// The two bytes every frame starts with, as text: ESC, TAB.
pub const STARTER: &'static str = "\x1b\t";

/// First byte of a frame: ESC.
pub const STARTER_0: u8 = 27;

/// Second byte of a frame: TAB.
pub const STARTER_1: u8 = 9;

/// Separates the fields of a body: form feed.
pub const SEPARATOR: char = '\x0c';

/// The field separator as a byte.
pub const SEPARATOR_U8: u8 = 12;

/// Opens an element inside a field.
pub const ELEMENT_START: char = '\x11';

/// Closes an element inside a field.
pub const ELEMENT_END: char = '\x12';

/// Separates the records inside an element.
pub const SPACE: char = '\x06';

/// Three field separators in a row.
pub const SEPARATOR_3_TIMES: &'static str = "\x0c\x0c\x0c";

/// Five field separators in a row.
pub const SEPARATOR_5_TIMES: &'static str = "\x0c\x0c\x0c\x0c\x0c";

/// Length of a frame header in bytes.
pub const HEADER_LEN: usize = 14;

/// Opcodes run from 0 up to, not including, this bound: four decimal digits.
pub const OPCODE_LIMIT: u32 = 10000;

/// Body lengths run from 0 up to, not including, this bound: six decimal digits.
pub const BODY_LIMIT: usize = 1000000;

} // verus!
