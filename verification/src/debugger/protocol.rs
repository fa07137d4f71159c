//! GDB Remote Serial Protocol packet handling
//!
//! Implements packet framing, checksums, and ACK/NAK protocol.
//! Format: $<data>#<checksum>
//! Checksum is 2-digit hex of sum(data) mod 256

use vstd::prelude::*;
use vstd::string::*;
use vstd::utf8::{decode_utf8, encode_utf8, valid_utf8};

verus! {

/// Sum of `bytes` modulo 256
pub open spec fn checksum_of(bytes: Seq<u8>) -> u8
    decreases bytes.len(),
{
    if bytes.len() == 0 {
        0
    } else {
        checksum_of(bytes.drop_last()).wrapping_add(bytes.last())
    }
}

/// Lower-case hex digit for a value below 16
pub open spec fn hex_char(n: u8) -> char {
    if n < 10 {
        (48 + n) as char
    } else {
        (87 + n) as char
    }
}

/// The text of a packet carrying `data`: `$`, the data, `#`, two hex digits
pub open spec fn packet_text(data: Seq<char>, checksum: u8) -> Seq<char> {
    seq!['$'] + data + seq!['#', hex_char(checksum / 16), hex_char(checksum % 16)]
}

/// Value of an ASCII hex digit (either case)
pub open spec fn hex_value(b: u8) -> Option<u8> {
    if 48 <= b <= 57 {
        Some((b - 48) as u8)
    } else if 97 <= b <= 102 {
        Some((b - 87) as u8)
    } else if 65 <= b <= 70 {
        Some((b - 55) as u8)
    } else {
        None
    }
}

/// The byte that a two-character hex number denotes, as `u8::from_str_radix`
/// reads it: two hex digits, or `+` followed by one.
pub open spec fn hex_pair(hi: u8, lo: u8) -> Option<u8> {
    if hi == 43 {
        hex_value(lo)
    } else {
        match (hex_value(hi), hex_value(lo)) {
            (Some(h), Some(l)) => Some((h * 16 + l) as u8),
            _ => None,
        }
    }
}

/// Index of the first `b` in `s` at or after `from`
pub open spec fn find_byte(s: Seq<u8>, from: int, b: u8) -> Option<int>
    decreases s.len() - from,
{
    if from < 0 || from >= s.len() {
        None
    } else if s[from] == b {
        Some(from)
    } else {
        find_byte(s, from + 1, b)
    }
}

/// The data of the first framed packet in `raw` whose checksum matches
pub open spec fn parsed_packet(raw: Seq<u8>) -> Option<Seq<char>> {
    match find_byte(raw, 0, 36) {
        None => None,
        Some(start) => match find_byte(raw, start, 35) {
            None => None,
            Some(hash) => {
                let data = raw.subrange(start + 1, hash);
                if raw.len() < hash + 3 || !valid_utf8(data) {
                    None
                } else if hex_pair(raw[hash + 1], raw[hash + 2]) != Some(checksum_of(data)) {
                    None
                } else {
                    Some(decode_utf8(data))
                }
            },
        },
    }
}

/// The bytes of a framed packet carrying `data`
pub open spec fn framed(data: Seq<u8>) -> Seq<u8> {
    let c = checksum_of(data);
    seq![36u8] + data + seq![35u8, hex_char(c / 16) as u8, hex_char(c % 16) as u8]
}

/// UTF-8 encoding distributes over concatenation.
proof fn lemma_encode_concat(a: Seq<char>, b: Seq<char>)
    ensures
        encode_utf8(a + b) == encode_utf8(a) + encode_utf8(b),
    decreases a.len(),
{
    if a.len() == 0 {
        assert(a + b =~= b);
        assert(encode_utf8(a) =~= Seq::<u8>::empty());
        assert(encode_utf8(a) + encode_utf8(b) =~= encode_utf8(b));
    } else {
        assert((a + b).drop_first() =~= a.drop_first() + b);
        assert((a + b)[0] == a[0]);
        lemma_encode_concat(a.drop_first(), b);
        assert(encode_utf8(a + b) =~= encode_utf8(a) + encode_utf8(b));
    }
}

/// ASCII text encodes as its character codes.
proof fn lemma_encode_ascii(chars: Seq<char>)
    requires
        vstd::utf8::is_ascii_chars(chars),
    ensures
        encode_utf8(chars) == Seq::new(chars.len(), |i: int| chars[i] as u8),
{
    vstd::utf8::is_ascii_chars_encode_utf8(chars);
    assert(encode_utf8(chars) =~= Seq::new(chars.len(), |i: int| chars[i] as u8));
}

/// A hex digit reads back as its value.
proof fn lemma_hex_char_value(n: u8)
    requires
        n < 16,
    ensures
        '\0' <= hex_char(n) <= '\u{7f}',
        hex_value(hex_char(n) as u8) == Some(n),
        hex_char(n) as u8 != 43,
{
}

/// The first `b` at or after `from` is at `to` when none lies between.
proof fn lemma_find_byte_skip(s: Seq<u8>, from: int, to: int, b: u8)
    requires
        0 <= from <= to < s.len(),
        s[to] == b,
        forall|i: int| from <= i < to ==> s[i] != b,
    ensures
        find_byte(s, from, b) == Some(to),
    decreases to - from,
{
    if from < to {
        lemma_find_byte_skip(s, from + 1, to, b);
    }
}

/// The text of a packet is its framed bytes.
pub proof fn law_packet_bytes(data: Seq<char>)
    ensures
        encode_utf8(packet_text(data, checksum_of(encode_utf8(data)))) == framed(encode_utf8(data)),
{
    let c = checksum_of(encode_utf8(data));
    let head = seq!['$'];
    let tail = seq!['#', hex_char(c / 16), hex_char(c % 16)];
    lemma_hex_char_value(c / 16);
    lemma_hex_char_value(c % 16);
    lemma_encode_concat(head + data, tail);
    lemma_encode_concat(head, data);
    assert(vstd::utf8::is_ascii_chars(head));
    assert(vstd::utf8::is_ascii_chars(tail));
    lemma_encode_ascii(head);
    lemma_encode_ascii(tail);
    assert(head + data + tail =~= packet_text(data, c));
    assert(encode_utf8(head) =~= seq![36u8]);
    assert(encode_utf8(tail) =~= seq![35u8, hex_char(c / 16) as u8, hex_char(c % 16) as u8]);
    assert(encode_utf8(packet_text(data, c)) =~= framed(encode_utf8(data)));
}

/// The bytes of a UTF-8 encoding: a character below 0x80 is its own byte,
/// and every byte of a longer encoding has its top bit set.
proof fn lemma_encoding_bytes(v: u32)
    by (bit_vector)
    ensures
        v <= 0x7F ==> ((v & 0x7F) as u8 == 35 <==> v == 35),
        (0xC0u8 | ((v >> 6u32) & 0x1F) as u8) != 35,
        (0xE0u8 | ((v >> 12u32) & 0x0F) as u8) != 35,
        (0xF0u8 | ((v >> 18u32) & 0x7) as u8) != 35,
        (0x80u8 | (v & 0x3F) as u8) != 35,
        (0x80u8 | ((v >> 6u32) & 0x3F) as u8) != 35,
        (0x80u8 | ((v >> 12u32) & 0x3F) as u8) != 35,
{
}

/// Text without a `#` character has no `#` byte in its UTF-8 encoding.
proof fn lemma_encode_no_hash(data: Seq<char>)
    requires
        !data.contains('#'),
    ensures
        !encode_utf8(data).contains(35),
    decreases data.len(),
{
    if data.len() > 0 {
        let rest = data.drop_first();
        assert forall|i: int| 0 <= i < rest.len() implies rest[i] != '#' by {
            assert(rest[i] == data[i + 1]);
        }
        lemma_encode_no_hash(rest);
        let v = data[0] as u32;
        assert(data[0] != '#');
        lemma_encoding_bytes(v);
        let first = vstd::utf8::encode_scalar(v);
        assert(!first.contains(35)) by {
            if vstd::utf8::has_width_1_encoding(v) {
                assert(v != 35) by {
                    vstd::utf8::char_u32_cast(data[0], v);
                    vstd::utf8::char_u32_cast('#', 35);
                }
            }
        }
        let whole = encode_utf8(data);
        assert(whole == first + encode_utf8(rest));
        assert forall|i: int| 0 <= i < whole.len() implies whole[i] != 35 by {
            if i < first.len() {
                assert(whole[i] == first[i]);
            } else {
                assert(whole[i] == encode_utf8(rest)[i - first.len()]);
            }
        }
    }
}

/// A packet that `format_packet` makes of text without a `#` parses back
/// to that text.
pub proof fn law_parse_after_format_text(data: Seq<char>)
    requires
        !data.contains('#'),
    ensures
        parsed_packet(encode_utf8(packet_text(data, checksum_of(encode_utf8(data))))) == Some(data),
{
    lemma_encode_no_hash(data);
    law_parse_after_format(data);
}

/// A packet framed by `format_packet` parses back to the data it carries,
/// provided the data holds no `#` (which would end the packet early).
pub proof fn law_parse_after_format(data: Seq<char>)
    requires
        !encode_utf8(data).contains(35),
    ensures
        parsed_packet(encode_utf8(packet_text(data, checksum_of(encode_utf8(data))))) == Some(data),
{
    let bytes = encode_utf8(data);
    let c = checksum_of(bytes);
    let raw = framed(bytes);
    law_packet_bytes(data);
    lemma_hex_char_value(c / 16);
    lemma_hex_char_value(c % 16);
    let hash: int = bytes.len() as int + 1;
    assert(raw[0] == 36u8);
    lemma_find_byte_skip(raw, 0, 0, 36);
    assert forall|i: int| 0 <= i < hash implies raw[i] != 35u8 by {
        if i > 0 {
            assert(raw[i] == bytes[i - 1]);
        }
    }
    lemma_find_byte_skip(raw, 0, hash, 35);
    assert(raw.subrange(1, hash) =~= bytes);
    vstd::utf8::encode_utf8_valid_utf8(data);
    vstd::utf8::encode_utf8_decode_utf8(data);
    assert(raw[hash + 1] == hex_char(c / 16) as u8);
    assert(raw[hash + 2] == hex_char(c % 16) as u8);
    assert(hex_pair(raw[hash + 1], raw[hash + 2]) == Some(c));
}

/// `String::from_utf8` of std: the bytes become a string exactly when they
/// are valid UTF-8, and the string's UTF-8 encoding is those bytes.
#[verifier::external_body]
fn string_from_utf8(bytes: Vec<u8>) -> (r: Option<String>)
    ensures
        r is Some <==> valid_utf8(bytes@),
        r is Some ==> encode_utf8(r->0@) == bytes@,
{
    String::from_utf8(bytes).ok()
}

/// Calculate GDB checksum (sum of bytes mod 256)
pub fn calculate_checksum(data: &str) -> (r: u8)
    ensures
        r == checksum_of(data.spec_bytes()),
{
    checksum_bytes(data.as_bytes())
}

/// One lower-case hex digit as a string
pub(crate) fn hex_digit_str(n: u8) -> (r: &'static str)
    requires
        n < 16,
    ensures
        r@ == seq![hex_char(n)],
{
    proof {
        reveal_strlit("0");
        reveal_strlit("1");
        reveal_strlit("2");
        reveal_strlit("3");
        reveal_strlit("4");
        reveal_strlit("5");
        reveal_strlit("6");
        reveal_strlit("7");
        reveal_strlit("8");
        reveal_strlit("9");
        reveal_strlit("a");
        reveal_strlit("b");
        reveal_strlit("c");
        reveal_strlit("d");
        reveal_strlit("e");
        reveal_strlit("f");
    }
    match n {
        0 => "0",
        1 => "1",
        2 => "2",
        3 => "3",
        4 => "4",
        5 => "5",
        6 => "6",
        7 => "7",
        8 => "8",
        9 => "9",
        10 => "a",
        11 => "b",
        12 => "c",
        13 => "d",
        14 => "e",
        _ => "f",
    }
}

/// Format data as GDB packet: $<data>#<checksum>
pub fn format_packet(data: &str) -> (r: String)
    ensures
        r@ == packet_text(data@, checksum_of(data.spec_bytes())),
{
    let checksum = calculate_checksum(data);
    proof {
        reveal_strlit("$");
        reveal_strlit("#");
    }
    let mut s = "$".to_owned();
    s.append(data);
    s.append("#");
    s.append(hex_digit_str(checksum / 16));
    s.append(hex_digit_str(checksum % 16));
    assert(s@ =~= packet_text(data@, checksum));
    s
}

/// Index of the first `b` in `raw` at or after `from`
fn position_from(raw: &[u8], from: usize, b: u8) -> (r: Option<usize>)
    ensures
        match r {
            Some(i) => find_byte(raw@, from as int, b) == Some(i as int),
            None => find_byte(raw@, from as int, b) is None,
        },
        r is Some ==> from <= r->0 < raw@.len() && raw@[r->0 as int] == b,
{
    let mut i: usize = from;
    while i < raw.len()
        invariant
            from <= i,
            find_byte(raw@, from as int, b) == find_byte(raw@, i as int, b),
        decreases raw@.len() - i,
    {
        if raw[i] == b {
            return Some(i);
        }
        i = i + 1;
    }
    None
}

/// Value of an ASCII hex digit
pub(crate) fn hex_digit_value_of(b: u8) -> (r: Option<u8>)
    ensures
        r == hex_value(b),
{
    if b >= 48 && b <= 57 {
        Some(b - 48)
    } else if b >= 97 && b <= 102 {
        Some(b - 87)
    } else if b >= 65 && b <= 70 {
        Some(b - 55)
    } else {
        None
    }
}

/// Parse a two-character hex checksum
fn parse_hex_pair(hi: u8, lo: u8) -> (r: Option<u8>)
    ensures
        r == hex_pair(hi, lo),
{
    if hi == 43 {
        return hex_digit_value_of(lo);
    }
    match (hex_digit_value_of(hi), hex_digit_value_of(lo)) {
        (Some(h), Some(l)) => Some(h * 16 + l),
        _ => None,
    }
}

/// Parse raw bytes into GDB packet
/// Returns Some(data) if valid packet found, None otherwise
pub fn parse_packet(raw: &[u8]) -> (r: Option<String>)
    ensures
        match parsed_packet(raw@) {
            Some(data) => r is Some && r->0@ == data,
            None => r is None,
        },
{
    let start = match position_from(raw, 0, 36) {
        Some(s) => s,
        None => return None,
    };
    let hash = match position_from(raw, start, 35) {
        Some(h) => h,
        None => return None,
    };
    if raw.len() - hash < 3 {
        return None;
    }
    let mut data: Vec<u8> = Vec::new();
    let mut i: usize = start + 1;
    while i < hash
        invariant
            start + 1 <= i <= hash,
            hash < raw@.len(),
            data@ == raw@.subrange(start + 1, i as int),
        decreases hash - i,
    {
        data.push(raw[i]);
        i = i + 1;
    }
    let ghost bytes = data@;
    let checksum = checksum_bytes(data.as_slice());
    let expected = parse_hex_pair(raw[hash + 1], raw[hash + 2]);
    match string_from_utf8(data) {
        None => None,
        Some(s) => {
            proof {
                vstd::utf8::encode_utf8_decode_utf8(s@);
            }
            match expected {
                Some(c) => {
                    if c == checksum {
                        Some(s)
                    } else {
                        None
                    }
                },
                None => None,
            }
        },
    }
}

/// Checksum of a byte buffer
fn checksum_bytes(bytes: &[u8]) -> (r: u8)
    ensures
        r == checksum_of(bytes@),
{
    let mut acc: u8 = 0;
    let mut i: usize = 0;
    while i < bytes.len()
        invariant
            0 <= i <= bytes@.len(),
            acc == checksum_of(bytes@.subrange(0, i as int)),
        decreases bytes@.len() - i,
    {
        assert(bytes@.subrange(0, i + 1).drop_last() =~= bytes@.subrange(0, i as int));
        acc = acc.wrapping_add(bytes[i]);
        i = i + 1;
    }
    assert(bytes@.subrange(0, bytes@.len() as int) =~= bytes@);
    acc
}

/// ACK byte (acknowledge valid packet)
pub const ACK: u8 = 43;

/// NAK byte (request retransmission)
pub const NAK: u8 = 45;

/// What is left of `buf` once its first packet is taken: everything up to
/// the first '#' and the two checksum digits after it is dropped
pub open spec fn after_packet(buf: Seq<u8>) -> Seq<u8> {
    match find_byte(buf, 0, 35) {
        Some(hash) => if buf.len() >= hash + 3 {
            buf.subrange(hash + 3, buf.len() as int)
        } else {
            buf
        },
        None => buf,
    }
}

/// Whether `b` is an acknowledgement byte ('+' or '-')
pub open spec fn is_ack_byte(b: u8) -> bool {
    b == ACK || b == NAK
}

/// `new` is `old` without its leading acknowledgement bytes
pub open spec fn acks_dropped(old_buf: Seq<u8>, new_buf: Seq<u8>) -> bool {
    exists|k: int|
        0 <= k <= old_buf.len() && new_buf == old_buf.subrange(k, old_buf.len() as int) && (forall|j: int|
            0 <= j < k ==> is_ack_byte(#[trigger] old_buf[j])) && (k < old_buf.len() ==> !is_ack_byte(
            old_buf[k],
        ))
}

/// Take the first packet from the front of a receive buffer: when the
/// buffer holds a valid packet, return its data and drop the buffer through
/// the checksum; otherwise leave the buffer as it is and return `None`
pub fn take_packet(buf: &mut Vec<u8>) -> (r: Option<String>)
    ensures
        match parsed_packet(old(buf)@) {
            Some(data) => r is Some && r->0@ == data && final(buf)@ == after_packet(old(buf)@),
            None => r is None && final(buf)@ == old(buf)@,
        },
{
    let packet = parse_packet(buf.as_slice());
    if packet.is_some() {
        match position_from(buf.as_slice(), 0, 35) {
            Some(hash) => {
                if buf.len() - hash >= 3 {
                    let rest = buf.split_off(hash + 3);
                    *buf = rest;
                }
            },
            None => {},
        }
    }
    packet
}

/// Drop the acknowledgement bytes ('+' or '-') at the front of a receive
/// buffer
pub fn discard_acks(buf: &mut Vec<u8>)
    ensures
        acks_dropped(old(buf)@, final(buf)@),
{
    let mut k: usize = 0;
    while k < buf.len() && (buf[k] == ACK || buf[k] == NAK)
        invariant
            k <= buf@.len(),
            forall|j: int| 0 <= j < k ==> is_ack_byte(#[trigger] buf@[j]),
        decreases buf@.len() - k,
    {
        k = k + 1;
    }
    let ghost before = buf@;
    let rest = buf.split_off(k);
    *buf = rest;
    assert(k < before.len() ==> !is_ack_byte(before[k as int]));
    assert(acks_dropped(before, buf@));
}

} // verus!
