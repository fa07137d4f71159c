//! GDB Remote Serial Protocol command handlers
//!
//! Implements the core GDB commands for debugging the emulated CPU. A
//! command arrives as the text of a packet; its handler reads or changes
//! the CPU, the memory or the debugger and answers with the text of the
//! reply packet.

use crate::cpu::state::Cpu;
use crate::debugger::protocol::{hex_char, hex_value};
use crate::debugger::{DebugState, GdbDebugger};
use crate::memory::{is_writable, MemoryBus};
use vstd::prelude::*;
use vstd::string::*;

verus! {

// === Hex numbers ===

/// Whether every byte of `d` is a hex digit
pub open spec fn all_hex(d: Seq<u8>) -> bool {
    forall|i: int| 0 <= i < d.len() ==> (#[trigger] hex_value(d[i])) is Some
}

/// The number that the hex digits `d` spell
pub open spec fn hex_digits_value(d: Seq<u8>) -> int
    decreases d.len(),
{
    if d.len() == 0 {
        0
    } else {
        hex_digits_value(d.drop_last()) * 16 + match hex_value(d.last()) {
            Some(v) => v as int,
            None => 0,
        }
    }
}

/// `from_str_radix(s, 16)` for an unsigned type whose largest value is
/// `max`: an optional `+`, then at least one hex digit, and no overflow.
pub open spec fn parse_hex_spec(s: Seq<u8>, max: int) -> Option<int> {
    let d = if s.len() > 0 && s[0] == 43 {
        s.drop_first()
    } else {
        s
    };
    if d.len() == 0 || !all_hex(d) || hex_digits_value(d) > max {
        None
    } else {
        Some(hex_digits_value(d))
    }
}

/// A prefix of a run of hex digits spells no larger a number.
proof fn lemma_hex_prefix_le(d: Seq<u8>, k: int)
    requires
        0 <= k <= d.len(),
        all_hex(d),
    ensures
        0 <= hex_digits_value(d.subrange(0, k)) <= hex_digits_value(d),
    decreases d.len(),
{
    if k == d.len() {
        assert(d.subrange(0, k) =~= d);
        lemma_hex_value_nonneg(d);
    } else {
        let p = d.drop_last();
        assert(all_hex(p)) by {
            assert forall|i: int| 0 <= i < p.len() implies (#[trigger] hex_value(p[i])) is Some by {
                assert(p[i] == d[i]);
            }
        }
        lemma_hex_prefix_le(p, k);
        assert(p.subrange(0, k) =~= d.subrange(0, k));
        lemma_hex_value_nonneg(p);
    }
}

/// Hex digits spell a number that is not negative.
proof fn lemma_hex_value_nonneg(d: Seq<u8>)
    ensures
        hex_digits_value(d) >= 0,
    decreases d.len(),
{
    if d.len() > 0 {
        lemma_hex_value_nonneg(d.drop_last());
    }
}

/// Parse a hex number as `from_str_radix(s, 16)` does for an unsigned type
/// whose largest value is `max`
fn parse_hex(s: &[u8], max: u64) -> (r: Option<u64>)
    ensures
        match parse_hex_spec(s@, max as int) {
            Some(v) => r matches Some(x) && x == v,
            None => r is None,
        },
        r matches Some(v) ==> v <= max,
{
    let mut start: usize = 0;
    if s.len() > 0 && s[0] == 43 {
        start = 1;
    }
    let ghost d = if s@.len() > 0 && s@[0] == 43 {
        s@.drop_first()
    } else {
        s@
    };
    assert(d =~= s@.subrange(start as int, s@.len() as int));
    if start >= s.len() {
        return None;
    }
    let mut acc: u64 = 0;
    let mut i: usize = start;
    while i < s.len()
        invariant
            start <= i <= s@.len(),
            d =~= s@.subrange(start as int, s@.len() as int),
            d == (if s@.len() > 0 && s@[0] == 43 {
                s@.drop_first()
            } else {
                s@
            }),
            all_hex(s@.subrange(start as int, i as int)),
            acc == hex_digits_value(s@.subrange(start as int, i as int)),
            acc <= max,
        decreases s@.len() - i,
    {
        let ghost prefix = s@.subrange(start as int, i as int);
        let ghost next = s@.subrange(start as int, i + 1);
        assert(next.drop_last() =~= prefix);
        assert(next.last() == s@[i as int]);
        match crate::debugger::protocol::hex_digit_value_of(s[i]) {
            None => {
                assert(d[i - start] == s@[i as int]);
                assert(hex_value(d[i - start]) is None);
                return None;
            },
            Some(v) => {
                let wide: u128 = (acc as u128) * 16 + (v as u128);
                assert(hex_digits_value(next) == wide);
                assert(all_hex(next)) by {
                    assert forall|j: int| 0 <= j < next.len() implies (#[trigger] hex_value(next[j])) is Some by {
                        if j < prefix.len() {
                            assert(next[j] == prefix[j]);
                        }
                    }
                }
                if wide > max as u128 {
                    proof {
                        if all_hex(d) {
                            assert(next =~= d.subrange(0, i + 1 - start));
                            lemma_hex_prefix_le(d, i + 1 - start);
                        }
                    }
                    return None;
                }
                acc = wide as u64;
            },
        }
        i = i + 1;
    }
    Some(acc)
}

// === Reply text ===

/// Two lower-case hex digits of a byte
pub open spec fn hex_byte_text(b: u8) -> Seq<char> {
    seq![hex_char(b / 16), hex_char(b % 16)]
}

/// A 16-bit value as 4 hex digits, low byte first
pub open spec fn hex_le16_text(v: u16) -> Seq<char> {
    hex_byte_text((v % 256) as u8) + hex_byte_text((v / 256) as u8)
}

/// 16-bit values as hex text, each low byte first
pub open spec fn words_text(ws: Seq<u16>) -> Seq<char>
    decreases ws.len(),
{
    if ws.len() == 0 {
        Seq::empty()
    } else {
        words_text(ws.drop_last()) + hex_le16_text(ws.last())
    }
}

/// Bytes as hex text
pub open spec fn bytes_text(bs: Seq<u8>) -> Seq<char>
    decreases bs.len(),
{
    if bs.len() == 0 {
        Seq::empty()
    } else {
        bytes_text(bs.drop_last()) + hex_byte_text(bs.last())
    }
}

/// The registers in the order GDB expects for the i8086: AX, CX, DX, BX,
/// SP, BP, SI, DI, IP, FLAGS, CS, SS, DS, ES, and FS, GS (which the 8086
/// lacks) as zero
pub open spec fn register_words(cpu: Cpu) -> Seq<u16> {
    cpu.regs@ + seq![
        cpu.ip,
        cpu.flags,
        cpu.segments@[1],
        cpu.segments@[2],
        cpu.segments@[3],
        cpu.segments@[0],
        0u16,
        0u16,
    ]
}

/// Append the two hex digits of `b`
fn push_hex_byte(s: &mut String, b: u8)
    ensures
        final(s)@ == old(s)@ + hex_byte_text(b),
{
    s.append(crate::debugger::protocol::hex_digit_str(b / 16));
    s.append(crate::debugger::protocol::hex_digit_str(b % 16));
    assert(final(s)@ =~= old(s)@ + hex_byte_text(b));
}

/// Read all registers and return them as hex text
///
/// Each register is 16-bit little-endian (4 hex digits, bytes swapped).
fn read_all_registers(cpu: &Cpu) -> (r: String)
    ensures
        r@ == words_text(register_words(*cpu)),
{
    let words: [u16; 16] = [
        cpu.regs[0],
        cpu.regs[1],
        cpu.regs[2],
        cpu.regs[3],
        cpu.regs[4],
        cpu.regs[5],
        cpu.regs[6],
        cpu.regs[7],
        cpu.ip,
        cpu.flags,
        cpu.segments[1],
        cpu.segments[2],
        cpu.segments[3],
        cpu.segments[0],
        0,
        0,
    ];
    assert(words@ =~= register_words(*cpu));
    let mut result = String::new();
    let mut i: usize = 0;
    while i < 16
        invariant
            0 <= i <= 16,
            words@ == register_words(*cpu),
            result@ == words_text(words@.subrange(0, i as int)),
        decreases 16 - i,
    {
        let w = words[i];
        assert(words@.subrange(0, i + 1).drop_last() =~= words@.subrange(0, i as int));
        push_hex_byte(&mut result, (w % 256) as u8);
        push_hex_byte(&mut result, (w / 256) as u8);
        assert(result@ =~= words_text(words@.subrange(0, i + 1)));
        i = i + 1;
    }
    assert(words@.subrange(0, 16) =~= words@);
    result
}

} // verus!

verus! {

// === Packet fields ===

/// A UTF-8 continuation byte
pub open spec fn is_continuation(b: u8) -> bool {
    0x80 <= b < 0xC0
}

/// Offset `p` of the UTF-8 text `s` lies on a character boundary
pub open spec fn at_boundary(s: Seq<u8>, p: int) -> bool {
    p == s.len() || (0 <= p < s.len() && !is_continuation(s[p]))
}

/// Index of the first byte at or after `from` that separates the fields
/// of a memory write (`,` or `:`)
pub open spec fn find_sep(s: Seq<u8>, from: int) -> Option<int>
    decreases s.len() - from,
{
    if from < 0 || from >= s.len() {
        None
    } else if s[from] == 44 || s[from] == 58 {
        Some(from)
    } else {
        find_sep(s, from + 1)
    }
}

/// Index of the first `,` at or after `from`
pub open spec fn find_comma(s: Seq<u8>, from: int) -> Option<int> {
    crate::debugger::protocol::find_byte(s, from, 44)
}

/// Index of the first `,` or `:` in `s` at or after `from`
fn position_of_sep(s: &[u8], from: usize) -> (r: Option<usize>)
    ensures
        r matches Some(i) ==> find_sep(s@, from as int) == Some(i as int) && from <= i < s.len(),
        r is None ==> find_sep(s@, from as int) is None,
{
    let mut i: usize = from;
    while i < s.len()
        invariant
            from <= i,
            find_sep(s@, from as int) == find_sep(s@, i as int),
        decreases s@.len() - i,
    {
        if s[i] == 44 || s[i] == 58 {
            return Some(i);
        }
        i = i + 1;
    }
    None
}

/// Index of the first `,` in `s` at or after `from`
fn position_of_comma(s: &[u8], from: usize) -> (r: Option<usize>)
    ensures
        r matches Some(i) ==> find_comma(s@, from as int) == Some(i as int) && from <= i < s.len(),
        r is None ==> find_comma(s@, from as int) is None,
{
    let mut i: usize = from;
    while i < s.len()
        invariant
            from <= i,
            find_comma(s@, from as int) == find_comma(s@, i as int),
        decreases s@.len() - i,
    {
        if s[i] == 44 {
            return Some(i);
        }
        i = i + 1;
    }
    None
}

// === G: write all registers ===

/// A 16-bit value written as 4 hex digits, low byte first
pub open spec fn le16_of(s: Seq<u8>) -> Option<u16> {
    match (parse_hex_spec(s.subrange(0, 2), 255), parse_hex_spec(s.subrange(2, 4), 255)) {
        (Some(lo), Some(hi)) => Some((hi * 256 + lo) as u16),
        _ => None,
    }
}

/// The `k`-th register field of a register dump, or `old` where it does
/// not parse
pub open spec fn field_or(data: Seq<u8>, k: int, old: u16) -> u16 {
    match le16_of(data.subrange(4 * k, 4 * k + 4)) {
        Some(v) => v,
        None => old,
    }
}

/// The register dump can be cut into its fields (each field and each of
/// its halves starts and ends on a character boundary)
pub open spec fn register_dump_ok(data: Seq<u8>) -> bool {
    data.len() >= 64 ==> forall|k: int| 0 <= k <= 28 ==> #[trigger] at_boundary(data, 2 * k)
}

/// `new` is `old` with the registers of the dump `data` (AX..DI, IP; the
/// FLAGS field skipped; CS, SS, DS, ES), each kept where its field does not
/// parse
pub open spec fn registers_set(old: Cpu, new: Cpu, data: Seq<u8>) -> bool {
    &&& new.regs@ == Seq::new(8, |i: int| field_or(data, i, old.regs@[i]))
    &&& new.ip == field_or(data, 8, old.ip)
    &&& new.segments@ == seq![
        field_or(data, 13, old.segments@[0]),
        field_or(data, 10, old.segments@[1]),
        field_or(data, 11, old.segments@[2]),
        field_or(data, 12, old.segments@[3]),
    ]
    &&& new == (Cpu { regs: new.regs, ip: new.ip, segments: new.segments, ..old })
}

/// Parse a 16-bit little-endian value from 4 hex digits
fn parse_le16(s: &[u8]) -> (r: Option<u16>)
    requires
        s@.len() == 4,
    ensures
        r == le16_of(s@),
{
    let low_digits = &s[0..2];
    let high_digits = &s[2..4];
    assert(low_digits@ =~= s@.subrange(0, 2));
    assert(high_digits@ =~= s@.subrange(2, 4));
    let lo = parse_hex(low_digits, 255);
    let hi = parse_hex(high_digits, 255);
    match (lo, hi) {
        (Some(l), Some(h)) => {
            assert(parse_hex_spec(s@.subrange(0, 2), 255) == Some(l as int));
            assert(parse_hex_spec(s@.subrange(2, 4), 255) == Some(h as int));
            Some((h as u16) * 256 + (l as u16))
        },
        _ => {
            assert(parse_hex_spec(s@.subrange(0, 2), 255) is None || parse_hex_spec(
                s@.subrange(2, 4),
                255,
            ) is None);
            None
        },
    }
}

/// The `k`-th register field of `data`, or `old`
fn field_value(data: &[u8], k: usize, old: u16) -> (r: u16)
    requires
        4 * k + 4 <= data.len(),
    ensures
        r == field_or(data@, k as int, old),
{
    match parse_le16(&data[4 * k..4 * k + 4]) {
        Some(v) => v,
        None => old,
    }
}

/// Write all registers from a register dump (the command without its `G`):
/// 16 registers of 4 hex digits each, so at least 64 digits
fn write_all_registers(cpu: &mut Cpu, data: &[u8]) -> (r: String)
    requires
        register_dump_ok(data@),
    ensures
        data@.len() < 64 ==> r@ == "E01"@ && *final(cpu) == *old(cpu),
        data@.len() >= 64 ==> r@ == "OK"@ && registers_set(*old(cpu), *final(cpu), data@),
{
    if data.len() < 64 {
        return "E01".to_owned();
    }
    let ghost old_cpu = *cpu;
    let mut i: usize = 0;
    while i < 8
        invariant
            0 <= i <= 8,
            data@.len() >= 64,
            *cpu == (Cpu { regs: cpu.regs, ..old_cpu }),
            forall|j: int| 0 <= j < i ==> cpu.regs@[j] == field_or(data@, j, old_cpu.regs@[j]),
            forall|j: int| i <= j < 8 ==> cpu.regs@[j] == old_cpu.regs@[j],
        decreases 8 - i,
    {
        let v = field_value(data, i, cpu.regs[i]);
        cpu.regs[i] = v;
        i = i + 1;
    }
    cpu.ip = field_value(data, 8, cpu.ip);
    cpu.segments[1] = field_value(data, 10, cpu.segments[1]);
    cpu.segments[2] = field_value(data, 11, cpu.segments[2]);
    cpu.segments[3] = field_value(data, 12, cpu.segments[3]);
    cpu.segments[0] = field_value(data, 13, cpu.segments[0]);
    assert(cpu.regs@ =~= Seq::new(8, |j: int| field_or(data@, j, old_cpu.regs@[j])));
    assert(cpu.segments@ =~= seq![
        field_or(data@, 13, old_cpu.segments@[0]),
        field_or(data@, 10, old_cpu.segments@[1]),
        field_or(data@, 11, old_cpu.segments@[2]),
        field_or(data@, 12, old_cpu.segments@[3]),
    ]);
    "OK".to_owned()
}

} // verus!

verus! {

// === m: read memory ===

/// The address and length of a memory read `<addr>,<len>` (the command
/// without its `m`): exactly two fields, both hex numbers
pub open spec fn read_request(rest: Seq<u8>) -> Option<(u32, nat)> {
    match find_comma(rest, 0) {
        None => None,
        Some(c) => if find_comma(rest, c + 1) is Some {
            None
        } else {
            match (
                parse_hex_spec(rest.subrange(0, c), u32::MAX as int),
                parse_hex_spec(rest.subrange(c + 1, rest.len() as int), usize::MAX as int),
            ) {
                (Some(a), Some(l)) => Some((a as u32, l as nat)),
                _ => None,
            }
        },
    }
}

/// `n` bytes of memory from `addr` on
pub open spec fn memory_bytes(mem: MemoryBus, addr: u32, n: nat) -> Seq<u8> {
    Seq::new(n, |i: int| mem.byte((addr + i) as u32))
}

/// The reply to a memory read: the bytes as hex, or `E01`
pub open spec fn read_memory_reply(mem: MemoryBus, rest: Seq<u8>) -> Seq<char> {
    match read_request(rest) {
        Some((addr, n)) => bytes_text(memory_bytes(mem, addr, n)),
        None => "E01"@,
    }
}

/// The addresses of a memory read stay below 4GB
pub open spec fn read_request_ok(rest: Seq<u8>) -> bool {
    read_request(rest) matches Some((addr, n)) ==> n == 0 || addr + n <= 0x1_0000_0000
}

/// Parse the address and length of a memory read
fn parse_read_request(rest: &[u8]) -> (r: Option<(u32, usize)>)
    ensures
        match read_request(rest@) {
            Some((a, n)) => r == Some((a, n as usize)) && n <= usize::MAX,
            None => r is None,
        },
{
    let c = match position_of_comma(rest, 0) {
        Some(c) => c,
        None => return None,
    };
    if position_of_comma(rest, c + 1).is_some() {
        return None;
    }
    let addr_text = &rest[0..c];
    let len_text = &rest[c + 1..rest.len()];
    assert(addr_text@ =~= rest@.subrange(0, c as int));
    assert(len_text@ =~= rest@.subrange(c + 1, rest@.len() as int));
    let addr = match parse_hex(addr_text, 0xFFFF_FFFF) {
        Some(a) => a as u32,
        None => return None,
    };
    let len = match parse_hex(len_text, usize::MAX as u64) {
        Some(l) => l as usize,
        None => return None,
    };
    Some((addr, len))
}

/// Parse the address, length and where the data starts of a memory write
fn parse_write_request(rest: &[u8]) -> (r: Option<(u32, usize, usize)>)
    ensures
        match write_request(rest@) {
            Some((a, n, data)) => r matches Some((ra, rn, start)) && ra == a && rn == n && start
                <= rest@.len() && data == rest@.subrange(start as int, rest@.len() as int),
            None => r is None,
        },
{
    let p1 = match position_of_sep(rest, 0) {
        Some(p) => p,
        None => return None,
    };
    let p2 = match position_of_sep(rest, p1 + 1) {
        Some(p) => p,
        None => return None,
    };
    if position_of_sep(rest, p2 + 1).is_some() {
        return None;
    }
    let addr_text = &rest[0..p1];
    let len_text = &rest[p1 + 1..p2];
    assert(addr_text@ =~= rest@.subrange(0, p1 as int));
    assert(len_text@ =~= rest@.subrange(p1 + 1, p2 as int));
    let addr = match parse_hex(addr_text, 0xFFFF_FFFF) {
        Some(a) => a as u32,
        None => return None,
    };
    let len = match parse_hex(len_text, usize::MAX as u64) {
        Some(l) => l as usize,
        None => return None,
    };
    Some((addr, len, p2 + 1))
}

/// Read memory: `<addr>,<len>` (the command without its `m`)
fn read_memory(mem: &MemoryBus, rest: &[u8]) -> (r: String)
    requires
        mem.wf(),
        read_request_ok(rest@),
    ensures
        r@ == read_memory_reply(*mem, rest@),
{
    let (addr, len) = match parse_read_request(rest) {
        Some(req) => req,
        None => return "E01".to_owned(),
    };
    let ghost bytes = memory_bytes(*mem, addr, len as nat);
    let mut result = String::new();
    let mut i: usize = 0;
    while i < len
        invariant
            0 <= i <= len,
            mem.wf(),
            len == 0 || addr + len <= 0x1_0000_0000,
            bytes == memory_bytes(*mem, addr, len as nat),
            result@ == bytes_text(bytes.subrange(0, i as int)),
        decreases len - i,
    {
        let byte_addr: u32 = addr + (i as u32);
        let b = mem.read_u8(byte_addr);
        assert(bytes.subrange(0, i + 1).drop_last() =~= bytes.subrange(0, i as int));
        push_hex_byte(&mut result, b);
        i = i + 1;
    }
    assert(bytes.subrange(0, len as int) =~= bytes);
    result
}

// === M: write memory ===

/// The address, length and hex data of a memory write
/// `<addr>,<len>:<data>` (the command without its `M`): exactly three
/// fields, separated by `,` or `:`
pub open spec fn write_request(rest: Seq<u8>) -> Option<(u32, nat, Seq<u8>)> {
    match find_sep(rest, 0) {
        None => None,
        Some(p1) => match find_sep(rest, p1 + 1) {
            None => None,
            Some(p2) => if find_sep(rest, p2 + 1) is Some {
                None
            } else {
                match (
                    parse_hex_spec(rest.subrange(0, p1), u32::MAX as int),
                    parse_hex_spec(rest.subrange(p1 + 1, p2), usize::MAX as int),
                ) {
                    (Some(a), Some(l)) => Some(
                        (a as u32, l as nat, rest.subrange(p2 + 1, rest.len() as int)),
                    ),
                    _ => None,
                }
            },
        },
    }
}

/// The byte that the `j`-th pair of hex digits of `data` spells
pub open spec fn pair_value(data: Seq<u8>, j: int) -> Option<int> {
    parse_hex_spec(data.subrange(2 * j, 2 * j + 2), 255)
}

/// How many of the first `n` pairs of hex digits are written before the
/// first one that does not parse
pub open spec fn good_pairs(data: Seq<u8>, n: int) -> int
    decreases n,
{
    if n <= 0 {
        0
    } else {
        let g = good_pairs(data, n - 1);
        if g == n - 1 && pair_value(data, n - 1) is Some {
            n
        } else {
            g
        }
    }
}

/// The `j`-th pair of `data` can be cut out of the text
pub open spec fn pair_ok(data: Seq<u8>, j: int) -> bool {
    &&& 2 * j + 2 <= data.len()
    &&& at_boundary(data, 2 * j)
    &&& at_boundary(data, 2 * j + 2)
}

/// Every pair that a memory write reaches can be cut out, and every byte
/// it writes lies below 4GB
pub open spec fn write_request_ok(rest: Seq<u8>) -> bool {
    match write_request(rest) {
        Some((addr, n, data)) => writes_ok(addr, n, data),
        None => true,
    }
}

/// Every pair that a write of `n` bytes at `addr` reaches can be cut out
/// of `data`, and every byte it writes lies below 4GB
pub open spec fn writes_ok(addr: u32, n: nat, data: Seq<u8>) -> bool {
    forall|j: int|
        0 <= j < n && #[trigger] good_pairs(data, j) == j ==> pair_ok(data, j) && (
        pair_value(data, j) is Some ==> addr + j <= u32::MAX)
}

/// The memory after a memory write: the pairs before the first bad one
/// written from `addr` on
pub open spec fn memory_written(old: MemoryBus, new: MemoryBus, rest: Seq<u8>) -> bool {
    match write_request(rest) {
        None => new == old,
        Some((addr, n, data)) => {
            let g = good_pairs(data, n as int);
            &&& new.wf()
            &&& old.same_devices(new)
            &&& forall|a: u32| #[trigger]
                new.byte(a) == (if addr <= a < addr + g && is_writable(a) {
                    pair_value(data, a - addr).unwrap() as u8
                } else {
                    old.byte(a)
                })
        },
    }
}

/// The reply to a memory write
pub open spec fn write_memory_reply(rest: Seq<u8>) -> Seq<char> {
    match write_request(rest) {
        Some((addr, n, data)) => if good_pairs(data, n as int) == n {
            "OK"@
        } else {
            "E01"@
        },
        None => "E01"@,
    }
}

/// After the first bad pair no further pair counts.
proof fn lemma_good_pairs_stop(data: Seq<u8>, i: int, n: int)
    requires
        0 <= i < n,
        good_pairs(data, i) == i,
        pair_value(data, i) is None,
    ensures
        good_pairs(data, n) == i,
    decreases n,
{
    if n > i + 1 {
        lemma_good_pairs_stop(data, i, n - 1);
    }
}

/// Write memory: `<addr>,<len>:<data>` (the command without its `M`)
fn write_memory(mem: &mut MemoryBus, rest: &[u8]) -> (r: String)
    requires
        old(mem).wf(),
        write_request_ok(rest@),
    ensures
        memory_written(*old(mem), *final(mem), rest@),
        r@ == write_memory_reply(rest@),
{
    let (addr, len, start) = match parse_write_request(rest) {
        Some(req) => req,
        None => return "E01".to_owned(),
    };
    let data = &rest[start..rest.len()];
    assert(data@ =~= rest@.subrange(start as int, rest@.len() as int));
    let ghost old_mem = *mem;
    let mut i: usize = 0;
    while i < len
        invariant
            0 <= i <= len,
            write_request(rest@) == Some((addr, len as nat, data@)),
            writes_ok(addr, len as nat, data@),
            good_pairs(data@, i as int) == i,
            old_mem == *old(mem),
            mem.wf(),
            old_mem.same_devices(*mem),
            forall|a: u32| #[trigger]
                mem.byte(a) == (if addr <= a < addr + i && is_writable(a) {
                    pair_value(data@, a - addr).unwrap() as u8
                } else {
                    old_mem.byte(a)
                }),
        decreases len - i,
    {
        assert(pair_ok(data@, i as int));
        assert(2 * i + 2 <= data.len());
        let pair = &data[2 * i..2 * i + 2];
        assert(pair@ =~= data@.subrange(2 * i, 2 * i + 2));
        let byte = match parse_hex(pair, 255) {
            Some(b) => b as u8,
            None => {
                proof {
                    assert(pair_value(data@, i as int) is None);
                    lemma_good_pairs_stop(data@, i as int, len as int);
                    assert(good_pairs(data@, len as int) == i);
                }
                return "E01".to_owned();
            },
        };
        let byte_addr: u32 = addr + (i as u32);
        mem.write_u8(byte_addr, byte);
        i = i + 1;
    }
    "OK".to_owned()
}

} // verus!

verus! {

// === q: queries ===

/// `s` begins with `prefix`
pub open spec fn starts_with(s: Seq<u8>, prefix: Seq<u8>) -> bool {
    s.len() >= prefix.len() && s.subrange(0, prefix.len() as int) == prefix
}

/// The reply to a query command
pub open spec fn query_reply(cmd: Seq<u8>) -> Seq<char> {
    if starts_with(cmd, "qSupported".spec_bytes()) {
        "PacketSize=4096"@
    } else if cmd == "qAttached".spec_bytes() {
        "1"@
    } else if cmd == "qC".spec_bytes() {
        "QC0"@
    } else if cmd == "qfThreadInfo".spec_bytes() {
        "m0"@
    } else if cmd == "qsThreadInfo".spec_bytes() {
        "l"@
    } else if starts_with(cmd, "qSymbol".spec_bytes()) {
        "OK"@
    } else {
        Seq::empty()
    }
}

/// Whether the bytes `s` begin with the text `prefix`
fn text_starts_with(s: &[u8], prefix: &str) -> (r: bool)
    ensures
        r == starts_with(s@, prefix.spec_bytes()),
{
    let p = prefix.as_bytes();
    if s.len() < p.len() {
        return false;
    }
    let mut i: usize = 0;
    while i < p.len()
        invariant
            0 <= i <= p@.len(),
            p@.len() <= s@.len(),
            p@ == prefix.spec_bytes(),
            forall|j: int| 0 <= j < i ==> s@[j] == p@[j],
        decreases p@.len() - i,
    {
        if s[i] != p[i] {
            assert(s@.subrange(0, p@.len() as int)[i as int] != p@[i as int]);
            return false;
        }
        i = i + 1;
    }
    assert(s@.subrange(0, p@.len() as int) =~= p@);
    true
}

/// Whether the bytes `s` are the text `t`
fn text_is(s: &[u8], t: &str) -> (r: bool)
    ensures
        r == (s@ == t.spec_bytes()),
{
    let ghost tb = t.spec_bytes();
    if s.len() != t.as_bytes().len() {
        return false;
    }
    let r = text_starts_with(s, t);
    assert(s@.subrange(0, tb.len() as int) =~= s@);
    r
}

/// Handle query commands (qXXX)
fn handle_query(cmd: &[u8]) -> (r: String)
    ensures
        r@ == query_reply(cmd@),
{
    proof {
        reveal_strlit("PacketSize=4096");
        reveal_strlit("1");
        reveal_strlit("QC0");
        reveal_strlit("m0");
        reveal_strlit("l");
        reveal_strlit("OK");
    }
    if text_starts_with(cmd, "qSupported") {
        // Report our capabilities
        "PacketSize=4096".to_owned()
    } else if text_is(cmd, "qAttached") {
        // We're attached to the process
        "1".to_owned()
    } else if text_is(cmd, "qC") {
        // Current thread ID (we don't have threads, use 0)
        "QC0".to_owned()
    } else if text_is(cmd, "qfThreadInfo") {
        // First thread in list
        "m0".to_owned()
    } else if text_is(cmd, "qsThreadInfo") {
        // End of thread list
        "l".to_owned()
    } else if text_starts_with(cmd, "qSymbol") {
        // Symbol lookup (not supported)
        "OK".to_owned()
    } else {
        // Trace status, relocation offsets and unknown queries: no reply
        String::new()
    }
}

// === Z / z: breakpoints ===

/// The address of a breakpoint command `Z<type>,<addr>,<kind>`: the hex
/// field after the first comma
pub open spec fn breakpoint_address(cmd: Seq<u8>) -> Option<u32> {
    let rest = cmd.subrange(2, cmd.len() as int);
    match find_comma(rest, 0) {
        None => None,
        Some(c1) => {
            let end = match find_comma(rest, c1 + 1) {
                Some(c2) => c2,
                None => rest.len() as int,
            };
            match parse_hex_spec(rest.subrange(c1 + 1, end), u32::MAX as int) {
                Some(a) => Some(a as u32),
                None => None,
            }
        },
    }
}

/// Parse the address of a breakpoint command
fn parse_breakpoint_address(cmd: &[u8]) -> (r: Option<u32>)
    requires
        cmd@.len() >= 2,
    ensures
        r == breakpoint_address(cmd@),
{
    let rest = &cmd[2..cmd.len()];
    assert(rest@ =~= cmd@.subrange(2, cmd@.len() as int));
    let c1 = match position_of_comma(rest, 0) {
        Some(c) => c,
        None => return None,
    };
    let end = match position_of_comma(rest, c1 + 1) {
        Some(c2) => c2,
        None => rest.len(),
    };
    let field = &rest[c1 + 1..end];
    assert(field@ =~= rest@.subrange(c1 + 1, end as int));
    match parse_hex(field, 0xFFFF_FFFF) {
        Some(a) => Some(a as u32),
        None => None,
    }
}

/// Insert breakpoint: Z0,<addr>,<kind>
fn insert_breakpoint(debugger: &mut GdbDebugger, cmd: &[u8]) -> (r: String)
    requires
        old(debugger).wf(),
        cmd@.len() >= 2,
    ensures
        breakpoint_changed(*old(debugger), *final(debugger), cmd@, true, r@),
{
    proof {
        reveal_strlit("OK");
        reveal_strlit("E01");
    }
    match parse_breakpoint_address(cmd) {
        Some(addr) => {
            debugger.add_breakpoint(addr);
            "OK".to_owned()
        },
        None => "E01".to_owned(),
    }
}

/// Remove breakpoint: z0,<addr>,<kind>
fn remove_breakpoint(debugger: &mut GdbDebugger, cmd: &[u8]) -> (r: String)
    requires
        old(debugger).wf(),
        cmd@.len() >= 2,
    ensures
        breakpoint_changed(*old(debugger), *final(debugger), cmd@, false, r@),
{
    proof {
        reveal_strlit("OK");
        reveal_strlit("E01");
    }
    match parse_breakpoint_address(cmd) {
        Some(addr) => {
            debugger.remove_breakpoint(addr);
            "OK".to_owned()
        },
        None => "E01".to_owned(),
    }
}

/// `new` is `old` after a breakpoint command (`insert` or remove): the
/// address added or removed, or nothing changed and `E01`
pub open spec fn breakpoint_changed(
    old: GdbDebugger,
    new: GdbDebugger,
    cmd: Seq<u8>,
    insert: bool,
    reply: Seq<char>,
) -> bool {
    &&& new.wf()
    &&& match breakpoint_address(cmd) {
        None => new == old && reply == "E01"@,
        Some(addr) => {
            &&& reply == "OK"@
            &&& new.state == old.state
            &&& new.packets_processed == old.packets_processed
            &&& new.outgoing@ == old.outgoing@
            &&& if insert {
                new.breakpoints@ == (if old.breakpoints@.contains(addr) {
                    old.breakpoints@
                } else {
                    old.breakpoints@.push(addr)
                })
            } else {
                &&& !new.breakpoints@.contains(addr)
                &&& forall|a: u32|
                    a != addr ==> (#[trigger] new.breakpoints@.contains(a)
                        <==> old.breakpoints@.contains(a))
            }
        },
    }
}

// === All commands ===

/// The command can be handled (it is cut into fields along character
/// boundaries, and memory accesses stay below 4GB)
pub open spec fn command_ok(cmd: Seq<u8>) -> bool {
    cmd.len() > 0 ==> {
        let rest = cmd.subrange(1, cmd.len() as int);
        &&& cmd[0] == 71 ==> register_dump_ok(rest)
        &&& cmd[0] == 109 ==> read_request_ok(rest)
        &&& cmd[0] == 77 ==> write_request_ok(rest)
        &&& (cmd[0] == 90 || cmd[0] == 122) ==> cmd.len() >= 2 && at_boundary(cmd, 2)
    }
}

/// What a command does to the CPU, the memory and the debugger, and the
/// text it answers with
pub open spec fn command_outcome(
    cmd: Seq<u8>,
    oc: Cpu,
    om: MemoryBus,
    od: GdbDebugger,
    nc: Cpu,
    nm: MemoryBus,
    nd: GdbDebugger,
    reply: Seq<char>,
) -> bool {
    let unchanged = nc == oc && nm == om && nd == od;
    let rest = cmd.subrange(1, cmd.len() as int);
    if cmd.len() == 0 {
        unchanged && reply == Seq::<char>::empty()
    } else if cmd[0] == 63 {
        // ? : halt reason
        unchanged && reply == "S05"@
    } else if cmd[0] == 103 {
        // g : read all registers
        unchanged && reply == words_text(register_words(oc))
    } else if cmd[0] == 71 {
        // G : write all registers
        &&& nm == om
        &&& nd == od
        &&& if rest.len() < 64 {
            nc == oc && reply == "E01"@
        } else {
            registers_set(oc, nc, rest) && reply == "OK"@
        }
    } else if cmd[0] == 109 {
        // m : read memory
        unchanged && reply == read_memory_reply(om, rest)
    } else if cmd[0] == 77 {
        // M : write memory
        &&& nc == oc
        &&& nd == od
        &&& memory_written(om, nm, rest)
        &&& reply == write_memory_reply(rest)
    } else if cmd[0] == 99 {
        // c : continue
        &&& nc == oc
        &&& nm == om
        &&& nd == (GdbDebugger { state: DebugState::Running, ..od })
        &&& reply == Seq::<char>::empty()
    } else if cmd[0] == 115 {
        // s : single step
        &&& nc == oc
        &&& nm == om
        &&& nd == (GdbDebugger { state: DebugState::SingleStep, ..od })
        &&& reply == Seq::<char>::empty()
    } else if cmd[0] == 107 {
        // k : kill / detach
        &&& nc == oc
        &&& nm == om
        &&& nd == (GdbDebugger { state: DebugState::Paused, ..od })
        &&& reply == "OK"@
    } else if cmd[0] == 72 {
        // H : set thread (there are no threads)
        unchanged && reply == "OK"@
    } else if cmd[0] == 113 {
        // q : query
        unchanged && reply == query_reply(cmd)
    } else if cmd[0] == 90 {
        // Z : insert breakpoint
        nc == oc && nm == om && breakpoint_changed(od, nd, cmd, true, reply)
    } else if cmd[0] == 122 {
        // z : remove breakpoint
        nc == oc && nm == om && breakpoint_changed(od, nd, cmd, false, reply)
    } else {
        // unsupported: no reply
        unchanged && reply == Seq::<char>::empty()
    }
}

/// Handle a GDB command and return the text of the reply
pub fn handle_command(
    cmd: &str,
    cpu: &mut Cpu,
    mem: &mut MemoryBus,
    debugger: &mut GdbDebugger,
) -> (r: String)
    requires
        old(mem).wf(),
        old(debugger).wf(),
        command_ok(cmd.spec_bytes()),
    ensures
        final(mem).wf(),
        final(debugger).wf(),
        command_outcome(
            cmd.spec_bytes(),
            *old(cpu),
            *old(mem),
            *old(debugger),
            *final(cpu),
            *final(mem),
            *final(debugger),
            r@,
        ),
{
    proof {
        reveal_strlit("S05");
        reveal_strlit("OK");
        reveal_strlit("E01");
    }
    let b = cmd.as_bytes();
    if b.len() == 0 {
        return String::new();
    }
    let rest = &b[1..b.len()];
    assert(rest@ =~= b@.subrange(1, b@.len() as int));
    let c = b[0];
    if c == 63 {
        // Halt reason (SIGTRAP = signal 5)
        "S05".to_owned()
    } else if c == 103 {
        read_all_registers(cpu)
    } else if c == 71 {
        write_all_registers(cpu, rest)
    } else if c == 109 {
        read_memory(mem, rest)
    } else if c == 77 {
        write_memory(mem, rest)
    } else if c == 99 {
        debugger.resume();
        String::new()
    } else if c == 115 {
        debugger.single_step();
        String::new()
    } else if c == 107 {
        debugger.pause();
        "OK".to_owned()
    } else if c == 72 {
        "OK".to_owned()
    } else if c == 113 {
        handle_query(b)
    } else if c == 90 {
        insert_breakpoint(debugger, b)
    } else if c == 122 {
        remove_breakpoint(debugger, b)
    } else {
        String::new()
    }
}

} // verus!

verus! {

// === Checking a command before it is handled ===

/// Whether offset `p` of `s` lies on a character boundary
fn boundary_at(s: &[u8], p: usize) -> (r: bool)
    ensures
        r == at_boundary(s@, p as int),
{
    p == s.len() || (p < s.len() && !(s[p] >= 0x80 && s[p] < 0xC0))
}

/// Whether a register dump can be cut into its fields
fn register_dump_check(data: &[u8]) -> (r: bool)
    ensures
        r == register_dump_ok(data@),
{
    if data.len() < 64 {
        return true;
    }
    let mut k: usize = 0;
    while k <= 28
        invariant
            0 <= k <= 29,
            data@.len() >= 64,
            forall|i: int| 0 <= i < k ==> #[trigger] at_boundary(data@, 2 * i),
        decreases 29 - k,
    {
        if !boundary_at(data, 2 * k) {
            return false;
        }
        k = k + 1;
    }
    true
}

/// Whether every pair that a memory write reaches can be cut out and every
/// byte it writes lies below 4GB
fn writes_check(addr: u32, n: usize, data: &[u8]) -> (r: bool)
    ensures
        r == writes_ok(addr, n as nat, data@),
{
    let mut j: usize = 0;
    while j < n
        invariant
            0 <= j <= n,
            good_pairs(data@, j as int) == j,
            forall|i: int|
                0 <= i < j ==> #[trigger] pair_ok(data@, i) && (pair_value(data@, i) is Some ==> addr
                    + i <= u32::MAX),
        decreases n - j,
    {
        if !(data.len() >= 2 && j <= (data.len() - 2) / 2) {
            assert(!pair_ok(data@, j as int));
            return false;
        }
        if !(boundary_at(data, 2 * j) && boundary_at(data, 2 * j + 2)) {
            assert(!pair_ok(data@, j as int));
            return false;
        }
        let pair = &data[2 * j..2 * j + 2];
        assert(pair@ =~= data@.subrange(2 * j, 2 * j + 2));
        match parse_hex(pair, 255) {
            None => {
                assert forall|i: int|
                    0 <= i < n && #[trigger] good_pairs(data@, i) == i implies pair_ok(data@, i) && (
                    pair_value(data@, i) is Some ==> addr + i <= u32::MAX) by {
                    if i > j {
                        lemma_good_pairs_stop(data@, j as int, i);
                    }
                }
                return true;
            },
            Some(_) => {
                if (addr as u64) + (j as u64) > 0xFFFF_FFFF {
                    return false;
                }
            },
        }
        j = j + 1;
    }
    assert forall|i: int|
        0 <= i < n && #[trigger] good_pairs(data@, i) == i implies pair_ok(data@, i) && (
        pair_value(data@, i) is Some ==> addr + i <= u32::MAX) by {}
    true
}

/// Whether the command can be handled (see `command_ok`): hosts test
/// this before handing a packet to `handle_command`.
pub fn command_is_ok(cmd: &str) -> (r: bool)
    ensures
        r == command_ok(cmd.spec_bytes()),
{
    let b = cmd.as_bytes();
    if b.len() == 0 {
        return true;
    }
    let rest = &b[1..b.len()];
    assert(rest@ =~= b@.subrange(1, b@.len() as int));
    let c = b[0];
    if c == 71 {
        register_dump_check(rest)
    } else if c == 109 {
        match parse_read_request(rest) {
            None => true,
            Some((addr, n)) => n == 0 || (addr as u128) + (n as u128) <= 0x1_0000_0000,
        }
    } else if c == 77 {
        match parse_write_request(rest) {
            None => true,
            Some((addr, n, start)) => {
                let data = &rest[start..rest.len()];
                assert(data@ =~= rest@.subrange(start as int, rest@.len() as int));
                writes_check(addr, n, data)
            },
        }
    } else if c == 90 || c == 122 {
        b.len() >= 2 && boundary_at(b, 2)
    } else {
        true
    }
}

/// Reading the registers after a register write gives back what was
/// written: word `k` of the `g` reply is field `k` of the `G` dump (AX..DI,
/// IP, then CS, SS, DS and ES as words 10 to 13) wherever that field
/// parses, and the old value where it does not; the FLAGS word, which the
/// write skips, keeps its value.
pub proof fn law_registers_read_after_write(old: Cpu, new: Cpu, data: Seq<u8>)
    requires
        registers_set(old, new, data),
    ensures
        register_words(new).len() == 16,
        forall|k: int|
            0 <= k < 14 && k != 9 ==> #[trigger] register_words(new)[k] == field_or(
                data,
                k,
                register_words(old)[k],
            ),
        register_words(new)[9] == old.flags,
{
    let wn = register_words(new);
    let wo = register_words(old);
    assert(wn.len() == 16);
    assert forall|k: int| 0 <= k < 14 && k != 9 implies #[trigger] wn[k] == field_or(data, k, wo[k]) by {
        if k < 8 {
            assert(wn[k] == new.regs@[k]);
            assert(wo[k] == old.regs@[k]);
            assert(new.regs@[k] == field_or(data, k, old.regs@[k]));
        } else if k == 8 {
            assert(wn[k] == new.ip && wo[k] == old.ip);
        } else if k == 10 {
            assert(wn[k] == new.segments@[1] && wo[k] == old.segments@[1]);
        } else if k == 11 {
            assert(wn[k] == new.segments@[2] && wo[k] == old.segments@[2]);
        } else if k == 12 {
            assert(wn[k] == new.segments@[3] && wo[k] == old.segments@[3]);
        } else {
            assert(wn[k] == new.segments@[0] && wo[k] == old.segments@[0]);
        }
    }
}

/// The order of the registers in a `g` reply, as GDB's 8086 target reads
/// them: AX, CX, DX, BX, SP, BP, SI, DI, IP, FLAGS, CS, SS, DS, ES, then two
/// unused words.
pub proof fn law_register_order(cpu: Cpu)
    ensures
        register_words(cpu).len() == 16,
        forall|i: int| 0 <= i < 8 ==> #[trigger] register_words(cpu)[i] == cpu.regs@[i],
        register_words(cpu)[8] == cpu.ip,
        register_words(cpu)[9] == cpu.flags,
        register_words(cpu)[10] == cpu.seg(1),
        register_words(cpu)[11] == cpu.seg(2),
        register_words(cpu)[12] == cpu.seg(3),
        register_words(cpu)[13] == cpu.seg(0),
        register_words(cpu)[14] == 0,
        register_words(cpu)[15] == 0,
{
}

/// The bytes of text made of ASCII characters
pub open spec fn text_bytes(t: Seq<char>) -> Seq<u8> {
    Seq::new(t.len(), |i: int| t[i] as u8)
}

/// The two hex digits written for a byte read back as that byte.
pub proof fn law_hex_byte_round_trip(b: u8)
    ensures
        parse_hex_spec(text_bytes(hex_byte_text(b)), 255) == Some(b as int),
{
    let d = text_bytes(hex_byte_text(b));
    let hi = b / 16;
    let lo = b % 16;
    assert(d.len() == 2);
    assert(d[0] == hex_char(hi) as u8 && d[1] == hex_char(lo) as u8);
    assert(hex_value(d[0]) == Some(hi));
    assert(hex_value(d[1]) == Some(lo));
    let d1 = d.drop_last();
    assert(d1.len() == 1 && d1.last() == d[0]);
    assert(d1.drop_last() =~= Seq::<u8>::empty());
    assert(hex_digits_value(d1.drop_last()) == 0);
    assert(hex_digits_value(d1) == hi as int);
    assert(d.last() == d[1]);
    assert(hex_digits_value(d) == hi as int * 16 + lo as int);
    assert(all_hex(d));
}

/// The four hex digits written for a register (low byte first) read back
/// as that register's value, so a `G` of a `g` reply's field restores it.
pub proof fn law_hex_word_round_trip(v: u16)
    ensures
        le16_of(text_bytes(hex_le16_text(v))) == Some(v),
{
    let lo = (v % 256) as u8;
    let hi = (v / 256) as u8;
    let t = text_bytes(hex_le16_text(v));
    law_hex_byte_round_trip(lo);
    law_hex_byte_round_trip(hi);
    assert(t.subrange(0, 2) =~= text_bytes(hex_byte_text(lo)));
    assert(t.subrange(2, 4) =~= text_bytes(hex_byte_text(hi)));
}

/// The text of a run of words is four hex digits per word, in order.
proof fn lemma_words_text(ws: Seq<u16>, k: int)
    requires
        0 <= k < ws.len(),
    ensures
        words_text(ws).len() == 4 * ws.len(),
        words_text(ws).subrange(4 * k, 4 * k + 4) == hex_le16_text(ws[k]),
    decreases ws.len(),
{
    let init = ws.drop_last();
    if k < ws.len() - 1 {
        lemma_words_text(init, k);
        assert(words_text(ws).subrange(4 * k, 4 * k + 4) =~= words_text(init).subrange(4 * k, 4 * k + 4));
    } else {
        if init.len() > 0 {
            lemma_words_text(init, 0);
        } else {
            assert(words_text(init) =~= Seq::<char>::empty());
        }
        assert(words_text(ws).subrange(4 * k, 4 * k + 4) =~= hex_le16_text(ws.last()));
    }
}

/// Writing back the text of a `g` reply with `G` restores every register
/// as it was.
pub proof fn law_registers_round_trip(cpu: Cpu, new: Cpu)
    requires
        registers_set(cpu, new, text_bytes(words_text(register_words(cpu)))),
    ensures
        new.regs@ == cpu.regs@,
        new.ip == cpu.ip,
        new.segments@ == cpu.segments@,
        new.flags == cpu.flags,
{
    let ws = register_words(cpu);
    let data = text_bytes(words_text(ws));
    assert forall|k: int| 0 <= k < 16 implies #[trigger] field_or(data, k, ws[k]) == ws[k] by {
        lemma_words_text(ws, k);
        law_hex_word_round_trip(ws[k]);
        assert(data.subrange(4 * k, 4 * k + 4) =~= text_bytes(hex_le16_text(ws[k])));
    }
    assert(field_or(data, 8, ws[8]) == ws[8]);
    assert(field_or(data, 10, ws[10]) == ws[10]);
    assert(field_or(data, 11, ws[11]) == ws[11]);
    assert(field_or(data, 12, ws[12]) == ws[12]);
    assert(field_or(data, 13, ws[13]) == ws[13]);
    assert forall|i: int| 0 <= i < 8 implies field_or(data, i, cpu.regs@[i]) == cpu.regs@[i] by {
        assert(field_or(data, i, ws[i]) == ws[i]);
    }
    assert(new.regs@ =~= cpu.regs@);
    assert(new.segments@ =~= cpu.segments@);
}

} // verus!
