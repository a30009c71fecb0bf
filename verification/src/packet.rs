//! Layout of the HID reports exchanged with the PD200X.
//!
//! Every host report is 65 bytes: a six-byte header, a run of 16-bit
//! little-endian words, a 16-bit little-endian checksum, and zero padding.
//! The checksum is the two's complement (modulo 2^16) of the sum of the bytes
//! from index 1 up to the end of the words. Device replies are 64 bytes and
//! carry a command and a value at the same offsets as a command report.

use vstd::prelude::*;

use crate::error::{Error, Result};

verus! {

/// Sum of a sequence of bytes.
pub open spec fn byte_sum(s: Seq<u8>) -> nat
    decreases s.len(),
{
    if s.len() == 0 {
        0
    } else {
        byte_sum(s.drop_last()) + s.last() as nat
    }
}

/// The 16-bit checksum of `s`: minus the byte sum, modulo 2^16.
pub open spec fn checksum_of(s: Seq<u8>) -> u16 {
    ((0x10000 - byte_sum(s) % 0x10000) % 0x10000) as u16
}

/// Low byte of a 16-bit word.
pub open spec fn lo(w: u16) -> u8 {
    (w % 256) as u8
}

/// High byte of a 16-bit word.
pub open spec fn hi(w: u16) -> u8 {
    (w / 256) as u8
}

/// The 16-bit word whose little-endian bytes are `b0`, `b1`.
pub open spec fn le16(b0: u8, b1: u8) -> u16 {
    (b0 + 256 * b1) as u16
}

/// The little-endian byte encoding of a run of 16-bit words.
pub open spec fn words_le(words: Seq<u16>) -> Seq<u8> {
    Seq::new(2 * words.len(), |i: int| if i % 2 == 0 { lo(words[i / 2]) } else { hi(words[i / 2]) })
}

/// Length of every report the host sends (report ID byte included).
pub const REPORT_LEN: usize = 65;

/// Length of every report the device sends.
pub const RESPONSE_LEN: usize = 64;

/// A host report: `header`, then `words` little-endian, then the checksum of
/// everything after byte 0 so far, then zeros up to `REPORT_LEN` bytes.
pub open spec fn report(header: Seq<u8>, words: Seq<u16>) -> Seq<u8> {
    let body = header + words_le(words);
    let cs = checksum_of(body.subrange(1, body.len() as int));
    body + seq![lo(cs), hi(cs)] + Seq::new((REPORT_LEN - body.len() - 2) as nat, |i: int| 0u8)
}

/// Header of a SET command report.
pub open spec fn command_header() -> Seq<u8> {
    seq![0x4Bu8, 0xC4u8, 0x0Bu8, 0x00u8, 0x00u8, 0x03u8]
}

/// Header of a register query report.
pub open spec fn query_header() -> Seq<u8> {
    seq![0x4Bu8, 0xC4u8, 0x09u8, 0x00u8, 0x00u8, 0x04u8]
}

/// Header of an EQ report, which sets five registers at once.
pub open spec fn eq_header() -> Seq<u8> {
    seq![0x4Bu8, 0xC4u8, 0x1Bu8, 0x00u8, 0x00u8, 0x03u8]
}

/// The registers and values of EQ pairs, in order.
pub open spec fn pair_words(pairs: Seq<(u16, u16)>) -> Seq<u16> {
    Seq::new(2 * pairs.len(), |i: int| if i % 2 == 0 { pairs[i / 2].0 } else { pairs[i / 2].1 })
}

proof fn lemma_byte_sum_step(s: Seq<u8>, i: int)
    requires
        1 <= i < s.len(),
    ensures
        byte_sum(s.subrange(1, i + 1)) == byte_sum(s.subrange(1, i)) + s[i],
{
    assert(s.subrange(1, i + 1).drop_last() =~= s.subrange(1, i));
}

/// The 16-bit checksum of `packet[1..end]`: the negated byte sum, modulo 2^16.
pub fn checksum(packet: &[u8], end: usize) -> (cs: u16)
    requires
        1 <= end <= packet.len(),
    ensures
        cs == checksum_of(packet@.subrange(1, end as int)),
{
    let mut sum: u32 = 0;
    let mut i: usize = 1;
    assert(packet@.subrange(1, 1).len() == 0);
    while i < end
        invariant
            1 <= i <= end <= packet.len(),
            sum < 0x10000,
            sum == byte_sum(packet@.subrange(1, i as int)) % 0x10000,
        decreases end - i,
    {
        proof {
            lemma_byte_sum_step(packet@, i as int);
            vstd::arithmetic::div_mod::lemma_add_mod_noop(
                byte_sum(packet@.subrange(1, i as int)) as int,
                packet@[i as int] as int,
                0x10000,
            );
            vstd::arithmetic::div_mod::lemma_small_mod(packet@[i as int] as nat, 0x10000);
            vstd::arithmetic::div_mod::lemma_mod_twice(
                byte_sum(packet@.subrange(1, i as int)) as int,
                0x10000,
            );
        }
        sum = (sum + packet[i] as u32) % 0x10000;
        i = i + 1;
    }
    if sum == 0 {
        0
    } else {
        (0x10000 - sum) as u16
    }
}


/// Lays out a host report: `header`, the words little-endian, their checksum, zeros.
fn build_report(header: [u8; 6], words: &[u16]) -> (p: [u8; 65])
    requires
        words.len() <= 28,
    ensures
        p@ == report(header@, words@),
{
    let mut p = [0u8; 65];
    let mut i: usize = 0;
    while i < 6
        invariant
            i <= 6,
            p@.len() == 65,
            forall|j: int| 0 <= j < i ==> p@[j] == header@[j],
            forall|j: int| i <= j < 65 ==> p@[j] == 0,
        decreases 6 - i,
    {
        p[i] = header[i];
        i = i + 1;
    }
    let n = words.len();
    let ghost wl = words_le(words@);
    let mut k: usize = 0;
    while k < n
        invariant
            k <= n,
            n == words.len(),
            n <= 28,
            wl == words_le(words@),
            p@.len() == 65,
            forall|j: int| 0 <= j < 6 ==> p@[j] == header@[j],
            forall|j: int| 6 <= j < 6 + 2 * k ==> p@[j] == wl[j - 6],
            forall|j: int| 6 + 2 * k <= j < 65 ==> p@[j] == 0,
        decreases n - k,
    {
        let w = words[k];
        p[6 + 2 * k] = (w % 256) as u8;
        p[7 + 2 * k] = (w / 256) as u8;
        assert(wl[2 * k as int] == lo(w));
        assert(wl[2 * k + 1] == hi(w));
        k = k + 1;
    }
    let end = 6 + 2 * n;
    let ghost body = header@ + wl;
    assert(p@.subrange(1, end as int) =~= body.subrange(1, body.len() as int));
    let cs = checksum(p.as_slice(), end);
    p[end] = (cs % 256) as u8;
    p[end + 1] = (cs / 256) as u8;
    assert(p@ =~= report(header@, words@));
    p
}

/// Builds a SET command report writing `value` to register `cmd`.
pub fn build_command_packet(cmd: u16, value: u16) -> (p: [u8; 65])
    ensures
        p@ == report(command_header(), seq![cmd, value]),
{
    let words = [cmd, value];
    let p = build_report([0x4B, 0xC4, 0x0B, 0x00, 0x00, 0x03], words.as_slice());
    assert([0x4Bu8, 0xC4, 0x0B, 0x00, 0x00, 0x03]@ =~= command_header());
    assert(words@ =~= seq![cmd, value]);
    p
}

/// Builds a report asking the device for the value of register `cmd`.
pub fn build_query_packet(cmd: u16) -> (p: [u8; 65])
    ensures
        p@ == report(query_header(), seq![cmd]),
{
    let words = [cmd];
    let p = build_report([0x4B, 0xC4, 0x09, 0x00, 0x00, 0x04], words.as_slice());
    assert([0x4Bu8, 0xC4, 0x09, 0x00, 0x00, 0x04]@ =~= query_header());
    assert(words@ =~= seq![cmd]);
    p
}

/// Builds an EQ report setting five registers: `pairs` are `(register, value)`,
/// one per EQ parameter slot.
pub fn build_eq_packet(pairs: [(u16, u16); 5]) -> (p: [u8; 65])
    ensures
        p@ == report(eq_header(), pair_words(pairs@)),
{
    let words = [
        pairs[0].0, pairs[0].1,
        pairs[1].0, pairs[1].1,
        pairs[2].0, pairs[2].1,
        pairs[3].0, pairs[3].1,
        pairs[4].0, pairs[4].1,
    ];
    let p = build_report([0x4B, 0xC4, 0x1B, 0x00, 0x00, 0x03], words.as_slice());
    assert([0x4Bu8, 0xC4, 0x1B, 0x00, 0x00, 0x03]@ =~= eq_header());
    assert(words@ =~= pair_words(pairs@));
    p
}


/// A reply of the device: the register it reports on and its value.
#[derive(Debug, Clone, Copy, PartialEq, Eq, Structural)]
pub struct Response {
    pub command: u16,
    pub value: u16,
}

/// A device reply is accepted when byte 1 is the magic `0xC4` and the word at
/// bytes 10..12 is the checksum of bytes 1..10.
pub open spec fn response_valid(raw: Seq<u8>) -> bool {
    &&& raw[1] == 0xC4
    &&& le16(raw[10], raw[11]) == checksum_of(raw.subrange(1, 10))
}

/// The command and value a device reply carries at bytes 6..8 and 8..10.
pub open spec fn response_fields(raw: Seq<u8>) -> Response {
    Response { command: le16(raw[6], raw[7]), value: le16(raw[8], raw[9]) }
}

/// Reads the little-endian word at `raw[i]`, `raw[i + 1]`.
fn read_le16(raw: &[u8; 64], i: usize) -> (w: u16)
    requires
        i + 1 < 64,
    ensures
        w == le16(raw@[i as int], raw@[i + 1]),
{
    raw[i] as u16 + (raw[i + 1] as u16) * 256
}

/// Parses a 64-byte device reply (the device does not echo back a report ID
/// byte the way the host transmits one).
///
/// Fails with `Error::BadResponse` when the magic byte or the checksum is wrong.
pub fn parse_response(raw: &[u8; 64]) -> (r: Result<Response>)
    ensures
        r is Ok <==> response_valid(raw@),
        r matches Ok(resp) ==> resp == response_fields(raw@),
        r matches Err(e) ==> e is BadResponse,
{
    if raw[1] != 0xC4 {
        return Err(Error::BadResponse);
    }
    let command = read_le16(raw, 6);
    let value = read_le16(raw, 8);
    let stored_cs = read_le16(raw, 10);
    let computed_cs = checksum(raw.as_slice(), 10);
    if stored_cs != computed_cs {
        return Err(Error::BadResponse);
    }
    Ok(Response { command, value })
}

/// The checksum cancels the byte sum: together they are zero modulo 2^16.
pub proof fn lemma_checksum_cancels_sum(s: Seq<u8>)
    ensures
        (byte_sum(s) + checksum_of(s)) % 0x10000 == 0,
{
}

/// A word survives its little-endian encoding.
pub proof fn lemma_le16_roundtrip(w: u16)
    ensures
        le16(lo(w), hi(w)) == w,
{
}

/// In every host report, the word stored after the payload is the checksum of
/// bytes 1 up to the end of the payload.
pub proof fn lemma_report_checksum_matches(header: Seq<u8>, words: Seq<u16>)
    requires
        header.len() == 6,
        words.len() <= 28,
    ensures
        ({
            let r = report(header, words);
            let end: int = 6 + 2 * words.len() as int;
            &&& r.len() == REPORT_LEN
            &&& le16(r[end], r[end + 1]) == checksum_of(r.subrange(1, end))
        }),
{
    let r = report(header, words);
    let end: int = 6 + 2 * words.len() as int;
    let body = header + words_le(words);
    assert(r.subrange(1, end) =~= body.subrange(1, body.len() as int));
    lemma_le16_roundtrip(checksum_of(body.subrange(1, body.len() as int)));
}

/// A command report, cut to the 64 bytes of a device reply, is accepted by
/// `parse_response` and yields the register and value it was built from.
pub proof fn lemma_command_report_parses_back(cmd: u16, value: u16)
    ensures
        ({
            let raw = report(command_header(), seq![cmd, value]).take(64);
            &&& response_valid(raw)
            &&& response_fields(raw) == (Response { command: cmd, value })
        }),
{
    let full = report(command_header(), seq![cmd, value]);
    let raw = full.take(64);
    lemma_report_checksum_matches(command_header(), seq![cmd, value]);
    assert(raw.subrange(1, 10) =~= full.subrange(1, 10));
    lemma_le16_roundtrip(cmd);
    lemma_le16_roundtrip(value);
    assert(words_le(seq![cmd, value])[0] == lo(cmd));
    assert(words_le(seq![cmd, value])[1] == hi(cmd));
    assert(words_le(seq![cmd, value])[2] == lo(value));
    assert(words_le(seq![cmd, value])[3] == hi(value));
}


/// The byte sum of the nine bytes at 1..10 of `raw`.
proof fn lemma_byte_sum_nine(raw: Seq<u8>)
    requires
        raw.len() >= 10,
    ensures
        byte_sum(raw.subrange(1, 10)) == raw[1] + raw[2] + raw[3] + raw[4] + raw[5] + raw[6] + raw[7]
            + raw[8] + raw[9],
{
    reveal_with_fuel(byte_sum, 10);
    let t = raw.subrange(1, 10);
    assert(t.drop_last() =~= raw.subrange(1, 9));
    assert(t.drop_last().drop_last() =~= raw.subrange(1, 8));
    assert(t.drop_last().drop_last().drop_last() =~= raw.subrange(1, 7));
    assert(raw.subrange(1, 7).drop_last() =~= raw.subrange(1, 6));
    assert(raw.subrange(1, 6).drop_last() =~= raw.subrange(1, 5));
    assert(raw.subrange(1, 5).drop_last() =~= raw.subrange(1, 4));
    assert(raw.subrange(1, 4).drop_last() =~= raw.subrange(1, 3));
    assert(raw.subrange(1, 3).drop_last() =~= raw.subrange(1, 2));
    assert(raw.subrange(1, 2).drop_last() =~= raw.subrange(1, 1));
}

/// A 64-byte device reply is accepted exactly when byte 1 is `0xC4` and the
/// little-endian word at bytes 10..12, added to the bytes 1..10, gives zero
/// modulo 2^16; it carries the little-endian words at 6..8 (command) and
/// 8..10 (value).
pub proof fn lemma_response_layout(raw: Seq<u8>)
    requires
        raw.len() == 64,
    ensures
        response_valid(raw) <==> (raw[1] == 0xC4 && (raw[1] + raw[2] + raw[3] + raw[4] + raw[5] + raw[6]
            + raw[7] + raw[8] + raw[9] + raw[10] + 256 * raw[11]) % 0x10000 == 0),
        response_fields(raw).command == raw[6] + 256 * raw[7],
        response_fields(raw).value == raw[8] + 256 * raw[9],
{
    lemma_byte_sum_nine(raw);
}

/// The bytes of a command report: header `4B C4 0B 00 00 03`, the register
/// and the value little-endian, a checksum word that cancels the bytes
/// 1..10 modulo 2^16, then zeros.
pub proof fn lemma_command_report_bytes(cmd: u16, value: u16)
    ensures
        ({
            let r = report(command_header(), seq![cmd, value]);
            &&& r.len() == 65
            &&& r[0] == 0x4B && r[1] == 0xC4 && r[2] == 0x0B && r[3] == 0 && r[4] == 0 && r[5] == 3
            &&& r[6] == cmd % 256 && r[7] == cmd / 256
            &&& r[8] == value % 256 && r[9] == value / 256
            &&& (r[1] + r[2] + r[3] + r[4] + r[5] + r[6] + r[7] + r[8] + r[9] + r[10] + 256 * r[11])
                % 0x10000 == 0
            &&& forall|i: int| 12 <= i < 65 ==> r[i] == 0
        }),
{
    let r = report(command_header(), seq![cmd, value]);
    let w = words_le(seq![cmd, value]);
    assert(w[0] == lo(cmd) && w[1] == hi(cmd) && w[2] == lo(value) && w[3] == hi(value));
    lemma_report_checksum_matches(command_header(), seq![cmd, value]);
    lemma_byte_sum_nine(r);
    lemma_checksum_cancels_sum(r.subrange(1, 10));
}

/// The bytes of a query report: header `4B C4 09 00 00 04`, the register
/// little-endian, a checksum word that cancels the bytes 1..8 modulo 2^16,
/// then zeros.
pub proof fn lemma_query_report_bytes(cmd: u16)
    ensures
        ({
            let r = report(query_header(), seq![cmd]);
            &&& r.len() == 65
            &&& r[0] == 0x4B && r[1] == 0xC4 && r[2] == 0x09 && r[3] == 0 && r[4] == 0 && r[5] == 4
            &&& r[6] == cmd % 256 && r[7] == cmd / 256
            &&& (r[1] + r[2] + r[3] + r[4] + r[5] + r[6] + r[7] + r[8] + 256 * r[9]) % 0x10000 == 0
            &&& forall|i: int| 10 <= i < 65 ==> r[i] == 0
        }),
{
    let r = report(query_header(), seq![cmd]);
    let w = words_le(seq![cmd]);
    assert(w[0] == lo(cmd) && w[1] == hi(cmd));
    lemma_report_checksum_matches(query_header(), seq![cmd]);
    reveal_with_fuel(byte_sum, 8);
    let t = r.subrange(1, 8);
    assert(t.drop_last() =~= r.subrange(1, 7));
    assert(r.subrange(1, 7).drop_last() =~= r.subrange(1, 6));
    assert(r.subrange(1, 6).drop_last() =~= r.subrange(1, 5));
    assert(r.subrange(1, 5).drop_last() =~= r.subrange(1, 4));
    assert(r.subrange(1, 4).drop_last() =~= r.subrange(1, 3));
    assert(r.subrange(1, 3).drop_last() =~= r.subrange(1, 2));
    assert(r.subrange(1, 2).drop_last() =~= r.subrange(1, 1));
    lemma_checksum_cancels_sum(r.subrange(1, 8));
}

/// The bytes of an EQ report: header `4B C4 1B 00 00 03`, then for each of the
/// five pairs the register and the value little-endian, a checksum word at
/// `0x1A..0x1C` that is the checksum of bytes 1..0x1A, then zeros.
pub proof fn lemma_eq_report_bytes(pairs: Seq<(u16, u16)>)
    requires
        pairs.len() == 5,
    ensures
        ({
            let r = report(eq_header(), pair_words(pairs));
            &&& r.len() == 65
            &&& r[0] == 0x4B && r[1] == 0xC4 && r[2] == 0x1B && r[3] == 0 && r[4] == 0 && r[5] == 3
            &&& forall|k: int|
                0 <= k < 5 ==> {
                    &&& #[trigger] r[6 + 4 * k] == pairs[k].0 % 256
                    &&& r[7 + 4 * k] == pairs[k].0 / 256
                    &&& r[8 + 4 * k] == pairs[k].1 % 256
                    &&& r[9 + 4 * k] == pairs[k].1 / 256
                }
            &&& r[0x1A] + 256 * r[0x1B] == checksum_of(r.subrange(1, 0x1A))
            &&& forall|i: int| 0x1C <= i < 65 ==> r[i] == 0
        }),
{
    let r = report(eq_header(), pair_words(pairs));
    let ws = pair_words(pairs);
    let w = words_le(ws);
    assert forall|k: int| 0 <= k < 5 implies {
        &&& #[trigger] r[6 + 4 * k] == pairs[k].0 % 256
        &&& r[7 + 4 * k] == pairs[k].0 / 256
        &&& r[8 + 4 * k] == pairs[k].1 % 256
        &&& r[9 + 4 * k] == pairs[k].1 / 256
    } by {
        assert(ws[2 * k] == pairs[k].0);
        assert(ws[2 * k + 1] == pairs[k].1);
        assert(w[4 * k] == lo(ws[2 * k]));
        assert(w[4 * k + 1] == hi(ws[2 * k]));
        assert(w[4 * k + 2] == lo(ws[2 * k + 1]));
        assert(w[4 * k + 3] == hi(ws[2 * k + 1]));
    }
    lemma_report_checksum_matches(eq_header(), ws);
}

} // verus!
