//! The telemetry record, its 14-byte little-endian wire format and the
//! classification of readings.

use vstd::prelude::*;

verus! {

/// Length in bytes of one encoded telemetry record.
pub const TELEMETRY_SIZE: usize = 14;

/// Temperatures above this many degrees Celsius are critical.
pub const MAX_SAFE_TEMPERATURE: i16 = 100;

/// Temperatures below this many degrees Celsius are critical.
pub const MIN_SAFE_TEMPERATURE: i16 = -40;

/// Battery voltages below this many millivolts are critical.
pub const MIN_SAFE_BATTERY_MV: u16 = 3000;

/// Antenna angles further than this many degrees from zero are edge cases.
pub const MAX_SAFE_ANTENNA_ANGLE: i16 = 45;

/// One spacecraft status reading.
#[derive(Debug, Clone, Copy, PartialEq, Eq, Structural)]
pub struct Telemetry {
    pub timestamp_ms: u64,
    pub temperature: i16,
    pub battery_mv: u16,
    pub antenna_angle: i16,
}

/// Byte number `k` (least significant first) of the non-negative integer `v`.
pub open spec fn le_byte(v: int, k: nat) -> u8 {
    ((v / radix_power(k)) % 256) as u8
}

/// `256` raised to the power `k`.
pub open spec fn radix_power(k: nat) -> int
    decreases k,
{
    if k == 0 {
        1
    } else {
        256 * radix_power((k - 1) as nat)
    }
}

/// The `n` low bytes of `v`, least significant first.
pub open spec fn le_bytes(v: int, n: nat) -> Seq<u8> {
    Seq::new(n, |k: int| le_byte(v, k as nat))
}

/// The non-negative integer that a byte sequence spells, least significant
/// byte first.
pub open spec fn le_value(s: Seq<u8>) -> int
    decreases s.len(),
{
    if s.len() == 0 {
        0
    } else {
        s[0] as int + 256 * le_value(s.drop_first())
    }
}

/// The two's-complement bit pattern of a 16-bit signed value, as an unsigned
/// number.
pub open spec fn to_unsigned16(v: int) -> int {
    if v >= 0 {
        v
    } else {
        v + 0x1_0000
    }
}

/// The signed value of a 16-bit two's-complement bit pattern.
pub open spec fn to_signed16(raw: int) -> int {
    if raw < 0x8000 {
        raw
    } else {
        raw - 0x1_0000
    }
}

/// The wire image of a record: timestamp (8 bytes), temperature (2),
/// battery voltage (2) and antenna angle (2), each little-endian.
pub open spec fn encode(t: Telemetry) -> Seq<u8> {
    le_bytes(t.timestamp_ms as int, 8) + le_bytes(to_unsigned16(t.temperature as int), 2)
        + le_bytes(t.battery_mv as int, 2) + le_bytes(to_unsigned16(t.antenna_angle as int), 2)
}

/// The record that a buffer holds in its first 14 bytes, if it is that long.
pub open spec fn decode(s: Seq<u8>) -> Option<Telemetry> {
    if s.len() < TELEMETRY_SIZE {
        None
    } else {
        Some(
            Telemetry {
                timestamp_ms: le_value(s.subrange(0, 8)) as u64,
                temperature: to_signed16(le_value(s.subrange(8, 10))) as i16,
                battery_mv: le_value(s.subrange(10, 12)) as u16,
                antenna_angle: to_signed16(le_value(s.subrange(12, 14))) as i16,
            },
        )
    }
}

/// Whether a reading is critical: too hot, too cold, or battery too low.
pub open spec fn critical(t: Telemetry) -> bool {
    t.temperature > MAX_SAFE_TEMPERATURE || t.temperature < MIN_SAFE_TEMPERATURE || t.battery_mv
        < MIN_SAFE_BATTERY_MV
}

/// Whether a reading is an edge case: critical, or the antenna is more than
/// 45 degrees off in either direction.
pub open spec fn edge_case(t: Telemetry) -> bool {
    critical(t) || t.antenna_angle > MAX_SAFE_ANTENNA_ANGLE || t.antenna_angle
        < -MAX_SAFE_ANTENNA_ANGLE
}

/// A two-byte sequence spells its first byte plus 256 times its second.
proof fn lemma_le_value_2(s: Seq<u8>)
    requires
        s.len() == 2,
    ensures
        le_value(s) == s[0] + 256 * s[1],
{
    reveal_with_fuel(le_value, 3);
    assert(s.drop_first()[0] == s[1]);
}

/// An eight-byte sequence spells the sum of its bytes, each weighted by the
/// power of 256 of its position.
proof fn lemma_le_value_8(s: Seq<u8>)
    requires
        s.len() == 8,
    ensures
        le_value(s) == s[0] + 0x100 * s[1] + 0x1_0000 * s[2] + 0x100_0000 * s[3] + 0x1_0000_0000
            * s[4] + 0x100_0000_0000 * s[5] + 0x1_0000_0000_0000 * s[6] + 0x100_0000_0000_0000
            * s[7],
{
    let s1 = s.drop_first();
    let s2 = s1.drop_first();
    let s3 = s2.drop_first();
    let s4 = s3.drop_first();
    let s5 = s4.drop_first();
    let s6 = s5.drop_first();
    assert(le_value(s6) == s6[0] + 256 * s6[1]) by {
        lemma_le_value_2(s6);
    }
    assert(le_value(s5) == s5[0] + 256 * le_value(s6));
    assert(le_value(s4) == s4[0] + 256 * le_value(s5));
    assert(le_value(s3) == s3[0] + 256 * le_value(s4));
    assert(le_value(s2) == s2[0] + 256 * le_value(s3));
    assert(le_value(s1) == s1[0] + 256 * le_value(s2));
    assert(le_value(s) == s[0] + 256 * le_value(s1));
}

/// The first eight powers of 256.
proof fn lemma_radix_powers()
    ensures
        radix_power(0) == 1,
        radix_power(1) == 0x100,
        radix_power(2) == 0x1_0000,
        radix_power(3) == 0x100_0000,
        radix_power(4) == 0x1_0000_0000,
        radix_power(5) == 0x100_0000_0000,
        radix_power(6) == 0x1_0000_0000_0000,
        radix_power(7) == 0x100_0000_0000_0000,
{
    reveal_with_fuel(radix_power, 9);
}

/// Reads the unsigned 16-bit little-endian number at offset `at`.
fn read_u16_le(data: &[u8], at: usize) -> (v: u16)
    requires
        at + 2 <= data@.len(),
    ensures
        v == le_value(data@.subrange(at as int, at + 2)),
{
    proof {
        lemma_le_value_2(data@.subrange(at as int, at + 2));
    }
    let lo: u16 = data[at] as u16;
    let hi: u16 = data[at + 1] as u16;
    lo + 256 * hi
}

/// Reads the signed 16-bit little-endian number at offset `at`.
fn read_i16_le(data: &[u8], at: usize) -> (v: i16)
    requires
        at + 2 <= data@.len(),
    ensures
        v == to_signed16(le_value(data@.subrange(at as int, at + 2))),
{
    let raw: u16 = read_u16_le(data, at);
    if raw < 0x8000 {
        raw as i16
    } else {
        (raw as i32 - 0x1_0000) as i16
    }
}

/// Reads the unsigned 64-bit little-endian number at offset `at`.
fn read_u64_le(data: &[u8], at: usize) -> (v: u64)
    requires
        at + 8 <= data@.len(),
    ensures
        v == le_value(data@.subrange(at as int, at + 8)),
{
    proof {
        lemma_le_value_8(data@.subrange(at as int, at + 8));
    }
    let b0: u64 = data[at] as u64;
    let b1: u64 = data[at + 1] as u64;
    let b2: u64 = data[at + 2] as u64;
    let b3: u64 = data[at + 3] as u64;
    let b4: u64 = data[at + 4] as u64;
    let b5: u64 = data[at + 5] as u64;
    let b6: u64 = data[at + 6] as u64;
    let b7: u64 = data[at + 7] as u64;
    b0 + 0x100 * b1 + 0x1_0000 * b2 + 0x100_0000 * b3 + 0x1_0000_0000 * b4 + 0x100_0000_0000 * b5
        + 0x1_0000_0000_0000 * b6 + 0x100_0000_0000_0000 * b7
}

impl Telemetry {
    /// Encodes the record into its 14-byte wire image.
    pub fn to_bytes(&self) -> (bytes: [u8; TELEMETRY_SIZE])
        ensures
            bytes@ == encode(*self),
    {
        let ts: u64 = self.timestamp_ms;
        let temp: u16 = if self.temperature >= 0 {
            self.temperature as u16
        } else {
            (self.temperature as i32 + 0x1_0000) as u16
        };
        let batt: u16 = self.battery_mv;
        let angle: u16 = if self.antenna_angle >= 0 {
            self.antenna_angle as u16
        } else {
            (self.antenna_angle as i32 + 0x1_0000) as u16
        };
        proof {
            lemma_radix_powers();
        }
        let bytes: [u8; TELEMETRY_SIZE] = [
            (ts % 256) as u8,
            (ts / 0x100 % 256) as u8,
            (ts / 0x1_0000 % 256) as u8,
            (ts / 0x100_0000 % 256) as u8,
            (ts / 0x1_0000_0000 % 256) as u8,
            (ts / 0x100_0000_0000 % 256) as u8,
            (ts / 0x1_0000_0000_0000 % 256) as u8,
            (ts / 0x100_0000_0000_0000 % 256) as u8,
            (temp % 256) as u8,
            (temp / 0x100 % 256) as u8,
            (batt % 256) as u8,
            (batt / 0x100 % 256) as u8,
            (angle % 256) as u8,
            (angle / 0x100 % 256) as u8,
        ];
        assert(bytes@ =~= encode(*self));
        bytes
    }

    /// Decodes the record held in the first 14 bytes of `data`; later bytes
    /// are ignored, and a shorter buffer holds no record.
    pub fn from_bytes(data: &[u8]) -> (r: Option<Telemetry>)
        ensures
            r == decode(data@),
            r is None <==> data@.len() < TELEMETRY_SIZE,
    {
        if data.len() < TELEMETRY_SIZE {
            return None;
        }
        Some(
            Telemetry {
                timestamp_ms: read_u64_le(data, 0),
                temperature: read_i16_le(data, 8),
                battery_mv: read_u16_le(data, 10),
                antenna_angle: read_i16_le(data, 12),
            },
        )
    }

    /// Whether the reading is critical.
    pub fn is_critical(&self) -> (r: bool)
        ensures
            r == critical(*self),
    {
        self.temperature > MAX_SAFE_TEMPERATURE || self.temperature < MIN_SAFE_TEMPERATURE
            || self.battery_mv < MIN_SAFE_BATTERY_MV
    }

    /// Whether the reading is an edge case.
    pub fn is_edge_case(&self) -> (r: bool)
        ensures
            r == edge_case(*self),
    {
        self.is_critical() || self.antenna_angle > MAX_SAFE_ANTENNA_ANGLE || self.antenna_angle
            < -MAX_SAFE_ANTENNA_ANGLE
    }
}

/// A 64-bit number is the sum of its eight bytes, each weighted by the power
/// of 256 of its position.
proof fn lemma_u64_is_sum_of_bytes(v: u64)
    ensures
        v == (v % 256) + 0x100 * (v / 0x100 % 256) + 0x1_0000 * (v / 0x1_0000 % 256) + 0x100_0000
            * (v / 0x100_0000 % 256) + 0x1_0000_0000 * (v / 0x1_0000_0000 % 256)
            + 0x100_0000_0000 * (v / 0x100_0000_0000 % 256) + 0x1_0000_0000_0000 * (v
            / 0x1_0000_0000_0000 % 256) + 0x100_0000_0000_0000 * (v / 0x100_0000_0000_0000 % 256),
{
    let q1 = v / 0x100;
    let q2 = v / 0x1_0000;
    let q3 = v / 0x100_0000;
    let q4 = v / 0x1_0000_0000;
    let q5 = v / 0x100_0000_0000;
    let q6 = v / 0x1_0000_0000_0000;
    let q7 = v / 0x100_0000_0000_0000;
    assert(q2 == q1 / 0x100);
    assert(q3 == q2 / 0x100);
    assert(q4 == q3 / 0x100);
    assert(q5 == q4 / 0x100);
    assert(q6 == q5 / 0x100);
    assert(q7 == q6 / 0x100);
    assert(q7 < 0x100);
}

/// Decoding undoes encoding: the wire image of any record decodes to that
/// record, whatever its field values.
pub proof fn lemma_decode_encode(t: Telemetry)
    ensures
        encode(t).len() == TELEMETRY_SIZE,
        decode(encode(t)) == Some(t),
{
    let s = encode(t);
    lemma_radix_powers();
    lemma_le_value_8(s.subrange(0, 8));
    lemma_le_value_2(s.subrange(8, 10));
    lemma_le_value_2(s.subrange(10, 12));
    lemma_le_value_2(s.subrange(12, 14));
    let ts = t.timestamp_ms as int;
    assert(le_value(s.subrange(0, 8)) == ts) by {
        assert(forall|k: int| 0 <= k < 8 ==> s.subrange(0, 8)[k] == le_byte(ts, k as nat));
        lemma_u64_is_sum_of_bytes(t.timestamp_ms);
    }
    let temp = to_unsigned16(t.temperature as int);
    assert(le_value(s.subrange(8, 10)) == temp) by {
        assert(forall|k: int| 0 <= k < 2 ==> s.subrange(8, 10)[k] == le_byte(temp, k as nat));
    }
    let batt = t.battery_mv as int;
    assert(le_value(s.subrange(10, 12)) == batt) by {
        assert(forall|k: int| 0 <= k < 2 ==> s.subrange(10, 12)[k] == le_byte(batt, k as nat));
    }
    let angle = to_unsigned16(t.antenna_angle as int);
    assert(le_value(s.subrange(12, 14)) == angle) by {
        assert(forall|k: int| 0 <= k < 2 ==> s.subrange(12, 14)[k] == le_byte(angle, k as nat));
    }
}

/// Bytes past the fourteenth do not matter: a buffer decodes as its first
/// 14 bytes do, so a record followed by anything decodes to that record.
pub proof fn lemma_decode_ignores_tail(t: Telemetry, tail: Seq<u8>)
    ensures
        decode(encode(t) + tail) == Some(t),
{
    lemma_decode_encode(t);
    let s = encode(t);
    let long = s + tail;
    assert(long.subrange(0, 8) =~= s.subrange(0, 8));
    assert(long.subrange(8, 10) =~= s.subrange(8, 10));
    assert(long.subrange(10, 12) =~= s.subrange(10, 12));
    assert(long.subrange(12, 14) =~= s.subrange(12, 14));
}

/// No buffer shorter than 14 bytes decodes, and every other buffer does.
pub proof fn lemma_decode_some_iff_long_enough(s: Seq<u8>)
    ensures
        decode(s) is None <==> s.len() < TELEMETRY_SIZE,
{
}

/// The bytes of the number that eight bytes spell are those eight bytes.
proof fn lemma_bytes_of_le_value_8(s: Seq<u8>)
    requires
        s.len() == 8,
    ensures
        0 <= le_value(s) <= u64::MAX,
        le_bytes(le_value(s), 8) == s,
{
    lemma_le_value_8(s);
    lemma_radix_powers();
    let v = le_value(s);
    let r7 = s[7] as int;
    let r6 = s[6] + 0x100 * r7;
    let r5 = s[5] + 0x100 * r6;
    let r4 = s[4] + 0x100 * r5;
    let r3 = s[3] + 0x100 * r4;
    let r2 = s[2] + 0x100 * r3;
    let r1 = s[1] + 0x100 * r2;
    assert(v == s[0] + 0x100 * r1);
    assert(v / 0x100 == r1);
    assert(r1 / 0x100 == r2);
    assert(r2 / 0x100 == r3);
    assert(r3 / 0x100 == r4);
    assert(r4 / 0x100 == r5);
    assert(r5 / 0x100 == r6);
    assert(r6 / 0x100 == r7);
    assert(v / 0x1_0000 == r2);
    assert(v / 0x100_0000 == r3);
    assert(v / 0x1_0000_0000 == r4);
    assert(v / 0x100_0000_0000 == r5);
    assert(v / 0x1_0000_0000_0000 == r6);
    assert(v / 0x100_0000_0000_0000 == r7);
    let e = le_bytes(v, 8);
    assert(e[0] == s[0]);
    assert(e[1] == s[1]);
    assert(e[2] == s[2]);
    assert(e[3] == s[3]);
    assert(e[4] == s[4]);
    assert(e[5] == s[5]);
    assert(e[6] == s[6]);
    assert(e[7] == s[7]);
    assert(e =~= s);
}

/// The bytes of the number that two bytes spell are those two bytes.
proof fn lemma_bytes_of_le_value_2(s: Seq<u8>)
    requires
        s.len() == 2,
    ensures
        0 <= le_value(s) <= u16::MAX,
        le_bytes(le_value(s), 2) == s,
{
    lemma_le_value_2(s);
    lemma_radix_powers();
    let v = le_value(s);
    let e = le_bytes(v, 2);
    assert(e[0] == s[0]);
    assert(e[1] == s[1]);
    assert(e =~= s);
}

/// Encoding undoes decoding: the record that a buffer holds encodes to the
/// buffer's first 14 bytes, so nothing of them is lost in decoding.
pub proof fn lemma_encode_decode(s: Seq<u8>)
    requires
        s.len() >= TELEMETRY_SIZE,
    ensures
        decode(s) is Some,
        encode(decode(s)->0) == s.subrange(0, TELEMETRY_SIZE as int),
{
    lemma_bytes_of_le_value_8(s.subrange(0, 8));
    lemma_bytes_of_le_value_2(s.subrange(8, 10));
    lemma_bytes_of_le_value_2(s.subrange(10, 12));
    lemma_bytes_of_le_value_2(s.subrange(12, 14));
    assert(s.subrange(0, 8) + s.subrange(8, 10) + s.subrange(10, 12) + s.subrange(12, 14)
        =~= s.subrange(0, TELEMETRY_SIZE as int));
}

/// Two records with the same wire image are the same record.
pub proof fn lemma_encode_injective(a: Telemetry, b: Telemetry)
    requires
        encode(a) == encode(b),
    ensures
        a == b,
{
    lemma_decode_encode(a);
    lemma_decode_encode(b);
}

} // verus!
