//! Integers as little-endian bytes of fixed width.

use vstd::prelude::*;

verus! {

/// The eight bytes of `x`, the least significant first.
pub open spec fn u64_le_bytes(x: u64) -> Seq<u8> {
    seq![
        (x % 0x100) as u8,
        (x / 0x100 % 0x100) as u8,
        (x / 0x1_0000 % 0x100) as u8,
        (x / 0x100_0000 % 0x100) as u8,
        (x / 0x1_0000_0000 % 0x100) as u8,
        (x / 0x100_0000_0000 % 0x100) as u8,
        (x / 0x1_0000_0000_0000 % 0x100) as u8,
        (x / 0x100_0000_0000_0000 % 0x100) as u8,
    ]
}

/// The number whose little-endian bytes are the first eight of `s`.
pub open spec fn u64_from_le_bytes(s: Seq<u8>) -> u64
    recommends
        s.len() >= 8,
{
    (s[0] as int + s[1] as int * 0x100 + s[2] as int * 0x1_0000 + s[3] as int * 0x100_0000
        + s[4] as int * 0x1_0000_0000 + s[5] as int * 0x100_0000_0000 + s[6] as int
        * 0x1_0000_0000_0000 + s[7] as int * 0x100_0000_0000_0000) as u64
}

/// The unsigned number with the same sixty-four bits as `x` in two's
/// complement.
pub open spec fn i64_bits(x: i64) -> u64 {
    if x >= 0 {
        x as u64
    } else {
        (x + 0x1_0000_0000_0000_0000) as u64
    }
}

/// The signed number with the same sixty-four bits as `x` in two's
/// complement.
pub open spec fn i64_of_bits(x: u64) -> i64 {
    if x < 0x8000_0000_0000_0000 {
        x as i64
    } else {
        (x - 0x1_0000_0000_0000_0000) as i64
    }
}

/// The eight bytes of `x` in two's complement, the least significant first.
pub open spec fn i64_le_bytes(x: i64) -> Seq<u8> {
    u64_le_bytes(i64_bits(x))
}

/// The signed number whose little-endian bytes in two's complement are the
/// first eight of `s`.
pub open spec fn i64_from_le_bytes(s: Seq<u8>) -> i64
    recommends
        s.len() >= 8,
{
    i64_of_bits(u64_from_le_bytes(s))
}

/// Dividing by a power of 256 is dividing by 256 again and again.
proof fn lemma_shift_bytes(x: int)
    requires
        0 <= x,
    ensures
        x / 0x1_0000 == x / 0x100 / 0x100,
        x / 0x100_0000 == x / 0x1_0000 / 0x100,
        x / 0x1_0000_0000 == x / 0x100_0000 / 0x100,
        x / 0x100_0000_0000 == x / 0x1_0000_0000 / 0x100,
        x / 0x1_0000_0000_0000 == x / 0x100_0000_0000 / 0x100,
        x / 0x100_0000_0000_0000 == x / 0x1_0000_0000_0000 / 0x100,
        x / 0x1_0000_0000_0000_0000 == x / 0x100_0000_0000_0000 / 0x100,
{
    vstd::arithmetic::div_mod::lemma_div_denominator(x, 0x100, 0x100);
    vstd::arithmetic::div_mod::lemma_div_denominator(x, 0x1_0000, 0x100);
    vstd::arithmetic::div_mod::lemma_div_denominator(x, 0x100_0000, 0x100);
    vstd::arithmetic::div_mod::lemma_div_denominator(x, 0x1_0000_0000, 0x100);
    vstd::arithmetic::div_mod::lemma_div_denominator(x, 0x100_0000_0000, 0x100);
    vstd::arithmetic::div_mod::lemma_div_denominator(x, 0x1_0000_0000_0000, 0x100);
    vstd::arithmetic::div_mod::lemma_div_denominator(x, 0x100_0000_0000_0000, 0x100);
}

/// Writing a number as bytes and reading the bytes gives the number back.
pub proof fn lemma_u64_le_round_trip(x: u64)
    ensures
        u64_le_bytes(x).len() == 8,
        u64_from_le_bytes(u64_le_bytes(x)) == x,
{
    lemma_shift_bytes(x as int);
    let q1 = x as int / 0x100;
    let q2 = q1 / 0x100;
    let q3 = q2 / 0x100;
    let q4 = q3 / 0x100;
    let q5 = q4 / 0x100;
    let q6 = q5 / 0x100;
    let q7 = q6 / 0x100;
    assert(q7 / 0x100 == 0);
    assert(x as int == x as int % 0x100 + 0x100 * q1);
    assert(q1 == q1 % 0x100 + 0x100 * q2);
    assert(q2 == q2 % 0x100 + 0x100 * q3);
    assert(q3 == q3 % 0x100 + 0x100 * q4);
    assert(q4 == q4 % 0x100 + 0x100 * q5);
    assert(q5 == q5 % 0x100 + 0x100 * q6);
    assert(q6 == q6 % 0x100 + 0x100 * q7);
    assert(q7 == q7 % 0x100);
}

/// Reading eight bytes as a number and writing the number gives the bytes
/// back.
pub proof fn lemma_u64_le_bytes_of_value(s: Seq<u8>)
    requires
        s.len() == 8,
    ensures
        u64_le_bytes(u64_from_le_bytes(s)) == s,
{
    let t7 = s[7] as int;
    let t6 = s[6] as int + 0x100 * t7;
    let t5 = s[5] as int + 0x100 * t6;
    let t4 = s[4] as int + 0x100 * t5;
    let t3 = s[3] as int + 0x100 * t4;
    let t2 = s[2] as int + 0x100 * t3;
    let t1 = s[1] as int + 0x100 * t2;
    let t0 = s[0] as int + 0x100 * t1;
    assert(0 <= t0 <= u64::MAX);
    let x = u64_from_le_bytes(s);
    assert(x == t0);
    lemma_shift_bytes(x as int);
    assert(t0 / 0x100 == t1 && t0 % 0x100 == s[0]);
    assert(t1 / 0x100 == t2 && t1 % 0x100 == s[1]);
    assert(t2 / 0x100 == t3 && t2 % 0x100 == s[2]);
    assert(t3 / 0x100 == t4 && t3 % 0x100 == s[3]);
    assert(t4 / 0x100 == t5 && t4 % 0x100 == s[4]);
    assert(t5 / 0x100 == t6 && t5 % 0x100 == s[5]);
    assert(t6 / 0x100 == t7 && t6 % 0x100 == s[6]);
    assert(t7 % 0x100 == s[7]);
    assert(u64_le_bytes(x) =~= s);
}

/// Writing a signed number as bytes and reading the bytes gives the number
/// back.
pub proof fn lemma_i64_le_round_trip(x: i64)
    ensures
        i64_le_bytes(x).len() == 8,
        i64_from_le_bytes(i64_le_bytes(x)) == x,
{
    lemma_u64_le_round_trip(i64_bits(x));
}

/// Reading eight bytes as a signed number and writing the number gives the
/// bytes back.
pub proof fn lemma_i64_le_bytes_of_value(s: Seq<u8>)
    requires
        s.len() == 8,
    ensures
        i64_le_bytes(i64_from_le_bytes(s)) == s,
{
    lemma_u64_le_bytes_of_value(s);
}

/// The eight bytes of `x`, the least significant first.
pub fn u64_to_le(x: u64) -> (bytes: [u8; 8])
    ensures
        bytes@ == u64_le_bytes(x),
{
    let bytes: [u8; 8] = [
        (x % 0x100) as u8,
        (x / 0x100 % 0x100) as u8,
        (x / 0x1_0000 % 0x100) as u8,
        (x / 0x100_0000 % 0x100) as u8,
        (x / 0x1_0000_0000 % 0x100) as u8,
        (x / 0x100_0000_0000 % 0x100) as u8,
        (x / 0x1_0000_0000_0000 % 0x100) as u8,
        (x / 0x100_0000_0000_0000 % 0x100) as u8,
    ];
    assert(bytes@ =~= u64_le_bytes(x));
    bytes
}

/// The number whose little-endian bytes are `bytes`.
pub fn u64_from_le(bytes: &[u8; 8]) -> (x: u64)
    ensures
        x == u64_from_le_bytes(bytes@),
{
    let b0: u64 = bytes[0] as u64;
    let b1: u64 = bytes[1] as u64;
    let b2: u64 = bytes[2] as u64;
    let b3: u64 = bytes[3] as u64;
    let b4: u64 = bytes[4] as u64;
    let b5: u64 = bytes[5] as u64;
    let b6: u64 = bytes[6] as u64;
    let b7: u64 = bytes[7] as u64;
    b0 + b1 * 0x100 + b2 * 0x1_0000 + b3 * 0x100_0000 + b4 * 0x1_0000_0000 + b5
        * 0x100_0000_0000 + b6 * 0x1_0000_0000_0000 + b7 * 0x100_0000_0000_0000
}

/// The eight bytes of `x` in two's complement, the least significant first.
pub fn i64_to_le(x: i64) -> (bytes: [u8; 8])
    ensures
        bytes@ == i64_le_bytes(x),
{
    let bits: u64 = if x >= 0 {
        x as u64
    } else {
        ((x + i64::MAX) + 1) as u64 + 0x8000_0000_0000_0000
    };
    u64_to_le(bits)
}

/// The signed number whose little-endian bytes in two's complement are
/// `bytes`.
pub fn i64_from_le(bytes: &[u8; 8]) -> (x: i64)
    ensures
        x == i64_from_le_bytes(bytes@),
{
    let bits: u64 = u64_from_le(bytes);
    if bits < 0x8000_0000_0000_0000 {
        bits as i64
    } else {
        ((bits - 0x8000_0000_0000_0000) as i64 - i64::MAX) - 1
    }
}

} // verus!
