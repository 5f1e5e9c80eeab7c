//! Small integer helpers: rotation, byte packing and bounds.

use vstd::prelude::*;

verus! {

/// Rotates a word right; only the low five bits of the amount matter.
pub open spec fn ror32(v: u32, n: u32) -> u32 {
    if n & 31 == 0 {
        v
    } else {
        (v >> (n & 31)) | (v << ((32 - (n & 31)) as u32))
    }
}

pub fn rotate_right32(v: u32, n: u32) -> (r: u32)
    ensures
        r == ror32(v, n),
{
    let k: u32 = n & 31;
    proof {
        lemma_low5(n);
    }
    if k == 0 {
        v
    } else {
        (v >> k) | (v << (32 - k))
    }
}

pub proof fn lemma_low5(n: u32)
    ensures
        n & 31 < 32,
{
    lemma_and32(n, 31);
}

/// What masking does to numbers.
pub proof fn lemma_and32(x: u32, m: u32)
    ensures
        x & m <= m,
        x & m <= x,
        (x & m) & m == x & m,
        (x & !m) & m == 0,
        x & !m == x - (x & m),
        (x & m) + (x | m) == x + m,
        (x ^ m) + 2 * (x & m) == x + m,
        !x == 0xFFFF_FFFF - x,
{
    assert(x & m <= m && x & m <= x && (x & m) & m == x & m && (x & !m) & m == 0 && x & !m == x - (x & m) && (x
        & m) + (x | m) == x + m && (x ^ m) + 2 * (x & m) == x + m && !x == 0xFFFF_FFFF - x) by (bit_vector);
}

pub proof fn lemma_and16(x: u16, m: u16)
    ensures
        x & m <= m,
        x & m <= x,
        (x & m) & m == x & m,
        (x & !m) & m == 0,
        x & !m == x - (x & m),
        (x & m) + (x | m) == x + m,
        !x == 0xFFFF - x,
{
    assert(x & m <= m && x & m <= x && (x & m) & m == x & m && (x & !m) & m == 0 && x & !m == x - (x & m) && (x
        & m) + (x | m) == x + m && !x == 0xFFFF - x) by (bit_vector);
}

pub proof fn lemma_and8(x: u8, m: u8)
    ensures
        x & m <= m,
        x & m <= x,
        (x & m) & m == x & m,
        x & !m == x - (x & m),
        (x & m) + (x | m) == x + m,
        x >> 4 <= 15,
        x < 0x80 ==> x & 0x7F == x,
        x == 16 * (x >> 4) + (x & 0xF),
{
    assert(x & m <= m && x & m <= x && (x & m) & m == x & m && x & !m == x - (x & m) && (x & m) + (x | m) == x + m
        && x >> 4 <= 15 && (x < 0x80 ==> x & 0x7F == x) && x == 16 * (x >> 4) + (x & 0xF)) by (bit_vector);
}

/// Low and high byte of a halfword, little-endian.
pub open spec fn lo8(v: u16) -> u8 {
    (v & 0xFF) as u8
}

pub open spec fn hi8(v: u16) -> u8 {
    (v >> 8) as u8
}

pub open spec fn le16(b0: u8, b1: u8) -> u16 {
    (b0 as u16) | ((b1 as u16) << 8)
}

pub open spec fn le32(b0: u8, b1: u8, b2: u8, b3: u8) -> u32 {
    (b0 as u32) | ((b1 as u32) << 8) | ((b2 as u32) << 16) | ((b3 as u32) << 24)
}

/// Low and high halfword of a word.
pub open spec fn lo16(v: u32) -> u16 {
    (v & 0xFFFF) as u16
}

pub open spec fn hi16(v: u32) -> u16 {
    (v >> 16) as u16
}

pub fn low_byte(v: u16) -> (r: u8)
    ensures
        r == lo8(v),
{
    (v & 0xFF) as u8
}

pub fn high_byte(v: u16) -> (r: u8)
    ensures
        r == hi8(v),
{
    (v >> 8) as u8
}

pub fn make16(b0: u8, b1: u8) -> (r: u16)
    ensures
        r == le16(b0, b1),
{
    (b0 as u16) | ((b1 as u16) << 8)
}

pub fn make32(b0: u8, b1: u8, b2: u8, b3: u8) -> (r: u32)
    ensures
        r == le32(b0, b1, b2, b3),
{
    (b0 as u32) | ((b1 as u32) << 8) | ((b2 as u32) << 16) | ((b3 as u32) << 24)
}

pub fn low_half(v: u32) -> (r: u16)
    ensures
        r == lo16(v),
{
    (v & 0xFFFF) as u16
}

pub fn high_half(v: u32) -> (r: u16)
    ensures
        r == hi16(v),
{
    (v >> 16) as u16
}

/// Low bits as small numbers.
pub proof fn lemma_low_bits(v: u32)
    ensures
        v & 0xFFFF <= 0xFFFF,
        v & 0xF < 16,
        v & 7 < 8,
        v & 3 <= 3,
        v & 1 <= 1,
{
    lemma_and32(v, 0xFFFF);
    lemma_and32(v, 0xF);
    lemma_and32(v, 7);
    lemma_and32(v, 3);
    lemma_and32(v, 1);
}

/// A shifted one is not lost.
pub proof fn lemma_one_bit(k: u32)
    requires
        k < 64,
    ensures
        k < 32 ==> 1u32 << k >= 1,
        1u64 << k >= 1,
{
    assert((k < 32 ==> 1u32 << k >= 1) && 1u64 << k >= 1) by (bit_vector)
        requires
            k < 64,
    ;
}

proof fn lemma_bytes(h: u16, v: u32, b0: u8, b1: u8, b2: u8, b3: u8)
    ensures
        le16(lo8(h), hi8(h)) == h,
        le32(lo8(lo16(v)), hi8(lo16(v)), lo8(hi16(v)), hi8(hi16(v))) == v,
        le16(b0, b1) == b0 + 0x100 * b1,
        le32(b0, b1, b2, b3) == b0 + 0x100 * b1 + 0x1_0000 * b2 + 0x100_0000 * b3,
        lo8(h) == h % 0x100,
        hi8(h) == h / 0x100,
        lo16(v) == v % 0x1_0000,
        hi16(v) == v / 0x1_0000,
{
    assert((((h & 0xFF) as u8) as u16) | ((((h >> 8) as u8) as u16) << 8) == h && ((((((v & 0xFFFF) as u16)
        & 0xFF) as u8) as u32) | ((((((v & 0xFFFF) as u16) >> 8) as u8) as u32) << 8) | ((((((v >> 16) as u16)
        & 0xFF) as u8) as u32) << 16) | ((((((v >> 16) as u16) >> 8) as u8) as u32) << 24)) == v && (b0 as u16) | ((
    b1 as u16) << 8) == b0 + 0x100 * b1 && (b0 as u32) | ((b1 as u32) << 8) | ((b2 as u32) << 16) | ((b3 as u32)
        << 24) == b0 + 0x100 * b1 + 0x1_0000 * b2 + 0x100_0000 * b3 && (h & 0xFF) as u8 == h % 0x100 && (h >> 8) as u8
        == h / 0x100 && (v & 0xFFFF) as u16 == v % 0x1_0000 && (v >> 16) as u16 == v / 0x1_0000) by (bit_vector);
}

/// Splitting a halfword into bytes and packing them again gives it back.
pub proof fn lemma_le16_round_trip(v: u16)
    ensures
        le16(lo8(v), hi8(v)) == v,
{
    lemma_bytes(v, 0, 0, 0, 0, 0);
}

/// A word stored as its two halves, each as two bytes, reads back whole.
pub proof fn lemma_le32_round_trip(v: u32)
    ensures
        le32(lo8(lo16(v)), hi8(lo16(v)), lo8(hi16(v)), hi8(hi16(v))) == v,
{
    lemma_bytes(0, v, 0, 0, 0, 0);
}

/// Little-endian: the first byte counts ones, each further byte 256 times as
/// much.
pub proof fn law_little_endian(b0: u8, b1: u8, b2: u8, b3: u8)
    ensures
        le16(b0, b1) == b0 + 0x100 * b1,
        le32(b0, b1, b2, b3) == b0 + 0x100 * b1 + 0x1_0000 * b2 + 0x100_0000 * b3,
{
    lemma_bytes(0, 0, b0, b1, b2, b3);
}

/// The parts of a number are its digits to base 256 and 65536.
pub proof fn law_parts_are_digits(h: u16, v: u32)
    ensures
        lo8(h) == h % 0x100,
        hi8(h) == h / 0x100,
        lo16(v) == v % 0x1_0000,
        hi16(v) == v / 0x1_0000,
{
    lemma_bytes(h, v, 0, 0, 0, 0);
}

pub open spec fn min_int(a: int, b: int) -> int {
    if a <= b {
        a
    } else {
        b
    }
}

pub open spec fn clamp_int(v: int, lo: int, hi: int) -> int {
    if v < lo {
        lo
    } else if v > hi {
        hi
    } else {
        v
    }
}

pub fn min_u32(a: u32, b: u32) -> (r: u32)
    ensures
        r == min_int(a as int, b as int),
{
    if a <= b {
        a
    } else {
        b
    }
}

/// Array with one element replaced.
pub open spec fn aset<T, const N: usize>(a: [T; N], i: int, v: T) -> [T; N] {
    vstd::array::spec_array_update(a, i, v)
}

/// The digit of a number that counts `unit`s, in base `size`.
#[verifier::opaque]
pub open spec fn digit(v: int, unit: int, size: int) -> int {
    v / unit % size
}

pub proof fn lemma_digit(v: int, unit: int, size: int)
    requires
        unit > 0,
        size > 0,
    ensures
        0 <= digit(v, unit, size) < size,
        unit == 1 && 0 <= v < size ==> digit(v, unit, size) == v,
{
    reveal(digit);
    vstd::arithmetic::div_mod::lemma_mod_bound(v / unit, size);
    if unit == 1 && 0 <= v < size {
        vstd::arithmetic::div_mod::lemma_small_mod(v as nat, size as nat);
    }
}

/// The fields of a halfword are digits of its number.
#[verifier::rlimit(60)]
#[verifier::spinoff_prover]
pub proof fn lemma_digits16(v: u16)
    ensures
        v & 0x1 == digit(v as int, 1, 0x2),
        v & 0x3 == digit(v as int, 1, 0x4),
        v & 0x7 == digit(v as int, 1, 0x8),
        v & 0xf == digit(v as int, 1, 0x10),
        v & 0x1f == digit(v as int, 1, 0x20),
        v & 0x3f == digit(v as int, 1, 0x40),
        v & 0x7f == digit(v as int, 1, 0x80),
        v & 0xff == digit(v as int, 1, 0x100),
        v & 0x1ff == digit(v as int, 1, 0x200),
        v & 0x3ff == digit(v as int, 1, 0x400),
        v & 0x7ff == digit(v as int, 1, 0x800),
        v & 0xfff == digit(v as int, 1, 0x1000),
        (v >> 14) & 0x3 == digit(v as int, 0x4000, 0x4),
        (v >> 2) & 0x3 == digit(v as int, 0x4, 0x4),
        (v >> 8) & 0x1f == digit(v as int, 0x100, 0x20),
        (v >> 12) & 0xf == digit(v as int, 0x1000, 0x10),
        (v >> 10) & 0x3 == digit(v as int, 0x400, 0x4),
        (v >> 9) & 0x1f == digit(v as int, 0x200, 0x20),
        (v >> 4) & 0xf == digit(v as int, 0x10, 0x10),
        (v >> 8) & 0xf == digit(v as int, 0x100, 0x10),
        (v >> 6) & 0x3 == digit(v as int, 0x40, 0x4),
        (v >> 5) & 0x1f == digit(v as int, 0x20, 0x20),
        (v >> 10) & 0x1f == digit(v as int, 0x400, 0x20),
        (v >> 8) & 0xff == digit(v as int, 0x100, 0x100),
        (v >> 5) & 0x3 == digit(v as int, 0x20, 0x4),
        (v >> 7) & 0x3 == digit(v as int, 0x80, 0x4),
        (v >> 12) & 0x3 == digit(v as int, 0x1000, 0x4),
        (v >> 8) & 0x3f == digit(v as int, 0x100, 0x40),
        (v >> 8) & 0x7 == digit(v as int, 0x100, 0x8),
        (v >> 8) & 0x3 == digit(v as int, 0x100, 0x4),
        (v >> 11) & 0x1 == digit(v as int, 0x800, 0x2),
        (v >> 10) & 0x7 == digit(v as int, 0x400, 0x8),
        (v >> 4) & 0x3 == digit(v as int, 0x10, 0x4),
        (v >> 4) & 0x7 == digit(v as int, 0x10, 0x8),
        (v >> 12) & 0x7 == digit(v as int, 0x1000, 0x8),
        (v & 0x1 != 0) == (digit(v as int, 0x1, 2) == 1),
        (v & 0x2 != 0) == (digit(v as int, 0x2, 2) == 1),
        (v & 0x4 != 0) == (digit(v as int, 0x4, 2) == 1),
        (v & 0x8 != 0) == (digit(v as int, 0x8, 2) == 1),
        (v & 0x10 != 0) == (digit(v as int, 0x10, 2) == 1),
        (v & 0x20 != 0) == (digit(v as int, 0x20, 2) == 1),
        (v & 0x40 != 0) == (digit(v as int, 0x40, 2) == 1),
        (v & 0x80 != 0) == (digit(v as int, 0x80, 2) == 1),
        (v & 0x100 != 0) == (digit(v as int, 0x100, 2) == 1),
        (v & 0x200 != 0) == (digit(v as int, 0x200, 2) == 1),
        (v & 0x400 != 0) == (digit(v as int, 0x400, 2) == 1),
        (v & 0x800 != 0) == (digit(v as int, 0x800, 2) == 1),
        (v & 0x1000 != 0) == (digit(v as int, 0x1000, 2) == 1),
        (v & 0x2000 != 0) == (digit(v as int, 0x2000, 2) == 1),
        (v & 0x4000 != 0) == (digit(v as int, 0x4000, 2) == 1),
        (v & 0x8000 != 0) == (digit(v as int, 0x8000, 2) == 1),
        v >> 8 == digit(v as int, 0x100, 0x100),
        v >> 12 == digit(v as int, 0x1000, 0x10),
        (v & 0xE000 == 0) == (v & 0x2000 == 0 && v & 0x4000 == 0 && v & 0x8000 == 0),
        v & 0x8000 == 0 || v & 0x8000 == 0x8000,
{
    reveal(digit);
    assert(v & 0x1 == v % 0x2
        && v & 0x3 == v % 0x4
        && v & 0x7 == v % 0x8
        && v & 0xf == v % 0x10
        && v & 0x1f == v % 0x20
        && v & 0x3f == v % 0x40
        && v & 0x7f == v % 0x80
        && v & 0xff == v % 0x100
        && v & 0x1ff == v % 0x200
        && v & 0x3ff == v % 0x400
        && v & 0x7ff == v % 0x800
        && v & 0xfff == v % 0x1000
        && (v >> 14) & 0x3 == v / 0x4000 % 0x4
        && (v >> 2) & 0x3 == v / 0x4 % 0x4
        && (v >> 8) & 0x1f == v / 0x100 % 0x20
        && (v >> 12) & 0xf == v / 0x1000 % 0x10
        && (v >> 10) & 0x3 == v / 0x400 % 0x4
        && (v >> 9) & 0x1f == v / 0x200 % 0x20
        && (v >> 4) & 0xf == v / 0x10 % 0x10
        && (v >> 8) & 0xf == v / 0x100 % 0x10
        && (v >> 6) & 0x3 == v / 0x40 % 0x4
        && (v >> 5) & 0x1f == v / 0x20 % 0x20
        && (v >> 10) & 0x1f == v / 0x400 % 0x20
        && (v >> 8) & 0xff == v / 0x100 % 0x100
        && (v >> 5) & 0x3 == v / 0x20 % 0x4
        && (v >> 7) & 0x3 == v / 0x80 % 0x4
        && (v >> 12) & 0x3 == v / 0x1000 % 0x4
        && (v >> 8) & 0x3f == v / 0x100 % 0x40
        && (v >> 8) & 0x7 == v / 0x100 % 0x8 && (v >> 8) & 0x3 == v / 0x100 % 0x4
        && (v >> 11) & 0x1 == v / 0x800 % 0x2
        && (v >> 10) & 0x7 == v / 0x400 % 0x8
        && (v >> 4) & 0x3 == v / 0x10 % 0x4
        && (v >> 4) & 0x7 == v / 0x10 % 0x8
        && (v >> 12) & 0x7 == v / 0x1000 % 0x8
        && (v & 0x1 != 0) == (v / 0x1 % 2 == 1)
        && (v & 0x2 != 0) == (v / 0x2 % 2 == 1)
        && (v & 0x4 != 0) == (v / 0x4 % 2 == 1)
        && (v & 0x8 != 0) == (v / 0x8 % 2 == 1)
        && (v & 0x10 != 0) == (v / 0x10 % 2 == 1)
        && (v & 0x20 != 0) == (v / 0x20 % 2 == 1)
        && (v & 0x40 != 0) == (v / 0x40 % 2 == 1)
        && (v & 0x80 != 0) == (v / 0x80 % 2 == 1)
        && (v & 0x100 != 0) == (v / 0x100 % 2 == 1)
        && (v & 0x200 != 0) == (v / 0x200 % 2 == 1)
        && (v & 0x400 != 0) == (v / 0x400 % 2 == 1)
        && (v & 0x800 != 0) == (v / 0x800 % 2 == 1)
        && (v & 0x1000 != 0) == (v / 0x1000 % 2 == 1)
        && (v & 0x2000 != 0) == (v / 0x2000 % 2 == 1)
        && (v & 0x4000 != 0) == (v / 0x4000 % 2 == 1)
        && (v & 0x8000 != 0) == (v / 0x8000 % 2 == 1)
        && v >> 8 == v / 0x100
        && v >> 12 == v / 0x1000 && (v & 0xE000 == 0) == (v & 0x2000 == 0 && v & 0x4000 == 0 && v & 0x8000 == 0) && (v
        & 0x8000 == 0 || v & 0x8000 == 0x8000)) by (bit_vector);
}

/// The fields of a byte are digits of its number.
pub proof fn lemma_digits8(v: u8)
    ensures
        v & 0x1 == digit(v as int, 1, 0x2),
        v & 0x3 == digit(v as int, 1, 0x4),
        v & 0x7 == digit(v as int, 1, 0x8),
        v & 0xf == digit(v as int, 1, 0x10),
        v & 0x1f == digit(v as int, 1, 0x20),
        v & 0x3f == digit(v as int, 1, 0x40),
        v & 0x7f == digit(v as int, 1, 0x80),
        (v >> 4) & 0xf == digit(v as int, 0x10, 0x10),
        (v >> 4) & 0x7 == digit(v as int, 0x10, 0x8),
        (v >> 6) & 0x3 == digit(v as int, 0x40, 0x4),
        (v >> 4) & 0x3 == digit(v as int, 0x10, 0x4),
        (v >> 3) & 0x7 == digit(v as int, 0x8, 0x8),
        (v >> 3) & 0x3 == digit(v as int, 0x8, 0x4),
        (v & 0x1 != 0) == (digit(v as int, 0x1, 2) == 1),
        (v & 0x2 != 0) == (digit(v as int, 0x2, 2) == 1),
        (v & 0x4 != 0) == (digit(v as int, 0x4, 2) == 1),
        (v & 0x8 != 0) == (digit(v as int, 0x8, 2) == 1),
        (v & 0x10 != 0) == (digit(v as int, 0x10, 2) == 1),
        (v & 0x20 != 0) == (digit(v as int, 0x20, 2) == 1),
        (v & 0x40 != 0) == (digit(v as int, 0x40, 2) == 1),
        (v & 0x80 != 0) == (digit(v as int, 0x80, 2) == 1),
        v >> 3 == digit(v as int, 0x8, 0x20),
        v >> 4 == digit(v as int, 0x10, 0x10),
        v >> 6 == digit(v as int, 0x40, 0x4),
{
    reveal(digit);
    assert(v & 0x1 == v % 0x2
        && v & 0x3 == v % 0x4
        && v & 0x7 == v % 0x8
        && v & 0xf == v % 0x10
        && v & 0x1f == v % 0x20
        && v & 0x3f == v % 0x40
        && v & 0x7f == v % 0x80
        && (v >> 4) & 0xf == v / 0x10 % 0x10
        && (v >> 4) & 0x7 == v / 0x10 % 0x8
        && (v >> 6) & 0x3 == v / 0x40 % 0x4
        && (v >> 4) & 0x3 == v / 0x10 % 0x4
        && (v >> 3) & 0x7 == v / 0x8 % 0x8
        && (v >> 3) & 0x3 == v / 0x8 % 0x4
        && (v & 0x1 != 0) == (v / 0x1 % 2 == 1)
        && (v & 0x2 != 0) == (v / 0x2 % 2 == 1)
        && (v & 0x4 != 0) == (v / 0x4 % 2 == 1)
        && (v & 0x8 != 0) == (v / 0x8 % 2 == 1)
        && (v & 0x10 != 0) == (v / 0x10 % 2 == 1)
        && (v & 0x20 != 0) == (v / 0x20 % 2 == 1)
        && (v & 0x40 != 0) == (v / 0x40 % 2 == 1)
        && (v & 0x80 != 0) == (v / 0x80 % 2 == 1)
        && v >> 3 == v / 0x8
        && v >> 4 == v / 0x10
        && v >> 6 == v / 0x40) by (bit_vector);
}

/// The fields of an address are digits of its number.
pub proof fn lemma_address_digits(a: u32)
    ensures
        a >> 24 == a as int / 0x100_0000,
        a & 0x3FFFF == a as int % 0x40000,
        a & 0x7FFF == a as int % 0x8000,
        a & 0x3FF == a as int % 0x400,
        a & 0x1FFFF == a as int % 0x20000,
        a & 0x01FF_FFFF == a as int % 0x200_0000,
        a & 0x0FFF_FFFF == a as int % 0x1000_0000,
        a & 1 == a as int % 2,
        a & 3 == a as int % 4,
        a & !1u32 == a - a as int % 2,
        a & !2u32 == a - a as int / 2 % 2 * 2,
        a & !3u32 == a - a as int % 4,
        (a & 0x0100_0000 != 0) == (a as int / 0x100_0000 % 2 == 1),
        (a & 0x0400_0000 != 0) == (a as int / 0x400_0000 % 2 == 1),
        a & 0x001F_FFFF == a as int % 0x20_0000,
        a | 1 == a - a as int % 2 + 1,
{
    assert(a >> 24 == a / 0x100_0000 && a & 0x3FFFF == a % 0x40000 && a & 0x7FFF == a % 0x8000 && a & 0x3FF == a
        % 0x400 && a & 0x1FFFF == a % 0x20000 && a & 0x01FF_FFFF == a % 0x200_0000 && a & 0x0FFF_FFFF == a
        % 0x1000_0000 && a & 1 == a % 2 && a & 3 == a % 4 && a & !1u32 == a - a % 2 && a & !2u32 == a - a / 2 % 2 * 2 && a
        & !3u32 == a - a % 4 && (a & 0x0100_0000 != 0) == (a / 0x100_0000 % 2 == 1) && (a & 0x0400_0000 != 0) == (a
        / 0x400_0000 % 2 == 1) && a & 0x001F_FFFF == a % 0x20_0000 && a | 1 == a - a % 2 + 1) by (bit_vector);
}

/// The bytes of an aligned halfword or word lie one after the other, wherever
/// memory repeats.
pub proof fn lemma_next_bytes(e: u32)
    ensures
        e as int % 2 == 0 ==> {
            &&& (e + 1) / 0x100_0000 == e as int / 0x100_0000
            &&& (e + 1) % 0x4_0000 == e as int % 0x4_0000 + 1
            &&& (e + 1) % 0x8000 == e as int % 0x8000 + 1
            &&& (e + 1) % 0x400 == e as int % 0x400 + 1
            &&& (e + 1) % 0x2_0000 == e as int % 0x2_0000 + 1
            &&& e as int % 0x4_0000 % 2 == 0
            &&& e as int % 0x8000 % 2 == 0
            &&& e as int % 0x400 % 2 == 0
            &&& e as int % 0x2_0000 % 2 == 0
        },
        e as int % 4 == 0 ==> {
            &&& (e + 2) / 0x100_0000 == e as int / 0x100_0000
            &&& (e + 3) / 0x100_0000 == e as int / 0x100_0000
            &&& (e + 2) % 0x4_0000 == e as int % 0x4_0000 + 2
            &&& (e + 2) % 0x8000 == e as int % 0x8000 + 2
            &&& (e + 2) % 0x400 == e as int % 0x400 + 2
            &&& (e + 2) % 0x2_0000 == e as int % 0x2_0000 + 2
            &&& (e + 3) % 0x4_0000 == e as int % 0x4_0000 + 3
            &&& (e + 3) % 0x8000 == e as int % 0x8000 + 3
            &&& (e + 3) % 0x400 == e as int % 0x400 + 3
            &&& (e + 3) % 0x2_0000 == e as int % 0x2_0000 + 3
            &&& e as int % 0x4_0000 % 4 == 0
            &&& e as int % 0x8000 % 4 == 0
            &&& e as int % 0x400 % 4 == 0
            &&& e as int % 0x2_0000 % 4 == 0
        },
{
    assert((e % 2 == 0 ==> (e + 1) / 0x100_0000 == e / 0x100_0000
        && (e + 1) % 0x4_0000 == e % 0x4_0000 + 1
        && (e + 1) % 0x8000 == e % 0x8000 + 1
        && (e + 1) % 0x400 == e % 0x400 + 1
        && (e + 1) % 0x2_0000 == e % 0x2_0000 + 1
        && e % 0x4_0000 % 2 == 0
        && e % 0x8000 % 2 == 0
        && e % 0x400 % 2 == 0
        && e % 0x2_0000 % 2 == 0)
        && (e % 4 == 0 ==> (e + 2) / 0x100_0000 == e / 0x100_0000
        && (e + 3) / 0x100_0000 == e / 0x100_0000
        && (e + 2) % 0x4_0000 == e % 0x4_0000 + 2
        && (e + 2) % 0x8000 == e % 0x8000 + 2
        && (e + 2) % 0x400 == e % 0x400 + 2
        && (e + 2) % 0x2_0000 == e % 0x2_0000 + 2
        && (e + 3) % 0x4_0000 == e % 0x4_0000 + 3
        && (e + 3) % 0x8000 == e % 0x8000 + 3
        && (e + 3) % 0x400 == e % 0x400 + 3
        && (e + 3) % 0x2_0000 == e % 0x2_0000 + 3
        && e % 0x4_0000 % 4 == 0
        && e % 0x8000 % 4 == 0
        && e % 0x400 % 4 == 0
        && e % 0x2_0000 % 4 == 0)) by (bit_vector);
}

proof fn lemma_casts(v: u32, s: i64, w: u64, hi: u32, lo: u32, b: u8, h: u16, cur: u16)
    ensures
        v as i32 == if v >= 0x8000_0000 { v - 0x1_0000_0000 } else { v as int },
        s as u64 == if s < 0 { s + 0x1_0000_0000_0000_0000 } else { s as int },
        ((w >> 32) as u32) * 0x1_0000_0000 + (w as u32) == w,
        ((hi as u64) << 32) | (lo as u64) == hi * 0x1_0000_0000 + lo,
        b as i8 as i32 as u32 == if b >= 0x80 { b + 0xFFFF_FF00 } else { b as int },
        h as i16 as i32 as u32 == if h >= 0x8000 { h + 0xFFFF_0000 } else { h as int },
        (cur & 0xFF00) | (b as u16) == cur as int / 0x100 * 0x100 + b,
        (cur & 0x00FF) | ((b as u16) << 8) == cur as int % 0x100 + 0x100 * b,
        (((b as u32) & 0xF) << 8) | (lo & 0xFF) == 256 * (b as int % 16) + lo as int % 0x100,
        (b as u32) >> 4 == b as int / 16,
        lo < 0x100 ==> lo & 0xFF == lo,
{
    assert(v as i32 == (if v >= 0x8000_0000 { v - 0x1_0000_0000 } else { v as int }) && s as u64 == (if s < 0 {
        s + 0x1_0000_0000_0000_0000
    } else {
        s as int
    }) && ((w >> 32) as u32) * 0x1_0000_0000 + (w as u32) == w && ((hi as u64) << 32) | (lo as u64) == hi
        * 0x1_0000_0000 + lo && b as i8 as i32 as u32 == (if b >= 0x80 { b + 0xFFFF_FF00 } else { b as int }) && h
        as i16 as i32 as u32 == (if h >= 0x8000 { h + 0xFFFF_0000 } else { h as int }) && (cur & 0xFF00) | (b as u16)
        == cur / 0x100 * 0x100 + b && (cur & 0x00FF) | ((b as u16) << 8) == cur % 0x100 + 0x100 * b && (((b as u32)
        & 0xF) << 8) | (lo & 0xFF) == 256 * (b % 16) + lo % 0x100 && (b as u32) >> 4 == b / 16 && (lo < 0x100 ==> lo
        & 0xFF == lo)) by (bit_vector);
}

/// A word taken as a signed number.
pub proof fn lemma_signed_word(v: u32)
    ensures
        v as i32 == if v >= 0x8000_0000 { v - 0x1_0000_0000 } else { v as int },
{
    lemma_casts(v, 0, 0, 0, 0, 0, 0, 0);
}

/// A signed number taken as a double word.
pub proof fn lemma_cast64(s: i64)
    ensures
        s as u64 == s as int % 0x1_0000_0000_0000_0000,
{
    lemma_casts(0, s, 0, 0, 0, 0, 0, 0);
}

/// The halves of a double word.
pub proof fn lemma_halves64(w: u64, hi: u32, lo: u32)
    ensures
        ((w >> 32) as u32) * 0x1_0000_0000 + (w as u32) == w,
        ((hi as u64) << 32) | (lo as u64) == hi * 0x1_0000_0000 + lo,
{
    lemma_casts(0, 0, w, hi, lo, 0, 0, 0);
}

/// A byte and a halfword widened with their signs.
pub proof fn lemma_sign_parts(b: u8, h: u16)
    ensures
        b as i8 as i32 as u32 == if b >= 0x80 { b + 0xFFFF_FF00 } else { b as int },
        h as i16 as i32 as u32 == if h >= 0x8000 { h + 0xFFFF_0000 } else { h as int },
{
    lemma_casts(0, 0, 0, 0, 0, b, h, 0);
}

/// A byte put into either half of a halfword, and the two bytes of a
/// back-reference.
pub proof fn lemma_merge(cur: u16, v: u8, b1: u8)
    ensures
        (cur & 0xFF00) | (v as u16) == cur as int / 0x100 * 0x100 + v,
        (cur & 0x00FF) | ((v as u16) << 8) == cur as int % 0x100 + 0x100 * v,
        (((v as u32) & 0xF) << 8) | (b1 as u32) == 256 * (v as int % 16) + b1,
        (v as u32) >> 4 == v as int / 16,
{
    lemma_casts(0, 0, 0, 0, b1 as u32, v, 0, cur);
}

} // verus!
