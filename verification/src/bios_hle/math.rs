//! Division, square root, and the arithmetic that the host finishes.

use crate::bus::model::BusModel;
use crate::bus::{Bus, MathCall};
use crate::cpu::alu::{sext16, sign_half};
use crate::cpu::Cpu;
use vstd::arithmetic::power2::{lemma2_to64, lemma_pow2_pos, lemma_pow2_unfold, pow2};
use vstd::prelude::*;

verus! {

/// Size of a two's-complement word.
pub open spec fn magnitude(v: u32) -> u32 {
    if v >= 0x8000_0000 {
        (0x1_0000_0000 - v) as u32
    } else {
        v
    }
}

pub open spec fn negated(v: u32, neg: bool) -> u32 {
    if neg {
        0u32.wrapping_sub(v)
    } else {
        v
    }
}

fn abs_word(v: u32) -> (r: u32)
    ensures
        r == magnitude(v),
{
    if v >= 0x8000_0000 {
        0xFFFF_FFFF - v + 1
    } else {
        v
    }
}

fn with_sign(v: u32, neg: bool) -> (r: u32)
    ensures
        r == negated(v, neg),
{
    if neg {
        0u32.wrapping_sub(v)
    } else {
        v
    }
}

/// Signed division toward zero: quotient, remainder (with the sign of the
/// numerator) and size of the quotient, in R0, R1 and R3.
#[verifier::opaque]
pub open spec fn divided(c: Cpu, num: u32, den: u32) -> Cpu {
    let q = magnitude(num) / magnitude(den);
    let r = magnitude(num) % magnitude(den);
    c.with_r(0, negated(q, (num >= 0x8000_0000) != (den >= 0x8000_0000))).with_r(
        1,
        negated(r, num >= 0x8000_0000),
    ).with_r(3, q)
}

fn divide(cpu: &mut Cpu, num: u32, den: u32)
    requires
        den != 0,
    ensures
        *final(cpu) == divided(*old(cpu), num, den),
{
    reveal(divided);
    let q: u32 = abs_word(num) / abs_word(den);
    let r: u32 = abs_word(num) % abs_word(den);
    cpu.r[0] = with_sign(q, (num >= 0x8000_0000) != (den >= 0x8000_0000));
    cpu.r[1] = with_sign(r, num >= 0x8000_0000);
    cpu.r[3] = q;
}

/// Div: R0 by R1. By zero everything is zero.
pub open spec fn div_done(c: Cpu) -> Cpu {
    if c.r[1] == 0 {
        c.with_r(0, 0).with_r(1, 0).with_r(3, 0)
    } else {
        divided(c, c.r[0], c.r[1])
    }
}

pub fn div(cpu: &mut Cpu)
    ensures
        *final(cpu) == div_done(*old(cpu)),
{
    let num: u32 = cpu.r[0];
    let den: u32 = cpu.r[1];
    if den == 0 {
        cpu.r[0] = 0;
        cpu.r[1] = 0;
        cpu.r[3] = 0;
        return;
    }
    divide(cpu, num, den);
}

/// DivArm: R1 by R0. By zero nothing changes.
pub open spec fn div_arm_done(c: Cpu) -> Cpu {
    if c.r[0] == 0 {
        c
    } else {
        divided(c, c.r[1], c.r[0])
    }
}

pub fn div_arm(cpu: &mut Cpu)
    ensures
        *final(cpu) == div_arm_done(*old(cpu)),
{
    let num: u32 = cpu.r[1];
    let den: u32 = cpu.r[0];
    if den == 0 {
        return;
    }
    divide(cpu, num, den);
}

/// The whole number whose square is the last one not above `n`.
pub open spec fn is_isqrt(r: u32, n: u32) -> bool {
    r * r <= n && n < (r + 1) * (r + 1)
}

/// One digit of the square root: `s` is the root so far and `p` the digit's
/// weight.
proof fn lemma_digit(n: int, s: int, p: int, root: int, bit: int, rem: int)
    requires
        p >= 1,
        s >= 0,
        s + 2 * p <= 65536,
        root == 2 * s * p,
        bit == p * p,
        rem == n - s * s,
        rem >= 0,
        n < (s + 2 * p) * (s + 2 * p),
    ensures
        root + bit <= 0xFFFF_FFFF,
        root + bit == (s + p) * (s + p) - s * s,
        rem >= root + bit ==> rem - (root + bit) == n - (s + p) * (s + p),
        rem < root + bit ==> n < (s + p) * (s + p),
        root / 2 == s * p,
        root / 2 + bit == (s + p) * p,
        bit <= 0x4000_0000,
        root / 2 + bit <= 0xFFFF_FFFF,
{
    assert((s + p) * (s + p) == s * s + 2 * s * p + p * p) by (nonlinear_arith);
    assert((s + p) * p == s * p + p * p) by (nonlinear_arith);
    assert(2 * s * p == 2 * (s * p)) by (nonlinear_arith);
    assert(s * p >= 0) by (nonlinear_arith)
        requires
            s >= 0,
            p >= 1,
    ;
    assert((s + p) * (s + p) <= 65535 * 65535) by (nonlinear_arith)
        requires
            0 <= s + p <= 65535,
    ;
    assert(s * s >= 0) by (nonlinear_arith);
    assert(p * p <= 32768 * 32768) by (nonlinear_arith)
        requires
            1 <= p <= 32768,
    ;
}

proof fn lemma_halve(k: nat, bit: u32)
    requires
        bit == pow2(k) * pow2(k),
        k <= 15,
    ensures
        k > 0 ==> bit >> 2 == pow2((k - 1) as nat) * pow2((k - 1) as nat),
        k > 0 ==> 4 * (bit >> 2) == bit,
        k == 0 ==> bit >> 2 == 0,
        bit >> 2 < bit,
{
    vstd::bits::lemma_u32_shr_is_div(bit, 2);
    vstd::arithmetic::power2::lemma2_to64();
    if k > 0 {
        lemma_pow2_unfold(k);
        let q = pow2((k - 1) as nat);
        assert((2 * q) * (2 * q) == 4 * (q * q)) by (nonlinear_arith);
    } else {
        lemma2_to64();
        assert(pow2(k) * pow2(k) == 1) by (nonlinear_arith)
            requires
                pow2(k) == 1,
        ;
    }
    lemma_pow2_pos(k);
    assert(pow2(k) * pow2(k) >= 1) by (nonlinear_arith)
        requires
            pow2(k) >= 1,
    ;
}

/// Integer square root, bit by bit (a float can round a near-integer up).
pub fn isqrt_u32(n: u32) -> (r: u32)
    ensures
        is_isqrt(r, n),
{
    if n <= 1 {
        assert(0int * 0 == 0 && 1int * 1 == 1 && 2int * 2 == 4);
        assert(n == 0 || n == 1);
        return n;
    }
    proof {
        lemma2_to64();
    }
    let mut rem: u32 = n;
    let mut root: u32 = 0;
    let mut bit: u32 = 0x4000_0000;
    let ghost mut k: nat = 15;
    while bit > rem
        invariant
            rem == n,
            n > 1,
            k <= 15,
            bit == pow2(k) * pow2(k),
            n < 4 * bit,
        decreases bit,
    {
        proof {
            lemma_halve(k, bit);
            if k == 0 {
                lemma2_to64();
                assert(pow2(k) * pow2(k) == 1) by (nonlinear_arith)
                    requires
                        pow2(k) == 1,
                ;
            }
            k = (k - 1) as nat;
        }
        bit = bit >> 2;
    }
    let ghost mut s: int = 0;
    let ghost mut done = false;
    proof {
        let p = pow2(k) as int;
        lemma_pow2_pos(k);
        assert(2 * 0 * p == 0) by (nonlinear_arith);
        assert(n < (2 * p) * (2 * p)) by (nonlinear_arith)
            requires
                n < 4 * (p * p),
        ;
        vstd::arithmetic::power2::lemma_pow2_strictly_increases(k, 16);
        lemma_pow2_unfold(16);
        if k < 15 {
            vstd::arithmetic::power2::lemma_pow2_strictly_increases(k, 15);
        }
    }
    while bit != 0
        invariant
            k <= 15,
            !done ==> bit == pow2(k) * pow2(k),
            !done ==> pow2(k) >= 1,
            !done ==> root == 2 * s * pow2(k),
            !done ==> s + 2 * pow2(k) <= 65536,
            !done ==> n < (s + 2 * pow2(k)) * (s + 2 * pow2(k)),
            done ==> bit == 0,
            done ==> root == s,
            done ==> n < (s + 1) * (s + 1),
            0 <= s <= 65535,
            rem == n - s * s,
        decreases bit,
    {
        let ghost p = pow2(k) as int;
        proof {
            lemma_digit(n as int, s, p, root as int, bit as int, rem as int);
            lemma_halve(k, bit);
            vstd::bits::lemma_u32_shr_is_div(root, 1);
            vstd::arithmetic::power2::lemma2_to64();
        }
        if rem >= root + bit {
            rem = rem - (root + bit);
            root = (root >> 1) + bit;
            proof {
                s = s + p;
            }
        } else {
            root = root >> 1;
        }
        proof {
            if k > 0 {
                lemma_pow2_unfold(k);
                let q = pow2((k - 1) as nat) as int;
                lemma_pow2_pos((k - 1) as nat);
                assert(p == 2 * q);
                assert(s * p == 2 * s * q) by (nonlinear_arith)
                    requires
                        p == 2 * q,
                ;
                k = (k - 1) as nat;
            } else {
                lemma2_to64();
                done = true;
                assert(s * p == s) by (nonlinear_arith)
                    requires
                        p == 1,
                ;
            }
        }
        bit = bit >> 2;
    }
    proof {
        if !done {
            assert(pow2(k) * pow2(k) >= 1) by (nonlinear_arith)
                requires
                    pow2(k) >= 1,
            ;
        }
    }
    root
}

/// The host's angle or frequency arrives in R0; a frequency is at least 1.
#[verifier::opaque]
pub open spec fn number_finished(c: Cpu, b: BusModel, v: u32) -> (Cpu, BusModel) {
    match b.math {
        Some(MathCall::ArcTan { .. }) | Some(MathCall::ArcTan2 { .. }) => (
            c.with_r(0, v),
            BusModel { math: None, ..b },
        ),
        Some(MathCall::MidiKey { .. }) => (
            c.with_r(
                0,
                if v < 1 {
                    1
                } else {
                    v
                },
            ),
            BusModel { math: None, ..b },
        ),
        _ => (c, b),
    }
}

/// Finishes ArcTan, ArcTan2 or MidiKey2Freq with the number that the host
/// computed.
pub fn finish_number(cpu: &mut Cpu, bus: &mut Bus, v: u32)
    requires
        old(bus)@.wf(),
    ensures
        (*final(cpu), final(bus)@) == number_finished(*old(cpu), old(bus)@, v),
        final(bus)@.wf(),
{
    reveal(number_finished);
    match bus.pending_math() {
        Some(MathCall::ArcTan { .. }) | Some(MathCall::ArcTan2 { .. }) => {
            cpu.r[0] = v;
            bus.set_math(None);
        },
        Some(MathCall::MidiKey { .. }) => {
            cpu.r[0] = if v < 1 {
                1
            } else {
                v
            };
            bus.set_math(None);
        },
        _ => {},
    }
}

/// One entry of BgAffineSet or ObjAffineSet. Words are two's complement; for
/// objects the centre and the offset are zero.
#[derive(Clone, Copy, Debug)]
pub struct AffineItem {
    pub cx: u32,
    pub cy: u32,
    pub dx: u32,
    pub dy: u32,
    pub scale_x: u32,
    pub scale_y: u32,
    pub angle: u16,
}

/// A 2x2 matrix in 8.8 fixed point, as halfwords.
#[derive(Clone, Copy, Debug)]
pub struct Matrix {
    pub pa: u16,
    pub pb: u16,
    pub pc: u16,
    pub pd: u16,
}

/// The next entry that an affine service has to convert.
#[verifier::opaque]
pub open spec fn affine_read(b: BusModel) -> (BusModel, Option<AffineItem>) {
    match b.math {
        Some(MathCall::BgAffine { src, dst, left }) => {
            let (s, cx) = b.read32(src);
            let (s, cy) = s.read32(src.wrapping_add(4));
            let (s, dx) = s.read16(src.wrapping_add(8));
            let (s, dy) = s.read16(src.wrapping_add(10));
            let (s, sx) = s.read16(src.wrapping_add(12));
            let (s, sy) = s.read16(src.wrapping_add(14));
            let (s, angle) = s.read16(src.wrapping_add(16));
            (
                s,
                Some(
                    AffineItem {
                        cx,
                        cy,
                        dx: sext16(dx),
                        dy: sext16(dy),
                        scale_x: sext16(sx),
                        scale_y: sext16(sy),
                        angle,
                    },
                ),
            )
        },
        Some(MathCall::ObjAffine { src, dst, left, offset }) => {
            let (s, sx) = b.read16(src);
            let (s, sy) = s.read16(src.wrapping_add(2));
            let (s, angle) = s.read16(src.wrapping_add(4));
            (
                s,
                Some(
                    AffineItem {
                        cx: 0,
                        cy: 0,
                        dx: 0,
                        dy: 0,
                        scale_x: sext16(sx),
                        scale_y: sext16(sy),
                        angle,
                    },
                ),
            )
        },
        _ => (b, None),
    }
}

/// Reads the next entry of a pending affine service.
pub fn affine_item(bus: &mut Bus) -> (r: Option<AffineItem>)
    requires
        old(bus)@.wf(),
    ensures
        (final(bus)@, r) == affine_read(old(bus)@),
        final(bus)@.wf(),
{
    reveal(affine_read);
    match bus.pending_math() {
        Some(MathCall::BgAffine { src, dst, left }) => {
            let cx: u32 = bus.read32(src);
            let cy: u32 = bus.read32(src.wrapping_add(4));
            let dx: u16 = bus.read16(src.wrapping_add(8));
            let dy: u16 = bus.read16(src.wrapping_add(10));
            let sx: u16 = bus.read16(src.wrapping_add(12));
            let sy: u16 = bus.read16(src.wrapping_add(14));
            let angle: u16 = bus.read16(src.wrapping_add(16));
            Some(
                AffineItem {
                    cx,
                    cy,
                    dx: sign_half(dx),
                    dy: sign_half(dy),
                    scale_x: sign_half(sx),
                    scale_y: sign_half(sy),
                    angle,
                },
            )
        },
        Some(MathCall::ObjAffine { src, dst, left, offset }) => {
            let sx: u16 = bus.read16(src);
            let sy: u16 = bus.read16(src.wrapping_add(2));
            let angle: u16 = bus.read16(src.wrapping_add(4));
            Some(
                AffineItem {
                    cx: 0,
                    cy: 0,
                    dx: 0,
                    dy: 0,
                    scale_x: sign_half(sx),
                    scale_y: sign_half(sy),
                    angle,
                },
            )
        },
        _ => None,
    }
}

/// Reference coordinate: the centre minus the display offset through one row
/// of the matrix.
pub open spec fn reference(centre: u32, dx: u32, dy: u32, row_x: u16, row_y: u16) -> u32 {
    centre.wrapping_sub(dx.wrapping_mul(sext16(row_x))).wrapping_sub(
        dy.wrapping_mul(sext16(row_y)),
    )
}

fn reference_of(centre: u32, dx: u32, dy: u32, row_x: u16, row_y: u16) -> (r: u32)
    ensures
        r == reference(centre, dx, dy, row_x, row_y),
{
    centre.wrapping_sub(dx.wrapping_mul(sign_half(row_x))).wrapping_sub(
        dy.wrapping_mul(sign_half(row_y)),
    )
}

/// What is left of a service after one entry.
pub open spec fn next_call(m: MathCall) -> Option<MathCall> {
    match m {
        MathCall::BgAffine { src, dst, left } => if left <= 1 {
            None
        } else {
            Some(
                MathCall::BgAffine {
                    src: src.wrapping_add(20),
                    dst: dst.wrapping_add(16),
                    left: (left - 1) as u32,
                },
            )
        },
        MathCall::ObjAffine { src, dst, left, offset } => if left <= 1 {
            None
        } else {
            Some(
                MathCall::ObjAffine {
                    src: src.wrapping_add(8),
                    dst: dst.wrapping_add(offset),
                    left: (left - 1) as u32,
                    offset,
                },
            )
        },
        _ => Some(m),
    }
}

fn next_of(m: MathCall) -> (r: Option<MathCall>)
    ensures
        r == next_call(m),
{
    match m {
        MathCall::BgAffine { src, dst, left } => if left <= 1 {
            None
        } else {
            Some(
                MathCall::BgAffine {
                    src: src.wrapping_add(20),
                    dst: dst.wrapping_add(16),
                    left: left - 1,
                },
            )
        },
        MathCall::ObjAffine { src, dst, left, offset } => if left <= 1 {
            None
        } else {
            Some(
                MathCall::ObjAffine {
                    src: src.wrapping_add(8),
                    dst: dst.wrapping_add(offset),
                    left: left - 1,
                    offset,
                },
            )
        },
        other => Some(other),
    }
}

/// One entry finished with its matrix: backgrounds get the matrix and the
/// reference point in sixteen bytes, objects the matrix every `offset` bytes.
#[verifier::opaque]
pub open spec fn affine_written(b: BusModel, item: AffineItem, m: Matrix) -> BusModel {
    match b.math {
        Some(MathCall::BgAffine { src, dst, left }) => {
            let s = b.write16(dst, m.pa).write16(dst.wrapping_add(2), m.pb).write16(
                dst.wrapping_add(4),
                m.pc,
            ).write16(dst.wrapping_add(6), m.pd).write32(
                dst.wrapping_add(8),
                reference(item.cx, item.dx, item.dy, m.pa, m.pb),
            ).write32(
                dst.wrapping_add(12),
                reference(item.cy, item.dx, item.dy, m.pc, m.pd),
            );
            BusModel { math: next_call(b.math->0), ..s }
        },
        Some(MathCall::ObjAffine { src, dst, left, offset }) => {
            let s = b.write16(dst, m.pa).write16(dst.wrapping_add(offset), m.pb).write16(
                dst.wrapping_add(offset.wrapping_mul(2)),
                m.pc,
            ).write16(dst.wrapping_add(offset.wrapping_mul(3)), m.pd);
            BusModel { math: next_call(b.math->0), ..s }
        },
        _ => b,
    }
}

/// Finishes one entry of a pending affine service with the matrix that the
/// host computed for it.
pub fn finish_affine(bus: &mut Bus, item: AffineItem, m: Matrix)
    requires
        old(bus)@.wf(),
    ensures
        final(bus)@ == affine_written(old(bus)@, item, m),
        final(bus)@.wf(),
{
    reveal(affine_written);
    match bus.pending_math() {
        Some(call) => match call {
            MathCall::BgAffine { src, dst, left } => {
                bus.write16(dst, m.pa);
                bus.write16(dst.wrapping_add(2), m.pb);
                bus.write16(dst.wrapping_add(4), m.pc);
                bus.write16(dst.wrapping_add(6), m.pd);
                bus.write32(
                    dst.wrapping_add(8),
                    reference_of(item.cx, item.dx, item.dy, m.pa, m.pb),
                );
                bus.write32(
                    dst.wrapping_add(12),
                    reference_of(item.cy, item.dx, item.dy, m.pc, m.pd),
                );
                bus.set_math(next_of(call));
            },
            MathCall::ObjAffine { src, dst, left, offset } => {
                bus.write16(dst, m.pa);
                bus.write16(dst.wrapping_add(offset), m.pb);
                bus.write16(dst.wrapping_add(offset.wrapping_mul(2)), m.pc);
                bus.write16(dst.wrapping_add(offset.wrapping_mul(3)), m.pd);
                bus.set_math(next_of(call));
            },
            _ => {},
        },
        None => {},
    }
}

} // verus!
