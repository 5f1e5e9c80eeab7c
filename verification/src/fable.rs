//! Built-in playable fable: a Mode 3 spark steered with the D-pad.

use crate::bits::{hi16, hi8, high_byte, high_half, lo16, lo8, low_byte, low_half, ror32, rotate_right32};
use crate::cart::Cart;
use vstd::prelude::*;

verus! {

// ---- ARM encodings ------------------------------------------------------

/// The value of an ARM immediate: eight bits turned right by twice `rot`.
pub open spec fn imm_value(rot: u32, val: u32) -> u32 {
    ror32(val, (rot * 2) as u32)
}

/// The first immediate that encodes `imm`, from code `k` on; codes count the
/// rotations, then the values.
pub open spec fn imm_from(imm: u32, k: int) -> Option<(u32, u32)>
    decreases 4096 - k,
{
    if k >= 4096 {
        None
    } else if imm_value((k / 256) as u32, (k % 256) as u32) == imm {
        Some(((k / 256) as u32, (k % 256) as u32))
    } else {
        imm_from(imm, k + 1)
    }
}

/// The encoding of a constant; None where it has none.
pub fn find_imm(imm: u32) -> (r: Option<(u32, u32)>)
    ensures
        r == imm_from(imm, 0),
{
    let mut k: u32 = 0;
    while k < 4096
        invariant
            k <= 4096,
            imm_from(imm, 0) == imm_from(imm, k as int),
        decreases 4096 - k,
    {
        let rot: u32 = k / 256;
        let val: u32 = k % 256;
        if rotate_right32(val, rot * 2) == imm {
            return Some((rot, val));
        }
        k += 1;
    }
    None
}

proof fn lemma_imm_from(imm: u32, k: int)
    requires
        0 <= k <= 4096,
    ensures
        match imm_from(imm, k) {
            Some((rot, val)) => rot < 16 && val < 256 && imm_value(rot, val) == imm,
            None => forall|j: int|
                k <= j < 4096 ==> #[trigger] imm_value((j / 256) as u32, (j % 256) as u32) != imm,
        },
    decreases 4096 - k,
{
    if k < 4096 {
        lemma_imm_from(imm, k + 1);
    }
}

/// An encoding that is found gives the constant back, and none is found only
/// where no rotation of eight bits gives it.
pub proof fn law_find_imm(imm: u32)
    ensures
        match imm_from(imm, 0) {
            Some((rot, val)) => rot < 16 && val < 256 && imm_value(rot, val) == imm,
            None => forall|rot: u32, val: u32|
                rot < 16 && val < 256 ==> #[trigger] imm_value(rot, val) != imm,
        },
{
    lemma_imm_from(imm, 0);
    if imm_from(imm, 0) is None {
        assert forall|rot: u32, val: u32| rot < 16 && val < 256 implies #[trigger] imm_value(rot, val)
            != imm by {
            let j = rot * 256 + val;
            assert(j / 256 == rot && j % 256 == val);
            assert(imm_value((j / 256) as u32, (j % 256) as u32) != imm);
        }
    }
}

/// A data-processing instruction with an immediate; a constant without an
/// encoding becomes zero.
pub open spec fn dp_word(opcode: u32, rd: u32, rn: u32, imm: u32, set_flags: bool) -> u32 {
    let (rot, val) = match imm_from(imm, 0) {
        Some(p) => p,
        None => (0u32, 0u32),
    };
    let s: u32 = if set_flags {
        1
    } else {
        0
    };
    0xE000_0000u32 | 0x0200_0000u32 | (opcode << 21) | (s << 20) | (rn << 16) | (rd << 12) | (rot
        << 8) | val
}

pub fn dp_imm(opcode: u32, rd: u32, rn: u32, imm: u32, set_flags: bool) -> (r: u32)
    ensures
        r == dp_word(opcode, rd, rn, imm, set_flags),
{
    let (rot, val): (u32, u32) = match find_imm(imm) {
        Some(p) => p,
        None => (0, 0),
    };
    let s: u32 = if set_flags {
        1
    } else {
        0
    };
    0xE000_0000 | 0x0200_0000 | (opcode << 21) | (s << 20) | (rn << 16) | (rd << 12) | (rot << 8) | val
}

pub open spec fn mov(rd: u32, imm: u32) -> u32 {
    dp_word(0b1101, rd, 0, imm, false)
}

pub open spec fn plus(rd: u32, rn: u32, imm: u32) -> u32 {
    dp_word(0b0100, rd, rn, imm, false)
}

pub open spec fn minus(rd: u32, rn: u32, imm: u32) -> u32 {
    dp_word(0b0010, rd, rn, imm, false)
}

pub open spec fn orr(rd: u32, rn: u32, imm: u32) -> u32 {
    dp_word(0b1100, rd, rn, imm, false)
}

pub open spec fn compare(rn: u32, imm: u32) -> u32 {
    dp_word(0b1010, 0, rn, imm, true)
}

pub open spec fn tst(rn: u32, imm: u32) -> u32 {
    dp_word(0b1000, 0, rn, imm, true)
}

pub open spec fn mov_r(rd: u32, rm: u32) -> u32 {
    0xE1A0_0000u32 | (rd << 12) | rm
}

pub open spec fn plus_r(rd: u32, rn: u32, rm: u32) -> u32 {
    0xE080_0000u32 | (rn << 16) | (rd << 12) | rm
}

pub open spec fn lsl(rd: u32, rm: u32, sh: u32) -> u32 {
    0xE1A0_0000u32 | (rd << 12) | (sh << 7) | rm
}

pub open spec fn times(rd: u32, rm: u32, rs: u32) -> u32 {
    0xE000_0090u32 | (rd << 16) | (rs << 8) | rm
}

pub open spec fn store(rd: u32, rn: u32) -> u32 {
    0xE1C0_00B0u32 | (rn << 16) | (rd << 12)
}

pub open spec fn load(rd: u32, rn: u32) -> u32 {
    0xE1D0_00B0u32 | (rn << 16) | (rd << 12)
}

pub const PUSH_LR: u32 = 0xE92D_4000;

pub const POP_PC: u32 = 0xE8BD_8000;

pub const NOP: u32 = 0xE1A0_0000;

pub const BRANCH: u32 = 0xEA00_0000;

pub const CALL: u32 = 0xEB00_0000;

/// Branches taken on equal, unequal, unsigned higher-or-same and lower.
pub const BEQ: u32 = 0x0A00_0000;

pub const BNE: u32 = 0x1A00_0000;

pub const BHS: u32 = 0x2A00_0000;

pub const BLO: u32 = 0x3A00_0000;

/// A branch of a kind from word `at` to word `dest`.
pub open spec fn jump(kind: u32, at: usize, dest: usize) -> u32 {
    kind | (((dest as i32).wrapping_sub(at as i32).wrapping_sub(2) as u32) & 0x00FF_FFFF)
}

// ---- the assembler ------------------------------------------------------

pub struct Asm {
    pub words: Vec<u32>,
}

/// Byte `k` of a word, little-endian.
pub open spec fn word_byte(w: u32, k: int) -> u8 {
    if k == 0 {
        lo8(lo16(w))
    } else if k == 1 {
        hi8(lo16(w))
    } else if k == 2 {
        lo8(hi16(w))
    } else {
        hi8(hi16(w))
    }
}

pub open spec fn word_bytes(words: Seq<u32>) -> Seq<u8> {
    Seq::new(words.len() * 4, |i: int| word_byte(words[i / 4], i % 4))
}

impl Asm {
    pub fn new() -> (r: Self)
        ensures
            r.words@ == Seq::<u32>::empty(),
    {
        Asm { words: Vec::new() }
    }

    pub fn here(&self) -> (r: usize)
        ensures
            r == self.words@.len(),
    {
        self.words.len()
    }

    pub fn emit(&mut self, w: u32)
        ensures
            final(self).words@ == old(self).words@.push(w),
    {
        self.words.push(w);
    }

    pub fn bytes(&self) -> (r: Vec<u8>)
        ensures
            r@ == word_bytes(self.words@),
    {
        let mut b: Vec<u8> = Vec::new();
        let mut i: usize = 0;
        while i < self.words.len()
            invariant
                i <= self.words@.len(),
                b@ == word_bytes(self.words@.take(i as int)),
            decreases self.words@.len() - i,
        {
            let w: u32 = self.words[i];
            let lo: u16 = low_half(w);
            let hi: u16 = high_half(w);
            b.push(low_byte(lo));
            b.push(high_byte(lo));
            b.push(low_byte(hi));
            b.push(high_byte(hi));
            i += 1;
            assert(b@ =~= word_bytes(self.words@.take(i as int)));
        }
        assert(self.words@.take(i as int) =~= self.words@);
        b
    }

    pub fn mov_imm(&mut self, rd: u32, imm: u32)
        ensures
            final(self).words@ == old(self).words@.push(mov(rd, imm)),
    {
        self.emit(dp_imm(0b1101, rd, 0, imm, false));
    }

    pub fn add_imm(&mut self, rd: u32, rn: u32, imm: u32)
        ensures
            final(self).words@ == old(self).words@.push(plus(rd, rn, imm)),
    {
        self.emit(dp_imm(0b0100, rd, rn, imm, false));
    }

    pub fn sub_imm(&mut self, rd: u32, rn: u32, imm: u32)
        ensures
            final(self).words@ == old(self).words@.push(minus(rd, rn, imm)),
    {
        self.emit(dp_imm(0b0010, rd, rn, imm, false));
    }

    pub fn orr_imm(&mut self, rd: u32, rn: u32, imm: u32)
        ensures
            final(self).words@ == old(self).words@.push(orr(rd, rn, imm)),
    {
        self.emit(dp_imm(0b1100, rd, rn, imm, false));
    }

    pub fn cmp_imm(&mut self, rn: u32, imm: u32)
        ensures
            final(self).words@ == old(self).words@.push(compare(rn, imm)),
    {
        self.emit(dp_imm(0b1010, 0, rn, imm, true));
    }

    pub fn tst_imm(&mut self, rn: u32, imm: u32)
        ensures
            final(self).words@ == old(self).words@.push(tst(rn, imm)),
    {
        self.emit(dp_imm(0b1000, 0, rn, imm, true));
    }

    pub fn mov_reg(&mut self, rd: u32, rm: u32)
        ensures
            final(self).words@ == old(self).words@.push(mov_r(rd, rm)),
    {
        self.emit(0xE1A0_0000 | (rd << 12) | rm);
    }

    pub fn add_reg(&mut self, rd: u32, rn: u32, rm: u32)
        ensures
            final(self).words@ == old(self).words@.push(plus_r(rd, rn, rm)),
    {
        self.emit(0xE080_0000 | (rn << 16) | (rd << 12) | rm);
    }

    pub fn lsl_imm(&mut self, rd: u32, rm: u32, sh: u32)
        ensures
            final(self).words@ == old(self).words@.push(lsl(rd, rm, sh)),
    {
        self.emit(0xE1A0_0000 | (rd << 12) | (sh << 7) | rm);
    }

    pub fn mul(&mut self, rd: u32, rm: u32, rs: u32)
        ensures
            final(self).words@ == old(self).words@.push(times(rd, rm, rs)),
    {
        self.emit(0xE000_0090 | (rd << 16) | (rs << 8) | rm);
    }

    pub fn strh(&mut self, rd: u32, rn: u32)
        ensures
            final(self).words@ == old(self).words@.push(store(rd, rn)),
    {
        self.emit(0xE1C0_00B0 | (rn << 16) | (rd << 12));
    }

    pub fn ldrh(&mut self, rd: u32, rn: u32)
        ensures
            final(self).words@ == old(self).words@.push(load(rd, rn)),
    {
        self.emit(0xE1D0_00B0 | (rn << 16) | (rd << 12));
    }

    /// Writes the branch at word `at` now that its target is known.
    pub fn patch(&mut self, kind: u32, at: usize, dest: usize)
        requires
            at < old(self).words@.len(),
        ensures
            final(self).words@ == old(self).words@.update(at as int, jump(kind, at, dest)),
    {
        let off: i32 = (dest as i32).wrapping_sub(at as i32).wrapping_sub(2);
        self.words[at] = kind | ((off as u32) & 0x00FF_FFFF);
    }
}

// ---- the program --------------------------------------------------------

/// Words 48-67: stack, Mode 3 with BG2, the spark in the middle of the screen,
/// then wait, erase, move and draw for ever.
pub open spec fn main_code() -> Seq<u32> {
    seq![
        mov(13, 0x0300_0000),
        plus(13, 13, 0x7F00),
        mov(0, 0x0400_0000),
        mov(1, 0x400),
        orr(1, 1, 3),
        store(1, 0),
        mov(10, 0x0600_0000),
        mov(4, 120),
        mov(5, 80),
        mov(8, 0x7F00),
        orr(8, 8, 0xFF),
        mov_r(6, 4),
        mov_r(7, 5),
        jump(CALL, 61, 68),
        jump(CALL, 62, 78),
        jump(CALL, 63, 87),
        mov_r(6, 4),
        mov_r(7, 5),
        jump(CALL, 66, 112),
        jump(BRANCH, 67, 61),
    ]
}

/// Words 68-77: until VCOUNT passes from the picture into VBlank and out.
pub open spec fn wait_code() -> Seq<u32> {
    seq![
        PUSH_LR,
        mov(0, 0x0400_0000),
        plus(0, 0, 6),
        load(1, 0),
        compare(1, 160),
        jump(BLO, 73, 71),
        load(1, 0),
        compare(1, 160),
        jump(BHS, 76, 74),
        POP_PC,
    ]
}

/// Words 78-86: the old place goes black.
pub open spec fn erase_code() -> Seq<u32> {
    seq![
        PUSH_LR,
        mov(2, 240),
        times(3, 7, 2),
        plus_r(3, 3, 6),
        lsl(3, 3, 1),
        plus_r(0, 10, 3),
        mov(1, 0),
        store(1, 0),
        POP_PC,
    ]
}

/// Words 87-111: one step for each direction held, inside the screen. KEYINPUT
/// is active-low.
pub open spec fn move_code() -> Seq<u32> {
    seq![
        PUSH_LR,
        mov(0, 0x0400_0000),
        plus(0, 0, 0x130),
        load(1, 0),
        tst(1, 0x20),
        jump(BNE, 92, 96),
        compare(4, 0),
        jump(BEQ, 94, 96),
        minus(4, 4, 1),
        tst(1, 0x10),
        jump(BNE, 97, 101),
        compare(4, 239),
        jump(BHS, 99, 101),
        plus(4, 4, 1),
        tst(1, 0x40),
        jump(BNE, 102, 106),
        compare(5, 0),
        jump(BEQ, 104, 106),
        minus(5, 5, 1),
        tst(1, 0x80),
        jump(BNE, 107, 111),
        compare(5, 159),
        jump(BHS, 109, 111),
        plus(5, 5, 1),
        POP_PC,
    ]
}

/// Words 112-119: the spark at its place.
pub open spec fn draw_code() -> Seq<u32> {
    seq![
        PUSH_LR,
        mov(2, 240),
        times(3, 5, 2),
        plus_r(3, 3, 4),
        lsl(3, 3, 1),
        plus_r(0, 10, 3),
        store(8, 0),
        POP_PC,
    ]
}

/// The program: a branch over the header space, then the code.
pub open spec fn spark_words() -> Seq<u32> {
    seq![jump(BRANCH, 0, 48)] + Seq::new(47, |i: int| NOP) + main_code() + wait_code() + erase_code()
        + move_code() + draw_code()
}

/// `t` stored in the `n` bytes from `at`, padded with zeros.
pub open spec fn stamped(s: Seq<u8>, at: int, n: int, t: Seq<char>) -> Seq<u8> {
    Seq::new(
        s.len(),
        |i: int|
            if at <= i < at + n {
                if i - at < t.len() {
                    t[i - at] as u8
                } else {
                    0
                }
            } else {
                s[i]
            },
    )
}

/// The ROM image: the program padded to 512 bytes, with its header fields.
pub open spec fn spark_image() -> Seq<u8> {
    let code = word_bytes(spark_words());
    let s = Seq::new(0x200, |i: int| if i < code.len() { code[i] } else { 0 });
    stamped(stamped(stamped(s, 0xA0, 12, "SPARK"@), 0xAC, 4, "FLSP"@), 0xB0, 2, "FL"@)
}

fn emit_main(c: &mut Asm)
    requires
        old(c).words@.len() == 48,
    ensures
        final(c).words@ == old(c).words@ + main_code(),
{
    let ghost o = c.words@;
    c.mov_imm(13, 0x0300_0000);
    c.add_imm(13, 13, 0x7F00);
    // Mode 3, BG2
    c.mov_imm(0, 0x0400_0000);
    c.mov_imm(1, 0x400);
    c.orr_imm(1, 1, 3);
    c.strh(1, 0);
    c.mov_imm(10, 0x0600_0000);
    c.mov_imm(4, 120);
    c.mov_imm(5, 80);
    c.mov_imm(8, 0x7F00);
    c.orr_imm(8, 8, 0xFF);
    c.mov_reg(6, 4);
    c.mov_reg(7, 5);
    let top: usize = c.here();
    c.emit(CALL);
    c.emit(CALL);
    c.emit(CALL);
    c.mov_reg(6, 4);
    c.mov_reg(7, 5);
    c.emit(CALL);
    let back: usize = c.here();
    c.emit(BRANCH);
    c.patch(CALL, top, 68);
    c.patch(CALL, top + 1, 78);
    c.patch(CALL, top + 2, 87);
    c.patch(CALL, top + 5, 112);
    c.patch(BRANCH, back, top);
    assert(c.words@ =~= o + main_code());
}

fn emit_wait(c: &mut Asm)
    requires
        old(c).words@.len() == 68,
    ensures
        final(c).words@ == old(c).words@ + wait_code(),
{
    let ghost o = c.words@;
    c.emit(PUSH_LR);
    c.mov_imm(0, 0x0400_0000);
    c.add_imm(0, 0, 6);
    let w1: usize = c.here();
    c.ldrh(1, 0);
    c.cmp_imm(1, 160);
    let b1: usize = c.here();
    c.emit(BLO);
    let w2: usize = c.here();
    c.ldrh(1, 0);
    c.cmp_imm(1, 160);
    let b2: usize = c.here();
    c.emit(BHS);
    c.emit(POP_PC);
    c.patch(BLO, b1, w1);
    c.patch(BHS, b2, w2);
    assert(c.words@ =~= o + wait_code());
}

fn emit_erase(c: &mut Asm)
    ensures
        final(c).words@ == old(c).words@ + erase_code(),
{
    let ghost o = c.words@;
    c.emit(PUSH_LR);
    c.mov_imm(2, 240);
    c.mul(3, 7, 2);
    c.add_reg(3, 3, 6);
    c.lsl_imm(3, 3, 1);
    c.add_reg(0, 10, 3);
    c.mov_imm(1, 0);
    c.strh(1, 0);
    c.emit(POP_PC);
    assert(c.words@ =~= o + erase_code());
}

fn emit_move(c: &mut Asm)
    requires
        old(c).words@.len() == 87,
    ensures
        final(c).words@ == old(c).words@ + move_code(),
{
    let ghost o = c.words@;
    c.emit(PUSH_LR);
    c.mov_imm(0, 0x0400_0000);
    c.add_imm(0, 0, 0x130);
    c.ldrh(1, 0);
    // left
    c.tst_imm(1, 0x20);
    let l1: usize = c.here();
    c.emit(BNE);
    c.cmp_imm(4, 0);
    let l2: usize = c.here();
    c.emit(BEQ);
    c.sub_imm(4, 4, 1);
    let al: usize = c.here();
    // right
    c.tst_imm(1, 0x10);
    let r1: usize = c.here();
    c.emit(BNE);
    c.cmp_imm(4, 239);
    let r2: usize = c.here();
    c.emit(BHS);
    c.add_imm(4, 4, 1);
    let ar: usize = c.here();
    // up
    c.tst_imm(1, 0x40);
    let u1: usize = c.here();
    c.emit(BNE);
    c.cmp_imm(5, 0);
    let u2: usize = c.here();
    c.emit(BEQ);
    c.sub_imm(5, 5, 1);
    let au: usize = c.here();
    // down
    c.tst_imm(1, 0x80);
    let d1: usize = c.here();
    c.emit(BNE);
    c.cmp_imm(5, 159);
    let d2: usize = c.here();
    c.emit(BHS);
    c.add_imm(5, 5, 1);
    let ad: usize = c.here();
    c.emit(POP_PC);
    c.patch(BNE, l1, al);
    c.patch(BEQ, l2, al);
    c.patch(BNE, r1, ar);
    c.patch(BHS, r2, ar);
    c.patch(BNE, u1, au);
    c.patch(BEQ, u2, au);
    c.patch(BNE, d1, ad);
    c.patch(BHS, d2, ad);
    assert(c.words@ =~= o + move_code());
}

fn emit_draw(c: &mut Asm)
    ensures
        final(c).words@ == old(c).words@ + draw_code(),
{
    let ghost o = c.words@;
    c.emit(PUSH_LR);
    c.mov_imm(2, 240);
    c.mul(3, 5, 2);
    c.add_reg(3, 3, 4);
    c.lsl_imm(3, 3, 1);
    c.add_reg(0, 10, 3);
    c.strh(8, 0);
    c.emit(POP_PC);
    assert(c.words@ =~= o + draw_code());
}

fn stamp(v: &mut Vec<u8>, at: usize, n: usize, t: &str)
    requires
        at + n <= old(v)@.len(),
    ensures
        final(v)@ == stamped(old(v)@, at as int, n as int, t@),
{
    let ghost o = v@;
    let len: usize = t.unicode_len();
    let total: usize = v.len();
    let mut k: usize = 0;
    while k < n
        invariant
            k <= n,
            at + n <= total == o.len(),
            len == t@.len(),
            v@ == stamped(o, at as int, k as int, t@),
        decreases n - k,
    {
        let b: u8 = if k < len {
            t.get_char(k) as u8
        } else {
            0
        };
        v[at + k] = b;
        k += 1;
        assert(v@ =~= stamped(o, at as int, k as int, t@));
    }
    assert(v@ =~= stamped(o, at as int, n as int, t@));
}

/// "Spark": move a bright pixel.
pub fn spark_rom() -> (r: Cart)
    ensures
        r.data@ == spark_image(),
        r.title@ == "SPARK"@,
        r.game_code@ == "FLSP"@,
        r.maker@ == "FL"@,
        r.path@ == "<built-in: spark>"@,
        r.inner_name is None,
{
    let mut c: Asm = Asm::new();
    c.emit(BRANCH);
    while c.here() * 4 < 0xC0
        invariant
            1 <= c.words@.len() <= 48,
            c.words@[0] == BRANCH,
            forall|i: int| 1 <= i < c.words@.len() ==> #[trigger] c.words@[i] == NOP,
        decreases 48 - c.words@.len(),
    {
        c.emit(NOP);
    }
    let main: usize = c.here();
    emit_main(&mut c);
    emit_wait(&mut c);
    emit_erase(&mut c);
    emit_move(&mut c);
    emit_draw(&mut c);
    c.patch(BRANCH, 0, main);
    assert(c.words@ =~= spark_words());
    let mut bytes: Vec<u8> = c.bytes();
    let ghost code = bytes@;
    while bytes.len() < 0x200
        invariant
            code.len() <= bytes@.len() <= 0x200,
            forall|i: int|
                0 <= i < bytes@.len() ==> #[trigger] bytes@[i] == if i < code.len() {
                    code[i]
                } else {
                    0
                },
        decreases 0x200 - bytes@.len(),
    {
        bytes.push(0);
    }
    assert(bytes@ =~= Seq::new(0x200, |i: int| if i < code.len() { code[i] } else { 0 }));
    stamp(&mut bytes, 0xA0, 12, "SPARK");
    stamp(&mut bytes, 0xAC, 4, "FLSP");
    stamp(&mut bytes, 0xB0, 2, "FL");
    Cart {
        data: bytes,
        title: "SPARK".to_owned(),
        game_code: "FLSP".to_owned(),
        maker: "FL".to_owned(),
        path: "<built-in: spark>".to_owned(),
        inner_name: None,
    }
}

} // verus!
