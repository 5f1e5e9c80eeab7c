//! Numbers for the debug report.

use crate::bits::{le16, make16};
use vstd::prelude::*;

verus! {

/// How many of the first `n` bytes are not zero.
pub open spec fn nonzero_in(s: Seq<u8>, n: nat) -> nat
    decreases n,
{
    if n == 0 {
        0
    } else {
        nonzero_in(s, (n - 1) as nat) + if s[n - 1] != 0 {
            1nat
        } else {
            0
        }
    }
}

proof fn lemma_nonzero(s: Seq<u8>, n: nat)
    ensures
        nonzero_in(s, n) <= n,
    decreases n,
{
    if n > 0 {
        lemma_nonzero(s, (n - 1) as nat);
    }
}

pub fn nonzero(s: &[u8]) -> (r: usize)
    ensures
        r == nonzero_in(s@, s@.len()),
{
    let mut c: usize = 0;
    let mut i: usize = 0;
    while i < s.len()
        invariant
            i <= s@.len(),
            c == nonzero_in(s@, i as nat),
            c <= i,
        decreases s@.len() - i,
    {
        if s[i] != 0 {
            c += 1;
        }
        i += 1;
        proof {
            lemma_nonzero(s@, i as nat);
        }
    }
    c
}

/// How many of the first `n` pixels are not black.
pub open spec fn lit_in(s: Seq<u16>, n: nat) -> nat
    decreases n,
{
    if n == 0 {
        0
    } else {
        lit_in(s, (n - 1) as nat) + if s[n - 1] & 0x7FFF != 0 {
            1nat
        } else {
            0
        }
    }
}

proof fn lemma_lit(s: Seq<u16>, n: nat)
    ensures
        lit_in(s, n) <= n,
    decreases n,
{
    if n > 0 {
        lemma_lit(s, (n - 1) as nat);
    }
}

pub fn lit_pixels(frame: &[u16]) -> (r: usize)
    ensures
        r == lit_in(frame@, frame@.len()),
{
    let mut c: usize = 0;
    let mut i: usize = 0;
    while i < frame.len()
        invariant
            i <= frame@.len(),
            c == lit_in(frame@, i as nat),
            c <= i,
        decreases frame@.len() - i,
    {
        if frame[i] & 0x7FFF != 0 {
            c += 1;
        }
        i += 1;
        proof {
            lemma_lit(frame@, i as nat);
        }
    }
    c
}

/// Attribute `k` of sprite `i`.
pub open spec fn attribute(oam: Seq<u8>, i: int, k: int) -> u16 {
    le16(oam[i * 8 + k * 2], oam[i * 8 + k * 2 + 1])
}

/// Sprite `i` is neither hidden nor parked below the screen.
pub open spec fn is_live(oam: Seq<u8>, i: int) -> bool {
    let (a0, a1) = (attribute(oam, i, 0), attribute(oam, i, 1));
    !(a0 & 0x100 == 0 && a0 & 0x200 != 0) && !(a0 & 0xFF == 160 && a1 & 0x1FF >= 240)
}

/// The live ones among the first `n` sprites.
pub open spec fn live_in(oam: Seq<u8>, n: nat) -> Seq<usize>
    decreases n,
{
    if n == 0 {
        Seq::empty()
    } else {
        let l = live_in(oam, (n - 1) as nat);
        if is_live(oam, n - 1) {
            l.push((n - 1) as usize)
        } else {
            l
        }
    }
}

/// The sprites that the report lists.
pub fn live_objs(oam: &[u8]) -> (r: Vec<usize>)
    requires
        oam@.len() >= 1024,
    ensures
        r@ == live_in(oam@, 128),
{
    let mut out: Vec<usize> = Vec::new();
    let mut i: usize = 0;
    while i < 128
        invariant
            i <= 128,
            oam@.len() >= 1024,
            out@ == live_in(oam@, i as nat),
        decreases 128 - i,
    {
        let o: usize = i * 8;
        let a0: u16 = make16(oam[o], oam[o + 1]);
        let a1: u16 = make16(oam[o + 2], oam[o + 3]);
        let hidden: bool = a0 & 0x100 == 0 && a0 & 0x200 != 0;
        let parked: bool = a0 & 0xFF == 160 && a1 & 0x1FF >= 240;
        if !hidden && !parked {
            out.push(i);
        }
        i += 1;
    }
    out
}

/// Sprite `i` is neither disabled nor part of the object window.
pub open spec fn is_drawn(oam: Seq<u8>, i: int) -> bool {
    let a0 = attribute(oam, i, 0);
    !(a0 & 0x100 == 0 && a0 & 0x200 != 0) && a0 & 0xC00 != 0x800
}

/// The drawn ones among the first `n` sprites.
pub open spec fn drawn_in(oam: Seq<u8>, n: nat) -> Seq<usize>
    decreases n,
{
    if n == 0 {
        Seq::empty()
    } else {
        let l = drawn_in(oam, (n - 1) as nat);
        if is_drawn(oam, n - 1) {
            l.push((n - 1) as usize)
        } else {
            l
        }
    }
}

/// The sprites that a headless run lists.
pub fn drawn_objs(oam: &[u8]) -> (r: Vec<usize>)
    requires
        oam@.len() >= 1024,
    ensures
        r@ == drawn_in(oam@, 128),
{
    let mut out: Vec<usize> = Vec::new();
    let mut i: usize = 0;
    while i < 128
        invariant
            i <= 128,
            oam@.len() >= 1024,
            out@ == drawn_in(oam@, i as nat),
        decreases 128 - i,
    {
        let a0: u16 = make16(oam[i * 8], oam[i * 8 + 1]);
        if !(a0 & 0x100 == 0 && a0 & 0x200 != 0) && a0 & 0xC00 != 0x800 {
            out.push(i);
        }
        i += 1;
    }
    out
}

/// Code can run here: BIOS, work RAM or the cartridge.
pub fn valid_pc(pc: u32) -> (r: bool)
    ensures
        r == (pc < 0x4000 || 0x0200_0000 <= pc < 0x0204_0000 || 0x0300_0000 <= pc < 0x0300_8000
            || 0x0800_0000 <= pc < 0x0E00_0000),
{
    pc < 0x4000 || (0x0200_0000 <= pc && pc < 0x0204_0000) || (0x0300_0000 <= pc && pc < 0x0300_8000) || (
    0x0800_0000 <= pc && pc < 0x0E00_0000)
}

/// How far a signed sample byte lies from silence.
pub open spec fn loudness(b: u8) -> nat {
    if b < 128 {
        b as nat
    } else {
        (256 - b) as nat
    }
}

/// The greatest loudness, the sum of all, and how many are at the rail (120 or
/// more), of the first `n` bytes.
pub open spec fn levels(s: Seq<u8>, n: nat) -> (nat, nat, nat)
    decreases n,
{
    if n == 0 {
        (0, 0, 0)
    } else {
        let (peak, sum, rail) = levels(s, (n - 1) as nat);
        let a = loudness(s[n - 1]);
        (if a > peak {
            a
        } else {
            peak
        }, sum + a, if a >= 120 {
            rail + 1
        } else {
            rail
        })
    }
}

proof fn lemma_levels(s: Seq<u8>, n: nat)
    ensures
        levels(s, n).0 <= 128,
        levels(s, n).1 <= 128 * n,
        levels(s, n).2 <= n,
    decreases n,
{
    if n > 0 {
        lemma_levels(s, (n - 1) as nat);
    }
}

/// Peak, mean and samples at the rail of a mixing buffer.
pub fn level_stat(s: &[u8]) -> (r: (u32, u32, u32))
    requires
        s@.len() <= 0x1FF_FFFF,
    ensures
        r.0 == levels(s@, s@.len()).0,
        r.1 == (if s@.len() == 0 {
            0
        } else {
            levels(s@, s@.len()).1 / s@.len()
        }),
        r.2 == levels(s@, s@.len()).2,
{
    let mut peak: u32 = 0;
    let mut sum: u32 = 0;
    let mut rail: u32 = 0;
    let mut i: usize = 0;
    while i < s.len()
        invariant
            i <= s@.len() <= 0x1FF_FFFF,
            peak == levels(s@, i as nat).0,
            sum == levels(s@, i as nat).1,
            rail == levels(s@, i as nat).2,
        decreases s@.len() - i,
    {
        proof {
            lemma_levels(s@, i as nat);
        }
        let b: u8 = s[i];
        let a: u32 = if b < 128 {
            b as u32
        } else {
            256 - b as u32
        };
        if a > peak {
            peak = a;
        }
        sum += a;
        if a >= 120 {
            rail += 1;
        }
        i += 1;
    }
    let n: u32 = s.len() as u32;
    if n == 0 {
        (peak, 0, rail)
    } else {
        (peak, sum / n, rail)
    }
}

} // verus!
