//! Memory copies and decompression.

use crate::bus::model::{vram_at, BusModel};
use crate::bus::{lemma_even, vram_index, Bus};
use crate::cpu::Cpu;
use vstd::prelude::*;

verus! {

/// Position in source and destination of a copy or an unpacker.
pub struct Unpack {
    pub b: BusModel,
    pub s: u32,
    pub d: u32,
    /// Bytes written so far.
    pub written: u32,
    /// What was written, for look-behind into VRAM.
    pub window: Seq<u8>,
}

// ---- CpuSet, CpuFastSet -------------------------------------------------

/// `n` units copied, or one unit repeated.
pub open spec fn copied(b: BusModel, src: u32, dst: u32, fixed: bool, word: bool, n: nat) -> (
    BusModel,
    u32,
    u32,
)
    decreases n,
{
    if n == 0 {
        (b, src, dst)
    } else {
        let (t, s, d) = copied(b, src, dst, fixed, word, (n - 1) as nat);
        let step: u32 = if word {
            4
        } else {
            2
        };
        let u = if word {
            let (u, v) = t.read32(s);
            u.write32(d, v)
        } else {
            let (u, v) = t.read16(s);
            u.write16(d, v)
        };
        (
            u,
            if fixed {
                s
            } else {
                s.wrapping_add(step)
            },
            d.wrapping_add(step),
        )
    }
}

fn copy_units(bus: &mut Bus, src: u32, dst: u32, fixed: bool, word: bool, n: u32)
    requires
        old(bus)@.wf(),
    ensures
        final(bus)@ == copied(old(bus)@, src, dst, fixed, word, n as nat).0,
        final(bus)@.wf(),
{
    let mut s: u32 = src;
    let mut d: u32 = dst;
    let mut i: u32 = 0;
    while i < n
        invariant
            i <= n,
            bus@.wf(),
            (bus@, s, d) == copied(old(bus)@, src, dst, fixed, word, i as nat),
        decreases n - i,
    {
        let step: u32 = if word {
            4
        } else {
            2
        };
        if word {
            let v: u32 = bus.read32(s);
            bus.write32(d, v);
        } else {
            let v: u16 = bus.read16(s);
            bus.write16(d, v);
        }
        if !fixed {
            s = s.wrapping_add(step);
        }
        d = d.wrapping_add(step);
        i += 1;
    }
}

pub open spec fn cpu_set_done(c: Cpu, b: BusModel) -> BusModel {
    copied(
        b,
        c.r[0],
        c.r[1],
        c.r[2] & 0x0100_0000 != 0,
        c.r[2] & 0x0400_0000 != 0,
        (c.r[2] & 0x001F_FFFF) as nat,
    ).0
}

pub fn cpu_set(cpu: &Cpu, bus: &mut Bus)
    requires
        old(bus)@.wf(),
    ensures
        final(bus)@ == cpu_set_done(*cpu, old(bus)@),
        final(bus)@.wf(),
{
    let ctrl: u32 = cpu.r[2];
    copy_units(
        bus,
        cpu.r[0],
        cpu.r[1],
        ctrl & 0x0100_0000 != 0,
        ctrl & 0x0400_0000 != 0,
        ctrl & 0x001F_FFFF,
    );
}

pub open spec fn cpu_fast_set_done(c: Cpu, b: BusModel) -> BusModel {
    copied(
        b,
        c.r[0],
        c.r[1],
        c.r[2] & 0x0100_0000 != 0,
        true,
        (c.r[2] & 0x001F_FFFF) as nat,
    ).0
}

pub fn cpu_fast_set(cpu: &Cpu, bus: &mut Bus)
    requires
        old(bus)@.wf(),
    ensures
        final(bus)@ == cpu_fast_set_done(*cpu, old(bus)@),
        final(bus)@.wf(),
{
    let ctrl: u32 = cpu.r[2];
    copy_units(bus, cpu.r[0], cpu.r[1], ctrl & 0x0100_0000 != 0, true, ctrl & 0x001F_FFFF);
}

// ---- unpacked bytes -----------------------------------------------------

/// One unpacked byte: VRAM takes it by read-modify-write of a halfword.
#[verifier::opaque]
pub open spec fn byte_out(b: BusModel, addr: u32, val: u8, to_vram: bool) -> BusModel {
    if to_vram || addr >> 24 == 0x06 {
        let a = addr & !1u32;
        let (s, cur) = b.read16(a);
        let v = if addr & 1 == 0 {
            (cur & 0xFF00) | (val as u16)
        } else {
            (cur & 0x00FF) | ((val as u16) << 8)
        };
        BusModel { vram: crate::bus::model::put16(s.vram, vram_at(a), v), ..s }
    } else {
        b.write8(addr, val)
    }
}

pub(crate) fn write_decomp(bus: &mut Bus, addr: u32, val: u8, to_vram: bool)
    requires
        old(bus)@.wf(),
    ensures
        final(bus)@ == byte_out(old(bus)@, addr, val, to_vram),
        final(bus)@.wf(),
{
    reveal(byte_out);
    if to_vram || addr >> 24 == 0x06 {
        let a: u32 = addr & !1;
        proof {
            lemma_even(addr);
        }
        let cur: u16 = bus.read16(a);
        let v: u16 = if addr & 1 == 0 {
            (cur & 0xFF00) | (val as u16)
        } else {
            (cur & 0x00FF) | ((val as u16) << 8)
        };
        let i: usize = vram_index(a);
        bus.store_vram16(i, v);
    } else {
        bus.write8(addr, val);
    }
}

impl Unpack {
    /// A byte goes out, and into the window where one is kept.
    #[verifier::opaque]
    pub open spec fn put(self, v: u8, to_vram: bool, keep: bool) -> Unpack {
        Unpack {
            b: byte_out(self.b, self.d, v, to_vram),
            d: self.d.wrapping_add(1),
            written: (self.written + 1) as u32,
            window: if keep {
                self.window.push(v)
            } else {
                self.window
            },
            ..self
        }
    }

    /// A byte comes in.
    pub open spec fn get(self) -> (Unpack, u8) {
        let (b, v) = self.b.read8(self.s);
        (Unpack { b, s: self.s.wrapping_add(1), ..self }, v)
    }

    /// The byte `back` before the write position: from the window, whose front
    /// stands in for what lies before it, or from memory.
    #[verifier::opaque]
    pub open spec fn behind(self, back: int, keep: bool) -> (BusModel, u8) {
        if keep {
            let n = self.window.len() as int;
            let i = if n < back {
                0
            } else {
                n - back
            };
            (
                self.b,
                if i < n {
                    self.window[i]
                } else {
                    0
                },
            )
        } else {
            self.b.read8(self.d.wrapping_sub(back as u32))
        }
    }

    /// `n` bytes repeated from `back` behind, up to the announced size.
    pub open spec fn repeated(self, back: int, n: nat, size: u32, to_vram: bool, keep: bool) -> Unpack
        decreases n,
    {
        if n == 0 || self.written >= size {
            self
        } else {
            let (b, v) = self.behind(back, keep);
            (Unpack { b, ..self }).put(v, to_vram, keep).repeated(
                back,
                (n - 1) as nat,
                size,
                to_vram,
                keep,
            )
        }
    }

    /// One LZ77 token: a literal, or a two-byte reference.
    #[verifier::opaque]
    pub open spec fn token(self, reference: bool, size: u32, to_vram: bool, keep: bool) -> Unpack {
        if reference {
            let (u, b0) = self.get();
            let (u, b1) = u.get();
            let disp = (((b0 as u32) & 0xF) << 8) | (b1 as u32);
            u.repeated(disp + 1, (((b0 as u32) >> 4) + 3) as nat, size, to_vram, keep)
        } else {
            let (u, v) = self.get();
            u.put(v, to_vram, keep)
        }
    }

    /// The LZ77 stream from here: `bits` flags of `flags` are still to use,
    /// the highest first.
    pub open spec fn lz77(
        self,
        flags: u8,
        bits: u8,
        size: u32,
        to_vram: bool,
        keep: bool,
        fuel: nat,
    ) -> Unpack
        decreases fuel,
    {
        if self.written >= size || fuel == 0 {
            self
        } else {
            let (u, f, n) = if bits == 0 {
                let (u, f) = self.get();
                (u, f, 8u8)
            } else {
                (self, flags, bits)
            };
            u.token(f & (1u8 << ((n - 1) as u8)) != 0, size, to_vram, keep).lz77(
                f,
                (n - 1) as u8,
                size,
                to_vram,
                keep,
                (fuel - 1) as nat,
            )
        }
    }
}

fn put_byte(
    bus: &mut Bus,
    d: &mut u32,
    written: &mut u32,
    window: &mut Vec<u8>,
    v: u8,
    to_vram: bool,
    keep: bool,
    Ghost(s): Ghost<u32>,
)
    requires
        old(bus)@.wf(),
        *old(written) < 0x0100_0000,
    ensures
        (Unpack { b: final(bus)@, s, d: *final(d), written: *final(written), window: final(window)@ })
            == (Unpack { b: old(bus)@, s, d: *old(d), written: *old(written), window: old(window)@ }).put(
            v,
            to_vram,
            keep,
        ),
        *final(written) == *old(written) + 1,
        final(bus)@.wf(),
{
    reveal(Unpack::put);
    write_decomp(bus, *d, v, to_vram);
    *d = d.wrapping_add(1);
    *written = *written + 1;
    if keep {
        window.push(v);
    }
}

fn look_behind(bus: &mut Bus, d: u32, window: &Vec<u8>, back: u32, keep: bool, Ghost(u): Ghost<Unpack>) -> (v: u8)
    requires
        old(bus)@.wf(),
        1 <= back <= 0x1000,
        u.b == old(bus)@,
        u.d == d,
        u.window == window@,
    ensures
        (final(bus)@, v) == u.behind(back as int, keep),
        final(bus)@.wf(),
{
    reveal(Unpack::behind);
    if keep {
        let n: usize = window.len();
        let i: usize = if n < back as usize {
            0
        } else {
            n - back as usize
        };
        if i < n {
            window[i]
        } else {
            0
        }
    } else {
        bus.read8(d.wrapping_sub(back))
    }
}

fn repeat_bytes(
    bus: &mut Bus,
    d: &mut u32,
    written: &mut u32,
    window: &mut Vec<u8>,
    back: u32,
    n: u32,
    size: u32,
    to_vram: bool,
    keep: bool,
    Ghost(s): Ghost<u32>,
)
    requires
        old(bus)@.wf(),
        size < 0x0100_0000,
        1 <= back <= 0x1000,
        1 <= n,
        *old(written) < size,
    ensures
        (Unpack { b: final(bus)@, s, d: *final(d), written: *final(written), window: final(window)@ })
            == (Unpack { b: old(bus)@, s, d: *old(d), written: *old(written), window: old(window)@ }).repeated(
            back as int,
            n as nat,
            size,
            to_vram,
            keep,
        ),
        *old(written) < *final(written) <= size,
        final(bus)@.wf(),
{
    let ghost goal = (Unpack {
        b: old(bus)@,
        s,
        d: *old(d),
        written: *old(written),
        window: old(window)@,
    }).repeated(back as int, n as nat, size, to_vram, keep);
    let mut i: u32 = 0;
    while i < n && *written < size
        invariant
            i <= n,
            bus@.wf(),
            size < 0x0100_0000,
            1 <= back <= 0x1000,
            1 <= n,
            *old(written) < size,
            *old(written) <= *written <= size,
            i > 0 ==> *old(written) < *written,
            (Unpack { b: bus@, s, d: *d, written: *written, window: window@ }).repeated(
                back as int,
                (n - i) as nat,
                size,
                to_vram,
                keep,
            ) == goal,
        decreases n - i,
    {
        let ghost u = Unpack { b: bus@, s, d: *d, written: *written, window: window@ };
        let v: u8 = look_behind(bus, *d, window, back, keep, Ghost(u));
        put_byte(bus, d, written, window, v, to_vram, keep, Ghost(s));
        i += 1;
    }
}

fn lz77_token(
    bus: &mut Bus,
    s: &mut u32,
    d: &mut u32,
    written: &mut u32,
    window: &mut Vec<u8>,
    reference: bool,
    size: u32,
    to_vram: bool,
    keep: bool,
)
    requires
        old(bus)@.wf(),
        size < 0x0100_0000,
        *old(written) < size,
    ensures
        (Unpack {
            b: final(bus)@,
            s: *final(s),
            d: *final(d),
            written: *final(written),
            window: final(window)@,
        }) == (Unpack {
            b: old(bus)@,
            s: *old(s),
            d: *old(d),
            written: *old(written),
            window: old(window)@,
        }).token(reference, size, to_vram, keep),
        *old(written) < *final(written) <= size,
        final(bus)@.wf(),
{
    reveal(Unpack::token);
    if reference {
        let b0: u32 = bus.read8(*s) as u32;
        *s = s.wrapping_add(1);
        let b1: u32 = bus.read8(*s) as u32;
        *s = s.wrapping_add(1);
        proof {
            lemma_token(b0, b1);
        }
        let disp: u32 = ((b0 & 0xF) << 8) | b1;
        let n: u32 = (b0 >> 4) + 3;
        repeat_bytes(bus, d, written, window, disp + 1, n, size, to_vram, keep, Ghost(*s));
    } else {
        let v: u8 = bus.read8(*s);
        *s = s.wrapping_add(1);
        put_byte(bus, d, written, window, v, to_vram, keep, Ghost(*s));
    }
}

proof fn lemma_token(b0: u32, b1: u32)
    requires
        b0 < 256,
        b1 < 256,
    ensures
        ((b0 & 0xF) << 8) | b1 < 0x1000,
        b0 >> 4 < 16,
{
    assert(((b0 & 0xF) << 8) | b1 < 0x1000 && b0 >> 4 < 16) by (bit_vector)
        requires
            b0 < 256,
            b1 < 256,
    ;
}

/// LZ77UnComp. The VRAM variant aligns its destination and leaves notes; a
/// destination in VRAM looks behind in a window of its own.
#[verifier::opaque]
pub open spec fn lz77_done(c: Cpu, b: BusModel, to_vram: bool) -> BusModel {
    let (s, header) = b.read32(c.r[0]);
    let size = header >> 8;
    let dst = c.r[1];
    if size == 0 {
        s
    } else {
        let t = if to_vram {
            let off = dst & 0x1_FFFF;
            BusModel {
                last_lz77v_dst: dst,
                last_lz77v_size: size,
                last_lz77v_to_0600: if 0x500 <= off < 0x2000 {
                    s.last_lz77v_to_0600.wrapping_add(1)
                } else {
                    s.last_lz77v_to_0600
                },
                ..s
            }
        } else {
            s
        };
        (Unpack {
            b: t,
            s: c.r[0].wrapping_add(4),
            d: if to_vram {
                dst & !1u32
            } else {
                dst
            },
            written: 0,
            window: Seq::empty(),
        }).lz77(0, 0, size, to_vram, to_vram || dst >> 24 == 0x06, size as nat).b
    }
}

pub fn lz77_uncomp(cpu: &Cpu, bus: &mut Bus, to_vram: bool)
    requires
        old(bus)@.wf(),
    ensures
        final(bus)@ == lz77_done(*cpu, old(bus)@, to_vram),
        final(bus)@.wf(),
{
    reveal(lz77_done);
    let src: u32 = cpu.r[0];
    let dst: u32 = cpu.r[1];
    let header: u32 = bus.read32(src);
    let size: u32 = header >> 8;
    proof {
        lemma_size(header);
    }
    if size == 0 {
        return;
    }
    if to_vram {
        let off: u32 = dst & 0x1_FFFF;
        bus.note_lz77(dst, size, 0x500 <= off && off < 0x2000);
    }
    let mut s: u32 = src.wrapping_add(4);
    let mut d: u32 = if to_vram {
        dst & !1
    } else {
        dst
    };
    let mut written: u32 = 0;
    // VRAM is 16-bit only: look-behind goes through a side buffer.
    let keep: bool = to_vram || dst >> 24 == 0x06;
    let mut window: Vec<u8> = Vec::new();
    let mut flags: u8 = 0;
    let mut bits: u8 = 0;
    let ghost goal = (Unpack { b: bus@, s, d, written, window: window@ }).lz77(
        0,
        0,
        size,
        to_vram,
        keep,
        size as nat,
    );
    let ghost mut fuel: nat = size as nat;
    while written < size
        invariant
            bus@.wf(),
            size < 0x0100_0000,
            written <= size,
            bits <= 8,
            fuel + written >= size,
            (Unpack { b: bus@, s, d, written, window: window@ }).lz77(
                flags,
                bits,
                size,
                to_vram,
                keep,
                fuel,
            ) == goal,
        decreases size - written,
    {
        if bits == 0 {
            flags = bus.read8(s);
            s = s.wrapping_add(1);
            bits = 8;
        }
        lz77_token(
            bus,
            &mut s,
            &mut d,
            &mut written,
            &mut window,
            flags & (1u8 << (bits - 1)) != 0,
            size,
            to_vram,
            keep,
        );
        bits = bits - 1;
        proof {
            fuel = (fuel - 1) as nat;
        }
    }
}

pub proof fn lemma_size(header: u32)
    ensures
        header >> 8 < 0x0100_0000,
{
    vstd::bits::lemma_u32_shr_is_div(header, 8);
    vstd::arithmetic::power2::lemma2_to64();
}

} // verus!
