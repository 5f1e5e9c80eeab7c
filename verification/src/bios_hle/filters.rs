//! Run length, Huffman, bit unpacking and difference filters.

use crate::bits::{lemma_low_bits, lemma_one_bit};
use crate::bios_hle::decomp::{byte_out, lemma_size, write_decomp};
use crate::bus::model::BusModel;
use crate::bus::Bus;
use crate::cpu::Cpu;
use vstd::prelude::*;

verus! {

/// Bus, source, destination and bytes written.
pub struct Flow {
    pub b: BusModel,
    pub s: u32,
    pub d: u32,
    pub written: u32,
}

impl Flow {
    pub open spec fn get(self) -> (Flow, u8) {
        let (b, v) = self.b.read8(self.s);
        (Flow { b, s: self.s.wrapping_add(1), ..self }, v)
    }

    pub open spec fn put(self, v: u8, to_vram: bool) -> Flow {
        Flow {
            b: byte_out(self.b, self.d, v, to_vram),
            d: self.d.wrapping_add(1),
            written: (self.written + 1) as u32,
            ..self
        }
    }

    /// `n` bytes, all `v` or each read in turn, up to the announced size.
    pub open spec fn run(self, fill: bool, v: u8, n: nat, size: u32, to_vram: bool) -> Flow
        decreases n,
    {
        if n == 0 || self.written >= size {
            self
        } else {
            let (f, x) = if fill {
                (self, v)
            } else {
                self.get()
            };
            f.put(x, to_vram).run(fill, v, (n - 1) as nat, size, to_vram)
        }
    }

    /// One run-length block: a flag, then a repeated byte or literal bytes.
    #[verifier::opaque]
    pub open spec fn block(self, size: u32, to_vram: bool) -> Flow {
        let (f, flag) = self.get();
        if flag & 0x80 != 0 {
            let (g, v) = f.get();
            g.run(true, v, ((flag & 0x7F) + 3) as nat, size, to_vram)
        } else {
            f.run(false, 0, ((flag & 0x7F) + 1) as nat, size, to_vram)
        }
    }

    pub open spec fn blocks(self, size: u32, to_vram: bool, fuel: nat) -> Flow
        decreases fuel,
    {
        if self.written >= size || fuel == 0 {
            self
        } else {
            self.block(size, to_vram).blocks(size, to_vram, (fuel - 1) as nat)
        }
    }
}

fn run_bytes(
    bus: &mut Bus,
    s: &mut u32,
    d: &mut u32,
    written: &mut u32,
    fill: bool,
    v: u8,
    n: u32,
    size: u32,
    to_vram: bool,
)
    requires
        old(bus)@.wf(),
        size < 0x0100_0000,
        *old(written) < size,
        1 <= n,
    ensures
        (Flow { b: final(bus)@, s: *final(s), d: *final(d), written: *final(written) }) == (Flow {
            b: old(bus)@,
            s: *old(s),
            d: *old(d),
            written: *old(written),
        }).run(fill, v, n as nat, size, to_vram),
        *old(written) < *final(written) <= size,
        final(bus)@.wf(),
{
    let ghost goal = (Flow { b: bus@, s: *s, d: *d, written: *written }).run(
        fill,
        v,
        n as nat,
        size,
        to_vram,
    );
    let mut i: u32 = 0;
    while i < n && *written < size
        invariant
            i <= n,
            1 <= n,
            bus@.wf(),
            size < 0x0100_0000,
            *old(written) < size,
            *old(written) <= *written <= size,
            i > 0 ==> *old(written) < *written,
            (Flow { b: bus@, s: *s, d: *d, written: *written }).run(
                fill,
                v,
                (n - i) as nat,
                size,
                to_vram,
            ) == goal,
        decreases n - i,
    {
        let x: u8 = if fill {
            v
        } else {
            let x: u8 = bus.read8(*s);
            *s = s.wrapping_add(1);
            x
        };
        write_decomp(bus, *d, x, to_vram);
        *d = d.wrapping_add(1);
        *written = *written + 1;
        i += 1;
    }
}

fn rl_block(bus: &mut Bus, s: &mut u32, d: &mut u32, written: &mut u32, size: u32, to_vram: bool)
    requires
        old(bus)@.wf(),
        size < 0x0100_0000,
        *old(written) < size,
    ensures
        (Flow { b: final(bus)@, s: *final(s), d: *final(d), written: *final(written) }) == (Flow {
            b: old(bus)@,
            s: *old(s),
            d: *old(d),
            written: *old(written),
        }).block(size, to_vram),
        *old(written) < *final(written) <= size,
        final(bus)@.wf(),
{
    reveal(Flow::block);
    let flag: u8 = bus.read8(*s);
    *s = s.wrapping_add(1);
    let low: u8 = flag & 0x7F;
    if flag & 0x80 != 0 {
        let v: u8 = bus.read8(*s);
        *s = s.wrapping_add(1);
        run_bytes(bus, s, d, written, true, v, low as u32 + 3, size, to_vram);
    } else {
        run_bytes(bus, s, d, written, false, 0, low as u32 + 1, size, to_vram);
    }
}

/// RLUnComp.
#[verifier::opaque]
pub open spec fn rl_done(c: Cpu, b: BusModel, to_vram: bool) -> BusModel {
    let (s, header) = b.read32(c.r[0]);
    (Flow { b: s, s: c.r[0].wrapping_add(4), d: c.r[1], written: 0 }).blocks(
        header >> 8,
        to_vram,
        (header >> 8) as nat,
    ).b
}

pub fn rl_uncomp(cpu: &Cpu, bus: &mut Bus, to_vram: bool)
    requires
        old(bus)@.wf(),
    ensures
        final(bus)@ == rl_done(*cpu, old(bus)@, to_vram),
        final(bus)@.wf(),
{
    reveal(rl_done);
    let src: u32 = cpu.r[0];
    let header: u32 = bus.read32(src);
    let size: u32 = header >> 8;
    proof {
        lemma_size(header);
    }
    let mut s: u32 = src.wrapping_add(4);
    let mut d: u32 = cpu.r[1];
    let mut written: u32 = 0;
    let ghost goal = (Flow { b: bus@, s, d, written }).blocks(size, to_vram, size as nat);
    let ghost mut fuel: nat = size as nat;
    while written < size
        invariant
            bus@.wf(),
            size < 0x0100_0000,
            written <= size,
            fuel + written >= size,
            (Flow { b: bus@, s, d, written }).blocks(size, to_vram, fuel) == goal,
        decreases size - written,
    {
        rl_block(bus, &mut s, &mut d, &mut written, size, to_vram);
        proof {
            fuel = (fuel - 1) as nat;
        }
    }
}

// ---- Huffman ------------------------------------------------------------

/// The bit stream of a Huffman block.
pub struct HuffBits {
    pub b: BusModel,
    pub s: u32,
    pub buf: u32,
    pub left: u32,
}

impl HuffBits {
    /// The next bit, highest first in each word.
    #[verifier::opaque]
    pub open spec fn next(self) -> (HuffBits, u32) {
        let h = if self.left == 0 {
            let (b, w) = self.b.read32(self.s);
            HuffBits { b, s: self.s.wrapping_add(4), buf: w, left: 32 }
        } else {
            self
        };
        let left = (h.left - 1) as u32;
        (HuffBits { left, ..h }, (h.buf >> left) & 1)
    }

    /// Down the tree from `node` until a leaf, at most `fuel` steps.
    pub open spec fn walk(self, base: u32, node: u32, fuel: nat) -> (HuffBits, Option<u8>)
        decreases fuel,
    {
        if fuel == 0 {
            (self, None)
        } else {
            let (b, v) = self.b.read8(base.wrapping_add(node));
            let (h, bit) = (HuffBits { b, ..self }).next();
            let at = node.wrapping_add(((((v & 0x3F) + 1) * 2) as u32)).wrapping_add(bit);
            let leaf = if bit == 0 {
                v & 0x80 != 0
            } else {
                v & 0x40 != 0
            };
            if leaf {
                let (c, symbol) = h.b.read8(base.wrapping_add(at));
                (HuffBits { b: c, ..h }, Some(symbol))
            } else {
                h.walk(base, at, (fuel - 1) as nat)
            }
        }
    }
}

/// Where the symbols go: two nibbles make a byte, high one first.
#[derive(Clone, Copy)]
pub struct HuffOut {
    pub d: u32,
    pub written: u32,
    pub high_next: bool,
    pub byte: u8,
}

/// One symbol out: the bytes to store, if any, and the new state.
#[verifier::opaque]
pub open spec fn symbol_out(b: BusModel, o: HuffOut, symbol: u8, nibbles: bool) -> (BusModel, HuffOut) {
    if nibbles && o.high_next {
        (b, HuffOut { byte: symbol << 4, high_next: false, ..o })
    } else {
        let v = if nibbles {
            o.byte | (symbol & 0xF)
        } else {
            symbol
        };
        (
            b.write8(o.d, v),
            HuffOut {
                d: o.d.wrapping_add(1),
                written: (o.written + 1) as u32,
                high_next: true,
                byte: v,
            },
        )
    }
}

/// `n` symbols at most, until the announced size is written.
pub open spec fn symbols(
    h: HuffBits,
    o: HuffOut,
    base: u32,
    nibbles: bool,
    size: u32,
    n: nat,
) -> (HuffBits, HuffOut)
    decreases n,
{
    if n == 0 || o.written >= size {
        (h, o)
    } else {
        let (g, s) = h.walk(base, 0, 64);
        match s {
            Some(symbol) => {
                let (b, p) = symbol_out(g.b, o, symbol, nibbles);
                symbols(HuffBits { b, ..g }, p, base, nibbles, size, (n - 1) as nat)
            },
            None => symbols(g, o, base, nibbles, size, (n - 1) as nat),
        }
    }
}

/// HuffUnComp: a header, the tree, then the bit stream.
#[verifier::opaque]
pub open spec fn huff_done(c: Cpu, b: BusModel) -> BusModel {
    let src = c.r[0];
    let (s, header) = b.read32(src);
    let bits = header & 0xF;
    let size = header >> 8;
    if size == 0 || (bits != 4 && bits != 8) {
        s
    } else {
        let (s, t) = s.read8(src.wrapping_add(4));
        let data = src.wrapping_add(4).wrapping_add(((t + 1) * 2) as u32);
        let data = if data & 1 != 0 {
            data.wrapping_add(1)
        } else {
            data
        };
        symbols(
            HuffBits { b: s, s: data, buf: 0, left: 0 },
            HuffOut { d: c.r[1], written: 0, high_next: true, byte: 0 },
            src.wrapping_add(5),
            bits == 4,
            size,
            if bits == 4 {
                (size * 2) as nat
            } else {
                size as nat
            },
        ).0.b
    }
}

fn next_bit(bus: &mut Bus, s: &mut u32, buf: &mut u32, left: &mut u32) -> (bit: u32)
    requires
        old(bus)@.wf(),
        *old(left) <= 32,
    ensures
        ((HuffBits { b: final(bus)@, s: *final(s), buf: *final(buf), left: *final(left) }), bit)
            == (HuffBits { b: old(bus)@, s: *old(s), buf: *old(buf), left: *old(left) }).next(),
        *final(left) < 32,
        bit <= 1,
        final(bus)@.wf(),
{
    reveal(HuffBits::next);
    if *left == 0 {
        *buf = bus.read32(*s);
        *s = s.wrapping_add(4);
        *left = 32;
    }
    *left = *left - 1;
    let v: u32 = *buf >> *left;
    proof {
        lemma_low_bits(v);
    }
    v & 1
}

fn walk_tree(bus: &mut Bus, s: &mut u32, buf: &mut u32, left: &mut u32, base: u32) -> (symbol: Option<u8>)
    requires
        old(bus)@.wf(),
        *old(left) <= 32,
    ensures
        ((HuffBits { b: final(bus)@, s: *final(s), buf: *final(buf), left: *final(left) }), symbol)
            == (HuffBits { b: old(bus)@, s: *old(s), buf: *old(buf), left: *old(left) }).walk(
            base,
            0,
            64,
        ),
        *final(left) <= 32,
        final(bus)@.wf(),
{
    let ghost goal = (HuffBits { b: bus@, s: *s, buf: *buf, left: *left }).walk(base, 0, 64);
    let mut node: u32 = 0;
    let mut i: u32 = 0;
    while i < 64
        invariant
            i <= 64,
            bus@.wf(),
            *left <= 32,
            goal == (HuffBits { b: old(bus)@, s: *old(s), buf: *old(buf), left: *old(left) }).walk(
                base,
                0,
                64,
            ),
            (HuffBits { b: bus@, s: *s, buf: *buf, left: *left }).walk(base, node, (64 - i) as nat)
                == goal,
        decreases 64 - i,
    {
        let v: u8 = bus.read8(base.wrapping_add(node));
        let bit: u32 = next_bit(bus, s, buf, left);
        let low: u8 = v & 0x3F;
        let at: u32 = node.wrapping_add((low as u32 + 1) * 2).wrapping_add(bit);
        let leaf: bool = if bit == 0 {
            v & 0x80 != 0
        } else {
            v & 0x40 != 0
        };
        if leaf {
            let symbol: u8 = bus.read8(base.wrapping_add(at));
            return Some(symbol);
        }
        node = at;
        i += 1;
    }
    None
}

fn put_symbol(bus: &mut Bus, o: HuffOut, symbol: u8, nibbles: bool) -> (p: HuffOut)
    requires
        old(bus)@.wf(),
        o.written < 0x0100_0000,
    ensures
        (final(bus)@, p) == symbol_out(old(bus)@, o, symbol, nibbles),
        o.written <= p.written <= o.written + 1,
        final(bus)@.wf(),
{
    reveal(symbol_out);
    if nibbles && o.high_next {
        HuffOut { d: o.d, written: o.written, byte: symbol << 4, high_next: false }
    } else {
        let v: u8 = if nibbles {
            o.byte | (symbol & 0xF)
        } else {
            symbol
        };
        bus.write8(o.d, v);
        HuffOut { d: o.d.wrapping_add(1), written: o.written + 1, high_next: true, byte: v }
    }
}

fn put_symbols(bus: &mut Bus, data: u32, dst: u32, base: u32, nibbles: bool, size: u32, n: u32)
    requires
        old(bus)@.wf(),
        size < 0x0100_0000,
    ensures
        final(bus)@ == symbols(
            HuffBits { b: old(bus)@, s: data, buf: 0, left: 0 },
            HuffOut { d: dst, written: 0, high_next: true, byte: 0 },
            base,
            nibbles,
            size,
            n as nat,
        ).0.b,
        final(bus)@.wf(),
{
    let mut s: u32 = data;
    let mut buf: u32 = 0;
    let mut left: u32 = 0;
    let mut o = HuffOut { d: dst, written: 0, high_next: true, byte: 0 };
    let ghost goal = symbols(
        HuffBits { b: bus@, s, buf, left },
        o,
        base,
        nibbles,
        size,
        n as nat,
    );
    let mut i: u32 = 0;
    while i < n && o.written < size
        invariant
            i <= n,
            bus@.wf(),
            left <= 32,
            size < 0x0100_0000,
            o.written <= size,
            symbols(HuffBits { b: bus@, s, buf, left }, o, base, nibbles, size, (n - i) as nat)
                == goal,
        decreases n - i,
    {
        match walk_tree(bus, &mut s, &mut buf, &mut left, base) {
            Some(symbol) => {
                o = put_symbol(bus, o, symbol, nibbles);
            },
            None => {},
        }
        i += 1;
    }
}

/// Huffman decompression.
pub fn huff_uncomp(cpu: &Cpu, bus: &mut Bus)
    requires
        old(bus)@.wf(),
    ensures
        final(bus)@ == huff_done(*cpu, old(bus)@),
        final(bus)@.wf(),
{
    reveal(huff_done);
    let src: u32 = cpu.r[0];
    let header: u32 = bus.read32(src);
    let bits: u32 = header & 0xF;
    let size: u32 = header >> 8;
    proof {
        lemma_size(header);
    }
    if size == 0 || (bits != 4 && bits != 8) {
        return;
    }
    let tree: u32 = (bus.read8(src.wrapping_add(4)) as u32 + 1) * 2;
    let mut data: u32 = src.wrapping_add(4).wrapping_add(tree);
    if data & 1 != 0 {
        data = data.wrapping_add(1);
    }
    let n: u32 = if bits == 4 {
        size * 2
    } else {
        size
    };
    put_symbols(bus, data, cpu.r[1], src.wrapping_add(5), bits == 4, size, n);
}

// ---- BitUnPack ----------------------------------------------------------

pub open spec fn width_mask(w: u32) -> u32 {
    if w >= 32 {
        0xFFFF_FFFF
    } else {
        ((1u32 << w) - 1) as u32
    }
}

fn mask_of(w: u32) -> (r: u32)
    ensures
        r == width_mask(w),
{
    if w >= 32 {
        0xFFFF_FFFF
    } else {
        proof {
            lemma_one_bit(w);
        }
        (1u32 << w) - 1
    }
}

/// Bits coming in and going out.
pub struct BitFlow {
    pub b: BusModel,
    pub s: u32,
    pub d: u32,
    pub inbuf: u32,
    pub incnt: u32,
    pub outbuf: u32,
    pub outcnt: u32,
}

impl BitFlow {
    /// Source bytes until a whole unit is there.
    pub open spec fn filled(self, width: u32) -> BitFlow
        decreases 40 - self.incnt,
    {
        if self.incnt >= width || self.incnt >= 32 {
            self
        } else {
            let (b, v) = self.b.read8(self.s);
            (BitFlow {
                b,
                s: self.s.wrapping_add(1),
                inbuf: self.inbuf | ((v as u32) << self.incnt),
                incnt: (self.incnt + 8) as u32,
                ..self
            }).filled(width)
        }
    }

    /// Whole destination bytes written out.
    pub open spec fn drained(self) -> BitFlow
        decreases self.outcnt,
    {
        if self.outcnt < 8 {
            self
        } else {
            (BitFlow {
                b: byte_out(self.b, self.d, (self.outbuf & 0xFF) as u8, self.d >> 24 == 0x06),
                d: self.d.wrapping_add(1),
                outbuf: self.outbuf >> 8,
                outcnt: (self.outcnt - 8) as u32,
                ..self
            }).drained()
        }
    }

    /// One unit: taken lowest bits first, offset added unless it is a zero
    /// that stays zero, then packed at the destination width.
    #[verifier::opaque]
    pub open spec fn unit(self, from: u32, to: u32, offset: u32, zero_too: bool) -> BitFlow {
        let f = self.filled(from);
        let u = f.inbuf & width_mask(from);
        let v = if u != 0 || zero_too {
            u.wrapping_add(offset)
        } else {
            u
        };
        (BitFlow {
            inbuf: if from >= 32 {
                0
            } else {
                f.inbuf >> from
            },
            incnt: (f.incnt - from) as u32,
            outbuf: f.outbuf | ((v & width_mask(to)) << f.outcnt),
            outcnt: (f.outcnt + to) as u32,
            ..f
        }).drained()
    }

    pub open spec fn units(self, from: u32, to: u32, offset: u32, zero_too: bool, n: nat) -> BitFlow
        decreases n,
    {
        if n == 0 {
            self
        } else {
            self.units(from, to, offset, zero_too, (n - 1) as nat).unit(from, to, offset, zero_too)
        }
    }
}

pub open spec fn at_least_1(v: u8) -> u32 {
    if v < 1 {
        1
    } else {
        v as u32
    }
}

/// BitUnPack: widths and offset come from the info block in R2.
#[verifier::opaque]
pub open spec fn unpack_done(c: Cpu, b: BusModel) -> BusModel {
    let info = c.r[2];
    let (s, len) = b.read16(info);
    let (s, from) = s.read8(info.wrapping_add(2));
    let (s, to) = s.read8(info.wrapping_add(3));
    let (s, data) = s.read32(info.wrapping_add(4));
    if at_least_1(from) > 32 || at_least_1(to) > 32 || len == 0 {
        s
    } else {
        let f = (BitFlow {
            b: s,
            s: c.r[0],
            d: c.r[1],
            inbuf: 0,
            incnt: 0,
            outbuf: 0,
            outcnt: 0,
        }).units(
            at_least_1(from),
            at_least_1(to),
            data & 0x7FFF_FFFF,
            data & 0x8000_0000 != 0,
            ((len * 8) / (at_least_1(from) as int)) as nat,
        );
        if f.outcnt > 0 {
            byte_out(f.b, f.d, (f.outbuf & 0xFF) as u8, f.d >> 24 == 0x06)
        } else {
            f.b
        }
    }
}

struct BitState {
    s: u32,
    d: u32,
    inbuf: u32,
    incnt: u32,
    outbuf: u32,
    outcnt: u32,
}

impl BitState {
    spec fn with(self, b: BusModel) -> BitFlow {
        BitFlow {
            b,
            s: self.s,
            d: self.d,
            inbuf: self.inbuf,
            incnt: self.incnt,
            outbuf: self.outbuf,
            outcnt: self.outcnt,
        }
    }

    fn fill(&mut self, bus: &mut Bus, width: u32)
        requires
            old(bus)@.wf(),
            1 <= width <= 32,
            old(self).incnt <= 39,
        ensures
            final(self).with(final(bus)@) == old(self).with(old(bus)@).filled(width),
            width <= final(self).incnt <= 39,
            final(self).outcnt == old(self).outcnt,
            final(bus)@.wf(),
    {
        let ghost goal = self.with(bus@).filled(width);
        while self.incnt < width
            invariant
                bus@.wf(),
                1 <= width <= 32,
                self.incnt <= 39,
                self.outcnt == old(self).outcnt,
                self.with(bus@).filled(width) == goal,
            decreases 40 - self.incnt,
        {
            let v: u8 = bus.read8(self.s);
            self.inbuf = self.inbuf | ((v as u32) << self.incnt);
            self.s = self.s.wrapping_add(1);
            self.incnt = self.incnt + 8;
        }
    }

    fn drain(&mut self, bus: &mut Bus)
        requires
            old(bus)@.wf(),
            old(self).outcnt <= 39,
        ensures
            final(self).with(final(bus)@) == old(self).with(old(bus)@).drained(),
            final(self).outcnt < 8,
            final(self).incnt == old(self).incnt,
            final(bus)@.wf(),
    {
        let ghost goal = self.with(bus@).drained();
        while self.outcnt >= 8
            invariant
                bus@.wf(),
                self.incnt == old(self).incnt,
                self.with(bus@).drained() == goal,
            decreases self.outcnt,
        {
            write_decomp(bus, self.d, (self.outbuf & 0xFF) as u8, self.d >> 24 == 0x06);
            self.d = self.d.wrapping_add(1);
            self.outbuf = self.outbuf >> 8;
            self.outcnt = self.outcnt - 8;
        }
    }

    fn step(&mut self, bus: &mut Bus, from: u32, to: u32, offset: u32, zero_too: bool)
        requires
            old(bus)@.wf(),
            1 <= from <= 32,
            1 <= to <= 32,
            old(self).incnt <= 39,
            old(self).outcnt < 8,
        ensures
            final(self).with(final(bus)@) == old(self).with(old(bus)@).unit(
                from,
                to,
                offset,
                zero_too,
            ),
            final(self).incnt <= 39,
            final(self).outcnt < 8,
            final(bus)@.wf(),
    {
        reveal(BitFlow::unit);
        self.fill(bus, from);
        let mut u: u32 = self.inbuf & mask_of(from);
        self.inbuf = if from >= 32 {
            0
        } else {
            self.inbuf >> from
        };
        self.incnt = self.incnt - from;
        if u != 0 || zero_too {
            u = u.wrapping_add(offset);
        }
        self.outbuf = self.outbuf | ((u & mask_of(to)) << self.outcnt);
        self.outcnt = self.outcnt + to;
        self.drain(bus);
    }
}

/// Expands packed source bits into destination units.
pub fn bit_unpack(cpu: &Cpu, bus: &mut Bus)
    requires
        old(bus)@.wf(),
    ensures
        final(bus)@ == unpack_done(*cpu, old(bus)@),
        final(bus)@.wf(),
{
    reveal(unpack_done);
    let info: u32 = cpu.r[2];
    let len: u16 = bus.read16(info);
    let from8: u8 = bus.read8(info.wrapping_add(2));
    let to8: u8 = bus.read8(info.wrapping_add(3));
    let data: u32 = bus.read32(info.wrapping_add(4));
    let from: u32 = if from8 < 1 {
        1
    } else {
        from8 as u32
    };
    let to: u32 = if to8 < 1 {
        1
    } else {
        to8 as u32
    };
    if from > 32 || to > 32 || len == 0 {
        return;
    }
    let offset: u32 = data & 0x7FFF_FFFF;
    let zero_too: bool = data & 0x8000_0000 != 0;
    let mut st = BitState { s: cpu.r[0], d: cpu.r[1], inbuf: 0, incnt: 0, outbuf: 0, outcnt: 0 };
    let ghost start = st.with(bus@);
    let n: u32 = (len as u32 * 8) / from;
    let mut i: u32 = 0;
    while i < n
        invariant
            i <= n,
            bus@.wf(),
            1 <= from <= 32,
            1 <= to <= 32,
            st.incnt <= 39,
            st.outcnt < 8,
            st.with(bus@) == start.units(from, to, offset, zero_too, i as nat),
        decreases n - i,
    {
        st.step(bus, from, to, offset, zero_too);
        i += 1;
    }
    if st.outcnt > 0 {
        write_decomp(bus, st.d, (st.outbuf & 0xFF) as u8, st.d >> 24 == 0x06);
    }
}

// ---- difference filters -------------------------------------------------

/// `n` bytes, each the sum of the deltas so far.
pub open spec fn sums8(b: BusModel, s: u32, d: u32, to_vram: bool, n: nat) -> (BusModel, u8)
    decreases n,
{
    if n == 0 {
        (b, 0)
    } else {
        let k = (n - 1) as nat;
        let (t, acc) = sums8(b, s, d, to_vram, k);
        let (u, delta) = t.read8(s.wrapping_add(k as u32));
        let v = acc.wrapping_add(delta);
        (byte_out(u, d.wrapping_add(k as u32), v, to_vram), v)
    }
}

pub open spec fn diff8_done(c: Cpu, b: BusModel, to_vram: bool) -> BusModel {
    let (s, header) = b.read32(c.r[0]);
    sums8(s, c.r[0].wrapping_add(4), c.r[1], to_vram, (header >> 8) as nat).0
}

pub fn diff8_unfilter(cpu: &Cpu, bus: &mut Bus, to_vram: bool)
    requires
        old(bus)@.wf(),
    ensures
        final(bus)@ == diff8_done(*cpu, old(bus)@, to_vram),
        final(bus)@.wf(),
{
    let src: u32 = cpu.r[0];
    let header: u32 = bus.read32(src);
    let size: u32 = header >> 8;
    let s: u32 = src.wrapping_add(4);
    let d: u32 = cpu.r[1];
    let ghost b0 = bus@;
    let mut acc: u8 = 0;
    let mut i: u32 = 0;
    while i < size
        invariant
            i <= size,
            bus@.wf(),
            (bus@, acc) == sums8(b0, s, d, to_vram, i as nat),
        decreases size - i,
    {
        let delta: u8 = bus.read8(s.wrapping_add(i));
        acc = acc.wrapping_add(delta);
        write_decomp(bus, d.wrapping_add(i), acc, to_vram);
        i += 1;
    }
}

/// `n` halfwords, each the sum of the deltas so far.
pub open spec fn sums16(b: BusModel, s: u32, d: u32, n: nat) -> (BusModel, u16)
    decreases n,
{
    if n == 0 {
        (b, 0)
    } else {
        let k = (n - 1) as nat;
        let (t, acc) = sums16(b, s, d, k);
        let (u, delta) = t.read16(s.wrapping_add((2 * k) as u32));
        let v = acc.wrapping_add(delta);
        (u.write16(d.wrapping_add((2 * k) as u32), v), v)
    }
}

pub open spec fn diff16_done(c: Cpu, b: BusModel) -> BusModel {
    let (s, header) = b.read32(c.r[0]);
    sums16(s, c.r[0].wrapping_add(4), c.r[1] & !1u32, ((header >> 8) / 2) as nat).0
}

pub fn diff16_unfilter(cpu: &Cpu, bus: &mut Bus)
    requires
        old(bus)@.wf(),
    ensures
        final(bus)@ == diff16_done(*cpu, old(bus)@),
        final(bus)@.wf(),
{
    let src: u32 = cpu.r[0];
    let header: u32 = bus.read32(src);
    proof {
        lemma_size(header);
    }
    let words: u32 = (header >> 8) / 2;
    let s: u32 = src.wrapping_add(4);
    let d: u32 = cpu.r[1] & !1;
    let ghost b0 = bus@;
    let mut acc: u16 = 0;
    let mut i: u32 = 0;
    while i < words
        invariant
            i <= words,
            words < 0x0100_0000,
            bus@.wf(),
            (bus@, acc) == sums16(b0, s, d, i as nat),
        decreases words - i,
    {
        let delta: u16 = bus.read16(s.wrapping_add(2 * i));
        acc = acc.wrapping_add(delta);
        bus.write16(d.wrapping_add(2 * i), acc);
        i += 1;
    }
}

} // verus!
