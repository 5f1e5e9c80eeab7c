//! Little-endian scalars and length-prefixed blobs.

use crate::bits::{
    hi16, hi8, high_byte, high_half, le16, le32, lemma_le16_round_trip, lemma_le32_round_trip, lo16,
    lo8, low_byte, low_half, make16, make32,
};
use vstd::prelude::*;

verus! {

/// Why a savestate was refused.
#[derive(Clone, Copy, Debug, PartialEq, Eq, Structural)]
pub enum StateError {
    /// The magic is not one of ours.
    NotAState,
    /// The data ends inside a field.
    Truncated,
    /// A sound FIFO holds more than it can.
    FifoLength(u32),
}

// ---- writing ------------------------------------------------------------

pub open spec fn put8(o: Seq<u8>, v: u8) -> Seq<u8> {
    o.push(v)
}

pub open spec fn put_flag(o: Seq<u8>, b: bool) -> Seq<u8> {
    put8(o, if b { 1 } else { 0 })
}

#[verifier::opaque]
pub open spec fn put16(o: Seq<u8>, v: u16) -> Seq<u8> {
    o.push(lo8(v)).push(hi8(v))
}

#[verifier::opaque]
pub open spec fn put32(o: Seq<u8>, v: u32) -> Seq<u8> {
    o.push(lo8(lo16(v))).push(hi8(lo16(v))).push(lo8(hi16(v))).push(hi8(hi16(v)))
}

pub open spec fn put64(o: Seq<u8>, v: u64) -> Seq<u8> {
    put32(put32(o, v as u32), (v >> 32) as u32)
}

pub open spec fn put128(o: Seq<u8>, v: u128) -> Seq<u8> {
    put64(put64(o, v as u64), (v >> 64) as u64)
}

/// Bytes as they are.
#[verifier::opaque]
pub open spec fn put_raw(o: Seq<u8>, b: Seq<u8>) -> Seq<u8> {
    o + b
}

/// The length as a word, then the bytes.
pub open spec fn put_blob(o: Seq<u8>, b: Seq<u8>) -> Seq<u8> {
    put_raw(put32(o, b.len() as u32), b)
}

/// The first `n` halfwords.
pub open spec fn put_halves(o: Seq<u8>, h: Seq<u16>, n: nat) -> Seq<u8>
    decreases n,
{
    if n == 0 {
        o
    } else {
        put16(put_halves(o, h, (n - 1) as nat), h[n - 1])
    }
}

pub fn write8(out: &mut Vec<u8>, v: u8)
    ensures
        final(out)@ == put8(old(out)@, v),
{
    out.push(v);
}

pub fn write_flag(out: &mut Vec<u8>, b: bool)
    ensures
        final(out)@ == put_flag(old(out)@, b),
{
    out.push(if b { 1 } else { 0 });
}

pub fn write16(out: &mut Vec<u8>, v: u16)
    ensures
        final(out)@ == put16(old(out)@, v),
{
    reveal(put16);
    out.push(low_byte(v));
    out.push(high_byte(v));
}

pub fn write32(out: &mut Vec<u8>, v: u32)
    ensures
        final(out)@ == put32(old(out)@, v),
{
    reveal(put32);
    let lo: u16 = low_half(v);
    let hi: u16 = high_half(v);
    out.push(low_byte(lo));
    out.push(high_byte(lo));
    out.push(low_byte(hi));
    out.push(high_byte(hi));
}

pub fn write64(out: &mut Vec<u8>, v: u64)
    ensures
        final(out)@ == put64(old(out)@, v),
{
    write32(out, v as u32);
    write32(out, (v >> 32) as u32);
}

pub fn write128(out: &mut Vec<u8>, v: u128)
    ensures
        final(out)@ == put128(old(out)@, v),
{
    write64(out, v as u64);
    write64(out, (v >> 64) as u64);
}

pub fn write_raw(out: &mut Vec<u8>, b: &[u8])
    ensures
        final(out)@ == put_raw(old(out)@, b@),
{
    reveal(put_raw);
    let ghost o = out@;
    let mut i: usize = 0;
    while i < b.len()
        invariant
            i <= b@.len(),
            out@ == o + b@.take(i as int),
        decreases b@.len() - i,
    {
        out.push(b[i]);
        i += 1;
    }
    assert(b@.take(i as int) =~= b@);
}

pub fn write_blob(out: &mut Vec<u8>, b: &[u8])
    ensures
        final(out)@ == put_blob(old(out)@, b@),
{
    write32(out, b.len() as u32);
    write_raw(out, b);
}

pub fn write_halves(out: &mut Vec<u8>, h: &Vec<u16>)
    ensures
        final(out)@ == put_halves(old(out)@, h@, h@.len()),
{
    let ghost o = out@;
    let mut i: usize = 0;
    while i < h.len()
        invariant
            i <= h@.len(),
            out@ == put_halves(o, h@, i as nat),
        decreases h@.len() - i,
    {
        write16(out, h[i]);
        i += 1;
    }
}

// ---- reading ------------------------------------------------------------

/// Data, how much of it was read, and what stopped the reading. After a fault
/// nothing more is read and every field comes out zero or empty.
pub struct Source {
    pub data: Seq<u8>,
    pub pos: nat,
    pub fault: Option<StateError>,
}

/// Reading has come to `pos` without a fault.
pub open spec fn source(data: Seq<u8>, pos: nat) -> Source {
    Source { data, pos, fault: None }
}

impl Source {
    pub open spec fn has(self, n: int) -> bool {
        self.fault is None && self.pos + n <= self.data.len()
    }

    pub open spec fn failed(self, e: StateError) -> Source {
        Source { fault: if self.fault is None { Some(e) } else { self.fault }, ..self }
    }

    pub open spec fn past(self, n: nat) -> Source {
        if self.has(n as int) {
            Source { pos: self.pos + n, ..self }
        } else {
            self.failed(StateError::Truncated)
        }
    }

    pub open spec fn at(self, i: int) -> u8 {
        self.data[self.pos + i]
    }

    #[verifier::opaque]
    pub open spec fn u8(self) -> (Source, u8) {
        (self.past(1), if self.has(1) { self.at(0) } else { 0 })
    }

    pub open spec fn flag(self) -> (Source, bool) {
        (self.u8().0, self.u8().1 != 0)
    }

    #[verifier::opaque]
    pub open spec fn u16(self) -> (Source, u16) {
        (self.past(2), if self.has(2) { le16(self.at(0), self.at(1)) } else { 0 })
    }

    #[verifier::opaque]
    pub open spec fn u32(self) -> (Source, u32) {
        (
            self.past(4),
            if self.has(4) {
                le32(self.at(0), self.at(1), self.at(2), self.at(3))
            } else {
                0
            },
        )
    }

    pub open spec fn u64(self) -> (Source, u64) {
        let (s, lo) = self.u32();
        let (s, hi) = s.u32();
        (s, (lo as u64) | ((hi as u64) << 32))
    }

    pub open spec fn u128(self) -> (Source, u128) {
        let (s, lo) = self.u64();
        let (s, hi) = s.u64();
        (s, (lo as u128) | ((hi as u128) << 64))
    }

    #[verifier::opaque]
    pub open spec fn raw(self, n: nat) -> (Source, Seq<u8>) {
        (
            self.past(n),
            if self.has(n as int) {
                self.data.subrange(self.pos as int, (self.pos + n) as int)
            } else {
                Seq::empty()
            },
        )
    }

    pub open spec fn blob(self) -> (Source, Seq<u8>) {
        let (s, n) = self.u32();
        s.raw(n as nat)
    }

    pub open spec fn halves(self, n: nat) -> (Source, Seq<u16>)
        decreases n,
    {
        if n == 0 {
            (self, Seq::empty())
        } else {
            let (s, h) = self.halves((n - 1) as nat);
            let (s, v) = s.u16();
            (s, h.push(v))
        }
    }
}

pub struct Reader<'a> {
    pub data: &'a [u8],
    pub pos: usize,
    pub fault: Option<StateError>,
}

impl<'a> View for Reader<'a> {
    type V = Source;

    open spec fn view(&self) -> Source {
        Source { data: self.data@, pos: self.pos as nat, fault: self.fault }
    }
}

impl<'a> Reader<'a> {
    pub fn new(data: &'a [u8]) -> (r: Self)
        ensures
            r@ == source(data@, 0),
    {
        Reader { data, pos: 0, fault: None }
    }

    fn has(&self, n: usize) -> (r: bool)
        requires
            self.pos <= self.data@.len(),
        ensures
            r == self@.has(n as int),
    {
        self.fault.is_none() && n <= self.data.len() - self.pos
    }

    pub fn fail(&mut self, e: StateError)
        ensures
            final(self)@ == old(self)@.failed(e),
            final(self).pos == old(self).pos,
            final(self).data == old(self).data,
    {
        if self.fault.is_none() {
            self.fault = Some(e);
        }
    }

    pub fn read8(&mut self) -> (v: u8)
        requires
            old(self).pos <= old(self).data@.len(),
        ensures
            (final(self)@, v) == old(self)@.u8(),
            final(self).pos <= final(self).data@.len(),
    {
        reveal(Source::u8);
        if self.has(1) {
            let v: u8 = self.data[self.pos];
            self.pos += 1;
            v
        } else {
            self.fail(StateError::Truncated);
            0
        }
    }

    pub fn read_flag(&mut self) -> (v: bool)
        requires
            old(self).pos <= old(self).data@.len(),
        ensures
            (final(self)@, v) == old(self)@.flag(),
            final(self).pos <= final(self).data@.len(),
    {
        self.read8() != 0
    }

    pub fn read16(&mut self) -> (v: u16)
        requires
            old(self).pos <= old(self).data@.len(),
        ensures
            (final(self)@, v) == old(self)@.u16(),
            final(self).pos <= final(self).data@.len(),
    {
        reveal(Source::u16);
        if self.has(2) {
            let p: usize = self.pos;
            let v: u16 = make16(self.data[p], self.data[p + 1]);
            self.pos = p + 2;
            v
        } else {
            self.fail(StateError::Truncated);
            0
        }
    }

    pub fn read32(&mut self) -> (v: u32)
        requires
            old(self).pos <= old(self).data@.len(),
        ensures
            (final(self)@, v) == old(self)@.u32(),
            final(self).pos <= final(self).data@.len(),
    {
        reveal(Source::u32);
        if self.has(4) {
            let p: usize = self.pos;
            let v: u32 = make32(
                self.data[p],
                self.data[p + 1],
                self.data[p + 2],
                self.data[p + 3],
            );
            self.pos = p + 4;
            v
        } else {
            self.fail(StateError::Truncated);
            0
        }
    }

    pub fn read64(&mut self) -> (v: u64)
        requires
            old(self).pos <= old(self).data@.len(),
        ensures
            (final(self)@, v) == old(self)@.u64(),
            final(self).pos <= final(self).data@.len(),
    {
        let lo: u32 = self.read32();
        let hi: u32 = self.read32();
        (lo as u64) | ((hi as u64) << 32)
    }

    pub fn read128(&mut self) -> (v: u128)
        requires
            old(self).pos <= old(self).data@.len(),
        ensures
            (final(self)@, v) == old(self)@.u128(),
            final(self).pos <= final(self).data@.len(),
    {
        let lo: u64 = self.read64();
        let hi: u64 = self.read64();
        (lo as u128) | ((hi as u128) << 64)
    }

    pub fn read_raw(&mut self, n: usize) -> (v: Vec<u8>)
        requires
            old(self).pos <= old(self).data@.len(),
        ensures
            (final(self)@, v@) == old(self)@.raw(n as nat),
            final(self).pos <= final(self).data@.len(),
    {
        reveal(Source::raw);
        let mut v: Vec<u8> = Vec::new();
        if self.has(n) {
            let p: usize = self.pos;
            let end: usize = self.data.len();
            let mut i: usize = 0;
            while i < n
                invariant
                    i <= n,
                    p + n <= end == self.data@.len(),
                    v@ == self.data@.subrange(p as int, p + i),
                decreases n - i,
            {
                v.push(self.data[p + i]);
                i += 1;
            }
            self.pos = p + n;
        } else {
            self.fail(StateError::Truncated);
        }
        v
    }

    pub fn read_blob(&mut self) -> (v: Vec<u8>)
        requires
            old(self).pos <= old(self).data@.len(),
        ensures
            (final(self)@, v@) == old(self)@.blob(),
            final(self).pos <= final(self).data@.len(),
    {
        let n: u32 = self.read32();
        self.read_raw(n as usize)
    }

    pub fn read_halves(&mut self, n: usize) -> (v: Vec<u16>)
        requires
            old(self).pos <= old(self).data@.len(),
        ensures
            (final(self)@, v@) == old(self)@.halves(n as nat),
            final(self).pos <= final(self).data@.len(),
            v@.len() == n,
    {
        let ghost o = self@;
        let mut v: Vec<u16> = Vec::new();
        let mut i: usize = 0;
        while i < n
            invariant
                i <= n,
                v@.len() == i,
                self.pos <= self.data@.len(),
                (self@, v@) == o.halves(i as nat),
            decreases n - i,
        {
            let h: u16 = self.read16();
            v.push(h);
            i += 1;
        }
        v
    }
}

// ---- what was written reads back ----------------------------------------

/// `o` is where `d` begins.
#[verifier::opaque]
pub open spec fn begins(d: Seq<u8>, o: Seq<u8>) -> bool {
    &&& o.len() <= d.len()
    &&& forall|i: int| 0 <= i < o.len() ==> #[trigger] d[i] == o[i]
}

pub broadcast proof fn lemma_put8(d: Seq<u8>, o: Seq<u8>, v: u8)
    requires
        #[trigger] begins(d, put8(o, v)),
    ensures
        begins(d, o),
        source(d, o.len()).u8() == (source(d, put8(o, v).len()), v),
{
    reveal(begins);
    reveal(Source::u8);
    assert(put8(o, v)[o.len() as int] == v);
    assert forall|i: int| 0 <= i < o.len() implies #[trigger] d[i] == o[i] by {
        assert(put8(o, v)[i] == o[i]);
    }
}

pub broadcast proof fn lemma_put16(d: Seq<u8>, o: Seq<u8>, v: u16)
    requires
        #[trigger] begins(d, put16(o, v)),
    ensures
        begins(d, o),
        source(d, o.len()).u16() == (source(d, put16(o, v).len()), v),
{
    reveal(put16);
    reveal(Source::u16);
    let a = put8(o, lo8(v));
    lemma_put8(d, a, hi8(v));
    lemma_put8(d, o, lo8(v));
    reveal(Source::u8);
    reveal(begins);
    lemma_le16_round_trip(v);
}

pub broadcast proof fn lemma_put32(d: Seq<u8>, o: Seq<u8>, v: u32)
    requires
        #[trigger] begins(d, put32(o, v)),
    ensures
        begins(d, o),
        source(d, o.len()).u32() == (source(d, put32(o, v).len()), v),
{
    reveal(put32);
    reveal(Source::u32);
    let a = put8(o, lo8(lo16(v)));
    let b = put8(a, hi8(lo16(v)));
    let c = put8(b, lo8(hi16(v)));
    lemma_put8(d, c, hi8(hi16(v)));
    lemma_put8(d, b, lo8(hi16(v)));
    lemma_put8(d, a, hi8(lo16(v)));
    lemma_put8(d, o, lo8(lo16(v)));
    reveal(Source::u8);
    reveal(begins);
    lemma_le32_round_trip(v);
}

pub broadcast proof fn lemma_put_raw(d: Seq<u8>, o: Seq<u8>, b: Seq<u8>)
    requires
        #[trigger] begins(d, put_raw(o, b)),
    ensures
        begins(d, o),
        source(d, o.len()).raw(b.len()) == (source(d, put_raw(o, b).len()), b),
{
    reveal(begins);
    reveal(put_raw);
    reveal(Source::raw);
    assert forall|i: int| 0 <= i < o.len() implies #[trigger] d[i] == o[i] by {
        assert((o + b)[i] == o[i]);
    }
    assert forall|i: int| 0 <= i < b.len() implies #[trigger] d.subrange(
        o.len() as int,
        (o.len() + b.len()) as int,
    )[i] == b[i] by {
        assert(d[o.len() + i] == (o + b)[o.len() + i]);
    }
    assert(d.subrange(o.len() as int, (o.len() + b.len()) as int) =~= b);
}

pub broadcast group group_put {
    lemma_put8,
    lemma_put16,
    lemma_put32,
    lemma_put_raw,
}

/// Casts that lose nothing.
pub proof fn lemma_halves(v: u64, w: u128, s: i8)
    ensures
        ((v as u32) as u64) | ((((v >> 32) as u32) as u64) << 32) == v,
        ((w as u64) as u128) | ((((w >> 64) as u64) as u128) << 64) == w,
        (s as u8) as i8 == s,
{
    assert(((v as u32) as u64) | ((((v >> 32) as u32) as u64) << 32) == v && ((w as u64) as u128)
        | ((((w >> 64) as u64) as u128) << 64) == w && (s as u8) as i8 == s) by (bit_vector);
}

pub broadcast proof fn lemma_put64(d: Seq<u8>, o: Seq<u8>, v: u64)
    requires
        #[trigger] begins(d, put64(o, v)),
    ensures
        begins(d, o),
        source(d, o.len()).u64() == (source(d, put64(o, v).len()), v),
{
    broadcast use group_put;

    lemma_halves(v, 0, 0);
    assert(begins(d, put32(o, v as u32)));
}

pub broadcast proof fn lemma_put128(d: Seq<u8>, o: Seq<u8>, v: u128)
    requires
        #[trigger] begins(d, put128(o, v)),
    ensures
        begins(d, o),
        source(d, o.len()).u128() == (source(d, put128(o, v).len()), v),
{
    lemma_halves(0, v, 0);
    lemma_put64(d, put64(o, v as u64), (v >> 64) as u64);
    lemma_put64(d, o, v as u64);
}

pub proof fn lemma_put_halves(d: Seq<u8>, o: Seq<u8>, h: Seq<u16>, n: nat)
    requires
        begins(d, put_halves(o, h, n)),
        n <= h.len(),
    ensures
        begins(d, o),
        source(d, o.len()).halves(n) == (source(d, put_halves(o, h, n).len()), h.take(n as int)),
    decreases n,
{
    if n == 0 {
        assert(h.take(0) =~= Seq::empty());
    } else {
        let m = (n - 1) as nat;
        lemma_put16(d, put_halves(o, h, m), h[n - 1]);
        lemma_put_halves(d, o, h, m);
        assert(h.take(n as int) =~= h.take(m as int).push(h[n - 1]));
    }
}

} // verus!
