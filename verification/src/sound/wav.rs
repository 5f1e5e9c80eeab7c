//! Diagnostic WAV image (interleaved stereo, 16 bit).

use vstd::prelude::*;

verus! {

pub open spec fn le_u16(v: u16) -> Seq<u8> {
    seq![v as u8, (v >> 8) as u8]
}

pub open spec fn le_u32(v: u32) -> Seq<u8> {
    seq![v as u8, (v >> 8) as u8, (v >> 16) as u8, (v >> 24) as u8]
}

/// The samples as little-endian bytes.
pub open spec fn pcm_bytes(s: Seq<i16>) -> Seq<u8>
    decreases s.len(),
{
    if s.len() == 0 {
        Seq::empty()
    } else {
        pcm_bytes(s.drop_last()) + le_u16(s.last() as u16)
    }
}

/// `RIFF`, `WAVEfmt `, `data`.
pub open spec fn riff_tag() -> Seq<u8> {
    seq![0x52, 0x49, 0x46, 0x46]
}

pub open spec fn wavefmt_tag() -> Seq<u8> {
    seq![0x57, 0x41, 0x56, 0x45, 0x66, 0x6D, 0x74, 0x20]
}

pub open spec fn data_tag() -> Seq<u8> {
    seq![0x64, 0x61, 0x74, 0x61]
}

/// The 44-byte header of a 16-bit stereo PCM file with `data_len` data bytes.
pub open spec fn wav_header(rate: u32, data_len: u32) -> Seq<u8> {
    riff_tag() + le_u32((36 + data_len) as u32) + wavefmt_tag() + le_u32(16) + le_u16(1) + le_u16(2)
        + le_u32(rate) + le_u32((rate * 4) as u32) + le_u16(4) + le_u16(16) + data_tag() + le_u32(
        data_len,
    )
}

/// The whole file: an odd last sample is dropped, and rates below 8 kHz are
/// written as 8 kHz.
pub open spec fn wav_file(rate: u32, samples: Seq<i16>) -> Seq<u8> {
    let n = samples.len() / 2 * 2;
    let r: u32 = if rate < 8000 {
        8000
    } else {
        rate
    };
    wav_header(r, (n * 2) as u32) + pcm_bytes(samples.take(n as int))
}

fn push16(out: &mut Vec<u8>, v: u16)
    ensures
        final(out)@ == old(out)@ + le_u16(v),
{
    out.push(v as u8);
    out.push((v >> 8) as u8);
    assert(out@ =~= old(out)@ + le_u16(v));
}

fn push32(out: &mut Vec<u8>, v: u32)
    ensures
        final(out)@ == old(out)@ + le_u32(v),
{
    out.push(v as u8);
    out.push((v >> 8) as u8);
    out.push((v >> 16) as u8);
    out.push((v >> 24) as u8);
    assert(out@ =~= old(out)@ + le_u32(v));
}

fn push4(out: &mut Vec<u8>, a: u8, b: u8, c: u8, d: u8)
    ensures
        final(out)@ == old(out)@ + seq![a, b, c, d],
{
    out.push(a);
    out.push(b);
    out.push(c);
    out.push(d);
    assert(out@ =~= old(out)@ + seq![a, b, c, d]);
}

/// The bytes of a WAV file. The format counts bytes in 32 bits, which bounds
/// the samples and the rate.
pub fn write_wav_stereo(rate: u32, samples: &[i16]) -> (out: Vec<u8>)
    requires
        samples@.len() <= 2_147_483_629,
        rate <= 0x3FFF_FFFF,
    ensures
        out@ == wav_file(rate, samples@),
{
    let n: usize = samples.len() / 2 * 2;
    let data_len: u32 = (n * 2) as u32;
    let r: u32 = if rate < 8000 {
        8000
    } else {
        rate
    };
    let mut out: Vec<u8> = Vec::new();
    push4(&mut out, 0x52, 0x49, 0x46, 0x46);
    push32(&mut out, 36 + data_len);
    push4(&mut out, 0x57, 0x41, 0x56, 0x45);
    push4(&mut out, 0x66, 0x6D, 0x74, 0x20);
    push32(&mut out, 16);
    push16(&mut out, 1);
    push16(&mut out, 2);
    push32(&mut out, r);
    push32(&mut out, r * 4);
    push16(&mut out, 4);
    push16(&mut out, 16);
    push4(&mut out, 0x64, 0x61, 0x74, 0x61);
    push32(&mut out, data_len);
    assert(out@ =~= wav_header(r, data_len));
    let ghost head = out@;
    let mut i: usize = 0;
    while i < n
        invariant
            i <= n <= samples@.len(),
            out@ == head + pcm_bytes(samples@.take(i as int)),
        decreases n - i,
    {
        push16(&mut out, samples[i] as u16);
        i += 1;
        assert(samples@.take(i as int).drop_last() =~= samples@.take(i - 1));
        assert(out@ =~= head + pcm_bytes(samples@.take(i as int)));
    }
    out
}

} // verus!
