//! When the host's player is opened, fed and left alone.

use vstd::prelude::*;

verus! {

/// Frames handed over at a time: 20 ms at 48 kHz.
pub const CHUNK_FRAMES: usize = 960;

/// Time of a chunk, in nanoseconds.
pub const CHUNK_TIME: u64 = 20_000_000;

/// Below this rate the game plays nothing yet.
pub const MIN_RATE: u32 = 4000;

#[derive(Clone, Copy, Debug, PartialEq, Eq, Structural)]
pub enum PipeAct {
    /// Not enough yet to open the player.
    Wait,
    Open,
    /// The player is open, but there is nothing to play.
    Rest,
    Play,
}

/// A quarter of a second, and at least 1024 frames, come before the player is
/// opened; an open player is fed while the game has a rate.
pub open spec fn pipe_act(is_open: bool, rate: u32, buffered: usize) -> PipeAct {
    if !is_open {
        if rate < MIN_RATE || buffered < 1024 || buffered < rate / 4 {
            PipeAct::Wait
        } else {
            PipeAct::Open
        }
    } else if rate < MIN_RATE {
        PipeAct::Rest
    } else {
        PipeAct::Play
    }
}

pub fn next_act(is_open: bool, rate: u32, buffered: usize) -> (r: PipeAct)
    ensures
        r == pipe_act(is_open, rate, buffered),
{
    if !is_open {
        if rate < MIN_RATE || buffered < 1024 || buffered < (rate / 4) as usize {
            PipeAct::Wait
        } else {
            PipeAct::Open
        }
    } else if rate < MIN_RATE {
        PipeAct::Rest
    } else {
        PipeAct::Play
    }
}

/// The deadline after a chunk and how long to sleep until it. After playing, a
/// delay of more than three chunks is forgotten.
pub open spec fn chunk_paced(deadline: u64, now: u64, played: bool) -> (u64, u64) {
    let d = deadline.saturating_add(CHUNK_TIME);
    if d > now {
        (d, (d - now) as u64)
    } else if played && now - d > 3 * CHUNK_TIME {
        (now, 0)
    } else {
        (d, 0)
    }
}

pub fn pace_chunk(deadline: u64, now: u64, played: bool) -> (r: (u64, u64))
    ensures
        r == chunk_paced(deadline, now, played),
{
    let d: u64 = deadline.saturating_add(CHUNK_TIME);
    if d > now {
        (d, d - now)
    } else if played && now - d > 3 * CHUNK_TIME {
        (now, 0)
    } else {
        (d, 0)
    }
}

/// Samples as little-endian bytes.
pub open spec fn sample_byte(s: Seq<i16>, i: int) -> u8 {
    let w = s[i / 2] as u16;
    if i % 2 == 0 {
        crate::bits::lo8(w)
    } else {
        crate::bits::hi8(w)
    }
}

pub fn sample_bytes(s: &Vec<i16>) -> (r: Vec<u8>)
    ensures
        r@ == Seq::new(2 * s@.len(), |i: int| sample_byte(s@, i)),
{
    let mut out: Vec<u8> = Vec::new();
    let mut i: usize = 0;
    while i < s.len()
        invariant
            i <= s@.len(),
            out@ == Seq::new(2 * i as nat, |k: int| sample_byte(s@, k)),
        decreases s@.len() - i,
    {
        let w: u16 = s[i] as u16;
        out.push(crate::bits::low_byte(w));
        out.push(crate::bits::high_byte(w));
        i += 1;
        assert(out@ =~= Seq::new(2 * i as nat, |k: int| sample_byte(s@, k)));
    }
    out
}

} // verus!
