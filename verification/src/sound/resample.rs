//! Sample queues between the mixer and the host: the live ring and the
//! rolling capture.

use std::collections::VecDeque;
use vstd::prelude::*;

verus! {

/// Live host ring capacity in interleaved stereo samples.
pub const RING_CAP: usize = 48_000;

/// Rolling capture for WAV dumps.
pub const CAPTURE_CAP: usize = 270_000;

/// Fixed device rate.
pub const HOST_RATE: u32 = 48_000;

/// Whole frames of `batch` that still fit behind `ring`.
pub open spec fn frames_fitting(ring: Seq<i16>, batch: Seq<i16>) -> int {
    let room = if ring.len() >= RING_CAP {
        0
    } else {
        (RING_CAP - ring.len()) / 2
    };
    if batch.len() / 2 <= room {
        (batch.len() / 2) as int
    } else {
        room
    }
}

/// A full ring drops the newest frames, never the oldest.
pub open spec fn ring_after(ring: Seq<i16>, batch: Seq<i16>) -> Seq<i16> {
    ring + batch.take(2 * frames_fitting(ring, batch))
}

/// Interleaved stereo samples waiting for the host.
#[derive(Debug)]
pub struct SampleRing {
    pub inner: VecDeque<i16>,
}

impl View for SampleRing {
    type V = Seq<i16>;

    open spec fn view(&self) -> Seq<i16> {
        self.inner@
    }
}

impl SampleRing {
    pub fn new() -> (r: Self)
        ensures
            r@ == Seq::<i16>::empty(),
    {
        SampleRing { inner: VecDeque::new() }
    }

    pub fn len(&self) -> (r: usize)
        ensures
            r == self@.len(),
    {
        self.inner.len()
    }

    pub fn available(&self) -> (r: usize)
        ensures
            r == self@.len(),
    {
        self.inner.len()
    }

    /// Stereo frames waiting (L/R pairs).
    pub fn frames(&self) -> (r: usize)
        ensures
            r == self@.len() / 2,
    {
        self.inner.len() / 2
    }

    /// The oldest frame; a lone sample is played on both sides.
    pub fn pop_frame(&mut self) -> (r: Option<(i16, i16)>)
        ensures
            old(self)@.len() == 0 ==> r is None && final(self)@ == old(self)@,
            old(self)@.len() == 1 ==> r == Some((old(self)@[0], old(self)@[0]))
                && final(self)@.len() == 0,
            old(self)@.len() >= 2 ==> r == Some((old(self)@[0], old(self)@[1])) && final(self)@
                == old(self)@.skip(2),
    {
        match self.inner.pop_front() {
            None => None,
            Some(l) => match self.inner.pop_front() {
                Some(r) => {
                    assert(self@ =~= old(self)@.skip(2));
                    Some((l, r))
                },
                None => Some((l, l)),
            },
        }
    }

    pub fn push_batch(&mut self, samples: &[i16])
        ensures
            final(self)@ == ring_after(old(self)@, samples@),
    {
        let n: usize = samples.len();
        let mut i: usize = 0;
        let ghost mut k: int = 0;
        while i < n && i + 1 < n && self.inner.len() < RING_CAP - 1
            invariant
                n == samples@.len(),
                i == 2 * k,
                0 <= i <= n,
                0 <= k <= frames_fitting(old(self)@, samples@),
                self@ == old(self)@ + samples@.take(i as int),
            decreases n - i,
        {
            self.inner.push_back(samples[i]);
            self.inner.push_back(samples[i + 1]);
            proof {
                k = k + 1;
            }
            i += 2;
            assert(self@ =~= old(self)@ + samples@.take(i as int));
        }
        assert(k == frames_fitting(old(self)@, samples@));
    }

    /// Pops into `out`, silence where the ring runs dry; returns how many
    /// samples were missing.
    pub fn fill_i16(&mut self, out: &mut Vec<i16>) -> (missing: usize)
        ensures
            final(out)@.len() == old(out)@.len(),
            missing == (if old(self)@.len() < old(out)@.len() {
                old(out)@.len() - old(self)@.len()
            } else {
                0
            }),
            forall|i: int|
                0 <= i < old(out)@.len() ==> #[trigger] final(out)@[i] == (if i < old(self)@.len() {
                    old(self)@[i]
                } else {
                    0
                }),
            final(self)@ == (if old(out)@.len() <= old(self)@.len() {
                old(self)@.skip(old(out)@.len() as int)
            } else {
                Seq::empty()
            }),
    {
        let n: usize = out.len();
        let mut i: usize = 0;
        let mut missing: usize = 0;
        while i < n
            invariant
                n == out@.len(),
                n == old(out)@.len(),
                i <= n,
                missing == (if old(self)@.len() < i {
                    i - old(self)@.len()
                } else {
                    0
                }),
                self@ == (if i <= old(self)@.len() {
                    old(self)@.skip(i as int)
                } else {
                    Seq::empty()
                }),
                forall|j: int|
                    0 <= j < i ==> #[trigger] out@[j] == (if j < old(self)@.len() {
                        old(self)@[j]
                    } else {
                        0
                    }),
            decreases n - i,
        {
            match self.inner.pop_front() {
                Some(s) => {
                    out[i] = s;
                },
                None => {
                    out[i] = 0;
                    missing += 1;
                },
            }
            i += 1;
            assert(self@ =~= (if i <= old(self)@.len() {
                old(self)@.skip(i as int)
            } else {
                Seq::empty()
            }));
        }
        missing
    }
}

impl Default for SampleRing {
    fn default() -> (r: Self)
        ensures
            r@ == Seq::<i16>::empty(),
    {
        Self::new()
    }
}

/// The two frames between which the host's samples lie, and how many frames in
/// a row were missing.
#[derive(Clone, Copy, Debug, PartialEq, Eq, Structural)]
pub struct PullResampler {
    pub prev_l: i16,
    pub prev_r: i16,
    pub next_l: i16,
    pub next_r: i16,
    pub empty: u32,
}

impl PullResampler {
    /// One game frame later. An underrun holds the last frame.
    pub open spec fn advanced(self, ring: Seq<i16>) -> PullResampler {
        if ring.len() == 0 {
            PullResampler {
                prev_l: self.next_l,
                prev_r: self.next_r,
                empty: self.empty.saturating_add(1),
                ..self
            }
        } else {
            PullResampler {
                prev_l: self.next_l,
                prev_r: self.next_r,
                next_l: ring[0],
                next_r: if ring.len() == 1 {
                    ring[0]
                } else {
                    ring[1]
                },
                empty: 0,
            }
        }
    }

    pub fn new() -> (r: Self)
        ensures
            r == (PullResampler { prev_l: 0, prev_r: 0, next_l: 0, next_r: 0, empty: 0 }),
    {
        PullResampler { prev_l: 0, prev_r: 0, next_l: 0, next_r: 0, empty: 0 }
    }

    /// Takes the next frame from the ring.
    pub fn advance(&mut self, ring: &mut SampleRing)
        ensures
            *final(self) == old(self).advanced(old(ring)@),
            final(ring)@ == (if old(ring)@.len() < 2 {
                Seq::<i16>::empty()
            } else {
                old(ring)@.skip(2)
            }),
    {
        match ring.pop_frame() {
            Some((l, r)) => {
                *self = PullResampler {
                    prev_l: self.next_l,
                    prev_r: self.next_r,
                    next_l: l,
                    next_r: r,
                    empty: 0,
                };
            },
            None => {
                self.prev_l = self.next_l;
                self.prev_r = self.next_r;
                self.empty = self.empty.saturating_add(1);
            },
        }
    }
}

/// Frames at the host rate that stand for `frames` at the game's rate: at least
/// one for any sound at all, none without a rate.
pub fn host_frames(frames: u64, rate: u32) -> (r: u64)
    requires
        frames * HOST_RATE <= u64::MAX,
    ensures
        r == (if frames == 0 || rate == 0 {
            0
        } else if frames * HOST_RATE < rate {
            1
        } else {
            frames * HOST_RATE / rate as int
        }),
{
    if frames == 0 || rate == 0 {
        return 0;
    }
    let n: u64 = frames * HOST_RATE as u64;
    let q: u64 = n / rate as u64;
    assert(n < rate ==> q == 0) by (nonlinear_arith)
        requires
            q == n / rate as u64,
            rate > 0,
    ;
    assert(n >= rate ==> q >= 1) by (nonlinear_arith)
        requires
            q == n / rate as u64,
            rate > 0,
    ;
    if q < 1 {
        1
    } else {
        q
    }
}

/// The newest `CAPTURE_CAP` samples of a stream.
pub open spec fn newest(s: Seq<i16>) -> Seq<i16> {
    if s.len() > CAPTURE_CAP {
        s.skip(s.len() - CAPTURE_CAP)
    } else {
        s
    }
}

/// Rolling capture buffer (not drained by the host).
#[derive(Debug)]
pub struct Capture {
    pub buf: VecDeque<i16>,
}

impl View for Capture {
    type V = Seq<i16>;

    open spec fn view(&self) -> Seq<i16> {
        self.buf@
    }
}

impl Capture {
    pub fn new() -> (r: Self)
        ensures
            r@ == Seq::<i16>::empty(),
    {
        Capture { buf: VecDeque::new() }
    }

    pub fn push_batch(&mut self, samples: &[i16])
        requires
            old(self)@.len() <= CAPTURE_CAP,
        ensures
            final(self)@ == newest(old(self)@ + samples@),
            final(self)@.len() <= CAPTURE_CAP,
    {
        let mut i: usize = 0;
        assert(self@ =~= newest(old(self)@ + samples@.take(0)));
        while i < samples.len()
            invariant
                i <= samples@.len(),
                self@.len() <= CAPTURE_CAP,
                self@ == newest(old(self)@ + samples@.take(i as int)),
            decreases samples@.len() - i,
        {
            if self.buf.len() >= CAPTURE_CAP {
                let _ = self.buf.pop_front();
            }
            self.buf.push_back(samples[i]);
            i += 1;
            assert(self@ =~= newest(old(self)@ + samples@.take(i as int)));
        }
        assert(samples@.take(i as int) =~= samples@);
    }

    pub fn is_empty(&self) -> (r: bool)
        ensures
            r == (self@.len() == 0),
    {
        self.buf.len() == 0
    }

    pub fn to_vec(&self) -> (r: Vec<i16>)
        ensures
            r@ == self@,
    {
        let mut v: Vec<i16> = Vec::new();
        let mut i: usize = 0;
        while i < self.buf.len()
            invariant
                i <= self.buf@.len(),
                v@ == self.buf@.take(i as int),
            decreases self.buf@.len() - i,
        {
            v.push(self.buf[i]);
            i += 1;
        }
        v
    }
}

impl Default for Capture {
    fn default() -> (r: Self)
        ensures
            r@ == Seq::<i16>::empty(),
    {
        Self::new()
    }
}

/// The ring never outgrows its capacity and never loses what it already held.
pub proof fn law_ring_keeps_the_past(ring: Seq<i16>, batch: Seq<i16>)
    requires
        ring.len() <= RING_CAP,
    ensures
        ring_after(ring, batch).len() <= RING_CAP,
        ring_after(ring, batch).take(ring.len() as int) == ring,
{
    assert(ring_after(ring, batch).take(ring.len() as int) =~= ring);
}

} // verus!
