//! DirectSound FIFO A/B: 32 signed 8-bit samples each.

use std::collections::VecDeque;
use vstd::prelude::*;

verus! {

/// Hardware FIFO: 8 words of 4 samples.
pub const FIFO_CAP: usize = 32;

/// Half full: below this the FIFO asks for a DMA refill.
pub const FIFO_HALF: usize = 16;

/// What a FIFO is: the queued samples and the latched one.
#[verifier::ext_equal]
pub struct FifoModel {
    pub samples: Seq<i8>,
    pub hold: i8,
    pub hold_valid: bool,
    pub dma_req: bool,
    pub samples_consumed: u64,
}

impl FifoModel {
    pub open spec fn wf(self) -> bool {
        self.samples.len() <= FIFO_CAP
    }

    /// One sample queued; a full queue loses its oldest.
    pub open spec fn queued(s: Seq<i8>, b: u8) -> Seq<i8> {
        if s.len() >= FIFO_CAP {
            s.drop_first().push(b as i8)
        } else {
            s.push(b as i8)
        }
    }

    /// Refilled to half or more, the request is withdrawn.
    pub open spec fn settled(self) -> FifoModel {
        FifoModel { dma_req: self.dma_req && self.samples.len() < FIFO_HALF, ..self }
    }

    /// Two samples, low byte first.
    pub open spec fn with_half(self, half: u16) -> FifoModel {
        let s = Self::queued(Self::queued(self.samples, half as u8), (half >> 8) as u8);
        FifoModel { samples: s, ..self }.settled()
    }

    /// Four samples, low byte first.
    pub open spec fn with_word(self, word: u32) -> FifoModel {
        let s0 = Self::queued(self.samples, word as u8);
        let s1 = Self::queued(s0, (word >> 8) as u8);
        let s2 = Self::queued(s1, (word >> 16) as u8);
        let s3 = Self::queued(s2, (word >> 24) as u8);
        FifoModel { samples: s3, ..self }.settled()
    }

    /// One tick of the sample timer: the oldest sample is latched; an empty
    /// queue is silence.
    pub open spec fn popped(self) -> FifoModel {
        let s = if self.samples.len() > 0 {
            FifoModel {
                samples: self.samples.drop_first(),
                hold: self.samples[0],
                hold_valid: true,
                samples_consumed: self.samples_consumed.wrapping_add(1),
                ..self
            }
        } else {
            FifoModel { hold: 0, hold_valid: false, ..self }
        };
        FifoModel { dma_req: s.dma_req || s.samples.len() < FIFO_HALF, ..s }
    }

    /// `n` ticks of the sample timer.
    pub open spec fn popped_n(self, n: nat) -> FifoModel
        decreases n,
    {
        if n == 0 {
            self
        } else {
            self.popped_n((n - 1) as nat).popped()
        }
    }

    /// Emptied by software: silent, and asking for data.
    pub open spec fn cleared(self) -> FifoModel {
        FifoModel {
            samples: Seq::empty(),
            hold: 0,
            hold_valid: false,
            dma_req: true,
            ..self
        }
    }

    pub open spec fn unheld(self) -> FifoModel {
        FifoModel { hold: 0, hold_valid: false, ..self }
    }

    /// Wants a refill: below half, or still asking, and not full.
    pub open spec fn wants_dma(self) -> bool {
        self.samples.len() < FIFO_CAP && (self.dma_req || self.samples.len() < FIFO_HALF)
    }
}

pub open spec fn empty_fifo() -> FifoModel {
    FifoModel {
        samples: Seq::empty(),
        hold: 0,
        hold_valid: false,
        dma_req: false,
        samples_consumed: 0,
    }
}

#[derive(Debug, Clone)]
pub struct Fifo {
    pub samples: VecDeque<i8>,
    /// Latched sample (DAC sample-and-hold between pops).
    pub hold: i8,
    pub hold_valid: bool,
    pub dma_req: bool,
    pub samples_consumed: u64,
}

impl View for Fifo {
    type V = FifoModel;

    open spec fn view(&self) -> FifoModel {
        FifoModel {
            samples: self.samples@,
            hold: self.hold,
            hold_valid: self.hold_valid,
            dma_req: self.dma_req,
            samples_consumed: self.samples_consumed,
        }
    }
}

impl Default for Fifo {
    fn default() -> (r: Self)
        ensures
            r@ == empty_fifo(),
            r@.wf(),
    {
        Self::new()
    }
}

impl Fifo {
    pub fn new() -> (r: Self)
        ensures
            r@ == empty_fifo(),
            r@.wf(),
    {
        Fifo {
            samples: VecDeque::new(),
            hold: 0,
            hold_valid: false,
            dma_req: false,
            samples_consumed: 0,
        }
    }

    /// A FIFO with the same contents.
    pub fn copy(&self) -> (r: Self)
        ensures
            r@ == self@,
    {
        let v: Vec<i8> = self.samples_vec();
        let mut q: VecDeque<i8> = VecDeque::new();
        let mut i: usize = 0;
        while i < v.len()
            invariant
                i <= v@.len(),
                q@ == v@.take(i as int),
            decreases v@.len() - i,
        {
            q.push_back(v[i]);
            i += 1;
        }
        assert(q@ =~= self@.samples);
        Fifo {
            samples: q,
            hold: self.hold,
            hold_valid: self.hold_valid,
            dma_req: self.dma_req,
            samples_consumed: self.samples_consumed,
        }
    }

    pub fn len(&self) -> (r: usize)
        ensures
            r == self@.samples.len(),
    {
        self.samples.len()
    }

    pub fn clear(&mut self)
        ensures
            final(self)@ == old(self)@.cleared(),
            final(self)@.wf(),
    {
        self.samples.clear();
        self.hold = 0;
        self.hold_valid = false;
        self.dma_req = true;
    }

    fn queue(&mut self, b: u8)
        requires
            old(self)@.wf(),
        ensures
            final(self)@ == (FifoModel {
                samples: FifoModel::queued(old(self)@.samples, b),
                ..old(self)@
            }),
            final(self)@.wf(),
    {
        if self.samples.len() >= FIFO_CAP {
            let _ = self.samples.pop_front();
            assert(self.samples@ =~= old(self)@.samples.drop_first());
        }
        self.samples.push_back(b as i8);
    }

    fn settle(&mut self)
        ensures
            final(self)@ == old(self)@.settled(),
    {
        if self.samples.len() >= FIFO_HALF {
            self.dma_req = false;
        }
    }

    pub fn push_word(&mut self, word: u32)
        requires
            old(self)@.wf(),
        ensures
            final(self)@ == old(self)@.with_word(word),
            final(self)@.wf(),
    {
        self.queue(word as u8);
        self.queue((word >> 8) as u8);
        self.queue((word >> 16) as u8);
        self.queue((word >> 24) as u8);
        self.settle();
    }

    pub fn push_half(&mut self, half: u16)
        requires
            old(self)@.wf(),
        ensures
            final(self)@ == old(self)@.with_half(half),
            final(self)@.wf(),
    {
        self.queue(half as u8);
        self.queue((half >> 8) as u8);
        self.settle();
    }

    /// Pop one sample when the selected timer ticks. An underrun is silence.
    pub fn pop_timer(&mut self)
        requires
            old(self)@.wf(),
        ensures
            final(self)@ == old(self)@.popped(),
            final(self)@.wf(),
    {
        match self.samples.pop_front() {
            Some(s) => {
                assert(self.samples@ =~= old(self)@.samples.drop_first());
                self.hold = s;
                self.hold_valid = true;
                self.samples_consumed = self.samples_consumed.wrapping_add(1);
            },
            None => {
                self.hold = 0;
                self.hold_valid = false;
            },
        }
        if self.samples.len() < FIFO_HALF {
            self.dma_req = true;
        }
    }

    pub fn pop_times(&mut self, n: u64)
        requires
            old(self)@.wf(),
        ensures
            final(self)@ == old(self)@.popped_n(n as nat),
            final(self)@.wf(),
    {
        let mut i: u64 = 0;
        while i < n
            invariant
                i <= n,
                self@ == old(self)@.popped_n(i as nat),
                self@.wf(),
            decreases n - i,
        {
            self.pop_timer();
            i += 1;
        }
    }

    pub fn invalidate_hold(&mut self)
        ensures
            final(self)@ == old(self)@.unheld(),
    {
        self.hold_valid = false;
        self.hold = 0;
    }

    /// Request when below half-full. A 16-sample refill does not immediately
    /// re-request.
    pub fn needs_dma(&self) -> (r: bool)
        ensures
            r == self@.wants_dma(),
    {
        let n: usize = self.samples.len();
        n < FIFO_CAP && (self.dma_req || n < FIFO_HALF)
    }

    pub fn peek_head(&self, i: usize) -> (r: i8)
        ensures
            r == (if i < self@.samples.len() {
                self@.samples[i as int]
            } else {
                0
            }),
    {
        if i < self.samples.len() {
            self.samples[i]
        } else {
            0
        }
    }

    pub fn samples_vec(&self) -> (r: Vec<i8>)
        ensures
            r@ == self@.samples,
    {
        let mut v: Vec<i8> = Vec::new();
        let mut i: usize = 0;
        while i < self.samples.len()
            invariant
                i <= self.samples@.len(),
                v@ == self.samples@.take(i as int),
            decreases self.samples@.len() - i,
        {
            v.push(self.samples[i]);
            i += 1;
        }
        v
    }

    /// Replaces everything; samples past the capacity are dropped.
    pub fn restore(
        &mut self,
        samples: &[i8],
        hold: i8,
        hold_valid: bool,
        dma_req: bool,
        samples_consumed: u64,
    )
        ensures
            final(self)@ == (FifoModel {
                samples: if samples@.len() <= FIFO_CAP {
                    samples@
                } else {
                    samples@.take(FIFO_CAP as int)
                },
                hold,
                hold_valid,
                dma_req,
                samples_consumed,
            }),
            final(self)@.wf(),
    {
        self.samples.clear();
        let mut i: usize = 0;
        while i < samples.len() && i < FIFO_CAP
            invariant
                i <= samples@.len(),
                i <= FIFO_CAP,
                self.samples@ == samples@.take(i as int),
            decreases FIFO_CAP - i,
        {
            self.samples.push_back(samples[i]);
            i += 1;
        }
        self.hold = hold;
        self.hold_valid = hold_valid;
        self.dma_req = dma_req;
        self.samples_consumed = samples_consumed;
    }
}

/// Samples come out in the order they went in: a queue with room for a word
/// gives its four bytes back, low byte first, after what was queued before.
pub proof fn law_word_comes_out_in_order(f: FifoModel, word: u32)
    requires
        f.samples.len() + 4 <= FIFO_CAP,
    ensures
        f.with_word(word).samples == f.samples + seq![
            word as u8 as i8,
            (word >> 8) as u8 as i8,
            (word >> 16) as u8 as i8,
            (word >> 24) as u8 as i8,
        ],
{
}

/// The queue never holds more than the hardware does, whatever is pushed or
/// popped.
pub proof fn law_capacity_is_kept(f: FifoModel, word: u32, half: u16)
    requires
        f.wf(),
    ensures
        f.with_word(word).wf(),
        f.with_half(half).wf(),
        f.popped().wf(),
        f.cleared().wf(),
{
}

/// Exactly half full asks for nothing once the request was served; one sample
/// less asks again.
pub proof fn law_request_at_half(f: FifoModel)
    requires
        f.samples.len() == FIFO_HALF,
        !f.dma_req,
    ensures
        !f.wants_dma(),
        f.popped().wants_dma(),
{
}

/// A pop from an empty queue is silence, never the old sample.
pub proof fn law_underrun_is_silent(f: FifoModel)
    requires
        f.samples.len() == 0,
    ensures
        !f.popped().hold_valid,
        f.popped().hold == 0,
{
}

} // verus!
