//! Hardware timers with prescaler and cascade.

use crate::bits::{aset, lemma_and32};
use crate::bus::model::BusModel;
use crate::bus::Bus;
use crate::irq::{raise, IRQ_TIMER0, IRQ_TIMER1, IRQ_TIMER2, IRQ_TIMER3};
use vstd::prelude::*;

verus! {

#[verifier::ext_equal]
#[derive(Clone, Copy, Debug)]
pub struct Timers {
    pub counter: [u32; 4],
    pub reload: [u16; 4],
    /// Prescaler remainder of each channel.
    pub frac: [u32; 4],
}

impl Default for Timers {
    fn default() -> (r: Self)
        ensures
            r == idle_timers(),
    {
        Timers::new()
    }
}

pub open spec fn idle_timers() -> Timers {
    Timers { counter: [0u32, 0, 0, 0], reload: [0u16, 0, 0, 0], frac: [0u32, 0, 0, 0] }
}

/// Timers, bus and overflow counts together.
pub struct TimerState {
    pub t: Timers,
    pub b: BusModel,
    pub ov: [u32; 4],
}

pub open spec fn timer_irq(i: int) -> u16 {
    if i == 0 {
        IRQ_TIMER0
    } else if i == 1 {
        IRQ_TIMER1
    } else if i == 2 {
        IRQ_TIMER2
    } else {
        IRQ_TIMER3
    }
}

pub open spec fn prescaler(ctrl: u16) -> u32 {
    if ctrl & 3 == 0 {
        1
    } else if ctrl & 3 == 1 {
        64
    } else if ctrl & 3 == 2 {
        256
    } else {
        1024
    }
}

/// TMxCNT_L.
pub open spec fn counter_addr(i: int) -> u32 {
    (0x0400_0100 + 4 * i) as u32
}

impl Timers {
    pub open spec fn counting(self, i: int, v: u32) -> Timers {
        Timers { counter: aset(self.counter, i, v), ..self }
    }

    pub open spec fn with_frac(self, i: int, v: u32) -> Timers {
        Timers { frac: aset(self.frac, i, v), ..self }
    }

    /// A channel (re)started from a reload value.
    pub open spec fn reloaded(self, i: int, val: u16) -> Timers {
        Timers {
            reload: aset(self.reload, i, val),
            counter: aset(self.counter, i, val as u32),
            frac: aset(self.frac, i, 0),
        }
    }
}

impl TimerState {
    /// The overflow count of a channel, saturating.
    pub open spec fn counted(self, i: int, n: u32) -> TimerState {
        TimerState { ov: aset(self.ov, i, self.ov[i].saturating_add(n)), ..self }
    }

    /// The timer interrupt of channel `i`, raised `n` times.
    pub open spec fn raised(self, i: int, n: nat) -> TimerState
        decreases n,
    {
        if n == 0 {
            self
        } else {
            let s = self.raised(i, (n - 1) as nat);
            TimerState { b: s.b.raised(timer_irq(i)), ..s }
        }
    }

    /// One overflow of channel `i` clocks the next channel, where that one is
    /// enabled in count-up mode; its own overflow goes on.
    pub open spec fn cascaded(self, i: int) -> TimerState
        decreases 4 - i,
    {
        let n = i + 1;
        if n >= 4 || self.b.timer_ctrl_prev[n] & 0x80 == 0 || self.b.timer_ctrl_prev[n] & 4 == 0 {
            self
        } else if self.t.counter[n] & 0xFFFF == 0xFFFF {
            let s = TimerState {
                t: self.t.counting(n, self.t.reload[n] as u32),
                b: self.b.write16_raw(counter_addr(n), self.t.reload[n]),
                ..self
            }.counted(n, 1);
            let s = if self.b.timer_ctrl_prev[n] & 0x40 != 0 {
                s.raised(n, 1)
            } else {
                s
            };
            s.cascaded(n)
        } else {
            let c = ((self.t.counter[n] & 0xFFFF) + 1) as u32;
            TimerState {
                t: self.t.counting(n, c),
                b: self.b.write16_raw(counter_addr(n), c as u16),
                ..self
            }
        }
    }

    pub open spec fn cascaded_n(self, i: int, n: nat) -> TimerState
        decreases n,
    {
        if n == 0 {
            self
        } else {
            self.cascaded_n(i, (n - 1) as nat).cascaded(i)
        }
    }

    /// One overflow of a running channel.
    #[verifier::opaque]
    pub open spec fn overflowed(self, i: int, ctrl: u16) -> TimerState {
        let s = self.counted(i, 1);
        let s = if ctrl & 0x40 != 0 {
            s.raised(i, 1)
        } else {
            s
        };
        s.cascaded(i)
    }

    /// Many overflows at once: interrupts and cascades are capped at sixteen.
    #[verifier::opaque]
    pub open spec fn flooded(self, i: int, ctrl: u16, extra: u32) -> TimerState {
        let n: nat = if extra < 16 {
            extra as nat
        } else {
            16
        };
        let s = self.counted(i, extra);
        let s = if ctrl & 0x40 != 0 {
            s.raised(i, n)
        } else {
            s
        };
        s.cascaded_n(i, n)
    }

    /// `left` ticks from counter value `counter`: the state and the counter
    /// after them.
    pub open spec fn ran(self, i: int, ctrl: u16, reload: u16, counter: u32, left: u32) -> (
        TimerState,
        u32,
    )
        decreases left,
        when counter < 0x1_0000
    {
        let room = 0x1_0000 - counter;
        let period = 0x1_0000 - reload;
        if left < room {
            (self, (counter + left) as u32)
        } else {
            let s = self.overflowed(i, ctrl);
            let rest = left - room;
            if rest > period * 64 {
                (
                    s.flooded(i, ctrl, (rest / period) as u32),
                    if reload + rest % period < 0xFFFF {
                        (reload + rest % period) as u32
                    } else {
                        0xFFFF
                    },
                )
            } else {
                s.ran(i, ctrl, reload, reload as u32, rest as u32)
            }
        }
    }

    /// `ticks` of one channel; the register shows the counter.
    #[verifier::opaque]
    pub open spec fn ticked(self, i: int, ticks: u32, ctrl: u16, reload: u16) -> TimerState {
        let (s, c) = self.ran(i, ctrl, reload, self.t.counter[i] & 0xFFFF, ticks);
        TimerState {
            t: s.t.counting(i, c),
            b: s.b.write16_raw(counter_addr(i), c as u16),
            ..s
        }
    }

    /// One channel over `cycles`: a stopped or count-up channel does nothing,
    /// the others tick through their prescaler.
    #[verifier::opaque]
    pub open spec fn channel_stepped(self, i: int, ctrl: u16, reload: u16, cycles: u32) -> TimerState {
        if ctrl & 0x80 == 0 || (i > 0 && ctrl & 4 != 0) {
            self
        } else {
            let total = self.t.frac[i].wrapping_add(cycles);
            let s = TimerState {
                t: self.t.with_frac(i, (total % prescaler(ctrl)) as u32),
                ..self
            };
            if total < prescaler(ctrl) {
                s
            } else {
                s.ticked(i, (total / prescaler(ctrl)) as u32, ctrl, reload)
            }
        }
    }
}

/// All four channels over `cycles`, and how often each overflowed.
#[verifier::opaque]
pub open spec fn timers_stepped(t: Timers, b: BusModel, cycles: u32) -> TimerState {
    let s = TimerState { t, b, ov: [0u32, 0, 0, 0] };
    let s = s.channel_stepped(0, b.timer_ctrl_prev[0], b.timer_reload[0], cycles);
    let s = s.channel_stepped(1, b.timer_ctrl_prev[1], b.timer_reload[1], cycles);
    let s = s.channel_stepped(2, b.timer_ctrl_prev[2], b.timer_reload[2], cycles);
    s.channel_stepped(3, b.timer_ctrl_prev[3], b.timer_reload[3], cycles)
}

impl Timers {
    pub fn new() -> (r: Self)
        ensures
            r == idle_timers(),
    {
        let r = Timers { counter: [0u32, 0, 0, 0], reload: [0u16, 0, 0, 0], frac: [0u32, 0, 0, 0] };
        assert(r =~= idle_timers());
        r
    }

    pub fn on_write_reload(&mut self, idx: usize, val: u16)
        ensures
            idx < 4 ==> *final(self) == old(self).reloaded(idx as int, val),
            idx >= 4 ==> *final(self) == *old(self),
    {
        if idx < 4 {
            self.reload[idx] = val;
            self.counter[idx] = val as u32;
            self.frac[idx] = 0;
        }
    }
}

fn raise_timer(bus: &mut Bus, i: usize)
    requires
        old(bus)@.wf(),
    ensures
        final(bus)@ == old(bus)@.raised(timer_irq(i as int)),
        final(bus)@.wf(),
{
    let bit: u16 = match i {
        0 => IRQ_TIMER0,
        1 => IRQ_TIMER1,
        2 => IRQ_TIMER2,
        _ => IRQ_TIMER3,
    };
    raise(bus, bit);
}

fn raise_times(t: &Timers, bus: &mut Bus, ov: &[u32; 4], i: usize, n: u32)
    requires
        old(bus)@.wf(),
    ensures
        (TimerState { t: *t, b: final(bus)@, ov: *ov }) == (TimerState {
            t: *t,
            b: old(bus)@,
            ov: *ov,
        }).raised(i as int, n as nat),
        final(bus)@.wf(),
{
    let mut k: u32 = 0;
    while k < n
        invariant
            k <= n,
            bus@.wf(),
            (TimerState { t: *t, b: bus@, ov: *ov }) == (TimerState {
                t: *t,
                b: old(bus)@,
                ov: *ov,
            }).raised(i as int, k as nat),
        decreases n - k,
    {
        raise_timer(bus, i);
        k += 1;
    }
}

fn count_overflows(ov: &mut [u32; 4], i: usize, n: u32)
    requires
        i < 4,
    ensures
        *final(ov) == aset(*old(ov), i as int, old(ov)[i as int].saturating_add(n)),
{
    let v: u32 = ov[i].saturating_add(n);
    ov[i] = v;
}

fn cascade_next(t: &mut Timers, bus: &mut Bus, ov: &mut [u32; 4], i: usize)
    requires
        old(bus)@.wf(),
        i < 4,
    ensures
        (TimerState { t: *final(t), b: final(bus)@, ov: *final(ov) }) == (TimerState {
            t: *old(t),
            b: old(bus)@,
            ov: *old(ov),
        }).cascaded(i as int),
        final(bus)@.wf(),
    decreases 4 - i,
{
    if i + 1 >= 4 {
        return;
    }
    let n: usize = i + 1;
    let ctrl: u16 = bus.timer_ctrl(n);
    if ctrl & 0x80 == 0 || ctrl & 0x4 == 0 {
        return;
    }
    let c: u32 = t.counter[n] & 0xFFFF;
    let addr: u32 = 0x0400_0100 + n as u32 * 4;
    let ghost s0 = TimerState { t: *t, b: bus@, ov: *ov };
    if c == 0xFFFF {
        let reload: u16 = t.reload[n];
        t.counter[n] = reload as u32;
        bus.write16_raw(addr, reload);
        count_overflows(ov, n, 1);
        if ctrl & 0x40 != 0 {
            raise_times(t, bus, ov, n, 1);
        }
        cascade_next(t, bus, ov, n);
    } else {
        assert(c < 0xFFFF) by {
            lemma_low16(s0.t.counter[n as int]);
        }
        t.counter[n] = c + 1;
        bus.write16_raw(addr, (c + 1) as u16);
    }
}

proof fn lemma_low16(v: u32)
    ensures
        v & 0xFFFF <= 0xFFFF,
{
    lemma_and32(v, 0xFFFF);
}

fn cascade_times(t: &mut Timers, bus: &mut Bus, ov: &mut [u32; 4], i: usize, n: u32)
    requires
        old(bus)@.wf(),
        i < 4,
    ensures
        (TimerState { t: *final(t), b: final(bus)@, ov: *final(ov) }) == (TimerState {
            t: *old(t),
            b: old(bus)@,
            ov: *old(ov),
        }).cascaded_n(i as int, n as nat),
        final(bus)@.wf(),
{
    let mut k: u32 = 0;
    while k < n
        invariant
            k <= n,
            i < 4,
            bus@.wf(),
            (TimerState { t: *t, b: bus@, ov: *ov }) == (TimerState {
                t: *old(t),
                b: old(bus)@,
                ov: *old(ov),
            }).cascaded_n(i as int, k as nat),
        decreases n - k,
    {
        cascade_next(t, bus, ov, i);
        k += 1;
    }
}

fn overflow(t: &mut Timers, bus: &mut Bus, ov: &mut [u32; 4], i: usize, ctrl: u16)
    requires
        old(bus)@.wf(),
        i < 4,
    ensures
        (TimerState { t: *final(t), b: final(bus)@, ov: *final(ov) }) == (TimerState {
            t: *old(t),
            b: old(bus)@,
            ov: *old(ov),
        }).overflowed(i as int, ctrl),
        final(bus)@.wf(),
{
    reveal(TimerState::overflowed);
    count_overflows(ov, i, 1);
    if ctrl & 0x40 != 0 {
        raise_times(t, bus, ov, i, 1);
    }
    cascade_next(t, bus, ov, i);
}

fn flood(t: &mut Timers, bus: &mut Bus, ov: &mut [u32; 4], i: usize, ctrl: u16, extra: u32)
    requires
        old(bus)@.wf(),
        i < 4,
    ensures
        (TimerState { t: *final(t), b: final(bus)@, ov: *final(ov) }) == (TimerState {
            t: *old(t),
            b: old(bus)@,
            ov: *old(ov),
        }).flooded(i as int, ctrl, extra),
        final(bus)@.wf(),
{
    reveal(TimerState::flooded);
    let n: u32 = if extra < 16 {
        extra
    } else {
        16
    };
    count_overflows(ov, i, extra);
    if ctrl & 0x40 != 0 {
        raise_times(t, bus, ov, i, n);
    }
    cascade_times(t, bus, ov, i, n);
}

fn run_ticks(
    t: &mut Timers,
    bus: &mut Bus,
    ov: &mut [u32; 4],
    i: usize,
    ticks: u32,
    ctrl: u16,
    reload_val: u16,
) -> (c: u32)
    requires
        old(bus)@.wf(),
        i < 4,
    ensures
        ({
            let z = (TimerState { t: *old(t), b: old(bus)@, ov: *old(ov) }).ran(
                i as int,
                ctrl,
                reload_val,
                old(t).counter[i as int] & 0xFFFF,
                ticks,
            );
            &&& (TimerState { t: *final(t), b: final(bus)@, ov: *final(ov) }) == z.0
            &&& c == z.1
        }),
        c <= 0xFFFF,
        final(bus)@.wf(),
{
    let reload: u32 = reload_val as u32;
    let period: u32 = 0x1_0000 - reload;
    let mut counter: u32 = t.counter[i] & 0xFFFF;
    proof {
        lemma_low16(t.counter[i as int]);
    }
    let ghost c0 = counter;
    let mut left: u32 = ticks;
    loop
        invariant
            i < 4,
            bus@.wf(),
            counter <= 0xFFFF,
            c0 == old(t).counter[i as int] & 0xFFFF,
            c0 <= 0xFFFF,
            reload == reload_val,
            period == 0x1_0000 - reload,
            (TimerState { t: *t, b: bus@, ov: *ov }).ran(i as int, ctrl, reload_val, counter, left)
                == (TimerState { t: *old(t), b: old(bus)@, ov: *old(ov) }).ran(
                i as int,
                ctrl,
                reload_val,
                c0,
                ticks,
            ),
        decreases left,
    {
        let room: u32 = 0x1_0000 - counter;
        if left < room {
            return counter + left;
        }
        left = left - room;
        overflow(t, bus, ov, i, ctrl);
        counter = reload;
        if left > period * 64 {
            flood(t, bus, ov, i, ctrl, left / period);
            let c: u32 = reload + left % period;
            return if c < 0xFFFF {
                c
            } else {
                0xFFFF
            };
        }
    }
}

fn tick_channel(
    t: &mut Timers,
    bus: &mut Bus,
    ov: &mut [u32; 4],
    i: usize,
    ticks: u32,
    ctrl: u16,
    reload_val: u16,
)
    requires
        old(bus)@.wf(),
        i < 4,
    ensures
        (TimerState { t: *final(t), b: final(bus)@, ov: *final(ov) }) == (TimerState {
            t: *old(t),
            b: old(bus)@,
            ov: *old(ov),
        }).ticked(i as int, ticks, ctrl, reload_val),
        final(bus)@.wf(),
{
    reveal(TimerState::ticked);
    let c: u32 = run_ticks(t, bus, ov, i, ticks, ctrl, reload_val);
    t.counter[i] = c;
    bus.write16_raw(0x0400_0100 + i as u32 * 4, c as u16);
}

fn step_channel(
    t: &mut Timers,
    bus: &mut Bus,
    ov: &mut [u32; 4],
    i: usize,
    ctrl: u16,
    reload: u16,
    cycles: u32,
)
    requires
        old(bus)@.wf(),
        i < 4,
    ensures
        (TimerState { t: *final(t), b: final(bus)@, ov: *final(ov) }) == (TimerState {
            t: *old(t),
            b: old(bus)@,
            ov: *old(ov),
        }).channel_stepped(i as int, ctrl, reload, cycles),
        final(bus)@.wf(),
{
    reveal(TimerState::channel_stepped);
    if ctrl & 0x80 == 0 || (i > 0 && ctrl & 4 != 0) {
        return;
    }
    let presc: u32 = match ctrl & 3 {
        0 => 1,
        1 => 64,
        2 => 256,
        _ => 1024,
    };
    let total: u32 = t.frac[i].wrapping_add(cycles);
    t.frac[i] = total % presc;
    if total >= presc {
        tick_channel(t, bus, ov, i, total / presc, ctrl, reload);
    }
}

/// Advances the timers; returns how often each channel overflowed.
pub fn step(t: &mut Timers, bus: &mut Bus, cycles: u32) -> (ov: [u32; 4])
    requires
        old(bus)@.wf(),
    ensures
        (TimerState { t: *final(t), b: final(bus)@, ov }) == timers_stepped(
            *old(t),
            old(bus)@,
            cycles,
        ),
        final(bus)@.wf(),
{
    reveal(timers_stepped);
    let ctrl = bus.timer_ctrls();
    let reload = bus.timer_reloads();
    let mut ov: [u32; 4] = [0u32, 0, 0, 0];
    assert(ov =~= [0u32, 0, 0, 0]);
    step_channel(t, bus, &mut ov, 0, ctrl[0], reload[0], cycles);
    step_channel(t, bus, &mut ov, 1, ctrl[1], reload[1], cycles);
    step_channel(t, bus, &mut ov, 2, ctrl[2], reload[2], cycles);
    step_channel(t, bus, &mut ov, 3, ctrl[3], reload[3], cycles);
    ov
}

/// Timer enables latched during register writes: those channels take their
/// reload value.
#[verifier::opaque]
pub open spec fn starts_applied(t: Timers, b: BusModel, n: nat) -> (Timers, BusModel)
    decreases n,
{
    if n == 0 {
        (t, b)
    } else {
        let i = n - 1;
        let (u, s) = starts_applied(t, b, i as nat);
        if b.timer_start_mask & (1u8 << (i as u8)) != 0 {
            (
                u.reloaded(i, b.timer_reload[i]),
                s.write16_raw(counter_addr(i), b.timer_reload[i]),
            )
        } else {
            (u, s)
        }
    }
}

impl Bus {
    /// Applies timer enable 0 to 1 reloads latched during register writes.
    pub fn apply_timer_starts(&mut self, timers: &mut Timers)
        requires
            old(self)@.wf(),
        ensures
            ({
                let (u, s) = starts_applied(*old(timers), old(self)@, 4);
                *final(timers) == u && final(self)@ == (BusModel { timer_start_mask: 0, ..s })
            }),
            final(self)@.wf(),
    {
        reveal(starts_applied);
        let m: u8 = self.timer_starts();
        let reload = self.timer_reloads();
        let mut i: usize = 0;
        while i < 4
            invariant
                i <= 4,
                self@.wf(),
                m == old(self)@.timer_start_mask,
                reload == old(self)@.timer_reload,
                (*timers, self@) == starts_applied(*old(timers), old(self)@, i as nat),
            decreases 4 - i,
        {
            reveal(starts_applied);
            if m & (1u8 << (i as u8)) != 0 {
                let r: u16 = reload[i];
                timers.on_write_reload(i, r);
                self.write16_raw(0x0400_0100 + i as u32 * 4, r);
            }
            i += 1;
        }
        self.clear_timer_starts();
    }
}

} // verus!
