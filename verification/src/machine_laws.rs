//! What the machine keeps over time: lines and frames, timers, interrupts, DMA,
//! division and the battery.

use crate::battery::SaveType;
use crate::bios_hle::math::{divided, magnitude};
use crate::bits::{lemma_and16, lemma_low_bits};
use crate::bus::model::BusModel;
use crate::cpu::cpsr::MODE_IRQ;
use crate::cpu::Cpu;
use crate::dma::{full_count, Channel, DmaController};
use crate::irq::{irq_checked, irq_entered, irq_taken};
use crate::ppu::{PpuModel, CYCLES_PER_LINE, LINES_PER_FRAME};
use crate::timers::{prescaler, TimerState};
use vstd::prelude::*;

verus! {

// ---- lines and frames ---------------------------------------------------

proof fn lemma_line(p: PpuModel, b: BusModel)
    requires
        p.line < LINES_PER_FRAME,
    ensures
        p.hblanked(b).0.line == p.line,
        p.hblanked(b).0.line_cycles == p.line_cycles,
        p.hblanked(b).0.frame_ready == p.frame_ready,
        ({
            let q = p.line_finished(b).0;
            &&& q.line == if p.line + 1 >= LINES_PER_FRAME {
                0
            } else {
                p.line + 1
            }
            &&& q.frame_ready == (p.frame_ready || p.line + 1 >= LINES_PER_FRAME)
        }),
{
    reveal(PpuModel::hblanked);
    reveal(PpuModel::line_finished);
    reveal(PpuModel::latched);
    reveal(PpuModel::advanced);
}

proof fn lemma_lines(p: PpuModel, b: BusModel)
    requires
        p.line < LINES_PER_FRAME,
    ensures
        ({
            let n = p.line_cycles / CYCLES_PER_LINE;
            let q = p.ran(b).0;
            &&& q.line_cycles == p.line_cycles % CYCLES_PER_LINE
            &&& q.line == (p.line + n) % LINES_PER_FRAME as int
            &&& q.frame_ready == (p.frame_ready || p.line + n >= LINES_PER_FRAME)
        }),
    decreases p.line_cycles,
{
    let (h, s) = if !p.hblank_fired && p.line_cycles >= crate::ppu::HBLANK_CYCLE {
        p.hblanked(b)
    } else {
        (p, b)
    };
    lemma_line(p, b);
    if p.line_cycles >= CYCLES_PER_LINE {
        let left = (p.line_cycles - CYCLES_PER_LINE) as u32;
        let x = PpuModel { line_cycles: left, ..h };
        lemma_line(x, s);
        let (q, t) = x.line_finished(s);
        let y = PpuModel { line_cycles: left, ..q };
        lemma_lines(y, t);
        assert(p.ran(b) == y.ran(t));
        assert(p.line_cycles / CYCLES_PER_LINE == left / CYCLES_PER_LINE + 1);
        assert(p.line_cycles % CYCLES_PER_LINE == left % CYCLES_PER_LINE);
    }
}

/// A line lasts 1232 cycles and a frame 228 lines: after any number of cycles
/// the line is the one that so many lines later comes round to, and a frame was
/// completed exactly where the last line was passed.
pub proof fn law_lines_pass(p: PpuModel, b: BusModel, cycles: u32)
    requires
        p.line < LINES_PER_FRAME,
        p.line_cycles + cycles <= u32::MAX,
    ensures
        ({
            let n = (p.line_cycles + cycles) / CYCLES_PER_LINE as int;
            let q = p.stepped(b, cycles).0;
            &&& q.line == (p.line + n) % LINES_PER_FRAME as int
            &&& q.line_cycles == (p.line_cycles + cycles) % CYCLES_PER_LINE as int
            &&& q.frame_ready == (p.line + n >= LINES_PER_FRAME)
        }),
{
    reveal(PpuModel::stepped);
    lemma_lines(
        PpuModel {
            frame_ready: false,
            line_cycles: p.line_cycles.saturating_add(cycles),
            ..p
        },
        b,
    );
}

// ---- timers -------------------------------------------------------------

/// The prescaler loses nothing: cycles that come in two parts tick as often,
/// and leave the same remainder, as the same cycles at once.
pub proof fn law_prescaler_loses_nothing(ctrl: u16, frac: u32, a: u32, b: u32)
    ensures
        ({
            let p = prescaler(ctrl) as int;
            let left = (frac + a) % p;
            &&& (frac + a) / p + (left + b) / p == (frac + a + b) / p
            &&& (left + b) % p == (frac + a + b) % p
        }),
{
    let x = frac + a;
    assert(x % 1 == 0 && (0 + b) / 1 == b && x / 1 == x);
    assert(x / 64 + (x % 64 + b) / 64 == (x + b) / 64);
    assert(x / 256 + (x % 256 + b) / 256 == (x + b) / 256);
    assert(x / 1024 + (x % 1024 + b) / 1024 == (x + b) / 1024);
}

/// An overflow clocks the next channel where that counts up: by one, or back to
/// its reload value where it overflows itself.
pub proof fn law_cascade(s: TimerState, i: int)
    requires
        0 <= i < 3,
    ensures
        ({
            let n = i + 1;
            let up = s.b.timer_ctrl_prev[n] & 0x80 != 0 && s.b.timer_ctrl_prev[n] & 4 != 0;
            let c = s.t.counter[n] & 0xFFFF;
            &&& !up ==> s.cascaded(i) == s
            &&& up && c != 0xFFFF ==> {
                &&& s.cascaded(i).t.counter[n] == c + 1
                &&& s.cascaded(i).ov == s.ov
            }
            &&& up && c == 0xFFFF && i == 2 ==> {
                &&& s.cascaded(i).t.counter[n] == s.t.reload[n]
                &&& s.cascaded(i).ov[n] == s.ov[n].saturating_add(1)
            }
        }),
{
    reveal_with_fuel(TimerState::cascaded, 2);
    reveal_with_fuel(TimerState::raised, 2);
    let n = i + 1;
    lemma_low_bits(s.t.counter[n]);
    let c = ((s.t.counter[n] & 0xFFFF) + 1) as u32;
    assert(s.t.counting(n, c).counter@ =~= s.t.counter@.update(n, c));
    let r = s.t.reload[n] as u32;
    assert(s.t.counting(n, r).counter@ =~= s.t.counter@.update(n, r));
    assert(s.counted(n, 1).ov@ =~= s.ov@.update(n, s.ov[n].saturating_add(1)));
}

/// A stopped channel, and one that counts overflows, pays no heed to cycles.
pub proof fn law_idle_channels(s: TimerState, i: int, ctrl: u16, reload: u16, cycles: u32)
    requires
        ctrl & 0x80 == 0 || (i > 0 && ctrl & 4 != 0),
    ensures
        s.channel_stepped(i, ctrl, reload, cycles) == s,
{
    reveal(TimerState::channel_stepped);
}

// ---- interrupts ---------------------------------------------------------

/// An interrupt is enabled and pending.
pub open spec fn irq_visible(b: BusModel) -> bool {
    let (s, ime) = b.read16(0x0400_0208);
    let (s, ie) = s.read16(0x0400_0200);
    let (s, pending) = s.read16(0x0400_0202);
    ime & 1 != 0 && ie & pending != 0
}

/// A visible interrupt is not taken in the first cycle after it became so; it
/// is once two cycles have passed.
pub proof fn law_irq_comes_after_two_cycles(c: Cpu, b: BusModel, ran: u32)
    requires
        !c.cpsr.irq_disable,
        irq_visible(b),
        b.irq_countdown == 0,
    ensures
        ran < 2 ==> irq_checked(c, b, ran).0 == c && irq_checked(c, b, ran).1.irq_countdown == 2 - ran,
        ran >= 2 ==> exists|s: BusModel| irq_checked(c, b, ran) == #[trigger] irq_entered(c, s),
{
    reveal(irq_checked);
    reveal(BusModel::read16);
    lemma_reads_keep_countdown(b);
    let (s, ime) = b.read16(0x0400_0208);
    let (s, ie) = s.read16(0x0400_0200);
    let (s, pending) = s.read16(0x0400_0202);
    if ran >= 2 {
        assert(irq_checked(c, b, ran) == irq_entered(c, BusModel { irq_countdown: 0, ..s }));
    }
}

proof fn lemma_read_keeps_countdown(b: BusModel, a: u32)
    ensures
        b.read16(a).0.irq_countdown == b.irq_countdown,
{
    reveal(BusModel::read16);
    reveal(BusModel::read8);
    reveal(BusModel::noted);
    reveal(BusModel::latched16);
}

proof fn lemma_reads_keep_countdown(b: BusModel)
    ensures
        ({
            let s = b.read16(0x0400_0208).0;
            let s = s.read16(0x0400_0200).0;
            s.read16(0x0400_0202).0.irq_countdown == b.irq_countdown
        }),
{
    let s = b.read16(0x0400_0208).0;
    let t = s.read16(0x0400_0200).0;
    lemma_read_keeps_countdown(b, 0x0400_0208);
    lemma_read_keeps_countdown(s, 0x0400_0200);
    lemma_read_keeps_countdown(t, 0x0400_0202);
}

/// A masked CPU takes no interrupt, and the wait begins anew.
pub proof fn law_masked_irq_waits(c: Cpu, b: BusModel, ran: u32)
    requires
        c.cpsr.irq_disable,
    ensures
        irq_checked(c, b, ran) == (c, BusModel { irq_countdown: 0, ..b }),
{
    reveal(irq_checked);
}

/// The exception enters IRQ mode in ARM state with interrupts off. The status
/// word it came from is in SPSR, and the link register is four past the
/// instruction to go on with.
pub proof fn law_irq_exception(c: Cpu)
    ensures
        ({
            let d = irq_taken(c);
            &&& d.cpsr.mode == MODE_IRQ && d.cpsr.irq_disable && !d.cpsr.thumb
            &&& d.spsr == c.cpsr
            &&& d.r[14] == c.r[15].wrapping_add(4)
        }),
{
    reveal(irq_taken);
}

// ---- DMA ----------------------------------------------------------------

/// A count register of zero means the most that the channel can move.
pub proof fn law_zero_count_is_full(ch: int, cnt: u16)
    requires
        0 <= ch < 4,
    ensures
        full_count(ch, 0) == if ch == 3 {
            0x1_0000u32
        } else {
            0x4000u32
        },
        cnt != 0 ==> full_count(ch, cnt) == cnt,
{
}

/// A channel that is not enabled moves nothing.
pub proof fn law_disabled_channel(b: BusModel, depth: nat, ch: int, c: Channel)
    requires
        c.ctrl & 0x8000 == 0,
    ensures
        b.transferred(depth, ch, c) == (b, Channel { active: false, ..c }),
{
    crate::bus::unfold::lemma_transferred(b, depth, ch, c);
}

/// A transfer without repeat ends with its channel switched off.
pub proof fn law_one_shot_switches_off(b: BusModel, depth: nat, ch: int, c: Channel)
    requires
        c.ctrl & 0x8000 != 0,
        c.ctrl & 0x200 == 0,
    ensures
        !b.transferred(depth, ch, c).1.active,
        b.transferred(depth, ch, c).1.ctrl & 0x8000 == 0,
{
    crate::bus::unfold::lemma_transferred(b, depth, ch, c);
    reveal(BusModel::finished);
    let h = c.ctrl;
    lemma_and16(h, 0x8000);
}

/// Video capture moves a line only from VCOUNT 2 to 161, and switches itself
/// off at 162.
pub proof fn law_capture_lines(b: BusModel, d: DmaController)
    requires
        d.ch[3].active,
        d.ch[3].timing() == 3,
    ensures
        ({
            let (s, v) = b.read16(0x0400_0006);
            &&& v < 2 || v > 162 ==> b.captured(d) == (s, d)
            &&& v == 162 ==> !b.captured(d).1.ch[3].active
        }),
{
    reveal(BusModel::captured);
    reveal(DmaController::with);
    let c = d.ch[3];
    let e = Channel { ctrl: c.ctrl & !0x8000u16, active: false, ..c };
    assert(d.with(3, e).ch@ =~= d.ch@.update(3, e));
}

// ---- division -----------------------------------------------------------

/// A word as a signed number.
pub open spec fn signed(v: u32) -> int {
    if v >= 0x8000_0000 {
        v - 0x1_0000_0000
    } else {
        v as int
    }
}

/// BIOS division: numerator = quotient times denominator plus remainder, the
/// remainder smaller than the denominator and signed like the numerator. The
/// one quotient that does not fit a word, of the smallest number by minus one,
/// is left out.
pub proof fn law_division(c: Cpu, num: u32, den: u32)
    requires
        den != 0,
        !(num == 0x8000_0000 && den == 0xFFFF_FFFF),
    ensures
        ({
            let d = divided(c, num, den);
            let (q, r) = (signed(d.r[0]), signed(d.r[1]));
            &&& signed(num) == q * signed(den) + r
            &&& (if r < 0 { -r } else { r }) < (if signed(den) < 0 { -signed(den) } else { signed(den) })
            &&& r < 0 ==> signed(num) < 0
            &&& r > 0 ==> signed(num) > 0
            &&& d.r[3] == if q < 0 {
                -q
            } else {
                q
            }
        }),
{
    reveal(divided);
    let a = magnitude(num) as int;
    let b = magnitude(den) as int;
    let q = a / b;
    let r = a % b;
    assert(a == b * q + r && 0 <= r < b && 0 <= q <= a) by (nonlinear_arith)
        requires
            b > 0,
            a >= 0,
            q == a / b,
            r == a % b,
    ;
    if q == 0x8000_0000 {
        assert(b == 1) by (nonlinear_arith)
            requires
                a == b * q + r,
                r >= 0,
                a <= 0x8000_0000,
                q == 0x8000_0000,
                b > 0,
        ;
    }
    let (x, y) = (q, b);
    assert((-x) * y == -(x * y) && x * (-y) == -(x * y) && (-x) * (-y) == x * y && x * y == y * x)
        by (nonlinear_arith);
}

// ---- battery ------------------------------------------------------------

/// The save hardware has the size of its type.
pub open spec fn sized(b: BusModel) -> bool {
    match b.save_type {
        SaveType::Flash64 => b.flash matches Some(f) && f.data.len() == 0x1_0000,
        SaveType::Flash128 => b.flash matches Some(f) && f.data.len() == 0x2_0000,
        SaveType::Eeprom512 => b.eeprom matches Some(e) && e.data.len() == 512,
        SaveType::Eeprom8K => b.eeprom matches Some(e) && e.data.len() == 8192,
        SaveType::Sram(n) => 1 <= n <= b.sram.len(),
        SaveType::NoSave => false,
    }
}

/// A battery that is written to its file comes back in another machine with the
/// same save hardware.
pub proof fn law_battery_round_trip(m: BusModel, n: BusModel)
    requires
        m.save_type == n.save_type,
        sized(m),
        sized(n),
    ensures
        m.battery() is Some,
        n.battery_loaded(m.battery()).battery() == m.battery(),
        !n.battery_loaded(m.battery()).save_dirty,
{
    reveal(BusModel::battery);
    reveal(BusModel::battery_loaded);
    let d = m.battery()->0;
    assert(n.battery_loaded(m.battery()).battery()->0 =~= d);
}

} // verus!
