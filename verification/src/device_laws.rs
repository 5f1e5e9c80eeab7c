//! What timers, interrupt lines, keys and wait states count.

use crate::bits::{digit, lemma_address_digits, lemma_digit, lemma_digits16};
use crate::bus::model::{keys_match, rom_cycles};
use crate::dma::dma_irq;
use crate::irq::{IRQ_HBLANK, IRQ_KEYPAD, IRQ_SERIAL, IRQ_VBLANK, IRQ_VCOUNTER};
use crate::sound::mixer::prescale;
use crate::timers::{counter_addr, prescaler, timer_irq, TimerState};
use vstd::prelude::*;

verus! {

// ---- timers -------------------------------------------------------------

/// A timer counts every cycle, or every 64th, 256th or 1024th; the sound clock
/// reads the same code.
pub proof fn law_prescaler_codes(ctrl: u16)
    ensures
        ({
            let code = digit(ctrl as int, 1, 4);
            &&& code == 0 ==> prescaler(ctrl) == 1
            &&& code == 1 ==> prescaler(ctrl) == 64
            &&& code == 2 ==> prescaler(ctrl) == 256
            &&& code == 3 ==> prescaler(ctrl) == 1024
            &&& prescale(ctrl) == prescaler(ctrl)
        }),
{
    lemma_digits16(ctrl);
    lemma_digit(ctrl as int, 1, 4);
}

// ---- interrupts ---------------------------------------------------------

/// The interrupt lines in order: VBlank, HBlank, VCount, four timers, the
/// serial port, four DMA channels, the keypad.
pub proof fn law_interrupt_lines(i: int)
    requires
        0 <= i < 3,
    ensures
        IRQ_VBLANK == 1,
        IRQ_HBLANK == 2 * IRQ_VBLANK,
        IRQ_VCOUNTER == 2 * IRQ_HBLANK,
        timer_irq(0) == 2 * IRQ_VCOUNTER,
        timer_irq(i + 1) == 2 * timer_irq(i),
        IRQ_SERIAL == 2 * timer_irq(3),
        dma_irq(0) == 2 * IRQ_SERIAL,
        dma_irq(i + 1) == 2 * dma_irq(i),
        IRQ_KEYPAD == 2 * dma_irq(3),
{
}

// ---- wait states --------------------------------------------------------

/// A first access to the Game Pak waits 4, 3, 2 or 8 cycles by two bits of
/// WAITCNT, each of three areas by its own; a next one waits 2, 4 or 8 by area,
/// or 1 where its bit is set.
pub proof fn law_wait_states(waitcnt: u16, a: u32)
    requires
        0x0800_0000 <= a < 0x0E00_0000,
    ensures
        ({
            let area = (a as int / 0x100_0000 - 8) / 2;
            let w = waitcnt as int;
            let code = if area == 0 { digit(w, 4, 4) } else if area == 1 { digit(w, 0x20, 4) } else { digit(w, 0x100, 4) };
            let fast = if area == 0 { digit(w, 0x10, 2) } else if area == 1 { digit(w, 0x80, 2) } else { digit(w, 0x400, 2) };
            let (first, next) = rom_cycles(waitcnt, a);
            &&& code < 3 ==> first == 4 - code
            &&& code == 3 ==> first == 8
            &&& fast == 1 ==> next == 1
            &&& fast == 0 && area == 0 ==> next == 2
            &&& fast == 0 && area == 1 ==> next == 4
            &&& fast == 0 && area == 2 ==> next == 8
        }),
{
    lemma_digits16(waitcnt);
    lemma_address_digits(a);
    lemma_digit(waitcnt as int, 4, 4);
    lemma_digit(waitcnt as int, 0x20, 4);
    lemma_digit(waitcnt as int, 0x100, 4);
    lemma_digit(waitcnt as int, 0x10, 2);
    lemma_digit(waitcnt as int, 0x80, 2);
    lemma_digit(waitcnt as int, 0x400, 2);
}

// ---- keys ---------------------------------------------------------------

/// KEYCNT selects keys. In one mode any selected key that is down is enough;
/// in the other a selected key that is up is one too many. A selection of
/// nothing asks for nothing.
pub proof fn law_key_selection(keycnt: u16, pressed: u16, k: u16)
    requires
        k < 10,
    ensures
        ({
            let chosen = (keycnt >> k) & 1 == 1;
            let down = (pressed >> k) & 1 == 1;
            let all = digit(keycnt as int, 0x8000, 2) == 1;
            &&& !all && chosen && down ==> keys_match(keycnt, pressed)
            &&& all && chosen && !down ==> !keys_match(keycnt, pressed)
            &&& !all && digit(keycnt as int, 1, 0x400) == 0 ==> !keys_match(keycnt, pressed)
            &&& all && pressed & 0x3FF == 0x3FF ==> keys_match(keycnt, pressed)
            &&& !all && pressed & 0x3FF == 0 ==> !keys_match(keycnt, pressed)
        }),
{
    lemma_digits16(keycnt);
    let m = keycnt & 0x3FF;
    assert(((keycnt >> k) & 1 == 1 && (pressed >> k) & 1 == 1 ==> pressed & m != 0) && ((keycnt >> k) & 1 == 1 && (pressed
        >> k) & 1 != 1 ==> pressed & m != m) && (m == 0 ==> pressed & m == 0) && (pressed & 0x3FF == 0x3FF ==> pressed
        & m == m) && (pressed & 0x3FF == 0 ==> pressed & m == 0)) by (bit_vector)
        requires
            k < 10,
            m == keycnt & 0x3FF,
    ;
}

} // verus!
