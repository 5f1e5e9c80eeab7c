//! Wait states and the keypad.

use crate::bus::model::{keys_match, rom_cycles, sat32, wait_code, BusModel};
use crate::bus::Bus;
use crate::irq::{raise, IRQ_KEYPAD};
use vstd::prelude::*;

verus! {

impl Bus {
    fn wait_cycles(code: u16) -> (r: u32)
        ensures
            r == wait_code(code),
            2 <= r <= 8,
    {
        let c: u16 = code & 3;
        if c == 0 {
            4
        } else if c == 1 {
            3
        } else if c == 2 {
            2
        } else {
            8
        }
    }

    fn sram_wait(&mut self) -> (r: u32)
        requires
            old(self)@.wf(),
        ensures
            final(self)@ == old(self)@.read16(0x0400_0204).0,
            r == wait_code(old(self)@.read16(0x0400_0204).1),
            2 <= r <= 8,
            final(self)@.wf(),
    {
        let w: u16 = self.read16(0x0400_0204);
        Self::wait_cycles(w)
    }

    fn rom_ns(&mut self, addr: u32) -> (r: (u32, u32))
        requires
            old(self)@.wf(),
        ensures
            final(self)@ == old(self)@.read16(0x0400_0204).0,
            r == rom_cycles(old(self)@.read16(0x0400_0204).1, addr),
            2 <= r.0 <= 8,
            1 <= r.1 <= 8,
            final(self)@.wf(),
    {
        let w: u16 = self.read16(0x0400_0204);
        let r: u32 = addr >> 24;
        if r == 0x08 || r == 0x09 {
            (
                Self::wait_cycles(w >> 2),
                if w & 0x10 != 0 {
                    1
                } else {
                    2
                },
            )
        } else if r == 0x0A || r == 0x0B {
            (
                Self::wait_cycles(w >> 5),
                if w & 0x80 != 0 {
                    1
                } else {
                    4
                },
            )
        } else {
            (
                Self::wait_cycles(w >> 8),
                if w & 0x400 != 0 {
                    1
                } else {
                    8
                },
            )
        }
    }

    /// Instruction-fetch wait states beyond the 1 I-cycle baseline.
    pub fn fetch_waitstates(&mut self, pc: u32) -> (r: u32)
        requires
            old(self)@.wf(),
        ensures
            (final(self)@, r) == old(self)@.fetch_waits(pc),
            r <= 7,
            final(self)@.wf(),
    {
        reveal(BusModel::fetch_waits);
        let r: u32 = pc >> 24;
        let seq: bool = self.begin_fetch(pc);
        let prefetch: bool = self.read16(0x0400_0204) & 0x4000 != 0;
        if r == 0 || (3 <= r && r <= 7) {
            if prefetch {
                let n: u8 = self.prefetch();
                self.set_prefetch(
                    if n >= 7 {
                        8
                    } else {
                        n + 1
                    },
                );
            }
            0
        } else if r == 2 {
            2
        } else if 0x08 <= r && r <= 0x0D {
            let (n, q) = self.rom_ns(pc);
            if seq {
                if prefetch {
                    self.set_prefetch(1);
                    0
                } else {
                    q - 1
                }
            } else {
                self.set_prefetch(0);
                n - 1
            }
        } else if r == 0x0E || r == 0x0F {
            self.sram_wait() - 1
        } else {
            1
        }
    }

    /// Extra cycles on a data access.
    pub fn data_waitstates(&mut self, addr: u32, bytes: u32) -> (r: u32)
        requires
            old(self)@.wf(),
        ensures
            (final(self)@, r) == old(self)@.data_waits(addr, bytes),
            r <= 15,
            final(self)@.wf(),
    {
        reveal(BusModel::data_waits);
        let r: u32 = addr >> 24;
        if r == 2 {
            if bytes >= 4 {
                4
            } else {
                2
            }
        } else if 5 <= r && r <= 7 {
            if bytes >= 4 {
                1
            } else {
                0
            }
        } else if 0x08 <= r && r <= 0x0D {
            self.note_cart_data();
            let (n, q) = self.rom_ns(addr);
            if bytes >= 4 {
                n + q - 1
            } else {
                n - 1
            }
        } else if r == 0x0E || r == 0x0F {
            self.sram_wait() - 1
        } else {
            0
        }
    }

    fn add_times(first: u32, k: u32, n: u32) -> (r: u32)
        requires
            k <= 7,
        ensures
            r == sat32(first + k * n),
    {
        assert(0 <= k * n <= 7 * 0xFFFF_FFFF) by (nonlinear_arith)
            requires
                0 <= k <= 7,
                0 <= n <= 0xFFFF_FFFF,
        ;
        let t: u64 = first as u64 + (k as u64) * (n as u64);
        if t > 0xFFFF_FFFF {
            0xFFFF_FFFF
        } else {
            t as u32
        }
    }

    /// Extra cycles for a burst of `words` 32-bit transfers (LDM/STM).
    pub fn data_burst_waitstates(&mut self, addr: u32, words: u32) -> (r: u32)
        requires
            old(self)@.wf(),
        ensures
            (final(self)@, r) == old(self)@.burst_waits(addr, words),
            words <= 16 ==> r <= 120,
            final(self)@.wf(),
    {
        reveal(BusModel::burst_waits);
        let first: u32 = self.data_waitstates(addr, 4);
        if words <= 1 {
            return first;
        }
        let r: u32 = addr >> 24;
        if r == 2 {
            Self::add_times(first, 2, words - 1)
        } else if 5 <= r && r <= 7 {
            Self::add_times(first, 1, words - 1)
        } else if 0x08 <= r && r <= 0x0D {
            let (_n, q) = self.rom_ns(addr);
            proof {
                if words <= 16 {
                    assert((q - 1) * (words - 1) <= 7 * 15) by (nonlinear_arith)
                        requires
                            1 <= q <= 8,
                            1 <= words <= 16,
                    ;
                }
            }
            Self::add_times(first, q - 1, words - 1)
        } else {
            first
        }
    }

    fn keys_fire(keycnt: u16, pressed: u16) -> (r: bool)
        ensures
            r == keys_match(keycnt, pressed),
    {
        let mask: u16 = keycnt & 0x03FF;
        if keycnt & 0x8000 != 0 {
            pressed & mask == mask
        } else {
            pressed & mask != 0
        }
    }

    /// Sets the pressed keys; a KEYCNT selection that newly matches interrupts.
    pub fn set_keys_pressed(&mut self, pressed_mask: u16)
        requires
            old(self)@.wf(),
        ensures
            final(self)@ == old(self)@.keys_set(pressed_mask),
            final(self)@.wf(),
    {
        reveal(BusModel::keys_set);
        let prev: u16 = self.key_bits();
        let now: u16 = (!pressed_mask) & 0x03FF;
        self.set_key_bits(now);
        let keycnt: u16 = self.read16(0x0400_0132);
        if keycnt & 0x4000 != 0 && keycnt & 0x03FF != 0 && Self::keys_fire(
            keycnt,
            (!now) & 0x03FF,
        ) && !Self::keys_fire(keycnt, (!prev) & 0x03FF) {
            raise(self, IRQ_KEYPAD);
        }
    }
}

} // verus!
