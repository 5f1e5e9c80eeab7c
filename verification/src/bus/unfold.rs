//! One step of each effect that can start another.

use crate::bits::{hi16, lo16};
use crate::bus::model::BusModel;
use crate::dma::{adjusted, dma_base, idle_dma, Channel, DmaController};
use crate::rtc::{GPIO_CTRL, GPIO_DATA, GPIO_DIR};
use vstd::prelude::*;

verus! {

/// No unit moved, and one more.
pub proof fn lemma_moved(
    b: BusModel,
    depth: nat,
    word: bool,
    src: u32,
    dst: u32,
    src_adj: u16,
    dst_adj: u16,
    n: nat,
)
    ensures
        b.moved(depth, word, src, dst, src_adj, dst_adj, 0) == (b, src, dst),
        ({
            let (s, a, d) = b.moved(depth, word, src, dst, src_adj, dst_adj, n);
            let step: u32 = if word {
                4
            } else {
                2
            };
            b.moved(depth, word, src, dst, src_adj, dst_adj, n + 1) == (
                s.unit_moved(depth, word, a, d),
                adjusted(a, src_adj, step),
                adjusted(d, dst_adj, step),
            )
        }),
{
    reveal_with_fuel(BusModel::moved, 2);
}

/// A transfer in terms of its parts.
pub proof fn lemma_transferred(b: BusModel, depth: nat, ch: int, c: Channel)
    ensures
        c.ctrl & 0x8000 == 0 ==> b.transferred(depth, ch, c) == (b, Channel { active: false, ..c }),
        c.ctrl & 0x8000 != 0 ==> ({
            let (s, src, dst) = b.moved(
                depth,
                c.wide(ch),
                c.planned(ch).src,
                c.planned(ch).dst,
                c.src_mode(),
                c.dst_mode(ch),
                c.units(ch),
            );
            b.transferred(depth, ch, c) == s.finished(ch, c, src, dst)
        }),
{
    reveal(BusModel::transferred);
    reveal(BusModel::moved);
}

/// A refill in terms of its transfer.
pub proof fn lemma_refilled(b: BusModel, depth: nat, ch: int, c: Channel)
    ensures
        ({
            let (s, d) = b.transferred(depth, ch, Channel { count: 4, ..c });
            b.refilled(depth, ch, c) == (
                BusModel {
                    sound: s.sound.req_cleared(
                        if ch == 1 {
                            0u8
                        } else {
                            1u8
                        },
                    ),
                    ..s
                },
                Channel { count: c.count, ..d },
            )
        }),
{
    reveal(BusModel::refilled);
    reveal(BusModel::transferred);
}

/// A started channel in terms of its transfers.
pub proof fn lemma_started(b: BusModel, depth: nat, ch: int, c: Channel)
    ensures
        c.timing() == 0 ==> b.started(depth, ch, c) == b.transferred(depth, ch, c),
        c.timing() != 0 && c.feeds_fifo(ch) && b.fifo_room(ch) ==> ({
            let (t, f) = b.refilled(depth, ch, c);
            b.started(depth, ch, c) == (if t.fifo_room(ch) {
                t.refilled(depth, ch, f)
            } else {
                (t, f)
            })
        }),
        c.timing() != 0 && !(c.feeds_fifo(ch) && b.fifo_room(ch)) ==> b.started(depth, ch, c) == (
            b,
            c,
        ),
{
    reveal(BusModel::started);
    reveal(BusModel::transferred);
    reveal(BusModel::refilled);
}

/// A DMAxCNT_H write in terms of what it starts.
pub proof fn lemma_cnt_h_seen(b: BusModel, depth: nat, d: DmaController, ch: int)
    ensures
        ({
            let (s, sad, dad, cnt_l, cnt_h) = b.dma_regs(ch);
            let (t, e) = s.started(depth, ch, d.ch[ch].enabled(ch, sad, dad, cnt_l, cnt_h));
            b.cnt_h_seen(depth, d, ch) == (if cnt_h & 0x8000 == 0 {
                (s, d.with(ch, Channel { ctrl: cnt_h, active: false, ..d.ch[ch] }))
            } else {
                (t, d.with(ch, e))
            })
        }),
{
    reveal(BusModel::cnt_h_seen);
    reveal(BusModel::started);
}

/// A DMAxCNT_H store in terms of the controller's reaction.
pub proof fn lemma_dma_ctrl_written(b: BusModel, depth: nat, ch: int, val: u16)
    ensures
        ({
            let s = b.write16_raw((dma_base(ch) + 10) as u32, val);
            &&& depth == 0 ==> b.dma_ctrl_written(depth, ch, val) == s
            &&& depth > 0 ==> ({
                let (t, d) = BusModel { dma: idle_dma(), ..s }.cnt_h_seen(
                    (depth - 1) as nat,
                    s.dma,
                    ch,
                );
                b.dma_ctrl_written(depth, ch, val) == (BusModel { dma: d, ..t })
            })
        }),
{
    reveal(BusModel::dma_ctrl_written);
    reveal(BusModel::cnt_h_seen);
}

/// A halfword into the IO page in terms of its registers.
pub proof fn lemma_io16_written(b: BusModel, depth: nat, off: u16, val: u16)
    ensures
        b.io16_written(depth, off, val) == (if off == 0x0BA {
            b.dma_ctrl_written(depth, 0, val)
        } else if off == 0x0C6 {
            b.dma_ctrl_written(depth, 1, val)
        } else if off == 0x0D2 {
            b.dma_ctrl_written(depth, 2, val)
        } else if off == 0x0DE {
            b.dma_ctrl_written(depth, 3, val)
        } else {
            b.reg_written(off, val)
        }),
{
    reveal(BusModel::io16_written);
    reveal(BusModel::dma_ctrl_written);
}

/// A halfword write by the device it reaches.
pub proof fn lemma_write16_at(b: BusModel, depth: nat, addr: u32, val: u16)
    ensures
        ({
            let a = addr & !1u32;
            b.write16_at(depth, addr, val) == (if a >> 24 == 0x0D && b.eeprom is Some {
                b.eeprom_bit(val)
            } else if b.rtc.present && (a == GPIO_DATA || a == GPIO_DIR || a == GPIO_CTRL) {
                BusModel { rtc: b.rtc.gpio_write(a, val), ..b }
            } else if a >> 24 == 0x04 {
                if a >= 0x0400_0400 {
                    b
                } else {
                    b.io16_written(depth, (a & 0x3FF) as u16, val)
                }
            } else {
                b.write16_raw(a, val)
            })
        }),
{
    reveal(BusModel::write16_at);
    reveal(BusModel::io16_written);
}

/// A word write by the device it reaches.
pub proof fn lemma_write32_at(b: BusModel, depth: nat, addr: u32, val: u32)
    ensures
        ({
            let a = addr & !3u32;
            b.write32_at(depth, addr, val) == (if a == 0x0400_00A0 {
                BusModel { sound: b.sound.word_a(val), ..b }
            } else if a == 0x0400_00A4 {
                BusModel { sound: b.sound.word_b(val), ..b }
            } else {
                b.write16_at(depth, a, lo16(val)).write16_at(
                    depth,
                    a.wrapping_add(2),
                    hi16(val),
                )
            })
        }),
{
    reveal(BusModel::write32_at);
    reveal(BusModel::write16_at);
}

} // verus!
