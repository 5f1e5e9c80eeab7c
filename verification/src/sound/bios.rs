//! GBA BIOS audio services.
//!
//! SoundBias does real work. The driver and music player entries only count:
//! they must not write a made-up PCM buffer, since ROM-side mixers own it.

use crate::bus::model::BusModel;
use crate::bus::{Bus, MathCall};
use crate::cpu::Cpu;
use vstd::prelude::*;

verus! {

/// Sound driver bookkeeping of the BIOS services.
#[derive(Debug, Clone, Copy)]
pub struct SoundDriver {
    pub init_count: u32,
    pub mode_count: u32,
    pub main_count: u32,
    pub vsync_count: u32,
    pub music_open: u32,
    pub bias_desired: u16,
    pub bias_current: u16,
    /// Last known SoundInfo address.
    pub info_addr: u32,
    /// DirectSound configuration bits that the game asked for.
    pub da_flags: u16,
}

pub open spec fn fresh_driver() -> SoundDriver {
    SoundDriver {
        init_count: 0,
        mode_count: 0,
        main_count: 0,
        vsync_count: 0,
        music_open: 0,
        bias_desired: 0x200,
        bias_current: 0x200,
        info_addr: 0,
        da_flags: 0,
    }
}

impl SoundDriver {
    pub fn new() -> (r: Self)
        ensures
            r == fresh_driver(),
    {
        SoundDriver {
            init_count: 0,
            mode_count: 0,
            main_count: 0,
            vsync_count: 0,
            music_open: 0,
            bias_desired: 0x200,
            bias_current: 0x200,
            info_addr: 0,
            da_flags: 0,
        }
    }
}

/// The bias one step nearer its target: a thirty-second of the way, rounded up.
pub open spec fn bias_step(cur: u16, target: u16) -> u16 {
    if cur < target {
        (cur + (target - cur + 31) / 32) as u16
    } else if cur > target {
        (cur - (cur - target + 31) / 32) as u16
    } else {
        cur
    }
}

/// SoundBias: each call drifts toward 200h or 0; before SoundDriverInit the
/// last target counts as reached.
#[verifier::opaque]
pub open spec fn biased(b: BusModel, level: u32) -> BusModel {
    let d = b.sound_driver;
    let from = if d.init_count == 0 {
        d.bias_desired
    } else {
        d.bias_current
    };
    let target: u16 = if level != 0 {
        0x200
    } else {
        0
    };
    let next = bias_step(from, target);
    (BusModel {
        sound_driver: SoundDriver { bias_desired: target, bias_current: next, ..d },
        ..b
    }).write16_raw(0x0400_0088, next)
}

pub fn sound_bias(bus: &mut Bus, level: u32)
    requires
        old(bus)@.wf(),
    ensures
        final(bus)@ == biased(old(bus)@, level),
        final(bus)@.wf(),
{
    reveal(biased);
    let mut d = bus.driver();
    let from: u16 = if d.init_count == 0 {
        d.bias_desired
    } else {
        d.bias_current
    };
    let target: u16 = if level != 0 {
        0x200
    } else {
        0
    };
    let next: u16 = if from < target {
        (from as u32 + (target as u32 - from as u32 + 31) / 32) as u16
    } else if from > target {
        (from as u32 - (from as u32 - target as u32 + 31) / 32) as u16
    } else {
        from
    };
    d.bias_desired = target;
    d.bias_current = next;
    bus.set_driver(d);
    bus.write16_raw(0x0400_0088, next);
}

/// SoundDriverInit: counted; an area in IWRAM is remembered.
#[verifier::opaque]
pub open spec fn initialised(b: BusModel, area: u32) -> BusModel {
    BusModel {
        sound_driver: SoundDriver {
            init_count: b.sound_driver.init_count.wrapping_add(1),
            info_addr: if 0x0300_0000 <= area < 0x0400_0000 {
                area
            } else {
                b.sound_driver.info_addr
            },
            ..b.sound_driver
        },
        ..b
    }
}

pub fn sound_driver_init(cpu: &Cpu, bus: &mut Bus)
    requires
        old(bus)@.wf(),
    ensures
        final(bus)@ == initialised(old(bus)@, cpu.r[0]),
        final(bus)@.wf(),
{
    reveal(initialised);
    let mut d = bus.driver();
    d.init_count = d.init_count.wrapping_add(1);
    let area: u32 = cpu.r[0];
    if area >= 0x0300_0000 && area < 0x0400_0000 {
        d.info_addr = area;
    }
    bus.set_driver(d);
}

/// SoundDriverMode: PSG volume into SOUNDCNT_H; rate bits are remembered.
#[verifier::opaque]
pub open spec fn mode_set(b: BusModel, mode: u32) -> BusModel {
    let m = (mode & 0xFFFF) as u16;
    let (s, cur) = (BusModel {
        sound_driver: SoundDriver {
            mode_count: b.sound_driver.mode_count.wrapping_add(1),
            da_flags: if m & 0xFC00 != 0 {
                m
            } else {
                b.sound_driver.da_flags
            },
            ..b.sound_driver
        },
        ..b
    }).read16(0x0400_0082);
    s.write16_raw(0x0400_0082, (cur & !3u16) | (m & 3))
}

pub fn sound_driver_mode(bus: &mut Bus, mode: u32)
    requires
        old(bus)@.wf(),
    ensures
        final(bus)@ == mode_set(old(bus)@, mode),
        final(bus)@.wf(),
{
    reveal(mode_set);
    let mut d = bus.driver();
    let m: u16 = (mode & 0xFFFF) as u16;
    d.mode_count = d.mode_count.wrapping_add(1);
    if m & 0xFC00 != 0 {
        d.da_flags = m;
    }
    bus.set_driver(d);
    let cur: u16 = bus.read16(0x0400_0082);
    bus.write16_raw(0x0400_0082, (cur & !3) | (m & 3));
}

/// SoundDriverMain: only counted. ROM mixers own the DMA source.
pub open spec fn main_counted(b: BusModel) -> BusModel {
    BusModel {
        sound_driver: SoundDriver {
            main_count: b.sound_driver.main_count.wrapping_add(1),
            ..b.sound_driver
        },
        ..b
    }
}

pub fn sound_driver_main(bus: &mut Bus)
    requires
        old(bus)@.wf(),
    ensures
        final(bus)@ == main_counted(old(bus)@),
        final(bus)@.wf(),
{
    let mut d = bus.driver();
    d.main_count = d.main_count.wrapping_add(1);
    bus.set_driver(d);
}

/// SoundDriverVSync and its switches: only counted.
pub open spec fn vsynced(b: BusModel) -> BusModel {
    BusModel {
        sound_driver: SoundDriver {
            vsync_count: b.sound_driver.vsync_count.wrapping_add(1),
            ..b.sound_driver
        },
        ..b
    }
}

pub fn sound_driver_vsync(bus: &mut Bus)
    requires
        old(bus)@.wf(),
    ensures
        final(bus)@ == vsynced(old(bus)@),
        final(bus)@.wf(),
{
    let mut d = bus.driver();
    d.vsync_count = d.vsync_count.wrapping_add(1);
    bus.set_driver(d);
}

/// MusicPlayerOpen: only counted.
pub open spec fn opened(b: BusModel) -> BusModel {
    BusModel {
        sound_driver: SoundDriver {
            music_open: b.sound_driver.music_open.wrapping_add(1),
            ..b.sound_driver
        },
        ..b
    }
}

pub fn music_player_open(bus: &mut Bus)
    requires
        old(bus)@.wf(),
    ensures
        final(bus)@ == opened(old(bus)@),
        final(bus)@.wf(),
{
    let mut d = bus.driver();
    d.music_open = d.music_open.wrapping_add(1);
    bus.set_driver(d);
}

/// MidiKey2Freq: the wave header at R0 gives the base frequency. An
/// implausible one answers 1 at once; otherwise the host is asked.
#[verifier::opaque]
pub open spec fn key_asked(c: Cpu, b: BusModel) -> (Cpu, BusModel) {
    let (s, hz) = if 0x0300_0000 <= c.r[0] < 0x0A00_0000 {
        b.read32(c.r[0].wrapping_add(8))
    } else {
        (b, 1)
    };
    if hz > 1_000_000 {
        (c.with_r(0, 1), s)
    } else {
        (
            c,
            BusModel {
                math: Some(
                    MathCall::MidiKey {
                        base_hz: if hz < 1 {
                            1
                        } else {
                            hz
                        },
                        key: c.r[1],
                        fine: c.r[2],
                    },
                ),
                ..s
            },
        )
    }
}

pub fn midi_key_freq(cpu: &mut Cpu, bus: &mut Bus)
    requires
        old(bus)@.wf(),
    ensures
        (*final(cpu), final(bus)@) == key_asked(*old(cpu), old(bus)@),
        final(bus)@.wf(),
{
    reveal(key_asked);
    let wave: u32 = cpu.r[0];
    let hz: u32 = if wave >= 0x0300_0000 && wave < 0x0A00_0000 {
        bus.read32(wave.wrapping_add(8))
    } else {
        1
    };
    if hz > 1_000_000 {
        cpu.r[0] = 1;
    } else {
        let base_hz: u32 = if hz < 1 {
            1
        } else {
            hz
        };
        bus.set_math(Some(MathCall::MidiKey { base_hz, key: cpu.r[1], fine: cpu.r[2] }));
    }
}

/// SoundGetJumpList: there is no list; programs then call the driver directly.
pub fn sound_get_jump_list(cpu: &mut Cpu)
    ensures
        *final(cpu) == old(cpu).with_r(0, 0),
{
    cpu.r[0] = 0;
}

} // verus!
