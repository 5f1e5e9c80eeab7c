//! The mixer.

use fairy_lantern::sound::mixer::{bias_out, dc_block, limit_sample_pumps, mix_sample, timer_cps_rate, Mixer, GBA_CLOCK};
use fairy_lantern::sound::regs::PsgRegs;

#[test]
fn timer_rate_13378ish() {
    let reload = (0x10000u32 - 1254) as u16;
    let (cps, rate, on) = timer_cps_rate(reload, 0x80);
    assert!(on);
    assert_eq!(cps, 1254);
    assert!((13000..14000).contains(&rate), "rate={rate}");
}

#[test]
fn ds_full_vol_scaling() {
    let mut regs = PsgRegs::default();
    regs.sndx = 0x80;
    regs.sndh = (1 << 8) | (1 << 9) | (1 << 2); // A L+R, full vol
    let (l, r) = mix_sample(&regs, true, true, 0x7F, false, 0, 0);
    assert_eq!(l, r);
    assert!(l.abs() > 10000, "l={l}");
}

#[test]
fn both_fifos_lr_stay_apart() {
    let mut regs = PsgRegs::default();
    regs.sndx = 0x80;
    // A left, B right — must not fold into one speaker
    regs.sndh = (1 << 9) | (1 << 2) | (1 << 12) | (1 << 3);
    let (l, r) = mix_sample(&regs, true, true, 0x40, true, 0x20, 0);
    assert!(l.abs() > 0 && r.abs() > 0, "l={l} r={r}");
    assert_ne!(l, r, "left and right are different streams");
}

#[test]
fn dest_both_sums_a_and_b() {
    let mut regs = PsgRegs::default();
    regs.sndx = 0x80;
    regs.sndh = (3 << 8) | (3 << 12) | (1 << 2) | (1 << 3);
    let a_only = mix_sample(&regs, true, true, 0x10, false, 0, 0);
    let dest_both = mix_sample(&regs, true, true, 0x10, true, 0x10, 0);
    assert_ne!(dest_both, a_only, "dest-both must add FIFO B (mp2k left) into the speakers");
    assert!(dest_both.0.abs() > a_only.0.abs());
}

#[test]
fn agc_ducks_quiet_after_peak() {
    let mut env = 0i32;
    let _ = limit_sample_pumps(&mut env, 20_000);
    let ducked = limit_sample_pumps(&mut env, 4_000);
    assert!(
        ducked.abs() < 4_000,
        "legacy AGC must duck the follow-up ({ducked})"
    );
}

#[test]
fn held_sample_stable() {
    let regs = PsgRegs::default();
    let s0 = mix_sample(&regs, true, true, 64, false, 0, 0);
    let s1 = mix_sample(&regs, true, true, 64, false, 0, 0);
    assert_eq!(s0, s1, "held sample must be stable without HPF");
}

#[test]
fn slow_timer_still_clocks() {
    let reload = (0x10000u32 - 8000) as u16; // 8000-cycle period, ~2 kHz
    let (cps, _rate, on) = timer_cps_rate(reload, 0x80);
    assert!(on);
    assert_eq!(cps, 8000);
}

#[test]
fn dual_rate_stream_matches_emit_period() {
    let mut mix = Mixer::new();
    let mut regs = PsgRegs::default();
    regs.sndx = 0x80;
    // A: Timer0 dest L+R; B: Timer1 dest L+R
    regs.sndh = (3 << 8) | (3 << 12) | (1 << 14);
    let reload = [
        (0x10000u32 - 1254) as u16,
        (0x10000u32 - 512) as u16,
        0,
        0,
    ];
    for _ in 0..8 {
        mix.fifo_a.push_word(0x1010_1010);
        mix.fifo_b.push_word(0x2020_2020);
    }
    mix.step(512 * 8, &regs, reload, 0x80, 0x80, [3, 8, 0, 0]);
    let out = mix.last_batch();
    assert!(!out.is_empty());
    assert_eq!(mix.cps_out, 512, "emit at the faster FIFO");
    assert_eq!(mix.stream_rate, GBA_CLOCK / mix.cps_out);
    assert_eq!(mix.stream_rate, 32768);
    assert_eq!(out.len(), 16, "8 stereo frames");
}

#[test]
fn fifo_rate_stays_after_timer_off() {
    let mut mix = Mixer::new();
    let mut regs = PsgRegs::default();
    regs.sndx = 0x80;
    regs.sndh = 1 << 8;
    let reload = [(0x10000u32 - 1254) as u16, 0, 0, 0];
    mix.fifo_a.push_word(0x1010_1010);
    mix.step(1254 * 4, &regs, reload, 0x80, 0, [4, 0, 0, 0]);
    assert!(mix.fifo_locked());
    let locked = mix.stream_rate;
    assert_eq!(locked, GBA_CLOCK / 1254, "output follows the FIFO timer");
    assert!((13_000..14_000).contains(&locked), "locked={locked}");
    // Timers disabled; PSG master still on — must not bounce to 32768.
    mix.step(1254 * 4, &regs, reload, 0, 0, [0, 0, 0, 0]);
    assert_eq!(mix.stream_rate, locked);
}

#[test]
fn fifo_pcm_fixture_scales() {
    let mut mix = Mixer::new();
    let mut regs = PsgRegs::default();
    regs.sndx = 0x80;
    regs.sndh = (1 << 8) | (1 << 9) | (1 << 2); // A L+R, full vol
    mix.fifo_a.push_word(u32::from_le_bytes([0x10, 0x20, 0x30, 0x40]));
    let reload = [(0x10000u32 - 512) as u16, 0, 0, 0];
    mix.step(512 * 4, &regs, reload, 0x80, 0, [4, 0, 0, 0]);
    let out = mix.last_batch();
    assert_eq!(out.len(), 8);
    let expect = |s: i8| mix_sample(&regs, true, true, s, false, 0, 0).0;
    // Each FIFO byte must stay ordered and nonzero.
    assert!(out[0] != 0 && out[2] != 0 && out[4] != 0 && out[6] != 0);
    assert!(expect(0x10) != 0);
    assert!(out[6].abs() >= out[0].abs());
}

#[test]
fn no_silent_emit_between_fifo_overflows() {
    let mut mix = Mixer::new();
    let mut regs = PsgRegs::default();
    regs.sndx = 0x80;
    regs.sndh = (1 << 8) | (1 << 9) | (1 << 2);
    let reload = [(0x10000u32 - 1254) as u16, 0, 0, 0];
    mix.fifo_a.push_word(u32::from_le_bytes([0x10, 0x20, 0x30, 0x40]));
    // One overflow → one stereo frame at the FIFO rate.
    mix.step(512, &regs, reload, 0x80, 0, [1, 0, 0, 0]);
    let hit = mix.last_batch().to_vec();
    assert_eq!(hit.len(), 2);
    assert_ne!(hit[0], 0, "first FIFO byte must be audible");
    // No overflow this slice: emit nothing (host ZOH holds the last frame).
    mix.step(512, &regs, reload, 0x80, 0, [0, 0, 0, 0]);
    assert!(
        mix.last_batch().is_empty(),
        "do not invent PWM samples between pops"
    );
    mix.step(512, &regs, reload, 0x80, 0, [1, 0, 0, 0]);
    let hit2 = mix.last_batch();
    assert_eq!(hit2.len(), 2);
    assert_ne!(hit2[0], 0);
}

#[test]
fn dest_both_soft_folds_instead_of_pwm_rail() {
    let mut regs = PsgRegs::default();
    regs.sndx = 0x80;
    // A+B both speakers at 100% — hardware would square at 10-bit.
    regs.sndh = (3 << 8) | (3 << 12) | (1 << 2) | (1 << 3);
    let (l, r) = mix_sample(&regs, true, true, 0x7F, true, 0x7F, 0);
    assert_eq!(l, r);
    // Hard 10-bit clip then *40 is 20440. Fold must sit well below that.
    assert!(l.abs() < 18_000, "dest-both peak should fold, got {l}");
    assert!(l.abs() > 8_000, "still audible, got {l}");
}

#[test]
fn dc_block_does_not_duck_after_peak() {
    let mut dc = 0i32;
    let _ = dc_block(&mut dc, 20_000);
    let follow = dc_block(&mut dc, 4_000);
    assert!(
        follow.abs() > 3_500,
        "DC block must not AGC-duck the next note ({follow})"
    );
}

#[test]
fn the_rate_stays_with_any_control_but_the_switch() {
    let mut mix = Mixer::new();
    let regs = PsgRegs { sndx: 0x80, sndh: 1 << 8, ..PsgRegs::default() };
    let reload = [(0x10000u32 - 1254) as u16, 0, 0, 0];
    mix.step(1254, &regs, reload, 0x80, 0, [1, 0, 0, 0]);
    let locked = mix.stream_rate;
    mix.step(1254, &regs, reload, 0x43, 0x07, [0, 0, 0, 0]);
    assert_eq!(mix.stream_rate, locked);
}

#[test]
fn far_out_of_range() {
    assert_eq!(bias_out(i32::MIN), -20480);
    assert_eq!(bias_out(i32::MAX - 0x200), -20480);
    assert_eq!(bias_out(0), 0);
    assert_eq!(bias_out(0x200), 20440);
    let mut dc = -2_000_000_000;
    assert_eq!(dc_block(&mut dc, 0), (2_000_000_000i32 - 7_812_500) as i16);
    assert_eq!(dc, -2_000_000_000 + 7_812_500);
    let mut env = 8_000_000;
    assert_eq!(limit_sample_pumps(&mut env, 1000), 1);
    assert_eq!(env, 7_968_750);
    let mut env = -5;
    assert_eq!(limit_sample_pumps(&mut env, -300), -300);
    assert_eq!(env, 300);
}
