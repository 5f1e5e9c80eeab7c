//! The tone channels.

use fairy_lantern::sound::psg::Psg;
use fairy_lantern::sound::regs::PsgRegs;

#[test]
fn silent_when_disabled() {
    let mut p = Psg::default();
    let regs = PsgRegs::default();
    assert_eq!(p.sample(&regs, 32768), 0);
}

#[test]
fn every_channel_counts_as_a_signal() {
    let on = PsgRegs { sndx: 0x80, ..PsgRegs::default() };
    assert!(!on.psg_has_signal());
    assert!(PsgRegs { ch1_h: 0xF080, ..on }.psg_has_signal());
    // channels 2 and 4 have their envelope in the low register
    assert!(PsgRegs { ch2_l: 0xF080, ch2_h: 0x0400, ..on }.psg_has_signal());
    assert!(PsgRegs { ch4_l: 0x1000, ..on }.psg_has_signal());
    assert!(!PsgRegs { ch2_l: 0x0FFF, ch2_h: 0xFFFF, ch4_h: 0xFFFF, ..on }.psg_has_signal());
    assert!(PsgRegs { ch3_l: 0x80, ch3_h: 0x20, ..on }.psg_has_signal());
    assert!(!PsgRegs { ch3_l: 0, ch3_h: 0x20, ..on }.psg_has_signal());
    // routed elsewhere, or switched off altogether
    assert!(!PsgRegs { sndl: 0x0100, ch2_l: 0xF080, ..on }.psg_has_signal());
    assert!(PsgRegs { sndl: 0x2000, ch2_l: 0xF080, ..on }.psg_has_signal());
    assert!(!PsgRegs { sndx: 0, ch2_l: 0xF080, ..on }.psg_has_signal());
}

#[test]
fn a_loud_channel_2_sounds() {
    let regs = PsgRegs { sndl: 0x0077, sndh: 2, sndx: 0x80, ch2_l: 0xF080, ch2_h: 0x0400, ..PsgRegs::default() };
    let mut p = Psg::default();
    p.trigger(2, &regs, 32768);
    assert!(regs.psg_has_signal());
    assert!((0..64).any(|_| p.sample(&regs, 32768) != 0));
}
