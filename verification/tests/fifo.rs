//! Sound FIFOs.

use fairy_lantern::sound::fifo::Fifo;

#[test]
fn push_word_le_order() {
    let mut f = Fifo::new();
    f.push_word(0x0403_0201);
    assert_eq!(f.len(), 4);
    assert_eq!(f.peek_head(0), 0x01);
    assert_eq!(f.peek_head(1), 0x02);
    assert_eq!(f.peek_head(2), 0x03);
    assert_eq!(f.peek_head(3), 0x04);
}

#[test]
fn underrun_silence() {
    let mut f = Fifo::new();
    f.push_half(0x7F7F);
    f.pop_timer();
    assert!(f.hold_valid);
    f.pop_timer();
    f.pop_timer();
    assert!(!f.hold_valid);
    assert_eq!(f.hold, 0);
}

#[test]
fn dma_req_half_empty() {
    let mut f = Fifo::new();
    for _ in 0..8 {
        f.push_word(0);
    }
    assert_eq!(f.len(), 32);
    assert!(!f.needs_dma());
    for _ in 0..16 {
        f.pop_timer();
    }
    assert!(!f.needs_dma(), "exactly 16 must not re-request");
    f.pop_timer();
    assert!(f.needs_dma());
}

#[test]
fn sixteen_sample_refill_does_not_rerequest() {
    let mut f = Fifo::new();
    for _ in 0..4 {
        f.push_word(0);
    }
    assert_eq!(f.len(), 16);
    assert!(!f.needs_dma());
}
