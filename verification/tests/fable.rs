//! The built-in fable and its assembler.

use fairy_lantern::fable::{dp_imm, find_imm};

#[test]
fn unencodable_imm_does_not_panic() {
    assert!(find_imm(0x102).is_none());
    let op = dp_imm(0b1101, 0, 0, 0x102, false);
    assert_eq!(op & 0xFF, 0, "fallback encodes #0, does not abort");
    assert!(find_imm(0xFF).is_some());
    assert!(find_imm(0x200).is_some());
    assert!(find_imm(0x0300_0000).is_some());
}
