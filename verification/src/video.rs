//! Pictures of the screen.

use crate::bits::clamp_int;
use crate::ppu::render::{frame_rgb, frame_to_rgb};
use crate::ppu::{HEIGHT, WIDTH};
use vstd::prelude::*;

verus! {

/// Header of a binary PPM of the screen's size.
pub open spec fn ppm_header() -> Seq<char> {
    "P6\n240 160\n255\n"@
}

/// A frame as a binary PPM.
pub fn ppm_bytes(frame: &[u16]) -> (r: Vec<u8>)
    ensures
        r@ == Seq::new(ppm_header().len(), |i: int| ppm_header()[i] as u8) + frame_rgb(frame@),
{
    let head: &str = "P6\n240 160\n255\n";
    proof {
        reveal_strlit("P6\n240 160\n255\n");
        vstd::string::is_ascii_spec_bytes(head);
    }
    let mut out: Vec<u8> = head.as_bytes_vec();
    let mut rgb: Vec<u8> = frame_to_rgb(frame);
    out.append(&mut rgb);
    out
}

/// Rows of a terminal picture that is `cols` wide, in the screen's proportion.
pub fn terminal_rows(cols: u32) -> (r: u32)
    ensures
        r == clamp_int(cols * HEIGHT / WIDTH as int, 8, 48),
{
    let rows: u64 = cols as u64 * HEIGHT as u64 / WIDTH as u64;
    if rows < 8 {
        8
    } else if rows > 48 {
        48
    } else {
        rows as u32
    }
}

} // verus!
