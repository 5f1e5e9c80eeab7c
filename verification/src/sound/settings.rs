//! What the host's audio settings mean.

use crate::text::{equals_tag, is_tag, lowercase, lowered};
use vstd::prelude::*;
use vstd::utf8::encode_utf8;

verus! {

/// A setting is one of two words, whatever the case of its letters.
pub open spec fn says(setting: Seq<char>, a: Seq<char>, b: Seq<char>) -> bool {
    let low = lowered(encode_utf8(setting));
    is_tag(low, a) || is_tag(low, b)
}

/// The FIFOs that are heard: bit 0 is A, bit 1 is B. Both are, unless one is
/// named.
pub fn ds_mode(setting: &str) -> (r: u8)
    ensures
        r == (if says(setting@, "a"@, "a-only"@) {
            1
        } else if says(setting@, "b"@, "b-only"@) {
            2u8
        } else {
            3
        }),
{
    proof {
        reveal_strlit("a");
        reveal_strlit("a-only");
        reveal_strlit("b");
        reveal_strlit("b-only");
    }
    let low: Vec<u8> = lowercase(setting.as_bytes());
    let s: &[u8] = low.as_slice();
    if equals_tag(s, "a") || equals_tag(s, "a-only") {
        1
    } else if equals_tag(s, "b") || equals_tag(s, "b-only") {
        2
    } else {
        3
    }
}

/// A test tone takes the place of the game's sound.
pub fn audio_sine(setting: &str) -> (r: bool)
    ensures
        r == (says(setting@, "sine"@, "tone"@) || says(setting@, "beep"@, "beep"@)),
{
    proof {
        reveal_strlit("sine");
        reveal_strlit("tone");
        reveal_strlit("beep");
    }
    let low: Vec<u8> = lowercase(setting.as_bytes());
    let s: &[u8] = low.as_slice();
    equals_tag(s, "sine") || equals_tag(s, "tone") || equals_tag(s, "beep")
}

} // verus!
