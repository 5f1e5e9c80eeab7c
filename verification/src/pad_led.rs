//! The colour that the Wisp lamp shows, read from its sidecar file.

use crate::mem::{find_tag, holds_tag};
use crate::text::{chars_of, past_white, skip_white};
use vstd::prelude::*;
use vstd::utf8::encode_utf8;

verus! {

/// Where the lamp's colour comes from.
#[derive(Clone, Copy, Debug, PartialEq, Eq, Structural)]
pub enum Light {
    Off,
    /// White of a colour temperature.
    Kelvin(u16),
    /// Full brightness of a hue and saturation.
    Hsv(u16, u8),
}

#[derive(Clone, Copy, Debug)]
pub struct Current {
    pub on: bool,
    pub hue: Option<u16>,
    pub sat: Option<u8>,
    pub temp: Option<u16>,
    pub light: Light,
}

/// `pat` stands in `s` at `i`.
pub open spec fn stands(s: Seq<char>, pat: Seq<char>, i: int) -> bool {
    0 <= i && i + pat.len() <= s.len() && forall|k: int|
        0 <= k < pat.len() ==> s[i + k] == #[trigger] pat[k]
}

/// Where `pat` first stands in `s`, from `i` on.
pub open spec fn found(s: Seq<char>, pat: Seq<char>, i: nat) -> Option<nat>
    decreases s.len() - i,
{
    if i + pat.len() > s.len() {
        None
    } else if stands(s, pat, i as int) {
        Some(i)
    } else {
        found(s, pat, i + 1)
    }
}

fn stands_at(s: &Vec<char>, pat: &Vec<char>, i: usize) -> (r: bool)
    requires
        i + pat@.len() <= s@.len(),
    ensures
        r == stands(s@, pat@, i as int),
{
    let n: usize = s.len();
    let mut k: usize = 0;
    while k < pat.len()
        invariant
            k <= pat@.len(),
            i + pat@.len() <= n == s@.len(),
            forall|j: int| 0 <= j < k ==> s@[i + j] == #[trigger] pat@[j],
        decreases pat@.len() - k,
    {
        if s[i + k] != pat[k] {
            assert(s@[i + k] != pat@[k as int]);
            return false;
        }
        k += 1;
    }
    true
}

fn find(s: &Vec<char>, pat: &Vec<char>) -> (r: Option<usize>)
    ensures
        match r {
            Some(i) => found(s@, pat@, 0) == Some(i as nat) && i + pat@.len() <= s@.len(),
            None => found(s@, pat@, 0) is None,
        },
{
    if pat.len() > s.len() {
        return None;
    }
    let last: usize = s.len() - pat.len();
    let mut i: usize = 0;
    loop
        invariant
            i <= last,
            last + pat@.len() == s@.len(),
            found(s@, pat@, 0) == found(s@, pat@, i as nat),
        decreases last - i,
    {
        if stands_at(s, pat, i) {
            return Some(i);
        }
        if i == last {
            assert(found(s@, pat@, (i + 1) as nat) is None);
            return None;
        }
        i += 1;
    }
}

/// The first place from `i` on that holds no colon.
pub open spec fn past_colons(s: Seq<char>, i: nat) -> nat
    decreases s.len() - i,
{
    if i < s.len() && s[i as int] == ':' {
        past_colons(s, i + 1)
    } else {
        i
    }
}

pub open spec fn is_digit(c: char) -> bool {
    '0' <= c && c <= '9'
}

/// The first place from `i` on that holds no digit.
pub open spec fn past_digits(s: Seq<char>, i: nat) -> nat
    decreases s.len() - i,
{
    if i < s.len() && is_digit(s[i as int]) {
        past_digits(s, i + 1)
    } else {
        i
    }
}

/// The number that the digits from `a` up to `b` write.
pub open spec fn number(s: Seq<char>, a: nat, b: nat) -> nat
    decreases b,
{
    if b <= a {
        0
    } else {
        number(s, a, (b - 1) as nat) * 10 + (s[b - 1] as u32 - '0' as u32) as nat
    }
}

/// The number behind a key: white space and colons are skipped. None without
/// the key, without digits, or beyond 16 bits.
pub open spec fn field(s: Seq<char>, key: Seq<char>) -> Option<u16> {
    match found(s, key, 0) {
        None => None,
        Some(i) => {
            let a = past_white(s, past_colons(s, past_white(s, i + key.len())));
            let b = past_digits(s, a);
            if a < b && number(s, a, b) <= u16::MAX {
                Some(number(s, a, b) as u16)
            } else {
                None
            }
        },
    }
}

proof fn lemma_number_grows(s: Seq<char>, a: nat, k: nat, b: nat)
    requires
        a <= k <= b <= s.len(),
        forall|i: int| a <= i < b ==> is_digit(#[trigger] s[i]),
    ensures
        number(s, a, k) <= number(s, a, b),
    decreases b,
{
    if k < b {
        lemma_number_grows(s, a, k, (b - 1) as nat);
        assert(is_digit(s[b - 1]));
    }
}

fn skip_colons(s: &Vec<char>, i: usize) -> (r: usize)
    requires
        i <= s@.len(),
    ensures
        r == past_colons(s@, i as nat),
        i <= r <= s@.len(),
{
    let mut k: usize = i;
    while k < s.len() && s[k] == ':'
        invariant
            i <= k <= s@.len(),
            past_colons(s@, i as nat) == past_colons(s@, k as nat),
        decreases s@.len() - k,
    {
        k += 1;
    }
    k
}

fn skip_digits(s: &Vec<char>, i: usize) -> (r: usize)
    requires
        i <= s@.len(),
    ensures
        r == past_digits(s@, i as nat),
        i <= r <= s@.len(),
        forall|j: int| i <= j < r ==> is_digit(#[trigger] s@[j]),
{
    let mut k: usize = i;
    while k < s.len() && '0' <= s[k] && s[k] <= '9'
        invariant
            i <= k <= s@.len(),
            past_digits(s@, i as nat) == past_digits(s@, k as nat),
            forall|j: int| i <= j < k ==> is_digit(#[trigger] s@[j]),
        decreases s@.len() - k,
    {
        k += 1;
    }
    k
}

/// A number field of a small JSON text. `key` has its quotes.
pub fn json_u16(s: &str, key: &str) -> (r: Option<u16>)
    ensures
        r == field(s@, key@),
{
    let v: Vec<char> = chars_of(s);
    let pat: Vec<char> = chars_of(key);
    let i: usize = match find(&v, &pat) {
        Some(i) => i,
        None => {
            return None;
        },
    };
    let c: usize = skip_white(&v, i + pat.len());
    let c: usize = skip_colons(&v, c);
    let a: usize = skip_white(&v, c);
    let b: usize = skip_digits(&v, a);
    if a == b {
        return None;
    }
    let mut n: u32 = 0;
    let mut k: usize = a;
    while k < b
        invariant
            a <= k <= b <= v@.len(),
            n == number(v@, a as nat, k as nat),
            n <= u16::MAX,
            forall|j: int| a <= j < b ==> is_digit(#[trigger] v@[j]),
            field(s@, key@) == (if number(v@, a as nat, b as nat) <= u16::MAX {
                Some(number(v@, a as nat, b as nat) as u16)
            } else {
                None
            }),
        decreases b - k,
    {
        assert(is_digit(v@[k as int]));
        let d: u32 = v[k] as u32 - '0' as u32;
        n = n * 10 + d;
        k += 1;
        if n > 0xFFFF {
            proof {
                lemma_number_grows(v@, a as nat, k as nat, b as nat);
            }
            return None;
        }
    }
    Some(n as u16)
}

/// The saturation, at most all of it.
pub open spec fn saturation(v: Option<u16>) -> Option<u8> {
    match v {
        Some(v) => Some(
            if v < 100 {
                v as u8
            } else {
                100
            },
        ),
        None => None,
    }
}

/// What the lamp shows: nothing while off, a white where a temperature is set,
/// else hue and saturation, by default red and full.
pub open spec fn light(on: bool, hue: Option<u16>, sat: Option<u8>, temp: Option<u16>) -> Light {
    if !on {
        Light::Off
    } else {
        match temp {
            Some(k) if k > 0 => Light::Kelvin(k),
            _ => Light::Hsv(
                match hue {
                    Some(h) => h,
                    None => 0,
                },
                match sat {
                    Some(s) => s,
                    None => 100,
                },
            ),
        }
    }
}

/// Reads the sidecar.
pub fn parse_current(s: &str) -> (r: Current)
    ensures
        r.on == (holds_tag(encode_utf8(s@), "\"on\": true"@) || holds_tag(
            encode_utf8(s@),
            "\"on\":true"@,
        )),
        r.hue == field(s@, "\"hue\""@),
        r.sat == saturation(field(s@, "\"saturation\""@)),
        r.temp == field(s@, "\"color_temp\""@),
        r.light == light(r.on, r.hue, r.sat, r.temp),
{
    proof {
        reveal_strlit("\"on\": true");
        reveal_strlit("\"on\":true");
    }
    let b: &[u8] = s.as_bytes();
    let on: bool = find_tag(b, "\"on\": true") || find_tag(b, "\"on\":true");
    let hue: Option<u16> = json_u16(s, "\"hue\"");
    let sat: Option<u8> = match json_u16(s, "\"saturation\"") {
        Some(v) => Some(
            if v < 100 {
                v as u8
            } else {
                100
            },
        ),
        None => None,
    };
    let temp: Option<u16> = json_u16(s, "\"color_temp\"");
    let light: Light = if !on {
        Light::Off
    } else {
        match temp {
            Some(k) if k > 0 => Light::Kelvin(k),
            _ => Light::Hsv(
                match hue {
                    Some(h) => h,
                    None => 0,
                },
                match sat {
                    Some(s) => s,
                    None => 100,
                },
            ),
        }
    };
    Current { on, hue, sat, temp, light }
}

} // verus!
