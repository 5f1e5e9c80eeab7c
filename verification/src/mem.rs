//! Byte-buffer helpers shared by the memory map and the save chips.

use vstd::prelude::*;

verus! {

/// `s` with the positions `lo..hi` replaced by `v`; positions past the end are
/// not there to replace.
pub open spec fn filled<T>(s: Seq<T>, lo: int, hi: int, v: T) -> Seq<T> {
    Seq::new(
        s.len(),
        |j: int|
            if lo <= j < hi {
                v
            } else {
                s[j]
            },
    )
}

/// `s` with its first bytes replaced by those of `t`, as far as both reach.
pub open spec fn overlaid<T>(s: Seq<T>, t: Seq<T>) -> Seq<T> {
    Seq::new(
        s.len(),
        |j: int|
            if j < t.len() {
                t[j]
            } else {
                s[j]
            },
    )
}

/// `n` copies of one byte.
pub open spec fn repeated<T>(v: T, n: nat) -> Seq<T> {
    Seq::new(n, |j: int| v)
}

/// Byte `i`, or `d` past the end.
pub open spec fn byte_or(s: Seq<u8>, i: int, d: u8) -> u8 {
    if 0 <= i < s.len() {
        s[i]
    } else {
        d
    }
}

pub fn get_or(v: &Vec<u8>, i: usize, d: u8) -> (r: u8)
    ensures
        r == byte_or(v@, i as int, d),
{
    if i < v.len() {
        v[i]
    } else {
        d
    }
}

/// `s` with the byte at `i` replaced, where it has one.
pub open spec fn byte_put(s: Seq<u8>, i: int, v: u8) -> Seq<u8> {
    if 0 <= i < s.len() {
        s.update(i, v)
    } else {
        s
    }
}

pub fn set_at(v: &mut Vec<u8>, i: usize, b: u8)
    ensures
        final(v)@ == byte_put(old(v)@, i as int, b),
{
    if i < v.len() {
        v[i] = b;
    }
}

pub fn fill_range(v: &mut Vec<u8>, lo: usize, hi: usize, val: u8)
    ensures
        final(v)@ == filled(old(v)@, lo as int, hi as int, val),
{
    let mut i: usize = lo;
    let n: usize = v.len();
    while i < hi && i < n
        invariant
            n == v@.len(),
            n == old(v)@.len(),
            lo <= i,
            lo <= hi ==> i <= hi,
            lo > hi ==> i == lo,
            v@ == filled(old(v)@, lo as int, i as int, val),
        decreases hi - i,
    {
        v[i] = val;
        i += 1;
    }
}

/// Copies as much of `src` over the front of `dst` as fits.
pub fn overlay(dst: &mut Vec<u8>, src: &[u8])
    ensures
        final(dst)@ == overlaid(old(dst)@, src@),
{
    let mut i: usize = 0;
    let n: usize = dst.len();
    while i < n && i < src.len()
        invariant
            n == dst@.len(),
            n == old(dst)@.len(),
            i <= src@.len(),
            dst@ == overlaid(old(dst)@, src@.take(i as int)),
        decreases n - i,
    {
        dst[i] = src[i];
        i += 1;
    }
}

pub fn zeroed(n: usize) -> (v: Vec<u8>)
    ensures
        v@ == repeated(0u8, n as nat),
{
    vec![0u8; n]
}

pub fn bytes_of(val: u8, n: usize) -> (v: Vec<u8>)
    ensures
        v@ == repeated(val, n as nat),
{
    vec![val; n]
}

pub fn copy_bytes(src: &[u8]) -> (v: Vec<u8>)
    ensures
        v@ == src@,
{
    let mut v: Vec<u8> = Vec::new();
    let mut i: usize = 0;
    while i < src.len()
        invariant
            i <= src@.len(),
            v@ == src@.take(i as int),
        decreases src@.len() - i,
    {
        v.push(src[i]);
        i += 1;
    }
    v
}

/// The text of `tag` stands in `s` at position `i`.
pub open spec fn tag_at(s: Seq<u8>, tag: Seq<char>, i: int) -> bool {
    &&& 0 <= i
    &&& i + tag.len() <= s.len()
    &&& forall|k: int| 0 <= k < tag.len() ==> s[i + k] == #[trigger] tag[k] as u8
}

/// The text of `tag` stands somewhere in `s`.
pub open spec fn holds_tag(s: Seq<u8>, tag: Seq<char>) -> bool {
    exists|i: int| tag_at(s, tag, i)
}

fn tag_here(s: &[u8], tag: &[u8], i: usize) -> (r: bool)
    requires
        i + tag@.len() <= s@.len(),
    ensures
        r <==> (forall|k: int| 0 <= k < tag@.len() ==> s@[i + k] == #[trigger] tag@[k]),
{
    let mut k: usize = 0;
    let n: usize = s.len();
    while k < tag.len()
        invariant
            n == s@.len(),
            i + tag@.len() <= n,
            k <= tag@.len(),
            forall|j: int| 0 <= j < k ==> s@[i + j] == #[trigger] tag@[j],
        decreases tag@.len() - k,
    {
        if s[i + k] != tag[k] {
            assert(s@[i + k] != tag@[k as int]);
            return false;
        }
        k += 1;
    }
    true
}

/// Searches the bytes for an ASCII tag.
pub fn find_tag(s: &[u8], tag: &str) -> (r: bool)
    requires
        tag.is_ascii(),
    ensures
        r == holds_tag(s@, tag@),
{
    let t: &[u8] = tag.as_bytes();
    proof {
        vstd::string::is_ascii_spec_bytes(tag);
    }
    if t.len() > s.len() {
        return false;
    }
    let last: usize = s.len() - t.len();
    let mut i: usize = 0;
    loop
        invariant
            t@ =~= Seq::new(tag@.len(), |k: int| tag@[k] as u8),
            last + t@.len() == s@.len(),
            i <= last,
            forall|j: int| 0 <= j < i ==> !tag_at(s@, tag@, j),
        decreases last - i,
    {
        if tag_here(s, t, i) {
            assert forall|k: int| 0 <= k < tag@.len() implies s@[i + k] == #[trigger] tag@[k] as u8 by {
                assert(t@[k] == tag@[k] as u8);
            }
            assert(tag_at(s@, tag@, i as int));
            return true;
        }
        assert(!tag_at(s@, tag@, i as int)) by {
            if tag_at(s@, tag@, i as int) {
                assert forall|k: int| 0 <= k < t@.len() implies s@[i + k] == #[trigger] t@[k] by {
                    assert(t@[k] == tag@[k] as u8);
                }
            }
        }
        if i == last {
            assert forall|j: int| !tag_at(s@, tag@, j) by {
                if tag_at(s@, tag@, j) {
                    assert(j <= last);
                }
            }
            return false;
        }
        i += 1;
    }
}

} // verus!
