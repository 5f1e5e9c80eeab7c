//! Text at the edge: bytes to characters, and ASCII names.

use crate::bits::lemma_and8;
use crate::mem::{find_tag, tag_at};
use vstd::prelude::*;
use vstd::utf8::{decode_utf8, pop_first_scalar, valid_utf8};

verus! {

/// `String::push`: the character comes behind what is there.
pub assume_specification[ String::push ](s: &mut String, c: char)
    ensures
        final(s)@ == old(s)@.push(c),
;

/// What `String::from_utf8_lossy` makes of bytes that are not UTF-8.
pub uninterp spec fn utf8_lossy(b: Seq<u8>) -> Seq<char>;

/// `String::from_utf8_lossy`: UTF-8 is decoded. Of other bytes, where U+FFFD
/// takes the place of what cannot be decoded, the contract only names the
/// result; it is a function of the bytes.
#[verifier::external_body]
pub(crate) fn lossy(b: &[u8]) -> (r: String)
    ensures
        r@ == (if valid_utf8(b@) {
            decode_utf8(b@)
        } else {
            utf8_lossy(b@)
        }),
{
    String::from_utf8_lossy(b).into_owned()
}

/// Bytes as text.
pub open spec fn text_of(b: Seq<u8>) -> Seq<char> {
    if valid_utf8(b) {
        decode_utf8(b)
    } else {
        utf8_lossy(b)
    }
}

/// White space, as Unicode has it.
pub open spec fn white(c: char) -> bool {
    let n = c as u32;
    ||| 0x09 <= n <= 0x0D
    ||| n == 0x20 || n == 0x85 || n == 0xA0 || n == 0x1680
    ||| 0x2000 <= n <= 0x200A
    ||| n == 0x2028 || n == 0x2029 || n == 0x202F || n == 0x205F || n == 0x3000
}

fn is_white(c: char) -> (r: bool)
    ensures
        r == white(c),
{
    let n: u32 = c as u32;
    (0x09 <= n && n <= 0x0D) || n == 0x20 || n == 0x85 || n == 0xA0 || n == 0x1680 || (0x2000 <= n && n
        <= 0x200A) || n == 0x2028 || n == 0x2029 || n == 0x202F || n == 0x205F || n == 0x3000
}

/// The first place from `i` on that holds no white space.
pub open spec fn past_white(s: Seq<char>, i: nat) -> nat
    decreases s.len() - i,
{
    if i < s.len() && white(s[i as int]) {
        past_white(s, i + 1)
    } else {
        i
    }
}

/// How much of the first `n` is left without the white space at their end.
pub open spec fn before_white(s: Seq<char>, n: nat) -> nat
    decreases n,
{
    if n > 0 && white(s[n - 1]) {
        before_white(s, (n - 1) as nat)
    } else {
        n
    }
}

/// A text without the white space at either end.
pub open spec fn trimmed(s: Seq<char>) -> Seq<char> {
    let (a, b) = (past_white(s, 0), before_white(s, s.len()));
    if a < b {
        s.subrange(a as int, b as int)
    } else {
        Seq::empty()
    }
}

/// The characters of a text.
pub fn chars_of(s: &str) -> (r: Vec<char>)
    ensures
        r@ == s@,
{
    let n: usize = s.unicode_len();
    let mut v: Vec<char> = Vec::new();
    let mut i: usize = 0;
    while i < n
        invariant
            i <= n,
            n == s@.len(),
            v@ == s@.take(i as int),
        decreases n - i,
    {
        v.push(s.get_char(i));
        i += 1;
    }
    assert(v@ =~= s@);
    v
}

pub fn skip_white(s: &Vec<char>, i: usize) -> (r: usize)
    requires
        i <= s@.len(),
    ensures
        r == past_white(s@, i as nat),
        i <= r <= s@.len(),
{
    let mut k: usize = i;
    while k < s.len() && is_white(s[k])
        invariant
            i <= k <= s@.len(),
            past_white(s@, i as nat) == past_white(s@, k as nat),
        decreases s@.len() - k,
    {
        k += 1;
    }
    k
}

pub fn trim(s: &str) -> (r: String)
    ensures
        r@ == trimmed(s@),
{
    let v: Vec<char> = chars_of(s);
    let a: usize = skip_white(&v, 0);
    let mut b: usize = v.len();
    while b > 0 && is_white(v[b - 1])
        invariant
            b <= v@.len(),
            before_white(v@, v@.len()) == before_white(v@, b as nat),
        decreases b,
    {
        b -= 1;
    }
    let mut out: String = String::new();
    let mut i: usize = a;
    assert(out@ =~= Seq::empty());
    while i < b
        invariant
            a <= v@.len(),
            b <= v@.len(),
            a <= i,
            a < b ==> i <= b,
            a < b ==> out@ == v@.subrange(a as int, i as int),
            a >= b ==> out@ == Seq::<char>::empty(),
        decreases b - i,
    {
        out.push(v[i]);
        i += 1;
        assert(out@ =~= v@.subrange(a as int, i as int));
    }
    out
}

/// The lines that end within the first `n` characters, and the one begun.
pub open spec fn lines_in(s: Seq<char>, n: nat) -> (Seq<Seq<char>>, Seq<char>)
    decreases n,
{
    if n == 0 {
        (Seq::empty(), Seq::empty())
    } else {
        let (done, cur) = lines_in(s, (n - 1) as nat);
        if s[n - 1] == '\n' {
            (done.push(trimmed(cur)), Seq::empty())
        } else {
            (done, cur.push(s[n - 1]))
        }
    }
}

/// The lines of a text, each trimmed; nothing comes behind a last line end.
pub open spec fn lines(s: Seq<char>) -> Seq<Seq<char>> {
    let (done, cur) = lines_in(s, s.len());
    if cur.len() == 0 {
        done
    } else {
        done.push(trimmed(cur))
    }
}

/// Texts as plain values.
pub open spec fn texts(v: Seq<String>) -> Seq<Seq<char>> {
    Seq::new(v.len(), |i: int| v[i]@)
}

pub fn split_lines(s: &str) -> (r: Vec<String>)
    ensures
        texts(r@) == lines(s@),
{
    let v: Vec<char> = chars_of(s);
    let mut out: Vec<String> = Vec::new();
    let mut cur: String = String::new();
    let mut i: usize = 0;
    assert(texts(out@) =~= Seq::empty());
    assert(cur@ =~= Seq::empty());
    while i < v.len()
        invariant
            i <= v@.len(),
            (texts(out@), cur@) == lines_in(v@, i as nat),
        decreases v@.len() - i,
    {
        let ghost before = out@;
        let c: char = v[i];
        if c == '\n' {
            let t: String = trim(cur.as_str());
            out.push(t);
            cur = String::new();
            assert(texts(out@) =~= texts(before).push(t@));
            assert(cur@ =~= Seq::empty());
        } else {
            cur.push(c);
        }
        i += 1;
    }
    if cur.as_str().unicode_len() != 0 {
        let ghost before = out@;
        let t: String = trim(cur.as_str());
        out.push(t);
        assert(texts(out@) =~= texts(before).push(t@));
    }
    out
}

/// A printable ASCII character.
pub open spec fn printable(c: char) -> bool {
    ' ' <= c && c <= '~'
}

/// The printable characters among the first `n`.
pub open spec fn printables(s: Seq<char>, n: nat) -> Seq<char>
    decreases n,
{
    if n == 0 {
        Seq::empty()
    } else {
        let p = printables(s, (n - 1) as nat);
        if printable(s[n - 1]) {
            p.push(s[n - 1])
        } else {
            p
        }
    }
}

/// A text without its unprintable characters.
pub fn keep_printable(s: &str) -> (r: String)
    ensures
        r@ == printables(s@, s@.len()),
{
    let n: usize = s.unicode_len();
    let mut out: String = String::new();
    let mut i: usize = 0;
    while i < n
        invariant
            i <= n,
            n == s@.len(),
            out@ == printables(s@, i as nat),
        decreases n - i,
    {
        let c: char = s.get_char(i);
        if ' ' <= c && c <= '~' {
            out.push(c);
        }
        i += 1;
    }
    out
}

/// An ASCII capital made small.
pub open spec fn lower(b: u8) -> u8 {
    if 0x41 <= b <= 0x5A {
        (b + 0x20) as u8
    } else {
        b
    }
}

pub open spec fn lowered(s: Seq<u8>) -> Seq<u8> {
    Seq::new(s.len(), |i: int| lower(s[i]))
}

/// Bytes with the ASCII capitals made small.
pub fn lowercase(s: &[u8]) -> (r: Vec<u8>)
    ensures
        r@ == lowered(s@),
{
    let mut v: Vec<u8> = Vec::new();
    let mut i: usize = 0;
    while i < s.len()
        invariant
            i <= s@.len(),
            v@ == lowered(s@).take(i as int),
        decreases s@.len() - i,
    {
        let b: u8 = s[i];
        v.push(
            if 0x41 <= b && b <= 0x5A {
                b + 0x20
            } else {
                b
            },
        );
        i += 1;
    }
    assert(v@ =~= lowered(s@));
    v
}

/// The bytes are the text of an ASCII tag.
pub open spec fn is_tag(s: Seq<u8>, tag: Seq<char>) -> bool {
    s.len() == tag.len() && tag_at(s, tag, 0)
}

pub fn equals_tag(s: &[u8], tag: &str) -> (r: bool)
    requires
        tag.is_ascii(),
    ensures
        r == is_tag(s@, tag@),
{
    let n: usize = tag.unicode_len();
    if s.len() != n {
        return false;
    }
    let r: bool = find_tag(s, tag);
    assert(r ==> tag_at(s@, tag@, 0)) by {
        if r {
            let i = choose|i: int| tag_at(s@, tag@, i);
            assert(tag_at(s@, tag@, i));
            assert(i == 0);
        }
    }
    r
}

/// The bytes end with an ASCII tag.
pub open spec fn ends_with(s: Seq<u8>, tag: Seq<char>) -> bool {
    s.len() >= tag.len() && tag_at(s, tag, s.len() - tag.len())
}

pub fn ends_tag(s: &[u8], tag: &str) -> (r: bool)
    requires
        tag.is_ascii(),
    ensures
        r == ends_with(s@, tag@),
{
    let n: usize = tag.unicode_len();
    if s.len() < n {
        return false;
    }
    let t: &[u8] = vstd::slice::slice_subrange(s, s.len() - n, s.len());
    let r: bool = equals_tag(t, tag);
    let ghost d = s@.len() - n;
    assert(r == tag_at(s@, tag@, d)) by {
        assert forall|k: int| 0 <= k < tag@.len() implies s@[d + k] == #[trigger] t@[k] by {}
        if tag_at(t@, tag@, 0) {
            assert forall|k: int| 0 <= k < tag@.len() implies s@[d + k] == #[trigger] tag@[k] as u8 by {
                assert(t@[0 + k] == tag@[k] as u8);
                assert(s@[d + k] == t@[k]);
            }
        }
        if tag_at(s@, tag@, d) {
            assert forall|k: int| 0 <= k < tag@.len() implies t@[0 + k] == #[trigger] tag@[k] as u8 by {
                assert(s@[d + k] == tag@[k] as u8);
                assert(s@[d + k] == t@[k]);
            }
        }
    }
    r
}

proof fn lemma_low_seven(b: u8)
    ensures
        b < 0x80 ==> b & 0x7F == b,
{
    lemma_and8(b, 0x7F);
}

/// ASCII bytes are UTF-8, a character each.
pub proof fn lemma_ascii(b: Seq<u8>)
    requires
        forall|i: int| 0 <= i < b.len() ==> #[trigger] b[i] < 0x80,
    ensures
        valid_utf8(b),
        decode_utf8(b) == Seq::new(b.len(), |i: int| b[i] as char),
    decreases b.len(),
{
    if b.len() > 0 {
        lemma_low_seven(b[0]);
        let t = pop_first_scalar(b);
        assert(t =~= b.subrange(1, b.len() as int));
        lemma_ascii(t);
        assert(decode_utf8(b) =~= Seq::new(b.len(), |i: int| b[i] as char));
    } else {
        assert(decode_utf8(b) =~= Seq::new(b.len(), |i: int| b[i] as char));
    }
}

/// Nothing is taken from a text that is printable throughout.
pub proof fn lemma_all_printable(s: Seq<char>, n: nat)
    requires
        n <= s.len(),
        forall|i: int| 0 <= i < n ==> printable(#[trigger] s[i]),
    ensures
        printables(s, n) == s.take(n as int),
    decreases n,
{
    if n > 0 {
        lemma_all_printable(s, (n - 1) as nat);
        assert(s.take(n as int) =~= s.take(n - 1).push(s[n - 1]));
    } else {
        assert(s.take(0) =~= Seq::empty());
    }
}

} // verus!
