//! Paths as the host's file system reads them.

use crate::text::{chars_of, texts};
use vstd::prelude::*;

verus! {

/// A piece between slashes joins the components, unless it is empty, or is a
/// dot that does not begin the path.
pub open spec fn joined(p: Seq<Seq<char>>, piece: Seq<char>, first: bool) -> Seq<Seq<char>> {
    if piece.len() == 0 || (piece == seq!['.'] && !first) {
        p
    } else {
        p.push(piece)
    }
}

/// Of the first `n` characters: the components that are complete, the piece
/// that is not, and whether it is the first.
pub open spec fn scanned(s: Seq<char>, n: nat) -> (Seq<Seq<char>>, Seq<char>, bool)
    decreases n,
{
    if n == 0 {
        (Seq::empty(), Seq::empty(), true)
    } else {
        let (p, piece, first) = scanned(s, (n - 1) as nat);
        if s[n - 1] == '/' {
            (joined(p, piece, first), Seq::empty(), false)
        } else {
            (p, piece.push(s[n - 1]), first)
        }
    }
}

/// The components of a path.
pub open spec fn components(s: Seq<char>) -> Seq<Seq<char>> {
    let (p, piece, first) = scanned(s, s.len());
    joined(p, piece, first)
}

pub open spec fn rooted(s: Seq<char>) -> bool {
    s.len() > 0 && s[0] == '/'
}

/// Two texts name the same path: both from the root or neither, and with the
/// same components.
pub open spec fn same(a: Seq<char>, b: Seq<char>) -> bool {
    rooted(a) == rooted(b) && components(a) == components(b)
}

fn join(out: &mut Vec<String>, piece: String, first: bool)
    ensures
        texts(final(out)@) == joined(texts(old(out)@), piece@, first),
{
    let n: usize = piece.as_str().unicode_len();
    if n == 0 {
        return;
    }
    if n == 1 && !first {
        let c: char = piece.as_str().get_char(0);
        if c == '.' {
            assert(piece@ =~= seq!['.']);
            return;
        }
    }
    out.push(piece);
    assert(texts(out@) =~= texts(old(out)@).push(piece@));
}

/// The components of a path.
pub fn components_of(s: &str) -> (r: Vec<String>)
    ensures
        texts(r@) == components(s@),
{
    let v: Vec<char> = chars_of(s);
    let mut out: Vec<String> = Vec::new();
    let mut piece: String = String::new();
    let mut first: bool = true;
    let mut i: usize = 0;
    assert(texts(out@) =~= Seq::empty());
    assert(piece@ =~= Seq::empty());
    while i < v.len()
        invariant
            i <= v@.len(),
            v@ == s@,
            (texts(out@), piece@, first) == scanned(s@, i as nat),
        decreases v@.len() - i,
    {
        let c: char = v[i];
        if c == '/' {
            join(&mut out, piece, first);
            piece = String::new();
            first = false;
            assert(piece@ =~= Seq::empty());
        } else {
            piece.push(c);
        }
        i += 1;
    }
    join(&mut out, piece, first);
    out
}

fn starts_at_root(s: &str) -> (r: bool)
    ensures
        r == rooted(s@),
{
    s.unicode_len() > 0 && s.get_char(0) == '/'
}

pub fn same_path(a: &str, b: &str) -> (r: bool)
    ensures
        r == same(a@, b@),
{
    if starts_at_root(a) != starts_at_root(b) {
        return false;
    }
    let x: Vec<String> = components_of(a);
    let y: Vec<String> = components_of(b);
    if x.len() != y.len() {
        assert(texts(x@).len() != texts(y@).len());
        return false;
    }
    let mut i: usize = 0;
    while i < x.len()
        invariant
            i <= x@.len(),
            x@.len() == y@.len(),
            texts(x@) == components(a@),
            texts(y@) == components(b@),
            forall|j: int| 0 <= j < i ==> #[trigger] texts(x@)[j] == texts(y@)[j],
        decreases x@.len() - i,
    {
        if x[i] != y[i] {
            assert(texts(x@)[i as int] != texts(y@)[i as int]);
            return false;
        }
        i += 1;
    }
    assert(texts(x@) =~= texts(y@));
    true
}

/// The path is among the first `n`.
pub open spec fn among(v: Seq<Seq<char>>, n: nat, t: Seq<char>) -> bool {
    exists|i: int| 0 <= i < n && same(#[trigger] v[i], t)
}

pub fn is_among(v: &Vec<String>, t: &String) -> (r: bool)
    ensures
        r == among(texts(v@), v@.len(), t@),
{
    let mut i: usize = 0;
    while i < v.len()
        invariant
            i <= v@.len(),
            !among(texts(v@), i as nat, t@),
        decreases v@.len() - i,
    {
        if same_path(v[i].as_str(), t.as_str()) {
            assert(same(texts(v@)[i as int], t@));
            return true;
        }
        assert(!same(texts(v@)[i as int], t@));
        i += 1;
    }
    false
}

/// No path comes twice.
pub open spec fn distinct(v: Seq<Seq<char>>) -> bool {
    forall|i: int, j: int| 0 <= i < j < v.len() ==> !same(#[trigger] v[i], #[trigger] v[j])
}

/// Slashes in a row count as one, and one at the end counts as none.
pub proof fn law_slashes(s: Seq<char>)
    requires
        s.len() > 0,
        s.last() == '/',
    ensures
        same(s.push('/'), s),
        s.len() > 1 ==> same(s, s.drop_last()),
{
    let t = s.push('/');
    lemma_prefix(t, s, s.len());
    lemma_prefix(s, s.drop_last(), (s.len() - 1) as nat);
}

proof fn lemma_prefix(a: Seq<char>, b: Seq<char>, n: nat)
    requires
        n <= a.len(),
        n <= b.len(),
        forall|i: int| 0 <= i < n ==> a[i] == b[i],
    ensures
        scanned(a, n) == scanned(b, n),
    decreases n,
{
    if n > 0 {
        lemma_prefix(a, b, (n - 1) as nat);
    }
}

} // verus!
