//! The list of recent fables, newest first.

use crate::path::{among, distinct, is_among, same, same_path};
use crate::text::{lines, split_lines, texts};
use vstd::prelude::*;

verus! {

pub const MAX_RECENTS: usize = 12;

/// The first `n` paths that are files, each at its first place only.
pub open spec fn kept(paths: Seq<Seq<char>>, is_file: Seq<bool>, n: nat) -> Seq<Seq<char>>
    decreases n,
{
    if n == 0 {
        Seq::empty()
    } else {
        let k = kept(paths, is_file, (n - 1) as nat);
        let p = paths[n - 1];
        if is_file[n - 1] && !among(k, k.len(), p) {
            k.push(p)
        } else {
            k
        }
    }
}

/// The paths that a recents file names.
pub fn parse_recents(text: &str) -> (r: Vec<String>)
    ensures
        texts(r@) == lines(text@),
{
    split_lines(text)
}

/// The recent list from its file's lines; `is_file` says of each whether it is
/// still there.
pub fn load_recents(paths: &Vec<String>, is_file: &Vec<bool>) -> (r: Vec<String>)
    requires
        paths@.len() == is_file@.len(),
    ensures
        texts(r@) == kept(texts(paths@), is_file@, paths@.len()),
{
    let mut out: Vec<String> = Vec::new();
    assert(texts(out@) =~= Seq::empty());
    let mut i: usize = 0;
    while i < paths.len()
        invariant
            i <= paths@.len(),
            paths@.len() == is_file@.len(),
            texts(out@) == kept(texts(paths@), is_file@, i as nat),
        decreases paths@.len() - i,
    {
        if is_file[i] && !is_among(&out, &paths[i]) {
            let ghost before = out@;
            let p: String = paths[i].clone();
            out.push(p);
            assert(texts(out@) =~= texts(before).push(p@));
        }
        i += 1;
    }
    out
}

/// `rom`, then the first `n` of the others.
pub open spec fn fronted(rec: Seq<Seq<char>>, rom: Seq<char>, n: nat) -> Seq<Seq<char>>
    decreases n,
{
    if n == 0 {
        seq![rom]
    } else {
        let f = fronted(rec, rom, (n - 1) as nat);
        if same(rec[n - 1], rom) {
            f
        } else {
            f.push(rec[n - 1])
        }
    }
}

/// The list after a fable was opened: it comes first, and the oldest fall off.
pub open spec fn remembered(rec: Seq<Seq<char>>, rom: Seq<char>) -> Seq<Seq<char>> {
    let f = fronted(rec, rom, rec.len());
    if f.len() <= MAX_RECENTS {
        f
    } else {
        f.take(MAX_RECENTS as int)
    }
}

pub fn remember(rec: &Vec<String>, rom: &String) -> (r: Vec<String>)
    ensures
        texts(r@) == remembered(texts(rec@), rom@),
{
    let mut out: Vec<String> = Vec::new();
    let first: String = rom.clone();
    out.push(first);
    assert(texts(out@) =~= seq![rom@]);
    let mut i: usize = 0;
    while i < rec.len()
        invariant
            i <= rec@.len(),
            texts(out@) == fronted(texts(rec@), rom@, i as nat),
        decreases rec@.len() - i,
    {
        if !same_path(rec[i].as_str(), rom.as_str()) {
            let ghost before = out@;
            let p: String = rec[i].clone();
            out.push(p);
            assert(texts(out@) =~= texts(before).push(p@));
        }
        i += 1;
    }
    let ghost all = out@;
    if out.len() > MAX_RECENTS {
        out.truncate(MAX_RECENTS);
        assert(texts(out@) =~= texts(all).take(MAX_RECENTS as int));
    }
    out
}

/// The list as its file holds it: a line for each path.
pub open spec fn list_text(rec: Seq<Seq<char>>, n: nat) -> Seq<char>
    decreases n,
{
    if n == 0 {
        Seq::empty()
    } else {
        (list_text(rec, (n - 1) as nat) + rec[n - 1]).push('\n')
    }
}

pub fn write_recents(rec: &Vec<String>) -> (r: String)
    ensures
        r@ == list_text(texts(rec@), rec@.len()),
{
    let mut out: String = String::new();
    assert(out@ =~= Seq::empty());
    let mut i: usize = 0;
    while i < rec.len()
        invariant
            i <= rec@.len(),
            out@ == list_text(texts(rec@), i as nat),
        decreases rec@.len() - i,
    {
        out.append(rec[i].as_str());
        out.push('\n');
        i += 1;
    }
    out
}

// ---- laws ---------------------------------------------------------------

/// One of the first `n` paths.
pub open spec fn drawn(rec: Seq<Seq<char>>, n: nat, t: Seq<char>) -> bool {
    exists|k: int| 0 <= k < n && #[trigger] rec[k] == t
}

proof fn lemma_fronted(rec: Seq<Seq<char>>, rom: Seq<char>, n: nat)
    requires
        n <= rec.len(),
    ensures
        ({
            let f = fronted(rec, rom, n);
            &&& 1 <= f.len() <= n + 1
            &&& f[0] == rom
            &&& forall|i: int| 1 <= i < f.len() ==> !same(#[trigger] f[i], rom)
            &&& forall|i: int| 1 <= i < f.len() ==> drawn(rec, n, #[trigger] f[i])
            &&& distinct(rec) ==> distinct(f)
        }),
    decreases n,
{
    if n > 0 {
        lemma_fronted(rec, rom, (n - 1) as nat);
        let f = fronted(rec, rom, (n - 1) as nat);
        let g = fronted(rec, rom, n);
        assert forall|i: int| 1 <= i < g.len() implies drawn(rec, n, #[trigger] g[i]) by {
            if i < f.len() {
                assert(drawn(rec, (n - 1) as nat, f[i]));
                let k = choose|k: int| 0 <= k < n - 1 && #[trigger] rec[k] == f[i];
                assert(rec[k] == g[i]);
            } else {
                assert(rec[n - 1] == g[i]);
            }
        }
        if distinct(rec) && !same(rec[n - 1], rom) {
            assert forall|i: int, j: int| 0 <= i < j < g.len() implies !same(
                #[trigger] g[i],
                #[trigger] g[j],
            ) by {
                if j < f.len() {
                    assert(!same(f[i], f[j]));
                } else if i > 0 {
                    assert(drawn(rec, (n - 1) as nat, f[i]));
                    let k = choose|k: int| 0 <= k < n - 1 && #[trigger] rec[k] == f[i];
                    assert(!same(rec[k], rec[n - 1]));
                }
            }
        }
    }
}

/// The opened fable comes first and only there, the list keeps its bound, and
/// no path is listed twice where none was.
pub proof fn law_remembered(rec: Seq<Seq<char>>, rom: Seq<char>)
    ensures
        ({
            let r = remembered(rec, rom);
            &&& 1 <= r.len() <= MAX_RECENTS
            &&& r[0] == rom
            &&& forall|i: int| 1 <= i < r.len() ==> !same(#[trigger] r[i], rom)
            &&& distinct(rec) ==> distinct(r)
        }),
{
    lemma_fronted(rec, rom, rec.len());
}

proof fn lemma_kept(paths: Seq<Seq<char>>, is_file: Seq<bool>, n: nat)
    requires
        n <= paths.len(),
    ensures
        distinct(kept(paths, is_file, n)),
    decreases n,
{
    if n > 0 {
        lemma_kept(paths, is_file, (n - 1) as nat);
        let k = kept(paths, is_file, (n - 1) as nat);
        let g = kept(paths, is_file, n);
        if g.len() > k.len() {
            assert forall|i: int, j: int| 0 <= i < j < g.len() implies !same(
                #[trigger] g[i],
                #[trigger] g[j],
            ) by {
                if j < k.len() {
                    assert(!same(k[i], k[j]));
                } else {
                    assert(!same(k[i], paths[n - 1]));
                }
            }
        }
    }
}

/// A loaded list names no path twice.
pub proof fn law_recents_are_distinct(paths: Seq<Seq<char>>, is_file: Seq<bool>)
    ensures
        distinct(kept(paths, is_file, paths.len())),
{
    lemma_kept(paths, is_file, paths.len());
}

} // verus!
