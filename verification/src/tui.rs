//! The home screen: its list, its keys and its lines.

use crate::path::{same, same_path};
use crate::text::{chars_of, texts};
use vstd::prelude::*;

verus! {

/// A line of the home screen.
#[derive(Debug)]
pub enum Item {
    Last(String),
    Spark,
    Browse(String),
    /// Pick a fable in the file manager.
    FromSpellbook,
    Recent(String),
}

/// An item as plain values.
pub enum Line {
    Last(Seq<char>),
    Spark,
    Browse(Seq<char>),
    FromSpellbook,
    Recent(Seq<char>),
}

impl View for Item {
    type V = Line;

    open spec fn view(&self) -> Line {
        match self {
            Item::Last(p) => Line::Last(p@),
            Item::Spark => Line::Spark,
            Item::Browse(p) => Line::Browse(p@),
            Item::FromSpellbook => Line::FromSpellbook,
            Item::Recent(p) => Line::Recent(p@),
        }
    }
}

pub open spec fn list(items: Seq<Item>) -> Seq<Line> {
    Seq::new(items.len(), |i: int| items[i]@)
}

/// The item stands for this path; a browsed one where `browsed` is asked for.
pub open spec fn shows(l: Line, p: Seq<char>, browsed: bool) -> bool {
    match l {
        Line::Last(x) => same(x, p),
        Line::Recent(x) => same(x, p),
        Line::Browse(x) => browsed && same(x, p),
        _ => false,
    }
}

pub open spec fn listed(l: Seq<Line>, p: Seq<char>, browsed: bool) -> bool {
    exists|i: int| 0 <= i < l.len() && #[trigger] shows(l[i], p, browsed)
}

fn is_listed(items: &Vec<Item>, p: &String, browsed: bool) -> (r: bool)
    ensures
        r == listed(list(items@), p@, browsed),
{
    let mut i: usize = 0;
    while i < items.len()
        invariant
            i <= items@.len(),
            forall|j: int| 0 <= j < i ==> !#[trigger] shows(list(items@)[j], p@, browsed),
        decreases items@.len() - i,
    {
        let hit: bool = match &items[i] {
            Item::Last(x) => same_path(x.as_str(), p.as_str()),
            Item::Recent(x) => same_path(x.as_str(), p.as_str()),
            Item::Browse(x) => browsed && same_path(x.as_str(), p.as_str()),
            _ => false,
        };
        if hit {
            assert(shows(list(items@)[i as int], p@, browsed));
            return true;
        }
        i += 1;
    }
    false
}

/// The list begins with the last fable, where there is one.
pub open spec fn top(last: Option<Seq<char>>) -> Seq<Line> {
    match last {
        Some(p) => seq![Line::Last(p), Line::Spark, Line::FromSpellbook],
        None => seq![Line::Spark, Line::FromSpellbook],
    }
}

/// The first `n` fables of the ROM directory that are not there yet.
pub open spec fn with_roms(l: Seq<Line>, roms: Seq<Seq<char>>, n: nat) -> Seq<Line>
    decreases n,
{
    if n == 0 {
        l
    } else {
        let k = with_roms(l, roms, (n - 1) as nat);
        if listed(k, roms[n - 1], false) {
            k
        } else {
            k.push(Line::Browse(roms[n - 1]))
        }
    }
}

/// The first `n` recent fables that are not there yet, while the list is short.
pub open spec fn with_recents(l: Seq<Line>, rec: Seq<Seq<char>>, n: nat) -> Seq<Line>
    decreases n,
{
    if n == 0 {
        l
    } else {
        let k = with_recents(l, rec, (n - 1) as nat);
        if k.len() > 16 || listed(k, rec[n - 1], true) {
            k
        } else {
            k.push(Line::Recent(rec[n - 1]))
        }
    }
}

pub open spec fn home_list(
    last: Option<Seq<char>>,
    roms: Seq<Seq<char>>,
    rec: Seq<Seq<char>>,
) -> Seq<Line> {
    let n = if roms.len() < 8 {
        roms.len()
    } else {
        8
    };
    with_recents(with_roms(top(last), roms, n), rec, rec.len())
}

proof fn lemma_roms_len(l: Seq<Line>, roms: Seq<Seq<char>>, n: nat)
    ensures
        l.len() <= with_roms(l, roms, n).len() <= l.len() + n,
    decreases n,
{
    if n > 0 {
        lemma_roms_len(l, roms, (n - 1) as nat);
    }
}

proof fn lemma_recents_full(l: Seq<Line>, rec: Seq<Seq<char>>, k: nat, n: nat)
    requires
        k <= n,
        with_recents(l, rec, k).len() > 16,
    ensures
        with_recents(l, rec, n) == with_recents(l, rec, k),
    decreases n,
{
    if k < n {
        lemma_recents_full(l, rec, k, (n - 1) as nat);
    }
}

pub open spec fn opt_text(s: Option<String>) -> Option<Seq<char>> {
    match s {
        Some(p) => Some(p@),
        None => None,
    }
}

/// The home list: the last fable, the built-in one, the file manager, up to
/// eight of the ROM directory, then recents.
pub fn build_items(last: Option<String>, roms: &Vec<String>, rec: &Vec<String>) -> (r: Vec<Item>)
    ensures
        list(r@) == home_list(opt_text(last), texts(roms@), texts(rec@)),
{
    let mut items: Vec<Item> = Vec::new();
    let ghost t = top(opt_text(last));
    if let Some(p) = last {
        items.push(Item::Last(p));
    }
    items.push(Item::Spark);
    items.push(Item::FromSpellbook);
    assert(list(items@) =~= t);
    let n: usize = if roms.len() < 8 {
        roms.len()
    } else {
        8
    };
    let mut i: usize = 0;
    while i < n
        invariant
            i <= n <= roms@.len(),
            list(items@) == with_roms(t, texts(roms@), i as nat),
        decreases n - i,
    {
        if !is_listed(&items, &roms[i], false) {
            let ghost before = items@;
            let p: String = roms[i].clone();
            items.push(Item::Browse(p));
            assert(list(items@) =~= list(before).push(Line::Browse(p@)));
        }
        i += 1;
    }
    let ghost b = list(items@);
    let mut j: usize = 0;
    while j < rec.len() && items.len() <= 16
        invariant
            j <= rec@.len(),
            list(items@) == with_recents(b, texts(rec@), j as nat),
        decreases rec@.len() - j,
    {
        if !is_listed(&items, &rec[j], true) {
            let ghost before = items@;
            let p: String = rec[j].clone();
            items.push(Item::Recent(p));
            assert(list(items@) =~= list(before).push(Line::Recent(p@)));
        }
        j += 1;
    }
    proof {
        if j < rec@.len() {
            lemma_recents_full(b, texts(rec@), j as nat, rec@.len());
        }
    }
    items
}

/// The list is never empty: the built-in fable is always on it, and so is the
/// file manager.
pub proof fn law_home_list(last: Option<Seq<char>>, roms: Seq<Seq<char>>, rec: Seq<Seq<char>>)
    ensures
        ({
            let l = home_list(last, roms, rec);
            let k: int = if last is Some {
                1
            } else {
                0
            };
            l.len() >= k + 2 && l[k] == Line::Spark && l[k + 1] == Line::FromSpellbook && l.len() <= 17
        }),
{
    let n = if roms.len() < 8 {
        roms.len()
    } else {
        8
    };
    lemma_roms_keep(top(last), roms, n);
    lemma_roms_len(top(last), roms, n);
    lemma_recents_keep(with_roms(top(last), roms, n), rec, rec.len());
}

proof fn lemma_roms_keep(l: Seq<Line>, roms: Seq<Seq<char>>, n: nat)
    ensures
        forall|i: int| 0 <= i < l.len() ==> #[trigger] with_roms(l, roms, n)[i] == l[i],
        l.len() <= with_roms(l, roms, n).len(),
    decreases n,
{
    if n > 0 {
        lemma_roms_keep(l, roms, (n - 1) as nat);
    }
}

proof fn lemma_recents_keep(l: Seq<Line>, rec: Seq<Seq<char>>, n: nat)
    requires
        l.len() <= 17,
    ensures
        forall|i: int| 0 <= i < l.len() ==> #[trigger] with_recents(l, rec, n)[i] == l[i],
        l.len() <= with_recents(l, rec, n).len() <= 17,
    decreases n,
{
    if n > 0 {
        lemma_recents_keep(l, rec, (n - 1) as nat);
    }
}

// ---- keys ---------------------------------------------------------------

#[derive(Clone, Copy, Debug, PartialEq, Eq, Structural)]
pub enum Key {
    Up,
    Down,
    Left,
    Right,
    Home,
    End,
    Enter,
    Quit,
    Char(u8),
    Other,
}

/// A byte from the terminal; None where an escape sequence follows.
pub open spec fn plain_key(b: u8) -> Option<Key> {
    if b == 0x0A || b == 0x0D {
        Some(Key::Enter)
    } else if b == 0x03 || b == 0x71 || b == 0x51 {
        Some(Key::Quit)
    } else if b == 0x1B {
        None
    } else if b < 0x80 {
        Some(Key::Char(b))
    } else {
        Some(Key::Other)
    }
}

pub fn key_of_byte(b: u8) -> (r: Option<Key>)
    ensures
        r == plain_key(b),
{
    if b == 0x0A || b == 0x0D {
        Some(Key::Enter)
    } else if b == 0x03 || b == 0x71 || b == 0x51 {
        Some(Key::Quit)
    } else if b == 0x1B {
        None
    } else if b < 0x80 {
        Some(Key::Char(b))
    } else {
        Some(Key::Other)
    }
}

/// An escape sequence is complete: six bytes, or a final byte behind the first.
pub fn esc_done(seq: &Vec<u8>) -> (r: bool)
    ensures
        r == (seq@.len() >= 6 || (seq@.len() >= 2 && 0x40 <= seq@.last() <= 0x7E)),
{
    let n: usize = seq.len();
    n >= 6 || (n >= 2 && 0x40 <= seq[n - 1] && seq[n - 1] <= 0x7E)
}

/// The key of an escape sequence, given without its escape.
pub open spec fn esc_key(s: Seq<u8>) -> Key {
    if s.len() == 2 && (s[0] == 0x5B || s[0] == 0x4F) {
        if s[1] == 0x41 {
            Key::Up
        } else if s[1] == 0x42 {
            Key::Down
        } else if s[1] == 0x43 {
            Key::Right
        } else if s[1] == 0x44 {
            Key::Left
        } else if s[1] == 0x48 {
            Key::Home
        } else if s[1] == 0x46 {
            Key::End
        } else {
            Key::Other
        }
    } else {
        Key::Other
    }
}

pub fn parse_esc(s: &Vec<u8>) -> (r: Key)
    ensures
        r == esc_key(s@),
{
    if s.len() == 2 && (s[0] == 0x5B || s[0] == 0x4F) {
        let b: u8 = s[1];
        if b == 0x41 {
            Key::Up
        } else if b == 0x42 {
            Key::Down
        } else if b == 0x43 {
            Key::Right
        } else if b == 0x44 {
            Key::Left
        } else if b == 0x48 {
            Key::Home
        } else if b == 0x46 {
            Key::End
        } else {
            Key::Other
        }
    } else {
        Key::Other
    }
}

/// What a key asks for.
#[derive(Clone, Copy, Debug, PartialEq, Eq, Structural)]
pub enum Act {
    Stay,
    Quit,
    /// The item at this place.
    Light(usize),
    /// The last fable.
    Last,
    Spark,
    /// The file manager.
    Pick,
}

/// The selection after a key, and what it asks for, with `n` items.
pub open spec fn pressed(sel: usize, n: usize, key: Key) -> (usize, Act) {
    match key {
        Key::Quit => (sel, Act::Quit),
        Key::Up => (sel.saturating_sub(1), Act::Stay),
        Key::Down => (
            if sel + 1 < n {
                (sel + 1) as usize
            } else {
                sel
            },
            Act::Stay,
        ),
        Key::Home => (0, Act::Stay),
        Key::End => (n.saturating_sub(1), Act::Stay),
        Key::Enter => (sel, Act::Light(sel)),
        Key::Right => (sel, Act::Light(sel)),
        Key::Char(c) => if c == 0x6C || c == 0x4C {
            (sel, Act::Last)
        } else if c == 0x73 || c == 0x53 {
            (sel, Act::Spark)
        } else if c == 0x6F || c == 0x4F || c == 0x62 || c == 0x42 {
            (sel, Act::Pick)
        } else if 0x31 <= c <= 0x39 && c - 0x31 < n {
            ((c - 0x31) as usize, Act::Light((c - 0x31) as usize))
        } else {
            (sel, Act::Stay)
        },
        _ => (sel, Act::Stay),
    }
}

pub fn press(sel: usize, n: usize, key: Key) -> (r: (usize, Act))
    ensures
        r == pressed(sel, n, key),
{
    match key {
        Key::Quit => (sel, Act::Quit),
        Key::Up => (sel.saturating_sub(1), Act::Stay),
        Key::Down => (
            if n > 0 && sel < n - 1 {
                sel + 1
            } else {
                sel
            },
            Act::Stay,
        ),
        Key::Home => (0, Act::Stay),
        Key::End => (n.saturating_sub(1), Act::Stay),
        Key::Enter => (sel, Act::Light(sel)),
        Key::Right => (sel, Act::Light(sel)),
        Key::Char(c) => if c == 0x6C || c == 0x4C {
            (sel, Act::Last)
        } else if c == 0x73 || c == 0x53 {
            (sel, Act::Spark)
        } else if c == 0x6F || c == 0x4F || c == 0x62 || c == 0x42 {
            (sel, Act::Pick)
        } else if 0x31 <= c && c <= 0x39 && ((c - 0x31) as usize) < n {
            ((c - 0x31) as usize, Act::Light((c - 0x31) as usize))
        } else {
            (sel, Act::Stay)
        },
        _ => (sel, Act::Stay),
    }
}

/// What the home screen ends with.
#[derive(Debug)]
pub enum Choice {
    Spark,
    Rom(String),
    Quit,
}

/// What a chosen item lights. Where it is the file manager, that has to say.
pub fn act_item(item: &Item) -> (r: Option<Choice>)
    ensures
        match item@ {
            Line::Last(p) | Line::Recent(p) | Line::Browse(p) => r matches Some(Choice::Rom(x)) && x@
                == p,
            Line::Spark => r matches Some(Choice::Spark),
            Line::FromSpellbook => r is None,
        },
{
    match item {
        Item::Last(p) => Some(Choice::Rom(p.clone())),
        Item::Recent(p) => Some(Choice::Rom(p.clone())),
        Item::Browse(p) => Some(Choice::Rom(p.clone())),
        Item::Spark => Some(Choice::Spark),
        Item::FromSpellbook => None,
    }
}

/// The selection when the list has become shorter.
pub fn clamp_sel(sel: usize, n: usize) -> (r: usize)
    ensures
        r == if sel >= n {
            n.saturating_sub(1)
        } else {
            sel
        },
{
    if sel >= n {
        n.saturating_sub(1)
    } else {
        sel
    }
}

/// No key moves the selection out of the list, nor lights what is not there.
pub proof fn law_selection_stays(sel: usize, n: usize, key: Key)
    requires
        sel < n,
    ensures
        pressed(sel, n, key).0 < n,
        pressed(sel, n, key).1 matches Act::Light(i) ==> i < n,
{
}

// ---- lines --------------------------------------------------------------

/// The first `width` characters, filled up with blanks.
pub open spec fn fitted(s: Seq<char>, width: nat) -> Seq<char> {
    Seq::new(
        width,
        |i: int|
            if i < s.len() {
                s[i]
            } else {
                ' '
            },
    )
}

pub fn pad_fit(s: &str, width: usize) -> (r: String)
    ensures
        r@ == fitted(s@, width as nat),
{
    let v: Vec<char> = chars_of(s);
    let mut out: String = String::new();
    assert(out@ =~= fitted(s@, 0));
    let mut w: usize = 0;
    while w < width
        invariant
            w <= width,
            v@ == s@,
            out@ == fitted(s@, w as nat),
        decreases width - w,
    {
        if w < v.len() {
            out.push(v[w]);
        } else {
            out.push(' ');
        }
        w += 1;
        assert(out@ =~= fitted(s@, w as nat));
    }
    out
}

} // verus!
