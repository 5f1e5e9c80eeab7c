//! Cartridges: a bare `.gba` fable, or a `.zip` that holds one.

use crate::bits::{le32, make32};
use crate::mem::{find_tag, holds_tag};
use crate::text::{
    ends_tag, ends_with, equals_tag, is_tag, keep_printable, lossy, lowercase, lowered, printables, trim,
    lemma_all_printable, lemma_ascii, text_of, trimmed,
};
use vstd::prelude::*;
use vstd::slice::slice_subrange;
use vstd::utf8::encode_utf8;

verus! {

/// A ROM with the fields of its header.
#[derive(Clone, Debug)]
pub struct Cart {
    pub data: Vec<u8>,
    pub title: String,
    pub game_code: String,
    pub maker: String,
    pub path: String,
    /// Name inside the archive, where the fable came from one.
    pub inner_name: Option<String>,
}

/// Why a file is no fable.
#[derive(Clone, Copy, Debug, PartialEq, Eq, Structural)]
pub enum CartError {
    /// Fewer bytes than a header takes.
    TooSmall(usize),
    /// The archive, or an entry of it, cannot be read.
    BadZip,
    /// No `.gba` in the archive.
    NoFable,
    /// The entry cannot be unpacked.
    Extract,
    /// The unpacked entry is smaller than a header.
    ExtractedTooSmall,
}

pub const HEADER_LEN: usize = 0xC0;

// ---- archives -----------------------------------------------------------

/// Number of entries that `zip` finds; None where the bytes are no archive.
pub uninterp spec fn zip_count(file: Seq<u8>) -> Option<usize>;

/// Name, directory flag and unpacked size that `zip` gives for an entry.
pub uninterp spec fn zip_entry(file: Seq<u8>, i: usize) -> Option<(Seq<char>, bool, u64)>;

/// Contents that `zip` unpacks for an entry.
pub uninterp spec fn zip_data(file: Seq<u8>, i: usize) -> Option<Seq<u8>>;

/// `zip::ZipArchive::new` on the bytes, then `len`. The contract only names the
/// result; it is a function of the bytes.
#[verifier::external_body]
fn archive_len(file: &[u8]) -> (r: Option<usize>)
    ensures
        r == zip_count(file@),
{
    zip::ZipArchive::new(std::io::Cursor::new(file)).ok().map(|a| a.len())
}

/// `zip::ZipArchive::by_index`: an entry's `name`, `is_dir` and `size`. The
/// contract only names the result; it is a function of the bytes and the index.
#[verifier::external_body]
fn archive_entry(file: &[u8], i: usize) -> (r: Option<ZipEntry>)
    ensures
        match r {
            Some(e) => zip_entry(file@, i) == Some(e@),
            None => zip_entry(file@, i) is None,
        },
{
    let mut a = zip::ZipArchive::new(std::io::Cursor::new(file)).ok()?;
    let e = a.by_index(i).ok()?;
    Some(ZipEntry { name: e.name().to_string(), is_dir: e.is_dir(), size: e.size() })
}

/// `zip::ZipArchive::by_index`, read to its end. The contract only names the
/// result; it is a function of the bytes and the index.
#[verifier::external_body]
fn archive_data(file: &[u8], i: usize) -> (r: Option<Vec<u8>>)
    ensures
        match r {
            Some(v) => zip_data(file@, i) == Some(v@),
            None => zip_data(file@, i) is None,
        },
{
    let mut a = zip::ZipArchive::new(std::io::Cursor::new(file)).ok()?;
    let mut e = a.by_index(i).ok()?;
    let mut data: Vec<u8> = Vec::new();
    std::io::Read::read_to_end(&mut e, &mut data).ok()?;
    Some(data)
}

/// An entry of an archive.
#[derive(Debug)]
pub struct ZipEntry {
    pub name: String,
    pub is_dir: bool,
    pub size: u64,
}

impl View for ZipEntry {
    type V = (Seq<char>, bool, u64);

    open spec fn view(&self) -> (Seq<char>, bool, u64) {
        (self.name@, self.is_dir, self.size)
    }
}

/// A path component begins with a dot.
pub open spec fn has_dot_part(s: Seq<u8>) -> bool {
    exists|i: int| #[trigger] is_dot_part(s, i)
}

pub open spec fn is_dot_part(s: Seq<u8>, i: int) -> bool {
    0 <= i < s.len() && s[i] == 0x2E && (i == 0 || s[i - 1] == 0x2F)
}

fn dot_part(s: &[u8]) -> (r: bool)
    ensures
        r == has_dot_part(s@),
{
    let mut i: usize = 0;
    while i < s.len()
        invariant
            i <= s@.len(),
            forall|j: int| 0 <= j < i ==> !#[trigger] is_dot_part(s@, j),
        decreases s@.len() - i,
    {
        if s[i] == 0x2E && (i == 0 || s[i - 1] == 0x2F) {
            assert(is_dot_part(s@, i as int));
            return true;
        }
        i += 1;
    }
    false
}

/// The entry is a fable: a `.gba` of at least a header's size, and neither a
/// directory nor what desktop systems leave in archives.
pub open spec fn is_fable(e: (Seq<char>, bool, u64)) -> bool {
    let name = encode_utf8(e.0);
    &&& !e.1
    &&& ends_with(lowered(name), ".gba"@)
    &&& !holds_tag(lowered(name), "__macosx/"@)
    &&& !has_dot_part(name)
    &&& e.2 >= HEADER_LEN
}

fn fits(e: &ZipEntry) -> (r: bool)
    ensures
        r == is_fable(e@),
{
    proof {
        reveal_strlit(".gba");
        reveal_strlit("__macosx/");
    }
    let name: &[u8] = e.name.as_str().as_bytes();
    if e.is_dir {
        return false;
    }
    let low: Vec<u8> = lowercase(name);
    ends_tag(low.as_slice(), ".gba") && !find_tag(low.as_slice(), "__macosx/") && !dot_part(name) && e.size
        >= HEADER_LEN as u64
}

/// The entries as plain values.
pub open spec fn entries(es: Seq<ZipEntry>) -> Seq<(Seq<char>, bool, u64)> {
    Seq::new(es.len(), |i: int| es[i]@)
}

/// The largest fable among the first `n` entries; the last of equals.
pub open spec fn best_of(es: Seq<(Seq<char>, bool, u64)>, n: nat) -> Option<usize>
    decreases n,
{
    if n == 0 {
        None
    } else {
        let b = best_of(es, (n - 1) as nat);
        let e = es[n - 1];
        if is_fable(e) && (b matches Some(i) ==> e.2 >= es[i as int].2) {
            Some((n - 1) as usize)
        } else {
            b
        }
    }
}

/// The entry to play.
pub fn pick_entry(es: &Vec<ZipEntry>) -> (r: Option<usize>)
    ensures
        r == best_of(entries(es@), es@.len()),
        r matches Some(i) ==> i < es@.len(),
{
    let mut best: Option<usize> = None;
    let mut best_size: u64 = 0;
    let mut i: usize = 0;
    while i < es.len()
        invariant
            i <= es@.len(),
            best == best_of(entries(es@), i as nat),
            best matches Some(b) ==> b < i && best_size == es@[b as int].size,
            best is None ==> best_size == 0,
        decreases es@.len() - i,
    {
        if fits(&es[i]) && es[i].size >= best_size {
            best = Some(i);
            best_size = es[i].size;
        }
        i += 1;
    }
    best
}

proof fn lemma_best(es: Seq<(Seq<char>, bool, u64)>, n: nat)
    requires
        n <= es.len() <= usize::MAX,
    ensures
        match best_of(es, n) {
            Some(i) => i < n && is_fable(es[i as int]) && forall|j: int|
                0 <= j < n && is_fable(#[trigger] es[j]) ==> es[j].2 <= es[i as int].2 && (es[j].2
                    == es[i as int].2 ==> j <= i),
            None => forall|j: int| 0 <= j < n ==> !is_fable(#[trigger] es[j]),
        },
    decreases n,
{
    if n > 0 {
        lemma_best(es, (n - 1) as nat);
    }
}

/// The picked entry is a fable, no fable is larger, and of equals it is the
/// last. None is picked only where there is none.
pub proof fn law_largest_fable_wins(es: Seq<(Seq<char>, bool, u64)>)
    requires
        es.len() <= usize::MAX,
    ensures
        match best_of(es, es.len()) {
            Some(i) => i < es.len() && is_fable(es[i as int]) && forall|j: int|
                0 <= j < es.len() && is_fable(#[trigger] es[j]) ==> es[j].2 <= es[i as int].2 && (es[j].2
                    == es[i as int].2 ==> j <= i),
            None => forall|j: int| 0 <= j < es.len() ==> !is_fable(#[trigger] es[j]),
        },
{
    lemma_best(es, es.len());
}

/// The first `n` entries; None where one cannot be read.
pub open spec fn zip_list(file: Seq<u8>, n: nat) -> Option<Seq<(Seq<char>, bool, u64)>>
    decreases n,
{
    if n == 0 {
        Some(Seq::empty())
    } else {
        match (zip_list(file, (n - 1) as nat), zip_entry(file, (n - 1) as usize)) {
            (Some(es), Some(e)) => Some(es.push(e)),
            _ => None,
        }
    }
}

/// Every entry of an archive. One that cannot be read spoils it.
pub open spec fn zip_entries(file: Seq<u8>) -> Option<Seq<(Seq<char>, bool, u64)>> {
    match zip_count(file) {
        Some(n) => zip_list(file, n as nat),
        None => None,
    }
}

proof fn lemma_list_fails(file: Seq<u8>, k: nat, n: nat)
    requires
        k <= n,
        zip_list(file, k) is None,
    ensures
        zip_list(file, n) is None,
    decreases n,
{
    if k < n {
        lemma_list_fails(file, k, (n - 1) as nat);
    }
}

/// Lists an archive.
pub fn list_entries(file: &[u8]) -> (r: Option<Vec<ZipEntry>>)
    ensures
        match r {
            Some(es) => zip_entries(file@) == Some(entries(es@)),
            None => zip_entries(file@) is None,
        },
{
    let n: usize = match archive_len(file) {
        Some(n) => n,
        None => {
            return None;
        },
    };
    let mut es: Vec<ZipEntry> = Vec::new();
    assert(entries(es@) =~= Seq::empty());
    let mut i: usize = 0;
    while i < n
        invariant
            i <= n,
            zip_count(file@) == Some(n),
            es@.len() == i,
            zip_list(file@, i as nat) == Some(entries(es@)),
        decreases n - i,
    {
        let ghost before = es@;
        match archive_entry(file, i) {
            Some(e) => {
                es.push(e);
                assert(entries(es@) =~= entries(before).push(e@));
            },
            None => {
                proof {
                    lemma_list_fails(file@, (i + 1) as nat, n as nat);
                }
                return None;
            },
        }
        i += 1;
    }
    Some(es)
}

/// What comes of an archive: its fable and the name that it has there.
pub open spec fn zip_fable(file: Seq<u8>) -> Result<(Seq<u8>, Seq<char>), CartError> {
    match zip_entries(file) {
        None => Err(CartError::BadZip),
        Some(es) => match best_of(es, es.len()) {
            None => Err(CartError::NoFable),
            Some(i) => match zip_data(file, i) {
                None => Err(CartError::Extract),
                Some(d) => if d.len() < HEADER_LEN {
                    Err(CartError::ExtractedTooSmall)
                } else {
                    Ok((d, es[i as int].0))
                },
            },
        },
    }
}

/// The fable that an archive holds, with its name there: the largest `.gba`.
pub fn load_gba_from_zip(file: &[u8]) -> (r: Result<(Vec<u8>, String), CartError>)
    ensures
        match r {
            Ok((data, name)) => zip_fable(file@) == Ok::<(Seq<u8>, Seq<char>), CartError>(
                (data@, name@),
            ),
            Err(e) => zip_fable(file@) == Err::<(Seq<u8>, Seq<char>), CartError>(e),
        },
{
    let es: Vec<ZipEntry> = match list_entries(file) {
        Some(es) => es,
        None => {
            return Err(CartError::BadZip);
        },
    };
    let i: usize = match pick_entry(&es) {
        Some(i) => i,
        None => {
            return Err(CartError::NoFable);
        },
    };
    match archive_data(file, i) {
        None => Err(CartError::Extract),
        Some(data) => if data.len() < HEADER_LEN {
            Err(CartError::ExtractedTooSmall)
        } else {
            Ok((data, es[i].name.clone()))
        },
    }
}

// ---- header -------------------------------------------------------------

/// How many bytes come before the first zero.
pub open spec fn text_len(s: Seq<u8>, n: nat) -> nat
    decreases s.len() - n,
{
    if n >= s.len() || s[n as int] == 0 {
        n
    } else {
        text_len(s, n + 1)
    }
}

/// A zero-ended text field: trimmed, then only what is printable.
pub open spec fn field_text(s: Seq<u8>) -> Seq<char> {
    let t = trimmed(text_of(s.take(text_len(s, 0) as int)));
    printables(t, t.len())
}

pub fn cstr_field(bytes: &[u8]) -> (r: String)
    ensures
        r@ == field_text(bytes@),
{
    let mut end: usize = 0;
    while end < bytes.len() && bytes[end] != 0
        invariant
            end <= bytes@.len(),
            text_len(bytes@, 0) == text_len(bytes@, end as nat),
        decreases bytes@.len() - end,
    {
        end += 1;
    }
    let head: &[u8] = slice_subrange(bytes, 0, end);
    assert(head@ =~= bytes@.take(end as int));
    let t: String = trim(lossy(head).as_str());
    keep_printable(t.as_str())
}

proof fn lemma_text_len(s: Seq<u8>, n: nat)
    requires
        n <= s.len(),
    ensures
        n <= text_len(s, n) <= s.len(),
    decreases s.len() - n,
{
    if n < s.len() && s[n as int] != 0 {
        lemma_text_len(s, n + 1);
    }
}

/// A field of ASCII letters, digits and signs reads as it is written, up to the
/// first zero.
pub proof fn law_plain_field(s: Seq<u8>)
    requires
        forall|i: int| 0 <= i < text_len(s, 0) ==> 0x21 <= #[trigger] s[i] <= 0x7E,
    ensures
        field_text(s) == Seq::new(text_len(s, 0), |i: int| s[i] as char),
{
    lemma_text_len(s, 0);
    let b = s.take(text_len(s, 0) as int);
    lemma_ascii(b);
    let t = text_of(b);
    assert(trimmed(t) =~= t);
    lemma_all_printable(t, t.len());
    assert(field_text(s) =~= Seq::new(text_len(s, 0), |i: int| s[i] as char));
}

impl Cart {
    pub open spec fn named(self, path: Seq<char>, inner: Option<Seq<char>>) -> bool {
        &&& self.path@ == path
        &&& match inner {
            Some(n) => self.inner_name matches Some(m) && m@ == n,
            None => self.inner_name is None,
        }
    }

    /// The fields of the header: the title at 0xA0-0xAB, the game code at
    /// 0xAC-0xAF, the maker at 0xB0-0xB1.
    pub open spec fn headed(self) -> bool {
        &&& self.data@.len() >= HEADER_LEN
        &&& self.title@ == field_text(self.data@.subrange(0xA0, 0xAC))
        &&& self.game_code@ == field_text(self.data@.subrange(0xAC, 0xB0))
        &&& self.maker@ == field_text(self.data@.subrange(0xB0, 0xB2))
    }

    /// A ROM image as a cartridge.
    pub fn from_rom(data: Vec<u8>, path: String, inner_name: Option<String>) -> (r: Result<
        Cart,
        CartError,
    >)
        ensures
            match r {
                Ok(c) => c.data == data && c.path == path && c.inner_name == inner_name && c.headed(),
                Err(e) => data@.len() < HEADER_LEN && e == CartError::TooSmall(data@.len() as usize),
            },
    {
        if data.len() < HEADER_LEN {
            return Err(CartError::TooSmall(data.len()));
        }
        let title: String = cstr_field(slice_subrange(data.as_slice(), 0xA0, 0xAC));
        let game_code: String = cstr_field(slice_subrange(data.as_slice(), 0xAC, 0xB0));
        let maker: String = cstr_field(slice_subrange(data.as_slice(), 0xB0, 0xB2));
        Ok(Cart { data, title, game_code, maker, path, inner_name })
    }

    /// A file as a cartridge. One with the extension `zip` is an archive.
    pub fn load(file: Vec<u8>, ext: &str, path: String) -> (r: Result<Cart, CartError>)
        ensures
            is_tag(lowered(encode_utf8(ext@)), "zip"@) ==> match zip_fable(file@) {
                Ok((d, n)) => r matches Ok(c) && c.data@ == d && c.named(path@, Some(n)) && c.headed(),
                Err(e) => r == Err::<Cart, CartError>(e),
            },
            !is_tag(lowered(encode_utf8(ext@)), "zip"@) ==> if file@.len() < HEADER_LEN {
                r == Err::<Cart, CartError>(CartError::TooSmall(file@.len() as usize))
            } else {
                r matches Ok(c) && c.data@ == file@ && c.named(path@, None) && c.headed()
            },
    {
        proof {
            reveal_strlit("zip");
        }
        let low: Vec<u8> = lowercase(ext.as_bytes());
        if equals_tag(low.as_slice(), "zip") {
            match load_gba_from_zip(file.as_slice()) {
                Ok((data, name)) => Cart::from_rom(data, path, Some(name)),
                Err(e) => Err(e),
            }
        } else {
            Cart::from_rom(file, path, None)
        }
    }

    pub fn size(&self) -> (r: usize)
        ensures
            r == self.data@.len(),
    {
        self.data.len()
    }

    /// Where the first instruction, a branch, leads; the ROM's start where it
    /// is none.
    pub open spec fn entry(self) -> u32 {
        if self.data@.len() >= 4 {
            let op = le32(self.data@[0], self.data@[1], self.data@[2], self.data@[3]);
            if op & 0x0E00_0000 == 0x0A00_0000 {
                let imm = (((op & 0x00FF_FFFF) as i32) << 8) >> 8;
                8u32.wrapping_add(imm.wrapping_mul(4) as u32)
            } else {
                0x0800_0000
            }
        } else {
            0x0800_0000
        }
    }

    pub fn entry_pc(&self) -> (r: u32)
        ensures
            r == self.entry(),
    {
        if self.data.len() >= 4 {
            let op: u32 = make32(self.data[0], self.data[1], self.data[2], self.data[3]);
            if op & 0x0E00_0000 == 0x0A00_0000 {
                let imm: i32 = (((op & 0x00FF_FFFF) as i32) << 8) >> 8;
                return 8u32.wrapping_add(imm.wrapping_mul(4) as u32);
            }
        }
        0x0800_0000
    }
}

/// A file with this extension can be lit: a bare `.gba`, or a `.zip` with one.
pub fn is_fable_path(ext: &str) -> (r: bool)
    ensures
        r == (is_tag(lowered(encode_utf8(ext@)), "gba"@) || is_tag(lowered(encode_utf8(ext@)), "zip"@)),
{
    proof {
        reveal_strlit("gba");
        reveal_strlit("zip");
    }
    let low: Vec<u8> = lowercase(ext.as_bytes());
    equals_tag(low.as_slice(), "gba") || equals_tag(low.as_slice(), "zip")
}

} // verus!
