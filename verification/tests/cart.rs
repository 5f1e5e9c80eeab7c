//! Cartridges and archives.

use fairy_lantern::cart::{is_fable_path, list_entries, pick_entry, Cart, CartError, ZipEntry};
use fairy_lantern::fable::spark_rom;
use std::io::{Cursor, Write};
use zip::write::SimpleFileOptions;
use zip::{CompressionMethod, ZipWriter};

fn rom(n: usize, title: &[u8]) -> Vec<u8> {
    let mut d = vec![0u8; n];
    d[0xA0..0xA0 + title.len()].copy_from_slice(title);
    d[0xAC..0xB0].copy_from_slice(b"ABCD");
    d[0xB0..0xB2].copy_from_slice(b"01");
    d
}

fn archive(entries: &[(&str, Vec<u8>)]) -> Vec<u8> {
    let mut w = ZipWriter::new(Cursor::new(Vec::new()));
    for (name, data) in entries {
        if name.ends_with('/') {
            w.add_directory(*name, SimpleFileOptions::default()).unwrap();
        } else {
            let o = SimpleFileOptions::default().compression_method(CompressionMethod::Deflated);
            w.start_file(*name, o).unwrap();
            w.write_all(data).unwrap();
        }
    }
    w.finish().unwrap().into_inner()
}

#[test]
fn header_fields_are_trimmed_text() {
    let c = Cart::load(rom(0x200, b" TI\x01TLE \0XX"), "gba", "a.gba".into()).unwrap();
    assert_eq!(c.title, "TITLE");
    assert_eq!(c.game_code, "ABCD");
    assert_eq!(c.maker, "01");
    assert_eq!(c.path, "a.gba");
    assert_eq!(c.inner_name, None);
    assert_eq!(c.size(), 0x200);
    let c = Cart::load(rom(0x200, b"A\xFF\xFEB"), "GBA", String::new()).unwrap();
    assert_eq!(c.title, "AB", "what is no text is dropped");
}

#[test]
fn entry_follows_the_first_branch() {
    assert_eq!(spark_rom().entry_pc(), 0xC0);
    let c = Cart::load(rom(0x200, b""), "gba", String::new()).unwrap();
    assert_eq!(c.entry_pc(), 0x0800_0000);
}

#[test]
fn small_files_are_no_fables() {
    let r = Cart::load(vec![0; 0xBF], "gba", String::new());
    assert!(matches!(r, Err(CartError::TooSmall(0xBF))));
}

#[test]
fn the_largest_gba_of_an_archive_wins() {
    let z = archive(&[
        ("readme.txt", vec![1; 4000]),
        ("dir/", vec![]),
        ("small.gba", rom(0x200, b"SMALL")),
        ("dir/Big.GBA", rom(0x400, b"BIG")),
        ("dir/other.gba", rom(0x300, b"OTHER")),
        ("__MACOSX/huge.gba", rom(0x800, b"JUNK")),
        (".hidden/huge.gba", rom(0x800, b"JUNK")),
    ]);
    let c = Cart::load(z, "Zip", "x.zip".into()).unwrap();
    assert_eq!(c.title, "BIG");
    assert_eq!(c.inner_name.as_deref(), Some("dir/Big.GBA"));
    assert_eq!(c.data.len(), 0x400);
}

#[test]
fn the_last_of_equals_wins() {
    let z = archive(&[("a.gba", rom(0x200, b"ONE")), ("b.gba", rom(0x200, b"TWO"))]);
    assert_eq!(list_entries(&z).unwrap().len(), 2);
    let c = Cart::load(z, "zip", String::new()).unwrap();
    assert_eq!(c.title, "TWO");
}

#[test]
fn picking_needs_a_fable() {
    let e = |name: &str, is_dir: bool, size: u64| ZipEntry { name: name.into(), is_dir, size };
    assert_eq!(pick_entry(&vec![]), None);
    assert_eq!(pick_entry(&vec![e("a.gba", false, 0xBF), e("b.gba", true, 0x1000)]), None);
    assert_eq!(pick_entry(&vec![e("a/.b.gba", false, 0x1000), e("c.gba", false, 0xC0)]), Some(1));
    assert_eq!(pick_entry(&vec![e("a.gba", false, 3000), e("c.gba", false, 0xC0)]), Some(0));
}

#[test]
fn archive_errors() {
    assert!(matches!(Cart::load(vec![0; 500], "zip", String::new()), Err(CartError::BadZip)));
    let none = archive(&[("a.txt", vec![0; 300])]);
    assert!(matches!(Cart::load(none, "zip", String::new()), Err(CartError::NoFable)));
    // spoil the packed data: the entry can be listed but not unpacked
    let mut torn = archive(&[("a.gba", (0..4096u32).map(|i| (i * i >> 3) as u8).collect())]);
    for b in torn.iter_mut().skip(60).take(400) {
        *b = 0xFF;
    }
    assert!(matches!(Cart::load(torn, "zip", String::new()), Err(CartError::Extract)));
}

#[test]
fn extensions() {
    assert!(is_fable_path("gba") && is_fable_path("GBA") && is_fable_path("zip"));
    assert!(!is_fable_path("") && !is_fable_path("gb") && !is_fable_path("gbax"));
}
