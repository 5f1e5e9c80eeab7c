//! What the host side decides.

use fairy_lantern::pad_led::{json_u16, parse_current, Light};
use fairy_lantern::play::{
    blend_px, cue_rgb, poll_keys, to_rgb, Cue, CueKind, Inputs, Keyboard, Session, Show, AUTO_EVERY, CUE_FLASH,
    FRAME_BUDGET, HOLD_FOR,
};
use fairy_lantern::ppu::{HEIGHT, WIDTH};
use fairy_lantern::path::{components_of, same_path};
use fairy_lantern::recents::{load_recents, parse_recents, remember, write_recents};
use fairy_lantern::emu::{judge_bios, BiosFile, Emu};
use fairy_lantern::fable::spark_rom;
use fairy_lantern::sound::pipe::{next_act, pace_chunk, sample_bytes, PipeAct, CHUNK_TIME};
use fairy_lantern::sound::resample::{host_frames, PullResampler, SampleRing};
use fairy_lantern::sound::settings::{audio_sine, ds_mode};
use fairy_lantern::statedbg::{drawn_objs, level_stat, lit_pixels, live_objs, nonzero, valid_pc};
use fairy_lantern::text::{split_lines, trim};
use fairy_lantern::trace::{changed, changed_songs, differences, is_due, look, span_of, Line, Span, Tracer};
use fairy_lantern::tui::{act_item, build_items, clamp_sel, esc_done, key_of_byte, pad_fit, parse_esc, press, Act, Choice, Item, Key};
use fairy_lantern::video::{ppm_bytes, terminal_rows};

#[test]
fn parse_wisp_sidecar() {
    let s = r#"{"on":true,"hue":320,"saturation":70,"color_temp":0,"brightness":80}"#;
    let c = parse_current(s);
    assert!(c.on);
    assert_eq!(c.hue, Some(320));
    assert_eq!(c.sat, Some(70));
    assert_eq!(c.light, Light::Hsv(320, 70));
}

#[test]
fn lamp_fields() {
    assert_eq!(json_u16("{ \"hue\" :\t 7 }", "\"hue\""), Some(7));
    assert_eq!(json_u16("{\"hue\":65535}", "\"hue\""), Some(65535));
    assert_eq!(json_u16("{\"hue\":65536}", "\"hue\""), None);
    assert_eq!(json_u16("{\"hue\":true}", "\"hue\""), None);
    assert_eq!(json_u16("{}", "\"hue\""), None);
    assert_eq!(parse_current("{\"on\": true, \"color_temp\": 2700}").light, Light::Kelvin(2700));
    assert_eq!(parse_current("{\"on\": true, \"saturation\": 300}").light, Light::Hsv(0, 100));
    assert_eq!(parse_current("{\"on\":false,\"hue\":1}").light, Light::Off);
}

fn quiet(now: u64) -> Inputs {
    Inputs {
        now,
        pause: false,
        turbo: false,
        cycle: false,
        save: false,
        load: false,
        load_auto: false,
        west: false,
        north: false,
        l3: false,
        r3: false,
        has_slot: true,
    }
}

#[test]
fn a_session_takes_turns() {
    let mut s = Session::new(0);
    let o = s.turn(quiet(1));
    assert_eq!((o.frames, o.emit, o.autosave), (1, None, false));

    let o = s.turn(Inputs { turbo: true, ..quiet(2) });
    assert_eq!((o.frames, o.emit), (2, Some(false)));
    let o = s.turn(Inputs { north: true, ..quiet(3) });
    assert_eq!(o.frames, 3);
    let o = s.turn(Inputs { north: true, ..quiet(4) });
    assert_eq!(o.frames, 3, "a held button is one press");
    let o = s.turn(Inputs { west: true, ..quiet(5) });
    assert_eq!((o.frames, o.emit), (1, Some(true)));

    let o = s.turn(Inputs { pause: true, ..quiet(6) });
    assert_eq!(o.frames, 0);
    let o = s.turn(quiet(AUTO_EVERY + 10));
    assert!(!o.autosave, "not while paused");
    let o = s.turn(Inputs { pause: true, ..quiet(AUTO_EVERY + 20) });
    assert!(o.autosave);
    assert_eq!(s.cue, Some(Cue { kind: CueKind::Auto, show: Show::Flash(AUTO_EVERY + 20) }));
    s.drop_cue(AUTO_EVERY + 20 + CUE_FLASH - 1);
    assert!(s.cue.is_some());
    s.drop_cue(AUTO_EVERY + 20 + CUE_FLASH);
    assert!(s.cue.is_none());
}

#[test]
fn held_sticks_save_and_load() {
    let mut s = Session::new(0);
    let o = s.turn(Inputs { l3: true, ..quiet(10) });
    assert!(!o.save_held);
    assert_eq!(s.cue, Some(Cue { kind: CueKind::Save, show: Show::Holding(0) }));
    assert!(s.turn(Inputs { l3: true, ..quiet(10 + HOLD_FOR) }).save_held);
    assert!(!s.turn(Inputs { l3: true, ..quiet(11 + HOLD_FOR) }).save_held);
    let o = s.turn(Inputs { load: true, save: true, ..quiet(12 + HOLD_FOR) });
    assert!(o.load_key && o.save_key);
    assert_eq!(s.cue, Some(Cue { kind: CueKind::Load, show: Show::Flash(12 + HOLD_FOR) }));
}

#[test]
fn frames_are_paced_and_hitches_forgotten() {
    let mut s = Session::new(1000);
    assert_eq!(s.pace(1000), FRAME_BUDGET);
    assert_eq!(s.pace(1000 + 3 * FRAME_BUDGET), 0);
    assert_eq!(s.next_frame, 1000 + 2 * FRAME_BUDGET);
    let late = 1000 + 9 * FRAME_BUDGET;
    assert_eq!(s.pace(late), 0);
    assert_eq!(s.next_frame, late);
}

#[test]
fn colours_and_keys() {
    assert_eq!(to_rgb(&vec![0x7FFF, 0x001F, 0x03E0, 0x7C00]), [0x00F8_F8F8, 0x00F8_0000, 0x0000_F800, 0xF8]);
    assert_eq!(cue_rgb(CueKind::Load), (210, 90, 255));
    let mut fb = vec![0u32; WIDTH * HEIGHT];
    blend_px(&mut fb, 1, 1, 255, 128, 0, 255);
    assert_eq!(fb[WIDTH + 1], 0x00FF_8000);
    blend_px(&mut fb, 1, 1, 0, 0, 255, 51);
    assert_eq!(fb[WIDTH + 1], 0x00CC_6633);
    blend_px(&mut fb, -1, 0, 255, 255, 255, 255);
    blend_px(&mut fb, 0, HEIGHT as i32, 255, 255, 255, 255);
    assert_eq!(fb.iter().filter(|p| **p != 0).count(), 1);
    let none = Keyboard {
        z: false,
        j: false,
        space: false,
        x: false,
        k: false,
        right_shift: false,
        backspace: false,
        enter: false,
        right: false,
        d: false,
        left: false,
        a: false,
        up: false,
        w: false,
        down: false,
        s: false,
        q: false,
        e: false,
    };
    assert_eq!(poll_keys(&none), 0);
    assert_eq!(poll_keys(&Keyboard { j: true, w: true, q: true, ..none }), 0x241);
}

#[test]
fn recent_fables() {
    let lines = parse_recents("/a\n  /b \r\n/a\n/gone\n\n/c");
    assert_eq!(lines, ["/a", "/b", "/a", "/gone", "", "/c"]);
    let there = vec![true, true, true, false, false, true];
    let rec = load_recents(&lines, &there);
    assert_eq!(rec, ["/a", "/b", "/c"]);
    let rec = remember(&rec, &"/c".to_string());
    assert_eq!(rec, ["/c", "/a", "/b"]);
    assert_eq!(write_recents(&rec), "/c\n/a\n/b\n");
    let many: Vec<String> = (0..20).map(|i| format!("/{i}")).collect();
    let rec = remember(&many, &"/new".to_string());
    assert_eq!((rec.len(), rec[0].as_str(), rec[11].as_str()), (12, "/new", "/10"));
}

#[test]
fn paths_go_by_their_components() {
    for (a, b) in [
        ("/r/a.gba", "/r//a.gba"),
        ("/r/a.gba", "/r/./a.gba"),
        ("/r/a.gba", "/r/a.gba/"),
        ("/", "//."),
        ("a/./b", "a/b"),
        ("./a", ".//a/."),
    ] {
        assert!(same_path(a, b), "{a} {b}");
        assert_eq!(std::path::Path::new(a), std::path::Path::new(b));
    }
    for (a, b) in [("/a", "a"), ("./a", "a"), ("/a/../b", "/b"), ("/a", "/A"), ("/ab", "/a/b"), ("", "."), ("", "/")] {
        assert!(!same_path(a, b), "{a} {b}");
        assert_ne!(std::path::Path::new(a), std::path::Path::new(b));
    }
    assert_eq!(components_of("/r//./a/../b/"), ["r", "a", "..", "b"]);
    assert_eq!(components_of("./x"), [".", "x"]);
    let lines = parse_recents("/r/a.gba\n/r//a.gba\n/r/b.gba");
    let rec = load_recents(&lines, &vec![true, true, true]);
    assert_eq!(rec, ["/r/a.gba", "/r/b.gba"]);
    assert_eq!(remember(&rec, &"/r/./b.gba".to_string()), ["/r/./b.gba", "/r/a.gba"]);
    let items = build_items(Some("/r/a.gba".into()), &vec!["/r//a.gba".into()], &vec!["/r/a.gba/".into(), "/r/c".into()]);
    assert_eq!(shape(&items), ["L/r/a.gba", "S", "F", "R/r/c"]);
}

#[test]
fn text_edges() {
    for c in (0..=0xFFFFu32).filter_map(char::from_u32) {
        assert_eq!(trim(&c.to_string()).is_empty(), c.is_whitespace(), "{c:?}");
    }
    assert_eq!(trim("\u{3000} a b\t\n"), "a b");
    assert_eq!(trim("  \n "), "");
    assert_eq!(split_lines("x\n"), ["x"]);
    assert_eq!(split_lines(""), Vec::<String>::new());
    assert_eq!(pad_fit("abcdef", 3), "abc");
    assert_eq!(pad_fit("é", 3), "é  ");
}

fn shape(items: &[Item]) -> Vec<String> {
    items
        .iter()
        .map(|i| match i {
            Item::Last(p) => format!("L{p}"),
            Item::Spark => "S".to_string(),
            Item::Browse(p) => format!("B{p}"),
            Item::FromSpellbook => "F".to_string(),
            Item::Recent(p) => format!("R{p}"),
        })
        .collect()
}

#[test]
fn home_list() {
    let v = |n: &[&str]| n.iter().map(|s| s.to_string()).collect::<Vec<String>>();
    let items = build_items(Some("/a".into()), &v(&["/a", "/b"]), &v(&["/a", "/b", "/c"]));
    assert_eq!(shape(&items), ["L/a", "S", "F", "B/b", "R/c"]);
    assert!(matches!(act_item(&items[0]), Some(Choice::Rom(p)) if p == "/a"));
    assert!(matches!(act_item(&items[1]), Some(Choice::Spark)));
    assert!(act_item(&items[2]).is_none());
    assert_eq!(shape(&build_items(None, &v(&[]), &v(&[]))), ["S", "F"]);
    let many: Vec<String> = (0..30).map(|i| format!("/{i}")).collect();
    let items = build_items(None, &many, &many);
    assert_eq!(items.len(), 17);
    assert_eq!(shape(&items)[9..11], ["B/7", "R/8"]);
}

#[test]
fn home_keys() {
    assert_eq!(key_of_byte(b'\r'), Some(Key::Enter));
    assert_eq!(key_of_byte(3), Some(Key::Quit));
    assert_eq!(key_of_byte(0x1B), None);
    assert_eq!(key_of_byte(0xC3), Some(Key::Other));
    assert!(!esc_done(&vec![b'[']));
    assert!(esc_done(&vec![b'[', b'A']));
    assert!(!esc_done(&vec![b'[', b'1']));
    assert!(esc_done(&vec![b'1'; 6]));
    assert_eq!(parse_esc(&vec![b'O', b'H']), Key::Home);
    assert_eq!(parse_esc(&vec![b'[', b'Z']), Key::Other);
    assert_eq!(press(0, 3, Key::Up), (0, Act::Stay));
    assert_eq!(press(2, 3, Key::Down), (2, Act::Stay));
    assert_eq!(press(1, 3, Key::Down), (2, Act::Stay));
    assert_eq!(press(1, 3, Key::End), (2, Act::Stay));
    assert_eq!(press(1, 3, Key::Right), (1, Act::Light(1)));
    assert_eq!(press(1, 3, Key::Char(b'3')), (2, Act::Light(2)));
    assert_eq!(press(1, 3, Key::Char(b'4')), (1, Act::Stay));
    assert_eq!(press(1, 3, Key::Char(b'O')), (1, Act::Pick));
    assert_eq!(press(1, 3, Key::Char(b'l')), (1, Act::Last));
    assert_eq!(press(1, 3, Key::Char(b's')), (1, Act::Spark));
    assert_eq!(clamp_sel(5, 3), 2);
}

#[test]
fn pictures() {
    let ppm = ppm_bytes(&[0x7FFF; 240 * 160]);
    assert!(ppm.starts_with(b"P6\n240 160\n255\n"));
    assert_eq!(ppm.len(), b"P6\n240 160\n255\n".len() + 240 * 160 * 3);
    assert_eq!(ppm[15..18], [255, 255, 255]);
    assert_eq!(ppm_bytes(&[0x0001])[15..18], [8, 0, 0]);
    assert_eq!((terminal_rows(1), terminal_rows(60), terminal_rows(400)), (8, 40, 48));
}

#[test]
fn report_numbers() {
    assert_eq!(nonzero(&[0, 1, 0, 255]), 2);
    assert_eq!(lit_pixels(&[0, 0x8000, 1]), 1);
    let mut oam = vec![0u8; 1024];
    for i in 0..128 {
        oam[i * 8 + 1] = 2; // hidden
    }
    oam[1] = 0;
    oam[8] = 160;
    oam[9] = 0;
    oam[10] = 240;
    oam[16] = 160;
    oam[17] = 0;
    assert_eq!(live_objs(&oam), [0, 2]);
    assert_eq!(drawn_objs(&oam), [0, 1, 2]);
    oam[9] = 8; // a window
    oam[25] = 3; // affine, at twice its size
    assert_eq!(drawn_objs(&oam), [0, 2, 3]);
    assert!(valid_pc(0x0800_0000) && valid_pc(0x0300_7FFF) && !valid_pc(0x0300_8000) && !valid_pc(0x4000));
}

#[test]
fn the_player_pipe() {
    assert_eq!(next_act(false, 3999, 100_000), PipeAct::Wait);
    assert_eq!(next_act(false, 32768, 8191), PipeAct::Wait);
    assert_eq!(next_act(false, 32768, 8192), PipeAct::Open);
    assert_eq!(next_act(false, 4000, 1023), PipeAct::Wait);
    assert_eq!(next_act(true, 3999, 0), PipeAct::Rest);
    assert_eq!(next_act(true, 13379, 0), PipeAct::Play);
    assert_eq!(pace_chunk(100, 100, true), (100 + CHUNK_TIME, CHUNK_TIME));
    assert_eq!(pace_chunk(0, 5 * CHUNK_TIME, true), (5 * CHUNK_TIME, 0));
    assert_eq!(pace_chunk(0, 5 * CHUNK_TIME, false), (CHUNK_TIME, 0));
    assert_eq!(sample_bytes(&vec![1, -2]), [1, 0, 0xFE, 0xFF]);
}

#[test]
fn an_underrun_holds_the_last_frame() {
    let mut ring = SampleRing::new();
    ring.push_batch(&[1, 2, 3, 4, 5]);
    let mut p = PullResampler::new();
    p.advance(&mut ring);
    p.advance(&mut ring);
    assert_eq!((p.prev_l, p.prev_r, p.next_l, p.next_r, p.empty), (1, 2, 3, 4, 0));
    p.advance(&mut ring);
    assert_eq!((p.prev_l, p.prev_r, p.next_l, p.next_r, p.empty), (3, 4, 3, 4, 1));
    assert_eq!(ring.len(), 0);
}

#[test]
fn a_dump_has_the_length_of_the_sound() {
    assert_eq!(host_frames(13378, 13378), 48_000);
    assert_eq!(host_frames(1, 96_000), 1);
    assert_eq!(host_frames(0, 96_000), 0);
    assert_eq!(host_frames(100, 0), 0);
    assert_eq!(host_frames(3, 32_768), 4);
}

#[test]
fn audio_settings() {
    assert_eq!((ds_mode("a"), ds_mode("A-Only"), ds_mode("B"), ds_mode("b-only")), (1, 1, 2, 2));
    assert_eq!((ds_mode(""), ds_mode("ab")), (3, 3));
    assert!(audio_sine("Sine") && audio_sine("tone") && audio_sine("BEEP"));
    assert!(!audio_sine("") && !audio_sine("sines"));
}

#[test]
fn a_bios_is_judged() {
    assert_eq!(judge_bios(&[0; 0x3FFF]), BiosFile::WrongSize);
    assert_eq!(judge_bios(&[0; 0x4000]), BiosFile::BadSum(0));
    let mut b = vec![0u8; 0x4000];
    b[7] = 0xFF;
    b[9] = 0x81;
    assert_eq!(judge_bios(&b), BiosFile::Good);
}

#[test]
fn levels_of_a_mixing_buffer() {
    assert_eq!(level_stat(&[]), (0, 0, 0));
    assert_eq!(level_stat(&[1, 0xFF, 120, 0x80]), (128, 62, 2));
}

#[test]
fn a_trace_tells_what_is_new() {
    let mut emu = Emu::new(&spark_rom(), None);
    let mut t = Tracer::new(&emu);
    assert_eq!(t.step(look(&emu)), []);
    emu.bus.write16(0x0400_0100, 0x1234);
    emu.bus.write16(0x0400_0102, 0x0080);
    emu.bus.write16(0x0400_0082, 0x0304);
    let lines = t.step(look(&emu));
    assert_eq!(
        lines,
        [Line::Io(0x0400_0100, 0x1234), Line::Io(0x0400_0102, 0x0080), Line::Io(0x0400_0082, 0x0304)]
    );
    // DMA1 into FIFO A: two refills at once, seen as one
    emu.bus.write32(0x0400_00BC, 0x0300_0000);
    emu.bus.write32(0x0400_00C0, 0x0400_00A0);
    emu.bus.write16(0x0400_00C4, 4);
    emu.bus.write16(0x0400_00C6, 0xB600);
    let lines = t.step(look(&emu));
    assert_eq!(lines[0], Line::Dma(0x0400_00BE, 0x0300));
    assert_eq!(lines[lines.len() - 2], Line::Start(1, 0x0300_0000, 0x0400_00A0, 4, 0xB600));
    assert_eq!(lines[lines.len() - 1], Line::Refill(1, 0x0300_0020));
    assert_eq!(t.evt, 1);
    assert_eq!(t.step(look(&emu)), []);
    // timer 3, every 28 refills
    t.evt = 28;
    emu.bus.write16(0x0400_010E, 0x0080);
    t.step(look(&emu));
    t.last.tm3 = 0xFFFE;
    emu.timers.counter[3] = 3;
    assert_eq!(t.step(look(&emu)), [Line::Timer3(0x80, 0xFFFE, 5)]);
}

#[test]
fn a_trace_watches_the_mixer() {
    let a = vec![0u8; 0x8000];
    let mut b = a.clone();
    for at in [0x28E0, 0x28EC, 0x5FA0, 0x6F00, 0x6EFF] {
        b[at] = 1;
    }
    b[0x6FB4] = 0x78;
    b[0x5F79] = 2;
    assert_eq!(changed(&a, &b), [0x28E0, 0x5FA0, 0x6EFF]);
    assert_eq!([span_of(0x28E0), span_of(0x5FA0), span_of(0x6EFF)], [Some(Span::Slot), Some(Span::Track), Some(Span::Buffer)]);
    assert_eq!(span_of(0x6F00), None);
    assert_eq!(changed_songs(&a, &b), [(0x6FB4, 0x78), (0x5F78, 0x200)]);
    assert_eq!(differences(&a, &b), 7);
    assert!(is_due(3, 4, 100) && !is_due(4, 4, 100) && is_due(200, 4, 100));
}
