//! Scanlines: windows, layers and blending put together.

use crate::bus::model::BusModel;
use crate::bus::Bus;
use crate::ppu::layers::{
    affine_added, bitmap_added, bitmap_into, composite_affine_bg, composite_text_bg, text_added,
};
use crate::ppu::objs::{composite_sprites, mark_obj_window, sprites_added, windows_marked};
use crate::ppu::scene::{
    backdrop_slot, io16, io_half, pal_color, palette, resolve_pixel, resolved, Blend, Pair, Slot, LAYER_BD,
};
use crate::ppu::{HEIGHT, WIDTH};
use vstd::prelude::*;

verus! {

/// Affine reference points (bg2x, bg2y, bg3x, bg3y) in 28.8 fixed point.
pub type AffineRefs = (i32, i32, i32, i32);

// ---- windows ------------------------------------------------------------

/// `v` lies in a window side that may wrap around.
pub open spec fn within(v: u8, lo: u8, hi: u8) -> bool {
    if lo <= hi {
        lo <= v < hi
    } else {
        v >= lo || v < hi
    }
}

fn in_range(v: u8, lo: u8, hi: u8) -> (r: bool)
    ensures
        r == within(v, lo, hi),
{
    if lo <= hi {
        v >= lo && v < hi
    } else {
        v >= lo || v < hi
    }
}

/// A screen position lies in window 0 or 1: bounds are (start, end) bytes of
/// WINxH and WINxV.
pub open spec fn in_window(b: BusModel, win: int, x: int, y: int) -> bool {
    let h = io16(b, 0x40 + 2 * win);
    let v = io16(b, 0x44 + 2 * win);
    within(y as u8, (v >> 8) as u8, (v & 0xFF) as u8) && within(
        x as u8,
        (h >> 8) as u8,
        (h & 0xFF) as u8,
    )
}

fn inside(bus: &Bus, win: usize, x: usize, y: usize) -> (r: bool)
    requires
        bus@.wf(),
        win < 2,
        x < 240,
        y < 160,
    ensures
        r == in_window(bus@, win as int, x as int, y as int),
{
    let h: u16 = io_half(bus, 0x40 + 2 * win);
    let v: u16 = io_half(bus, 0x44 + 2 * win);
    in_range(y as u8, (v >> 8) as u8, (v & 0xFF) as u8) && in_range(
        x as u8,
        (h >> 8) as u8,
        (h & 0xFF) as u8,
    )
}

/// Layers (and, bit 5, effects) that a pixel lets through: window 0 before
/// window 1 before the object window before the outside. Without windows
/// everything shows.
#[verifier::opaque]
pub open spec fn pixel_mask(b: BusModel, dispcnt: u16, covered: bool, x: int, y: int) -> u8 {
    if dispcnt & 0xE000 == 0 {
        0x3F
    } else if dispcnt & 0x2000 != 0 && in_window(b, 0, x, y) {
        (io16(b, 0x48) & 0x3F) as u8
    } else if dispcnt & 0x4000 != 0 && in_window(b, 1, x, y) {
        ((io16(b, 0x48) >> 8) & 0x3F) as u8
    } else if covered {
        ((io16(b, 0x4A) >> 8) & 0x3F) as u8
    } else {
        (io16(b, 0x4A) & 0x3F) as u8
    }
}

/// Columns covered by the object window, where it is on.
pub open spec fn covered_columns(b: BusModel, dispcnt: u16, y: int) -> Seq<bool> {
    let none = Seq::new(WIDTH as nat, |x: int| false);
    if dispcnt & 0x8000 != 0 {
        windows_marked(b, y, dispcnt & 0x40 == 0, none, 128)
    } else {
        none
    }
}

pub open spec fn window_masks(b: BusModel, dispcnt: u16, y: int) -> Seq<u8> {
    Seq::new(
        WIDTH as nat,
        |x: int| pixel_mask(b, dispcnt, covered_columns(b, dispcnt, y)[x], x, y),
    )
}

fn mask_at(bus: &Bus, dispcnt: u16, covered: bool, x: usize, y: usize) -> (r: u8)
    requires
        bus@.wf(),
        x < 240,
        y < 160,
    ensures
        r == pixel_mask(bus@, dispcnt, covered, x as int, y as int),
{
    reveal(pixel_mask);
    if dispcnt & 0xE000 == 0 {
        return 0x3F;
    }
    let winin: u16 = io_half(bus, 0x48);
    let winout: u16 = io_half(bus, 0x4A);
    if dispcnt & 0x2000 != 0 && inside(bus, 0, x, y) {
        (winin & 0x3F) as u8
    } else if dispcnt & 0x4000 != 0 && inside(bus, 1, x, y) {
        ((winin >> 8) & 0x3F) as u8
    } else if covered {
        ((winout >> 8) & 0x3F) as u8
    } else {
        (winout & 0x3F) as u8
    }
}

fn build_win_mask(bus: &Bus, y: usize, dispcnt: u16) -> (r: Vec<u8>)
    requires
        bus@.wf(),
        y < 160,
    ensures
        r@ == window_masks(bus@, dispcnt, y as int),
{
    let mut covered: Vec<bool> = vec![false; WIDTH];
    assert(covered@ =~= Seq::new(WIDTH as nat, |x: int| false));
    if dispcnt & 0x8000 != 0 {
        mark_obj_window(bus, y, dispcnt, &mut covered);
    }
    let mut mask: Vec<u8> = Vec::new();
    let mut x: usize = 0;
    while x < WIDTH
        invariant
            x <= WIDTH,
            bus@.wf(),
            y < 160,
            covered@ == covered_columns(bus@, dispcnt, y as int),
            covered@.len() == WIDTH,
            mask@ == window_masks(bus@, dispcnt, y as int).take(x as int),
        decreases WIDTH - x,
    {
        let m: u8 = mask_at(bus, dispcnt, covered[x], x, y);
        mask.push(m);
        x += 1;
        assert(mask@ =~= window_masks(bus@, dispcnt, y as int).take(x as int));
    }
    assert(mask@ =~= window_masks(bus@, dispcnt, y as int));
    mask
}

// ---- layers of a line ---------------------------------------------------

pub open spec fn bg_on(dispcnt: u16, bg: int) -> bool {
    dispcnt & (1u16 << ((8 + bg) as u16)) != 0
}

/// Text backgrounds 0 up to `n`.
pub open spec fn texts_added(
    b: BusModel,
    dispcnt: u16,
    y: int,
    win: Seq<u8>,
    rows: Seq<Pair>,
    n: nat,
) -> Seq<Pair>
    decreases n,
{
    if n == 0 {
        rows
    } else {
        let prev = texts_added(b, dispcnt, y, win, rows, (n - 1) as nat);
        if bg_on(dispcnt, n - 1) {
            text_added(b, n - 1, y, win, prev)
        } else {
            prev
        }
    }
}

/// An affine background, where it is on.
pub open spec fn turned_added(
    b: BusModel,
    dispcnt: u16,
    bg: int,
    refs: AffineRefs,
    win: Seq<u8>,
    rows: Seq<Pair>,
) -> Seq<Pair> {
    if bg_on(dispcnt, bg) {
        if bg == 2 {
            affine_added(b, 2, refs.0, refs.1, win, rows)
        } else {
            affine_added(b, 3, refs.2, refs.3, win, rows)
        }
    } else {
        rows
    }
}

/// The backgrounds of the display mode.
#[verifier::opaque]
pub open spec fn backgrounds(
    b: BusModel,
    dispcnt: u16,
    refs: AffineRefs,
    y: int,
    win: Seq<u8>,
    rows: Seq<Pair>,
) -> Seq<Pair> {
    let mode = dispcnt & 7;
    if mode == 0 {
        texts_added(b, dispcnt, y, win, rows, 4)
    } else if mode == 1 {
        turned_added(b, dispcnt, 2, refs, win, texts_added(b, dispcnt, y, win, rows, 2))
    } else if mode == 2 {
        turned_added(b, dispcnt, 3, refs, win, turned_added(b, dispcnt, 2, refs, win, rows))
    } else if mode == 3 || mode == 4 || mode == 5 {
        bitmap_added(b, mode, dispcnt, y, rows)
    } else {
        rows
    }
}

fn add_texts(bus: &Bus, dispcnt: u16, y: usize, win: &Vec<u8>, rows: &mut Vec<Pair>, n: usize)
    requires
        bus@.wf(),
        y < 160,
        n <= 4,
        win@.len() == WIDTH,
        old(rows)@.len() == WIDTH,
    ensures
        final(rows)@ == texts_added(bus@, dispcnt, y as int, win@, old(rows)@, n as nat),
        final(rows)@.len() == WIDTH,
{
    let mut bg: usize = 0;
    while bg < n
        invariant
            bg <= n <= 4,
            bus@.wf(),
            y < 160,
            win@.len() == WIDTH,
            rows@.len() == WIDTH,
            rows@ == texts_added(bus@, dispcnt, y as int, win@, old(rows)@, bg as nat),
        decreases n - bg,
    {
        if dispcnt & (1u16 << (8 + bg as u16)) != 0 {
            composite_text_bg(bus, bg, y, win, rows);
        }
        bg += 1;
    }
}

fn add_turned(
    bus: &Bus,
    dispcnt: u16,
    bg: usize,
    refs: AffineRefs,
    win: &Vec<u8>,
    rows: &mut Vec<Pair>,
)
    requires
        bus@.wf(),
        bg == 2 || bg == 3,
        win@.len() == WIDTH,
        old(rows)@.len() == WIDTH,
    ensures
        final(rows)@ == turned_added(bus@, dispcnt, bg as int, refs, win@, old(rows)@),
        final(rows)@.len() == WIDTH,
{
    if dispcnt & (1u16 << (8 + bg as u16)) != 0 {
        if bg == 2 {
            composite_affine_bg(bus, 2, refs.0, refs.1, win, rows);
        } else {
            composite_affine_bg(bus, 3, refs.2, refs.3, win, rows);
        }
    }
}

fn add_backgrounds(
    bus: &Bus,
    dispcnt: u16,
    refs: AffineRefs,
    y: usize,
    win: &Vec<u8>,
    rows: &mut Vec<Pair>,
)
    requires
        bus@.wf(),
        y < 160,
        win@.len() == WIDTH,
        old(rows)@.len() == WIDTH,
    ensures
        final(rows)@ == backgrounds(bus@, dispcnt, refs, y as int, win@, old(rows)@),
        final(rows)@.len() == WIDTH,
{
    reveal(backgrounds);
    let mode: u16 = dispcnt & 7;
    if mode == 0 {
        add_texts(bus, dispcnt, y, win, rows, 4);
    } else if mode == 1 {
        add_texts(bus, dispcnt, y, win, rows, 2);
        add_turned(bus, dispcnt, 2, refs, win, rows);
    } else if mode == 2 {
        add_turned(bus, dispcnt, 2, refs, win, rows);
        add_turned(bus, dispcnt, 3, refs, win, rows);
    } else if mode == 3 || mode == 4 || mode == 5 {
        bitmap_into(bus, mode, dispcnt, y, rows);
    }
}

/// Both frontmost layers of every pixel of a line.
#[verifier::opaque]
pub open spec fn line_layers(b: BusModel, dispcnt: u16, refs: AffineRefs, y: int) -> Seq<Pair> {
    let win = window_masks(b, dispcnt, y);
    let bd = backdrop_slot(palette(b, 0));
    let blank = Seq::new(WIDTH as nat, |x: int| Pair { top: bd, bot: bd });
    let rows = backgrounds(b, dispcnt, refs, y, win, blank);
    if dispcnt & 0x1000 != 0 {
        sprites_added(b, y, dispcnt & 0x40 == 0, win, rows)
    } else {
        rows
    }
}

fn build_layers(bus: &Bus, dispcnt: u16, refs: AffineRefs, y: usize, win: &Vec<u8>) -> (rows: Vec<Pair>)
    requires
        bus@.wf(),
        y < 160,
        win@ == window_masks(bus@, dispcnt, y as int),
    ensures
        rows@ == line_layers(bus@, dispcnt, refs, y as int),
        rows@.len() == WIDTH,
{
    reveal(line_layers);
    let bd = Slot { color: pal_color(bus, 0), prio: 4, layer: LAYER_BD, semi: false };
    let mut rows: Vec<Pair> = Vec::new();
    let mut x: usize = 0;
    while x < WIDTH
        invariant
            x <= WIDTH,
            bd == backdrop_slot(palette(bus@, 0)),
            rows@ == Seq::new(x as nat, |x: int| Pair { top: bd, bot: bd }),
        decreases WIDTH - x,
    {
        rows.push(Pair { top: bd, bot: bd });
        x += 1;
        assert(rows@ =~= Seq::new(x as nat, |x: int| Pair { top: bd, bot: bd }));
    }
    let ghost blank = rows@;
    assert(blank =~= Seq::new(WIDTH as nat, |x: int| Pair { top: bd, bot: bd }));
    add_backgrounds(bus, dispcnt, refs, y, win, &mut rows);
    if dispcnt & 0x1000 != 0 {
        composite_sprites(bus, y, dispcnt, win, &mut rows);
    }
    rows
}

/// Row `y` of a frame replaced.
pub open spec fn with_row(frame: Seq<u16>, y: int, row: spec_fn(int) -> u16) -> Seq<u16> {
    Seq::new(
        frame.len(),
        |i: int|
            if y * 240 <= i < (y + 1) * 240 {
                row(i - y * 240)
            } else {
                frame[i]
            },
    )
}

/// The colours of a line that is not blanked.
pub open spec fn line_colors(b: BusModel, dispcnt: u16, refs: AffineRefs, y: int, k: Blend) -> spec_fn(
    int,
) -> u16 {
    |x: int|
        resolved(line_layers(b, dispcnt, refs, y)[x], k, window_masks(b, dispcnt, y)[x])
}

/// One line drawn into a frame. Forced blank draws black. The blend registers
/// are read last.
#[verifier::opaque]
pub open spec fn line_drawn(b: BusModel, refs: AffineRefs, y: int, frame: Seq<u16>) -> (
    BusModel,
    Seq<u16>,
) {
    let (s, dispcnt) = b.read16(0x0400_0000);
    if dispcnt & 0x80 != 0 {
        (s, with_row(frame, y, |x: int| 0u16))
    } else {
        let (t, bldcnt) = s.read16(0x0400_0050);
        let (t, bldalpha) = t.read16(0x0400_0052);
        let (t, bldy) = t.read16(0x0400_0054);
        (
            t,
            with_row(
                frame,
                y,
                line_colors(s, dispcnt, refs, y, Blend::of(bldcnt, bldalpha, bldy)),
            ),
        )
    }
}

fn fill_row(frame: &mut Vec<u16>, y: usize)
    requires
        y < 160,
        old(frame)@.len() >= (y + 1) * 240,
    ensures
        final(frame)@ == with_row(old(frame)@, y as int, |x: int| 0u16),
{
    let mut x: usize = 0;
    while x < WIDTH
        invariant
            x <= WIDTH,
            y < 160,
            frame@.len() == old(frame)@.len(),
            frame@.len() >= (y + 1) * 240,
            forall|j: int|
                0 <= j < frame@.len() ==> #[trigger] frame@[j] == (if y * 240 <= j < y * 240 + x {
                    0u16
                } else {
                    old(frame)@[j]
                }),
        decreases WIDTH - x,
    {
        frame[y * WIDTH + x] = 0;
        x += 1;
    }
    assert(frame@ =~= with_row(old(frame)@, y as int, |x: int| 0u16));
}

fn resolve_row(
    rows: &Vec<Pair>,
    win: &Vec<u8>,
    k: Blend,
    y: usize,
    frame: &mut Vec<u16>,
)
    requires
        y < 160,
        rows@.len() == WIDTH,
        win@.len() == WIDTH,
        k.eva <= 16,
        k.evb <= 16,
        k.evy <= 16,
        old(frame)@.len() >= (y + 1) * 240,
    ensures
        final(frame)@ == with_row(
            old(frame)@,
            y as int,
            |x: int| resolved(rows@[x], k, win@[x]),
        ),
{
    let mut x: usize = 0;
    while x < WIDTH
        invariant
            x <= WIDTH,
            y < 160,
            rows@.len() == WIDTH,
            win@.len() == WIDTH,
            k.eva <= 16,
            k.evb <= 16,
            k.evy <= 16,
            frame@.len() == old(frame)@.len(),
            frame@.len() >= (y + 1) * 240,
            forall|j: int|
                0 <= j < frame@.len() ==> #[trigger] frame@[j] == (if y * 240 <= j < y * 240 + x {
                    resolved(rows@[j - y * 240], k, win@[j - y * 240])
                } else {
                    old(frame)@[j]
                }),
        decreases WIDTH - x,
    {
        let c: u16 = resolve_pixel(rows[x], k, win[x]);
        frame[y * WIDTH + x] = c;
        x += 1;
    }
    assert(frame@ =~= with_row(
        old(frame)@,
        y as int,
        |x: int| resolved(rows@[x], k, win@[x]),
    ));
}

pub fn render_scanline(bus: &mut Bus, y: usize, frame: &mut Vec<u16>)
    requires
        old(bus)@.wf(),
        y < HEIGHT ==> old(frame)@.len() >= (y + 1) * 240,
    ensures
        y < HEIGHT ==> (final(bus)@, final(frame)@) == line_drawn(
            old(bus)@,
            (0, 0, 0, 0),
            y as int,
            old(frame)@,
        ),
        y >= HEIGHT ==> final(bus)@ == old(bus)@ && final(frame)@ == old(frame)@,
        final(bus)@.wf(),
{
    render_scanline_affine((0, 0, 0, 0), bus, y, frame);
}

pub fn render_scanline_affine(affine: AffineRefs, bus: &mut Bus, y: usize, frame: &mut Vec<u16>)
    requires
        old(bus)@.wf(),
        y < HEIGHT ==> old(frame)@.len() >= (y + 1) * 240,
    ensures
        y < HEIGHT ==> (final(bus)@, final(frame)@) == line_drawn(
            old(bus)@,
            affine,
            y as int,
            old(frame)@,
        ),
        y >= HEIGHT ==> final(bus)@ == old(bus)@ && final(frame)@ == old(frame)@,
        final(bus)@.wf(),
{
    reveal(line_drawn);
    if y >= HEIGHT {
        return;
    }
    let dispcnt: u16 = bus.dispcnt();
    if dispcnt & 0x80 != 0 {
        fill_row(frame, y);
        return;
    }
    let win = build_win_mask(bus, y, dispcnt);
    let rows = build_layers(bus, dispcnt, affine, y, &win);
    let ghost s = bus@;
    let bldcnt: u16 = bus.read16(0x0400_0050);
    let bldalpha: u16 = bus.read16(0x0400_0052);
    let bldy: u16 = bus.read16(0x0400_0054);
    let k = Blend::from_regs(bldcnt, bldalpha, bldy);
    resolve_row(&rows, &win, k, y, frame);
    assert(frame@ =~= with_row(
        old(frame)@,
        y as int,
        line_colors(s, dispcnt, affine, y as int, k),
    ));
}

/// A 5-bit channel widened to 8 bits.
pub open spec fn wide(c: u8) -> u8 {
    (c << 3) | (c >> 2)
}

pub open spec fn rgb_byte(px: u16, k: int) -> u8 {
    wide(
        if k == 0 {
            (px & 0x1F) as u8
        } else if k == 1 {
            ((px >> 5) & 0x1F) as u8
        } else {
            ((px >> 10) & 0x1F) as u8
        },
    )
}

/// A BGR555 frame as RGB888 bytes.
pub open spec fn frame_rgb(frame: Seq<u16>) -> Seq<u8> {
    Seq::new(3 * frame.len(), |i: int| rgb_byte(frame[i / 3], i % 3))
}

pub fn frame_to_rgb(frame: &[u16]) -> (r: Vec<u8>)
    ensures
        r@ == frame_rgb(frame@),
{
    let mut out: Vec<u8> = Vec::new();
    let mut i: usize = 0;
    while i < frame.len()
        invariant
            i <= frame@.len(),
            out@ == Seq::new(3 * i as nat, |j: int| rgb_byte(frame@[j / 3], j % 3)),
        decreases frame@.len() - i,
    {
        let px: u16 = frame[i];
        let r: u8 = (px & 0x1F) as u8;
        let g: u8 = ((px >> 5) & 0x1F) as u8;
        let b: u8 = ((px >> 10) & 0x1F) as u8;
        out.push((r << 3) | (r >> 2));
        out.push((g << 3) | (g >> 2));
        out.push((b << 3) | (b >> 2));
        i += 1;
        assert(out@ =~= Seq::new(3 * i as nat, |j: int| rgb_byte(frame@[j / 3], j % 3)));
    }
    out
}

} // verus!
