//! Objects: attributes, texels, and the object window.

use crate::bits::lemma_and16;
use crate::bus::model::BusModel;
use crate::bus::Bus;
use crate::ppu::layers::{coarse, lemma_coarse, lemma_nibbles};
use crate::ppu::scene::{io16, io_half, oam16, oam_u16, pal_color, palette, put_layer, vram8, vram_u8, Pair, Slot, LAYER_OBJ};
use crate::ppu::WIDTH;
use vstd::prelude::*;

verus! {

/// One object's attributes, decoded.
#[derive(Clone, Copy, Debug)]
pub struct Obj {
    /// Not disabled.
    pub shown: bool,
    /// 0 normal, 1 semi-transparent, 2 object window, 3 prohibited.
    pub gfx: u16,
    pub affine: bool,
    pub mosaic: bool,
    pub color256: bool,
    pub hflip: bool,
    pub vflip: bool,
    /// Size of the picture.
    pub ow: usize,
    pub oh: usize,
    /// Size on the screen.
    pub dw: usize,
    pub dh: usize,
    pub x0: i32,
    pub y0: i32,
    pub tile: usize,
    pub prio: u8,
    pub bank: usize,
    pub pa: i32,
    pub pb: i32,
    pub pc: i32,
    pub pd: i32,
}

/// Width and height of a shape in one of its four sizes.
pub open spec fn dims(shape: u16, size: u16) -> (usize, usize) {
    if shape == 0 {
        if size == 0 {
            (8, 8)
        } else if size == 1 {
            (16, 16)
        } else if size == 2 {
            (32, 32)
        } else {
            (64, 64)
        }
    } else if shape == 1 {
        if size == 0 {
            (16, 8)
        } else if size == 1 {
            (32, 8)
        } else if size == 2 {
            (32, 16)
        } else {
            (64, 32)
        }
    } else if shape == 2 {
        if size == 0 {
            (8, 16)
        } else if size == 1 {
            (8, 32)
        } else if size == 2 {
            (16, 32)
        } else {
            (32, 64)
        }
    } else {
        (8, 8)
    }
}

fn obj_dims(shape: u16, size: u16) -> (r: (usize, usize))
    ensures
        r == dims(shape, size),
        8 <= r.0 <= 64,
        8 <= r.1 <= 64,
        r.0 % 8 == 0,
{
    match (shape, size) {
        (0, 0) => (8, 8),
        (0, 1) => (16, 16),
        (0, 2) => (32, 32),
        (0, _) => (64, 64),
        (1, 0) => (16, 8),
        (1, 1) => (32, 8),
        (1, 2) => (32, 16),
        (1, _) => (64, 32),
        (2, 0) => (8, 16),
        (2, 1) => (8, 32),
        (2, 2) => (16, 32),
        (2, _) => (32, 64),
        _ => (8, 8),
    }
}

/// A coordinate whose upper range is off the screen to the left or top.
pub open spec fn wrapped_pos(v: u16, limit: u16, size: int) -> i32 {
    if v >= limit {
        (v - size) as i32
    } else {
        v as i32
    }
}

/// The four parameters of an affine group. For drawing, a group that was
/// never set counts as identity.
pub open spec fn obj_matrix(b: BusModel, group: int, window: bool) -> (i32, i32, i32, i32) {
    let a = oam16(b, 32 * group + 0x06);
    let bb = oam16(b, 32 * group + 0x0E);
    let c = oam16(b, 32 * group + 0x16);
    let d = oam16(b, 32 * group + 0x1E);
    if !window && a == 0 && bb == 0 && c == 0 && d == 0 {
        (0x100, 0, 0, 0x100)
    } else {
        (a as i16 as i32, bb as i16 as i32, c as i16 as i32, d as i16 as i32)
    }
}

/// Object `i`. The object window places its objects a little differently:
/// row 160 is still on the screen, and columns from 240 on are not.
#[verifier::opaque]
pub open spec fn obj_of(b: BusModel, i: int, window: bool) -> Obj {
    let a0 = oam16(b, 8 * i);
    let a1 = oam16(b, 8 * i + 2);
    let a2 = oam16(b, 8 * i + 4);
    let affine = a0 & 0x100 != 0;
    let flag = a0 & 0x200 != 0;
    let (ow, oh) = dims((a0 >> 14) & 3, (a1 >> 14) & 3);
    let m = obj_matrix(b, ((a1 >> 9) & 0x1F) as int, window);
    Obj {
        shown: affine || !flag,
        gfx: (a0 >> 10) & 3,
        affine,
        mosaic: a0 & 0x1000 != 0,
        color256: a0 & 0x2000 != 0,
        hflip: a1 & 0x1000 != 0,
        vflip: a1 & 0x2000 != 0,
        ow,
        oh,
        dw: if affine && flag {
            (ow * 2) as usize
        } else {
            ow
        },
        dh: if affine && flag {
            (oh * 2) as usize
        } else {
            oh
        },
        x0: wrapped_pos(
            a1 & 0x1FF,
            if window {
                240
            } else {
                256
            },
            512,
        ),
        y0: wrapped_pos(
            a0 & 0xFF,
            if window {
                161
            } else {
                160
            },
            256,
        ),
        tile: (a2 & 0x3FF) as usize,
        prio: ((a2 >> 10) & 3) as u8,
        bank: ((a2 >> 12) & 0xF) as usize,
        pa: m.0,
        pb: m.1,
        pc: m.2,
        pd: m.3,
    }
}

impl Obj {
    pub open spec fn wf(self) -> bool {
        &&& 8 <= self.ow <= 64
        &&& 8 <= self.oh <= 64
        &&& self.ow % 8 == 0
        &&& self.dw == self.ow || self.dw == 2 * self.ow
        &&& self.dh == self.oh || self.dh == 2 * self.oh
        &&& self.affine || (self.dw == self.ow && self.dh == self.oh)
        &&& -512 <= self.x0 <= 512
        &&& -256 <= self.y0 <= 256
        &&& self.tile <= 0x3FF
        &&& self.bank <= 15
    }
}

pub proof fn lemma_attrs(a0: u16, a1: u16, a2: u16)
    ensures
        (a2 >> 10) & 3 <= 3,
        a1 & 0x1FF <= 0x1FF,
        a0 & 0xFF <= 0xFF,
        a2 & 0x3FF <= 0x3FF,
        (a2 >> 12) & 0xF <= 15,
        (a1 >> 9) & 0x1F <= 31,
{
    lemma_and16(a2 >> 10, 3);
    lemma_and16(a1, 0x1FF);
    lemma_and16(a0, 0xFF);
    lemma_and16(a2, 0x3FF);
    lemma_and16(a2 >> 12, 0xF);
    lemma_and16(a1 >> 9, 0x1F);
}

fn matrix_of(bus: &Bus, group: usize, window: bool) -> (r: (i32, i32, i32, i32))
    requires
        bus@.wf(),
        group <= 31,
    ensures
        r == obj_matrix(bus@, group as int, window),
{
    let a: u16 = oam_u16(bus, 32 * group + 0x06);
    let b: u16 = oam_u16(bus, 32 * group + 0x0E);
    let c: u16 = oam_u16(bus, 32 * group + 0x16);
    let d: u16 = oam_u16(bus, 32 * group + 0x1E);
    if !window && a == 0 && b == 0 && c == 0 && d == 0 {
        (0x100, 0, 0, 0x100)
    } else {
        (a as i16 as i32, b as i16 as i32, c as i16 as i32, d as i16 as i32)
    }
}

fn decode(bus: &Bus, i: usize, window: bool) -> (r: Obj)
    requires
        bus@.wf(),
        i < 128,
    ensures
        r == obj_of(bus@, i as int, window),
        r.wf(),
{
    reveal(obj_of);
    let a0: u16 = oam_u16(bus, 8 * i);
    let a1: u16 = oam_u16(bus, 8 * i + 2);
    let a2: u16 = oam_u16(bus, 8 * i + 4);
    proof {
        lemma_attrs(a0, a1, a2);
    }
    let affine: bool = a0 & 0x100 != 0;
    let flag: bool = a0 & 0x200 != 0;
    let (ow, oh) = obj_dims((a0 >> 14) & 3, (a1 >> 14) & 3);
    let group: u16 = (a1 >> 9) & 0x1F;
    let m = matrix_of(bus, group as usize, window);
    let double: bool = affine && flag;
    let x: u16 = a1 & 0x1FF;
    let y: u16 = a0 & 0xFF;
    let x_limit: u16 = if window {
        240
    } else {
        256
    };
    let y_limit: u16 = if window {
        161
    } else {
        160
    };
    Obj {
        shown: affine || !flag,
        gfx: (a0 >> 10) & 3,
        affine,
        mosaic: a0 & 0x1000 != 0,
        color256: a0 & 0x2000 != 0,
        hflip: a1 & 0x1000 != 0,
        vflip: a1 & 0x2000 != 0,
        ow,
        oh,
        dw: if double {
            ow * 2
        } else {
            ow
        },
        dh: if double {
            oh * 2
        } else {
            oh
        },
        x0: if x >= x_limit {
            x as i32 - 512
        } else {
            x as i32
        },
        y0: if y >= y_limit {
            y as i32 - 256
        } else {
            y as i32
        },
        tile: (a2 & 0x3FF) as usize,
        prio: ((a2 >> 10) & 3) as u8,
        bank: ((a2 >> 12) & 0xF) as usize,
        pa: m.0,
        pb: m.1,
        pc: m.2,
        pd: m.3,
    }
}

/// The colour of one texel of an object, where it is not transparent. Tiles
/// live in the upper 32K of VRAM, in rows of 32 (2D) or one after another.
#[verifier::opaque]
pub open spec fn obj_texel(b: BusModel, o: Obj, x: int, y: int, map_2d: bool) -> Option<u16> {
    let per_tile: int = if o.color256 {
        2
    } else {
        1
    };
    let row: int = if map_2d {
        32
    } else {
        (o.ow as int / 8) * per_tile
    };
    let index = o.tile as int + (y / 8) * row + (x / 8) * per_tile;
    let off = 0x10000 + index * 32 + (if o.color256 {
        (y % 8) * 8 + x % 8
    } else {
        (y % 8) * 4 + (x % 8) / 2
    });
    if off >= 0x18000 {
        None
    } else if o.color256 {
        let i = vram8(b, off);
        if i == 0 {
            None
        } else {
            Some(palette(b, 256 + i as int))
        }
    } else {
        let byte = vram8(b, off);
        let i = if (x % 8) % 2 == 0 {
            byte & 0xF
        } else {
            byte >> 4
        };
        if i == 0 {
            None
        } else {
            Some(palette(b, 256 + o.bank as int * 16 + i as int))
        }
    }
}

fn sample_obj_pixel(bus: &Bus, o: &Obj, x: usize, y: usize, map_2d: bool) -> (r: Option<u16>)
    requires
        bus@.wf(),
        o.wf(),
        x < 64,
        y < 64,
    ensures
        r == obj_texel(bus@, *o, x as int, y as int, map_2d),
{
    reveal(obj_texel);
    let row: usize = if map_2d {
        32
    } else if o.color256 {
        (o.ow / 8) * 2
    } else {
        (o.ow / 8) * 1
    };
    assert(0 <= (y as int / 8) * row <= 8 * 32) by (nonlinear_arith)
        requires
            0 <= y as int / 8 <= 8,
            0 <= row <= 32,
    ;
    let index: usize = o.tile + (y / 8) * row + (if o.color256 {
        (x / 8) * 2
    } else {
        (x / 8) * 1
    });
    let off: usize = 0x10000 + index * 32 + (if o.color256 {
        (y % 8) * 8 + x % 8
    } else {
        (y % 8) * 4 + (x % 8) / 2
    });
    if off >= 0x18000 {
        return None;
    }
    let byte: u8 = vram_u8(bus, off);
    if o.color256 {
        if byte == 0 {
            None
        } else {
            Some(pal_color(bus, 256 + byte as usize))
        }
    } else {
        proof {
            lemma_nibbles(byte);
        }
        let i: u8 = if (x % 8) % 2 == 0 {
            byte & 0xF
        } else {
            byte >> 4
        };
        if i == 0 {
            None
        } else {
            Some(pal_color(bus, 256 + o.bank * 16 + i as usize))
        }
    }
}

/// The object covers this line.
pub open spec fn on_line(o: Obj, y: int) -> bool {
    o.shown && o.y0 <= y < o.y0 + o.dh
}

/// Texture position of a screen cell through the affine matrix, about the
/// centres of both.
pub open spec fn turned(o: Obj, xi: int, row: int) -> (i32, i32) {
    let cx = (xi - o.dw as int / 2) as i32;
    let cy = (row - o.dh as int / 2) as i32;
    (
        ((o.pa.wrapping_mul(cx).wrapping_add(o.pb.wrapping_mul(cy))) >> 8).wrapping_add(
            (o.ow as int / 2) as i32,
        ),
        ((o.pc.wrapping_mul(cx).wrapping_add(o.pd.wrapping_mul(cy))) >> 8).wrapping_add(
            (o.oh as int / 2) as i32,
        ),
    )
}

/// The colour that an object shows in column `xi` of its row `row`.
#[verifier::opaque]
pub open spec fn obj_cell(b: BusModel, o: Obj, xi: int, row: int, map_2d: bool) -> Option<u16> {
    if o.affine {
        let (tx, ty) = turned(o, xi, row);
        if 0 <= tx < o.ow && 0 <= ty < o.oh {
            obj_texel(b, o, tx as int, ty as int, map_2d)
        } else {
            None
        }
    } else {
        obj_texel(
            b,
            o,
            if o.hflip {
                o.ow - 1 - xi
            } else {
                xi
            },
            if o.vflip {
                o.oh - 1 - row
            } else {
                row
            },
            map_2d,
        )
    }
}

fn sample_cell(bus: &Bus, o: &Obj, xi: usize, row: usize, map_2d: bool) -> (r: Option<u16>)
    requires
        bus@.wf(),
        o.wf(),
        xi < o.dw,
        row < o.dh,
    ensures
        r == obj_cell(bus@, *o, xi as int, row as int, map_2d),
{
    reveal(obj_cell);
    if o.affine {
        let cx: i32 = xi as i32 - (o.dw / 2) as i32;
        let cy: i32 = row as i32 - (o.dh / 2) as i32;
        let tx: i32 = ((o.pa.wrapping_mul(cx).wrapping_add(o.pb.wrapping_mul(cy))) >> 8).wrapping_add(
            (o.ow / 2) as i32,
        );
        let ty: i32 = ((o.pc.wrapping_mul(cx).wrapping_add(o.pd.wrapping_mul(cy))) >> 8).wrapping_add(
            (o.oh / 2) as i32,
        );
        if 0 <= tx && tx < o.ow as i32 && 0 <= ty && ty < o.oh as i32 {
            sample_obj_pixel(bus, o, tx as usize, ty as usize, map_2d)
        } else {
            None
        }
    } else {
        let col: usize = if o.hflip {
            o.ow - 1 - xi
        } else {
            xi
        };
        let line: usize = if o.vflip {
            o.oh - 1 - row
        } else {
            row
        };
        sample_obj_pixel(bus, o, col, line, map_2d)
    }
}

// ---- drawing ------------------------------------------------------------

/// Object mosaic step, across and down.
pub open spec fn obj_mosaic(b: BusModel) -> (int, int) {
    let m = io16(b, 0x4C);
    (((m >> 8) & 0xF) + 1, ((m >> 12) & 0xF) + 1)
}

/// The first `n` columns of one object's row put in their places.
pub open spec fn obj_columns(
    b: BusModel,
    o: Obj,
    row: int,
    map_2d: bool,
    win: Seq<u8>,
    rows: Seq<Pair>,
    n: nat,
) -> Seq<Pair>
    decreases n,
{
    if n == 0 {
        rows
    } else {
        let prev = obj_columns(b, o, row, map_2d, win, rows, (n - 1) as nat);
        let xi = coarse(n - 1, o.mosaic, obj_mosaic(b).0);
        let sx = o.x0 + xi;
        if 0 <= sx < WIDTH && win[sx] & 0x10 != 0 {
            match obj_cell(b, o, xi, row, map_2d) {
                Some(color) => prev.update(
                    sx,
                    prev[sx].with(
                        Slot { color, prio: o.prio, layer: LAYER_OBJ, semi: o.gfx == 1 },
                    ),
                ),
                None => prev,
            }
        } else {
            prev
        }
    }
}

/// One object drawn on a line, if it is a drawn one of this priority.
#[verifier::opaque]
pub open spec fn obj_drawn(
    b: BusModel,
    i: int,
    prio: u8,
    y: int,
    map_2d: bool,
    win: Seq<u8>,
    rows: Seq<Pair>,
) -> Seq<Pair> {
    let o = obj_of(b, i, false);
    if !on_line(o, y) || o.gfx >= 2 || o.prio != prio {
        rows
    } else {
        obj_columns(
            b,
            o,
            coarse(y - o.y0, o.mosaic, obj_mosaic(b).1),
            map_2d,
            win,
            rows,
            o.dw as nat,
        )
    }
}

/// The first `n` objects of one priority: the lower number stays in front.
pub open spec fn objs_drawn(
    b: BusModel,
    prio: u8,
    y: int,
    map_2d: bool,
    win: Seq<u8>,
    rows: Seq<Pair>,
    n: nat,
) -> Seq<Pair>
    decreases n,
{
    if n == 0 {
        rows
    } else {
        obj_drawn(
            b,
            n - 1,
            prio,
            y,
            map_2d,
            win,
            objs_drawn(b, prio, y, map_2d, win, rows, (n - 1) as nat),
        )
    }
}

/// All objects on a line, priority 3 first.
#[verifier::opaque]
pub open spec fn sprites_added(b: BusModel, y: int, map_2d: bool, win: Seq<u8>, rows: Seq<Pair>) -> Seq<
    Pair,
> {
    let r3 = objs_drawn(b, 3, y, map_2d, win, rows, 128);
    let r2 = objs_drawn(b, 2, y, map_2d, win, r3, 128);
    let r1 = objs_drawn(b, 1, y, map_2d, win, r2, 128);
    objs_drawn(b, 0, y, map_2d, win, r1, 128)
}

fn mosaic_of(bus: &Bus) -> (r: (usize, usize))
    requires
        bus@.wf(),
    ensures
        r.0 == obj_mosaic(bus@).0,
        r.1 == obj_mosaic(bus@).1,
        1 <= r.0 <= 16,
        1 <= r.1 <= 16,
{
    let m: u16 = io_half(bus, 0x4C);
    proof {
        lemma_and16(m >> 8, 0xF);
        lemma_and16(m >> 12, 0xF);
    }
    let a: u16 = (m >> 8) & 0xF;
    let b: u16 = (m >> 12) & 0xF;
    (a as usize + 1, b as usize + 1)
}

fn draw_columns(
    bus: &Bus,
    o: &Obj,
    row: usize,
    map_2d: bool,
    step: usize,
    win: &Vec<u8>,
    rows: &mut Vec<Pair>,
)
    requires
        bus@.wf(),
        o.wf(),
        row < o.dh,
        step == obj_mosaic(bus@).0,
        1 <= step <= 16,
        win@.len() == WIDTH,
        old(rows)@.len() == WIDTH,
    ensures
        final(rows)@ == obj_columns(
            bus@,
            *o,
            row as int,
            map_2d,
            win@,
            old(rows)@,
            o.dw as nat,
        ),
        final(rows)@.len() == WIDTH,
{
    let mut n: usize = 0;
    while n < o.dw
        invariant
            n <= o.dw,
            bus@.wf(),
            o.wf(),
            row < o.dh,
            step == obj_mosaic(bus@).0,
            1 <= step <= 16,
            win@.len() == WIDTH,
            rows@.len() == WIDTH,
            rows@ == obj_columns(bus@, *o, row as int, map_2d, win@, old(rows)@, n as nat),
        decreases o.dw - n,
    {
        proof {
            lemma_coarse(n as int, step as int);
        }
        let xi: usize = if o.mosaic {
            n / step * step
        } else {
            n
        };
        let sx: i32 = o.x0 + xi as i32;
        if 0 <= sx && sx < 240 {
            let x: usize = sx as usize;
            if win[x] & 0x10 != 0 {
                if let Some(color) = sample_cell(bus, o, xi, row, map_2d) {
                    put_layer(
                        rows,
                        x,
                        Slot { color, prio: o.prio, layer: LAYER_OBJ, semi: o.gfx == 1 },
                    );
                }
            }
        }
        n += 1;
    }
}

fn draw_obj(
    bus: &Bus,
    i: usize,
    prio: u8,
    y: usize,
    map_2d: bool,
    steps: (usize, usize),
    win: &Vec<u8>,
    rows: &mut Vec<Pair>,
)
    requires
        bus@.wf(),
        i < 128,
        y < 160,
        steps.0 == obj_mosaic(bus@).0,
        steps.1 == obj_mosaic(bus@).1,
        1 <= steps.0 <= 16,
        1 <= steps.1 <= 16,
        win@.len() == WIDTH,
        old(rows)@.len() == WIDTH,
    ensures
        final(rows)@ == obj_drawn(bus@, i as int, prio, y as int, map_2d, win@, old(rows)@),
        final(rows)@.len() == WIDTH,
{
    reveal(obj_drawn);
    let o = decode(bus, i, false);
    let line: i32 = y as i32;
    if !(o.shown && o.y0 <= line && line < o.y0 + o.dh as i32) || o.gfx >= 2 || o.prio != prio {
        return;
    }
    let plain: usize = (line - o.y0) as usize;
    proof {
        lemma_coarse(plain as int, steps.1 as int);
    }
    let row: usize = if o.mosaic {
        plain / steps.1 * steps.1
    } else {
        plain
    };
    draw_columns(bus, &o, row, map_2d, steps.0, win, rows);
}

fn draw_priority(
    bus: &Bus,
    prio: u8,
    y: usize,
    map_2d: bool,
    steps: (usize, usize),
    win: &Vec<u8>,
    rows: &mut Vec<Pair>,
)
    requires
        bus@.wf(),
        y < 160,
        steps.0 == obj_mosaic(bus@).0,
        steps.1 == obj_mosaic(bus@).1,
        1 <= steps.0 <= 16,
        1 <= steps.1 <= 16,
        win@.len() == WIDTH,
        old(rows)@.len() == WIDTH,
    ensures
        final(rows)@ == objs_drawn(bus@, prio, y as int, map_2d, win@, old(rows)@, 128),
        final(rows)@.len() == WIDTH,
{
    let mut i: usize = 0;
    while i < 128
        invariant
            i <= 128,
            bus@.wf(),
            y < 160,
            steps.0 == obj_mosaic(bus@).0,
            steps.1 == obj_mosaic(bus@).1,
            1 <= steps.0 <= 16,
            1 <= steps.1 <= 16,
            win@.len() == WIDTH,
            rows@.len() == WIDTH,
            rows@ == objs_drawn(bus@, prio, y as int, map_2d, win@, old(rows)@, i as nat),
        decreases 128 - i,
    {
        draw_obj(bus, i, prio, y, map_2d, steps, win, rows);
        i += 1;
    }
}

pub fn composite_sprites(bus: &Bus, y: usize, dispcnt: u16, win: &Vec<u8>, rows: &mut Vec<Pair>)
    requires
        bus@.wf(),
        y < 160,
        win@.len() == WIDTH,
        old(rows)@.len() == WIDTH,
    ensures
        final(rows)@ == sprites_added(
            bus@,
            y as int,
            dispcnt & 0x40 == 0,
            win@,
            old(rows)@,
        ),
        final(rows)@.len() == WIDTH,
{
    reveal(sprites_added);
    let map_2d: bool = dispcnt & 0x40 == 0;
    let steps = mosaic_of(bus);
    draw_priority(bus, 3, y, map_2d, steps, win, rows);
    draw_priority(bus, 2, y, map_2d, steps, win, rows);
    draw_priority(bus, 1, y, map_2d, steps, win, rows);
    draw_priority(bus, 0, y, map_2d, steps, win, rows);
}

// ---- object window ------------------------------------------------------

/// Columns covered by the first `n` columns of one window object's row.
pub open spec fn window_columns(b: BusModel, o: Obj, row: int, map_2d: bool, out: Seq<bool>, n: nat) -> Seq<
    bool,
>
    decreases n,
{
    if n == 0 {
        out
    } else {
        let prev = window_columns(b, o, row, map_2d, out, (n - 1) as nat);
        let sx = o.x0 + (n - 1);
        if 0 <= sx < WIDTH && obj_cell(b, o, n - 1, row, map_2d) is Some {
            prev.update(sx, true)
        } else {
            prev
        }
    }
}

#[verifier::opaque]
pub open spec fn window_marked(b: BusModel, i: int, y: int, map_2d: bool, out: Seq<bool>) -> Seq<bool> {
    let o = obj_of(b, i, true);
    if !on_line(o, y) || o.gfx != 2 {
        out
    } else {
        window_columns(b, o, y - o.y0, map_2d, out, o.dw as nat)
    }
}

/// Columns covered by the first `n` objects as a window.
pub open spec fn windows_marked(b: BusModel, y: int, map_2d: bool, out: Seq<bool>, n: nat) -> Seq<bool>
    decreases n,
{
    if n == 0 {
        out
    } else {
        window_marked(b, n - 1, y, map_2d, windows_marked(b, y, map_2d, out, (n - 1) as nat))
    }
}

fn mark_one(bus: &Bus, i: usize, y: usize, map_2d: bool, out: &mut Vec<bool>)
    requires
        bus@.wf(),
        i < 128,
        y < 160,
        old(out)@.len() == WIDTH,
    ensures
        final(out)@ == window_marked(bus@, i as int, y as int, map_2d, old(out)@),
        final(out)@.len() == WIDTH,
{
    reveal(window_marked);
    let o = decode(bus, i, true);
    let line: i32 = y as i32;
    if !(o.shown && o.y0 <= line && line < o.y0 + o.dh as i32) || o.gfx != 2 {
        return;
    }
    let row: usize = (line - o.y0) as usize;
    let mut n: usize = 0;
    while n < o.dw
        invariant
            n <= o.dw,
            bus@.wf(),
            o.wf(),
            row < o.dh,
            out@.len() == WIDTH,
            out@ == window_columns(bus@, o, row as int, map_2d, old(out)@, n as nat),
        decreases o.dw - n,
    {
        let sx: i32 = o.x0 + n as i32;
        if 0 <= sx && sx < 240 {
            if sample_cell(bus, &o, n, row, map_2d).is_some() {
                out[sx as usize] = true;
            }
        }
        n += 1;
    }
}

/// Marks the pixels covered by object-window objects.
pub fn mark_obj_window(bus: &Bus, y: usize, dispcnt: u16, out: &mut Vec<bool>)
    requires
        bus@.wf(),
        y < 160,
        old(out)@.len() == WIDTH,
    ensures
        final(out)@ == windows_marked(bus@, y as int, dispcnt & 0x40 == 0, old(out)@, 128),
        final(out)@.len() == WIDTH,
{
    let map_2d: bool = dispcnt & 0x40 == 0;
    let mut i: usize = 0;
    while i < 128
        invariant
            i <= 128,
            bus@.wf(),
            y < 160,
            out@.len() == WIDTH,
            out@ == windows_marked(bus@, y as int, map_2d, old(out)@, i as nat),
        decreases 128 - i,
    {
        mark_one(bus, i, y, map_2d, out);
        i += 1;
    }
}

} // verus!
