//! How layers stack.

use crate::bus::model::BusModel;
use crate::ppu::layers::{coarse, lemma_coarse};
use crate::ppu::objs::{
    lemma_attrs, obj_cell, obj_columns, obj_drawn, obj_mosaic, obj_of, objs_drawn, on_line, sprites_added, Obj,
};
use crate::ppu::scene::{fronts, oam16, Pair, Slot, LAYER_OBJ};
use crate::ppu::WIDTH;
use vstd::prelude::*;

verus! {

/// The pair is in order.
pub open spec fn ordered(p: Pair) -> bool {
    !fronts(p.bot, p.top)
}

/// Two pixels that stacking tells apart.
pub open spec fn distinct(a: Slot, b: Slot) -> bool {
    a.prio != b.prio || a.layer != b.layer
}

/// The lower priority number is in front; of equals, objects before BG0 before
/// BG1 and so on. Of two layers that differ exactly one is in front.
pub proof fn law_one_is_in_front(a: Slot, b: Slot, c: Slot)
    ensures
        distinct(a, b) ==> fronts(a, b) != fronts(b, a),
        !fronts(a, a),
        fronts(a, b) && fronts(b, c) ==> fronts(a, c),
        a.prio < b.prio ==> fronts(a, b),
        a.prio == b.prio && a.layer < b.layer ==> fronts(a, b),
{
}

/// Putting a layer in keeps the two frontmost, in order: nothing that was there
/// or is put in stands before the top.
pub proof fn law_frontmost_stays(p: Pair, s: Slot)
    requires
        ordered(p),
    ensures
        ({
            let q = p.with(s);
            &&& ordered(q)
            &&& !fronts(s, q.top) && !fronts(p.top, q.top) && !fronts(p.bot, q.top)
            &&& q.top == s || q.top == p.top
            &&& q.top != s ==> !fronts(s, q.bot)
        }),
{
}

/// The order in which layers are drawn does not matter.
pub proof fn law_drawing_order_is_free(p: Pair, a: Slot, b: Slot)
    requires
        ordered(p),
        distinct(a, b),
        distinct(a, p.top),
        distinct(a, p.bot),
        distinct(b, p.top),
        distinct(b, p.bot),
    ensures
        p.with(a).with(b) == p.with(b).with(a),
{
}

// ---- objects ------------------------------------------------------------

/// What an object's row `row` shows in column `x` of the screen, of its first
/// `n` columns. A mosaic shows the first column of each block.
pub open spec fn column_at(b: BusModel, o: Obj, row: int, map_2d: bool, win: Seq<u8>, x: int, n: int) -> Option<
    Slot,
> {
    let xi = x - o.x0;
    if 0 <= xi < n && coarse(xi, o.mosaic, obj_mosaic(b).0) == xi && win[x] & 0x10 != 0 {
        match obj_cell(b, o, xi, row, map_2d) {
            Some(color) => Some(
                Slot { color, prio: o.prio, layer: LAYER_OBJ, semi: o.gfx == 1 },
            ),
            None => None,
        }
    } else {
        None
    }
}

/// The opaque pixel that object `i` shows in column `x` of line `y`.
pub open spec fn obj_at(b: BusModel, i: int, y: int, map_2d: bool, win: Seq<u8>, x: int) -> Option<Slot> {
    let o = obj_of(b, i, false);
    if on_line(o, y) && o.gfx < 2 {
        column_at(b, o, coarse(y - o.y0, o.mosaic, obj_mosaic(b).1), map_2d, win, x, o.dw as int)
    } else {
        None
    }
}

/// The front of two pixels; of equals the one that was there.
pub open spec fn front_of(old: Slot, s: Option<Slot>) -> Slot {
    match s {
        Some(s) if fronts(s, old) => s,
        _ => old,
    }
}

proof fn lemma_coarse_again(v: int, step: int)
    requires
        v >= 0,
        step >= 1,
    ensures
        v / step * step / step * step == v / step * step,
{
    vstd::arithmetic::div_mod::lemma_div_by_multiple(v / step, step);
}

proof fn lemma_columns(
    b: BusModel,
    o: Obj,
    row: int,
    map_2d: bool,
    win: Seq<u8>,
    rows: Seq<Pair>,
    x: int,
    n: nat,
)
    requires
        rows.len() == WIDTH,
        0 <= x < WIDTH,
    ensures
        obj_columns(b, o, row, map_2d, win, rows, n).len() == WIDTH,
        obj_columns(b, o, row, map_2d, win, rows, n)[x].top == front_of(
            rows[x].top,
            column_at(b, o, row, map_2d, win, x, n as int),
        ),
    decreases n,
{
    if n > 0 {
        lemma_columns(b, o, row, map_2d, win, rows, x, (n - 1) as nat);
        let step = obj_mosaic(b).0;
        lemma_coarse(n - 1, step);
        lemma_coarse_again(n - 1, step);
    }
}

/// The pixel in column `x` of the first of `n` objects of one priority that
/// shows one.
pub open spec fn lead_at(b: BusModel, prio: u8, y: int, map_2d: bool, win: Seq<u8>, x: int, n: nat) -> Option<
    Slot,
>
    decreases n,
{
    if n == 0 {
        None
    } else {
        match lead_at(b, prio, y, map_2d, win, x, (n - 1) as nat) {
            Some(s) => Some(s),
            None => match obj_at(b, n - 1, y, map_2d, win, x) {
                Some(s) if s.prio == prio => Some(s),
                _ => None,
            },
        }
    }
}

proof fn lemma_objs(
    b: BusModel,
    prio: u8,
    y: int,
    map_2d: bool,
    win: Seq<u8>,
    rows: Seq<Pair>,
    x: int,
    n: nat,
)
    requires
        rows.len() == WIDTH,
        0 <= x < WIDTH,
    ensures
        ({
            let r = objs_drawn(b, prio, y, map_2d, win, rows, n);
            let s = lead_at(b, prio, y, map_2d, win, x, n);
            &&& r.len() == WIDTH
            &&& r[x].top == front_of(rows[x].top, s)
            &&& s matches Some(s) ==> s.prio == prio && s.layer == LAYER_OBJ
        }),
    decreases n,
{
    if n > 0 {
        lemma_objs(b, prio, y, map_2d, win, rows, x, (n - 1) as nat);
        let prev = objs_drawn(b, prio, y, map_2d, win, rows, (n - 1) as nat);
        reveal(obj_drawn);
        let o = obj_of(b, n - 1, false);
        let row = coarse(y - o.y0, o.mosaic, obj_mosaic(b).1);
        lemma_columns(b, o, row, map_2d, win, prev, x, o.dw as nat);
    }
}

/// Object `i` is the first to show a pixel in column `x`: none that shows one
/// has a lower priority number, or the same and a lower object number.
pub open spec fn leads(b: BusModel, i: int, y: int, map_2d: bool, win: Seq<u8>, x: int) -> bool {
    &&& 0 <= i < 128
    &&& obj_at(b, i, y, map_2d, win, x) matches Some(s) && forall|j: int|
        0 <= j < 128 ==> (#[trigger] obj_at(b, j, y, map_2d, win, x) matches Some(t) ==> s.prio < t.prio || (
        s.prio == t.prio && i <= j))
}

proof fn lemma_lead(b: BusModel, i: int, prio: u8, y: int, map_2d: bool, win: Seq<u8>, x: int, n: nat)
    requires
        leads(b, i, y, map_2d, win, x),
        n <= 128,
    ensures
        ({
            let s = obj_at(b, i, y, map_2d, win, x)->0;
            let l = lead_at(b, prio, y, map_2d, win, x, n);
            &&& prio < s.prio ==> l is None
            &&& prio == s.prio && n > i ==> l == Some(s)
            &&& prio == s.prio && n <= i ==> l is None
        }),
    decreases n,
{
    if n > 0 {
        lemma_lead(b, i, prio, y, map_2d, win, x, (n - 1) as nat);
        assert(obj_at(b, n - 1, y, map_2d, win, x) matches Some(t) ==> obj_at(
            b,
            i,
            y,
            map_2d,
            win,
            x,
        )->0.prio <= t.prio);
    }
}

proof fn lemma_obj_prio(b: BusModel, i: int, y: int, map_2d: bool, win: Seq<u8>, x: int)
    ensures
        obj_at(b, i, y, map_2d, win, x) matches Some(s) ==> s.prio <= 3 && s.layer == LAYER_OBJ,
{
    reveal(obj_of);
    lemma_attrs(oam16(b, 8 * i), oam16(b, 8 * i + 2), oam16(b, 8 * i + 4));
}

/// Of the objects that show an opaque pixel in a column, the one of the lowest
/// priority number covers the others, and of several of one priority the one of
/// the lowest object number. It stands at the front unless what was there does.
pub proof fn law_lower_object_covers(
    b: BusModel,
    i: int,
    y: int,
    map_2d: bool,
    win: Seq<u8>,
    rows: Seq<Pair>,
    x: int,
)
    requires
        leads(b, i, y, map_2d, win, x),
        rows.len() == WIDTH,
        0 <= x < WIDTH,
    ensures
        sprites_added(b, y, map_2d, win, rows)[x].top == front_of(
            rows[x].top,
            obj_at(b, i, y, map_2d, win, x),
        ),
{
    reveal(sprites_added);
    let r3 = objs_drawn(b, 3, y, map_2d, win, rows, 128);
    let r2 = objs_drawn(b, 2, y, map_2d, win, r3, 128);
    let r1 = objs_drawn(b, 1, y, map_2d, win, r2, 128);
    lemma_objs(b, 3, y, map_2d, win, rows, x, 128);
    lemma_objs(b, 2, y, map_2d, win, r3, x, 128);
    lemma_objs(b, 1, y, map_2d, win, r2, x, 128);
    lemma_objs(b, 0, y, map_2d, win, r1, x, 128);
    lemma_lead(b, i, 3, y, map_2d, win, x, 128);
    lemma_lead(b, i, 2, y, map_2d, win, x, 128);
    lemma_lead(b, i, 1, y, map_2d, win, x, 128);
    lemma_lead(b, i, 0, y, map_2d, win, x, 128);
    lemma_obj_prio(b, i, y, map_2d, win, x);
}

/// A column in which no object shows a pixel keeps its front.
pub proof fn law_no_object_no_change(
    b: BusModel,
    y: int,
    map_2d: bool,
    win: Seq<u8>,
    rows: Seq<Pair>,
    x: int,
)
    requires
        forall|j: int| 0 <= j < 128 ==> #[trigger] obj_at(b, j, y, map_2d, win, x) is None,
        rows.len() == WIDTH,
        0 <= x < WIDTH,
    ensures
        sprites_added(b, y, map_2d, win, rows)[x].top == rows[x].top,
{
    reveal(sprites_added);
    let r3 = objs_drawn(b, 3, y, map_2d, win, rows, 128);
    let r2 = objs_drawn(b, 2, y, map_2d, win, r3, 128);
    let r1 = objs_drawn(b, 1, y, map_2d, win, r2, 128);
    lemma_objs(b, 3, y, map_2d, win, rows, x, 128);
    lemma_objs(b, 2, y, map_2d, win, r3, x, 128);
    lemma_objs(b, 1, y, map_2d, win, r2, x, 128);
    lemma_objs(b, 0, y, map_2d, win, r1, x, 128);
    lemma_none(b, 3, y, map_2d, win, x, 128);
    lemma_none(b, 2, y, map_2d, win, x, 128);
    lemma_none(b, 1, y, map_2d, win, x, 128);
    lemma_none(b, 0, y, map_2d, win, x, 128);
}

proof fn lemma_none(b: BusModel, prio: u8, y: int, map_2d: bool, win: Seq<u8>, x: int, n: nat)
    requires
        forall|j: int| 0 <= j < 128 ==> #[trigger] obj_at(b, j, y, map_2d, win, x) is None,
        n <= 128,
    ensures
        lead_at(b, prio, y, map_2d, win, x, n) is None,
    decreases n,
{
    if n > 0 {
        lemma_none(b, prio, y, map_2d, win, x, (n - 1) as nat);
        assert(obj_at(b, n - 1, y, map_2d, win, x) is None);
    }
}

} // verus!
