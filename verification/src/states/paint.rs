use crate::components::movement::Pos;
use crate::levels::tile_definition::TileDefinition;
use crate::resources::editor::{spec_abs, spec_min, EditorData, Selector, TileEdit};
use vstd::prelude::*;

verus! {

/// Whether an offset from the start of a row or column is hit when stepping by `step`:
/// every `step`-th cell for a positive step, only the first cell otherwise.
pub open spec fn stride_hit(offset: int, step: int) -> bool {
    if step > 0 {
        offset % step == 0
    } else {
        offset == 0
    }
}

/// Whether `q` lies in the selection.
pub open spec fn in_selection(selector: Selector, q: Pos) -> bool {
    let lx = spec_min(selector.start.x as int, selector.end.x as int);
    let ly = spec_min(selector.start.y as int, selector.end.y as int);
    lx <= q.x < lx + spec_abs(selector.start.x - selector.end.x) + 1 && ly <= q.y < ly + spec_abs(
        selector.start.y - selector.end.y,
    ) + 1
}

/// The cells of the selection that a brush of the given size paints: starting at the
/// selection's bottom-left corner, one brush-width and one brush-height apart.
pub open spec fn painted(selector: Selector, brush: Pos, q: Pos) -> bool {
    let lx = spec_min(selector.start.x as int, selector.end.x as int);
    let ly = spec_min(selector.start.y as int, selector.end.y as int);
    in_selection(selector, q) && stride_hit(q.x - lx, brush.x as int) && stride_hit(
        q.y - ly,
        brush.y as int,
    )
}

/// The tiles after painting the region with the key, or erasing it when there is no key.
pub open spec fn applied(
    tiles: Map<Pos, TileEdit>,
    key: Option<String>,
    region: spec_fn(Pos) -> bool,
) -> Map<Pos, TileEdit> {
    match key {
        Some(k) => Map::new(
            |q: Pos| tiles.contains_key(q) || region(q),
            |q: Pos|
                if region(q) {
                    TileEdit { tile_def_key: k, dirty: true }
                } else {
                    tiles[q]
                },
        ),
        None => Map::new(|q: Pos| tiles.contains_key(q) && !region(q), |q: Pos| tiles[q]),
    }
}

/// The width and height of the brush: those of its tile, or 1 by 1 without one.
pub open spec fn brush_dimens(tile_def: Option<TileDefinition>) -> Pos {
    match tile_def {
        Some(def) => def.dimens,
        None => Pos { x: 1, y: 1 },
    }
}

/// Stepping by `step` from `start` never lands strictly between two hits.
proof fn lemma_next_hit(start: int, x: int, step: int, o: int)
    requires
        step > 0,
        (x - start) % step == 0,
        x <= o < x + step,
        (o - start) % step == 0,
    ensures
        o == x,
{
    vstd::arithmetic::div_mod::lemma_fundamental_div_mod(x - start, step);
    vstd::arithmetic::div_mod::lemma_fundamental_div_mod(o - start, step);
    let a = (x - start) / step;
    let b = (o - start) / step;
    assert(x - start == step * a);
    assert(o - start == step * b);
    assert(step * a <= step * b < step * a + step);
    assert(a <= b < a + 1) by (nonlinear_arith)
        requires
            step > 0,
            step * a <= step * b,
            step * b < step * a + step,
    ;
}

proof fn lemma_step_hit(start: int, x: int, step: int)
    requires
        step > 0,
        (x - start) % step == 0,
    ensures
        (x + step - start) % step == 0,
{
    vstd::arithmetic::div_mod::lemma_mod_add_multiples_vanish(x - start, step);
}

/// Whether `set_tiles` can paint the selection with this brush: the selection's size and
/// corners stay inside the `i32` range and the brush has a size in both directions.
pub fn can_set_tiles(editor_data: &EditorData, tile_def: Option<TileDefinition>) -> (res: bool)
    ensures
        res == (editor_data.selector.fits() && editor_data.selector.start.x < i32::MAX
            && editor_data.selector.end.x < i32::MAX && editor_data.selector.start.y < i32::MAX
            && editor_data.selector.end.y < i32::MAX && brush_dimens(tile_def).x != 0
            && brush_dimens(tile_def).y != 0),
{
    let sel = &editor_data.selector;
    let sx = sel.start.x as i64;
    let ex = sel.end.x as i64;
    let sy = sel.start.y as i64;
    let ey = sel.end.y as i64;
    let w = if sx >= ex {
        sx - ex
    } else {
        ex - sx
    };
    let h = if sy >= ey {
        sy - ey
    } else {
        ey - sy
    };
    let brush = match tile_def {
        Some(def) => def.dimens,
        None => Pos::new(1, 1),
    };
    w + 1 <= 2147483647i64 && h + 1 <= 2147483647i64 && sel.start.x < i32::MAX && sel.end.x
        < i32::MAX && sel.start.y < i32::MAX && sel.end.y < i32::MAX && brush.x != 0 && brush.y != 0
}

/// Paints the selection with the brush's tile, or erases it when there is no tile: one tile
/// per brush-sized step, starting at the selection's bottom-left corner.
pub fn set_tiles(editor_data: &mut EditorData, key: Option<String>, tile_def: Option<TileDefinition>)
    requires
        old(editor_data).selector.fits(),
        old(editor_data).selector.start.x < i32::MAX,
        old(editor_data).selector.end.x < i32::MAX,
        old(editor_data).selector.start.y < i32::MAX,
        old(editor_data).selector.end.y < i32::MAX,
        brush_dimens(tile_def).x != 0,
        brush_dimens(tile_def).y != 0,
    ensures
        final(editor_data).selector == old(editor_data).selector,
        final(editor_data).brush == old(editor_data).brush,
        final(editor_data).level.tile_map@ == applied(
            old(editor_data).level.tile_map@,
            key,
            |q: Pos| painted(old(editor_data).selector, brush_dimens(tile_def), q),
        ),
{
    let brush = match tile_def {
        Some(def) => def.dimens,
        None => Pos::new(1, 1),
    };
    let lower = editor_data.selector.lower_bounds();
    let dimens = editor_data.selector.dimens();
    let ghost sel = editor_data.selector;
    let ghost old_tiles = editor_data.level.tile_map@;
    let ghost region = |q: Pos| painted(sel, brush, q);
    let x_end: i64 = lower.x as i64 + dimens.x as i64;
    let y_end: i64 = lower.y as i64 + dimens.y as i64;
    let mut x: i64 = lower.x as i64;
    proof {
        assert(editor_data.level.tile_map@ =~= applied(
            old_tiles,
            key,
            |q: Pos| region(q) && q.x < x,
        ));
        if brush.x > 0 {
            vstd::arithmetic::div_mod::lemma_small_mod(0, brush.x as nat);
        }
    }
    while x < x_end
        invariant
            sel == editor_data.selector,
            forall|r: Pos| #[trigger] region(r) == painted(sel, brush, r),
            brush == brush_dimens(tile_def),
            brush.x != 0,
            brush.y != 0,
            lower.x == spec_min(sel.start.x as int, sel.end.x as int),
            lower.y == spec_min(sel.start.y as int, sel.end.y as int),
            x_end == lower.x + spec_abs(sel.start.x - sel.end.x) + 1,
            y_end == lower.y + spec_abs(sel.start.y - sel.end.y) + 1,
            x_end <= i32::MAX,
            y_end <= i32::MAX,
            lower.x <= x,
            x <= x_end,
            x < x_end && brush.x > 0 ==> (x - lower.x) % (brush.x as int) == 0,
            x < x_end && brush.x <= 0 ==> x == lower.x,
            editor_data.level.tile_map@ == applied(
                old_tiles,
                key,
                |q: Pos| region(q) && q.x < x,
            ),
            editor_data.brush == old(editor_data).brush,
        decreases x_end - x,
    {
        let mut y: i64 = lower.y as i64;
        proof {
            if brush.y > 0 {
                vstd::arithmetic::div_mod::lemma_small_mod(0, brush.y as nat);
            }
            assert forall|r: Pos| region(r) && r.x < x <==> region(r) && (r.x < x || (r.x == x && r.y < y)) by {
                if region(r) {
                    assert(in_selection(sel, r));
                }
            }
            assert(applied(old_tiles, key, |q: Pos| region(q) && q.x < x) =~= applied(
                old_tiles,
                key,
                |q: Pos| region(q) && (q.x < x || (q.x == x && q.y < y)),
            ));
        }
        while y < y_end
            invariant
                sel == editor_data.selector,
                forall|r: Pos| #[trigger] region(r) == painted(sel, brush, r),
                brush == brush_dimens(tile_def),
                brush.x != 0,
                brush.y != 0,
                lower.x == spec_min(sel.start.x as int, sel.end.x as int),
                lower.y == spec_min(sel.start.y as int, sel.end.y as int),
                x_end == lower.x + spec_abs(sel.start.x - sel.end.x) + 1,
                y_end == lower.y + spec_abs(sel.start.y - sel.end.y) + 1,
                x_end <= i32::MAX,
                y_end <= i32::MAX,
                lower.x <= x < x_end,
                brush.x > 0 ==> (x - lower.x) % (brush.x as int) == 0,
                brush.x <= 0 ==> x == lower.x,
                lower.y <= y,
                y <= y_end,
                y < y_end && brush.y > 0 ==> (y - lower.y) % (brush.y as int) == 0,
                y < y_end && brush.y <= 0 ==> y == lower.y,
                editor_data.level.tile_map@ == applied(
                    old_tiles,
                    key,
                    |q: Pos| region(q) && (q.x < x || (q.x == x && q.y < y)),
                ),
                editor_data.brush == old(editor_data).brush,
            decreases y_end - y,
        {
            let q = Pos::new(x as i32, y as i32);
            let ghost before = editor_data.level.tile_map@;
            proof {
                assert(q.x == x && q.y == y);
                assert(in_selection(sel, q));
                assert(stride_hit(q.x - lower.x, brush.x as int));
                assert(stride_hit(q.y - lower.y, brush.y as int));
                assert(painted(sel, brush, q));
                assert(region(q));
            }
            match &key {
                Some(k) => {
                    editor_data.level.put_tile(q, TileEdit::new(k.clone()));
                },
                None => {
                    editor_data.level.tile_map.remove(&q);
                },
            }
            let next_y: i64 = if brush.y > 0 && y + (brush.y as i64) < y_end {
                y + brush.y as i64
            } else {
                y_end
            };
            proof {
                assert forall|r: Pos|
                    region(r) && (r.x < x || (r.x == x && r.y < next_y)) <==> (region(r) && (r.x < x
                        || (r.x == x && r.y < y))) || r == q by {
                    if region(r) && r.x == x && y <= r.y < next_y {
                        assert(painted(sel, brush, r));
                        assert(in_selection(sel, r));
                        if brush.y > 0 {
                            lemma_next_hit(lower.y as int, y as int, brush.y as int, r.y as int);
                        }
                    }
                }
                assert(editor_data.level.tile_map@ =~= applied(
                    old_tiles,
                    key,
                    |r: Pos| region(r) && (r.x < x || (r.x == x && r.y < next_y)),
                ));
                if brush.y > 0 && next_y < y_end {
                    lemma_step_hit(lower.y as int, y as int, brush.y as int);
                }
            }
            y = next_y;
        }
        let next_x: i64 = if brush.x > 0 && x + (brush.x as i64) < x_end {
            x + brush.x as i64
        } else {
            x_end
        };
        proof {
            assert forall|r: Pos|
                region(r) && (r.x < x || (r.x == x && r.y < y)) <==> region(r) && r.x < next_x by {
                if region(r) && x <= r.x < next_x {
                    assert(painted(sel, brush, r));
                    assert(in_selection(sel, r));
                    if brush.x > 0 {
                        lemma_next_hit(lower.x as int, x as int, brush.x as int, r.x as int);
                    }
                    assert(r.y < y_end);
                }
            }
            assert(applied(
                old_tiles,
                key,
                |r: Pos| region(r) && (r.x < x || (r.x == x && r.y < y)),
            ) =~= applied(old_tiles, key, |r: Pos| region(r) && r.x < next_x));
            if brush.x > 0 && next_x < x_end {
                lemma_step_hit(lower.x as int, x as int, brush.x as int);
            }
        }
        x = next_x;
    }
    proof {
        assert forall|r: Pos| region(r) && r.x < x <==> region(r) by {
            if region(r) {
                assert(r.x < x_end);
            }
        }
        assert(applied(old_tiles, key, |r: Pos| region(r) && r.x < x) =~= applied(
            old_tiles,
            key,
            region,
        ));
    }
}

/// Erasing a region that was just painted leaves exactly the tiles outside the region.
pub proof fn law_erase_undoes_paint(tiles: Map<Pos, TileEdit>, key: String, region: spec_fn(Pos) -> bool)
    ensures
        applied(applied(tiles, Some(key), region), None, region) == tiles.restrict(
            tiles.dom().filter(|q: Pos| !region(q)),
        ),
{
    assert(applied(applied(tiles, Some(key), region), None, region) =~= tiles.restrict(
        tiles.dom().filter(|q: Pos| !region(q)),
    ));
}

/// Painting a region twice with the same key is the same as painting it once.
pub proof fn law_paint_idempotent(tiles: Map<Pos, TileEdit>, key: String, region: spec_fn(Pos) -> bool)
    ensures
        applied(applied(tiles, Some(key), region), Some(key), region) == applied(
            tiles,
            Some(key),
            region,
        ),
{
    assert(applied(applied(tiles, Some(key), region), Some(key), region) =~= applied(
        tiles,
        Some(key),
        region,
    ));
}

/// The selection's bottom-left corner is always painted, with any brush.
pub proof fn law_corner_is_painted(selector: Selector, brush: Pos)
    requires
        selector.fits(),
    ensures
        painted(
            selector,
            brush,
            Pos {
                x: spec_min(selector.start.x as int, selector.end.x as int) as i32,
                y: spec_min(selector.start.y as int, selector.end.y as int) as i32,
            },
        ),
{
    if brush.x > 0 {
        vstd::arithmetic::div_mod::lemma_small_mod(0, brush.x as nat);
    }
    if brush.y > 0 {
        vstd::arithmetic::div_mod::lemma_small_mod(0, brush.y as nat);
    }
}

} // verus!
