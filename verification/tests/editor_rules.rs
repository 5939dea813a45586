use dwarf_seeks_fortune::components::editor::PaintedTile;
use dwarf_seeks_fortune::components::movement::{Direction1D, Direction2D, Pos};
use dwarf_seeks_fortune::levels::tile_definition::{Archetype, Level, TileDefinition};
use dwarf_seeks_fortune::resources::editor::{
    Brush, EditorData, LevelEdit, Palette, Selector, TileEdit,
};
use dwarf_seeks_fortune::states::paint::{can_set_tiles, set_tiles};
use dwarf_seeks_fortune::systems::editor::{cursor_step, step_cursor, update_selection, CursorStep};

fn sized(w: i32, h: i32) -> TileDefinition {
    let mut d = TileDefinition::fallback();
    d.dimens = Pos::new(w, h);
    d
}

fn key_at(data: &EditorData, x: i32, y: i32) -> Option<String> {
    data.level.tile_map.get(&Pos::new(x, y)).map(|t| t.tile_def_key.clone())
}

#[test]
fn selection_bounds_and_dimensions() {
    let s = Selector { start: Pos::new(4, -1), end: Pos::new(1, 2) };
    assert_eq!(s.lower_bounds(), Pos::new(1, -1));
    assert_eq!(s.dimens(), Pos::new(4, 4));
    let one = Selector::default();
    assert_eq!(one.lower_bounds(), Pos::new(0, 0));
    assert_eq!(one.dimens(), Pos::new(1, 1));
    let swapped = Selector { start: Pos::new(1, 2), end: Pos::new(4, -1) };
    assert_eq!(swapped.lower_bounds(), s.lower_bounds());
    assert_eq!(swapped.dimens(), s.dimens());
}

#[test]
fn new_tile_edits_are_dirty() {
    let t = TileEdit::new(String::from("Ladder"));
    assert_eq!(t.tile_def_key, "Ladder");
    assert!(t.dirty);
    assert_eq!(PaintedTile::new(Pos::new(1, 2)).pos, Pos::new(1, 2));
}

#[test]
fn default_brush_paints_ordinary_blocks() {
    let b = Brush::default();
    assert_eq!(b.tile_def_key, "Block1");
    assert_eq!(b.tile_def.dimens, Pos::new(1, 1));
    assert_eq!(b.tile_def.archetype, Archetype::Block);
}

#[test]
fn painting_fills_the_selection_brush_by_brush() {
    let mut data = EditorData::default();
    data.selector = Selector { start: Pos::new(0, 0), end: Pos::new(4, 1) };
    set_tiles(&mut data, Some(String::from("Wide")), Some(sized(2, 1)));
    for x in 0..5 {
        for y in 0..2 {
            let expected = if x % 2 == 0 { Some(String::from("Wide")) } else { None };
            assert_eq!(key_at(&data, x, y), expected, "at ({}, {})", x, y);
        }
    }
    assert_eq!(data.level.tile_map.len(), 6);
    assert!(data.level.tile_map.get(&Pos::new(2, 1)).unwrap().dirty);
}

#[test]
fn single_cell_brush_fills_every_cell() {
    let mut data = EditorData::default();
    data.selector = Selector { start: Pos::new(2, 2), end: Pos::new(1, 1) };
    set_tiles(&mut data, Some(String::from("Block1")), None);
    assert_eq!(data.level.tile_map.len(), 4);
    assert_eq!(key_at(&data, 1, 1), Some(String::from("Block1")));
    assert_eq!(key_at(&data, 2, 2), Some(String::from("Block1")));
}

#[test]
fn erasing_removes_what_painting_put() {
    let mut data = EditorData::default();
    data.level.put_tile(Pos::new(9, 9), TileEdit::new(String::from("Keep")));
    data.selector = Selector { start: Pos::new(0, 0), end: Pos::new(2, 2) };
    set_tiles(&mut data, Some(String::from("Block1")), None);
    assert_eq!(data.level.tile_map.len(), 10);
    set_tiles(&mut data, None, None);
    assert_eq!(data.level.tile_map.len(), 1);
    assert_eq!(key_at(&data, 9, 9), Some(String::from("Keep")));
}

#[test]
fn a_brush_with_negative_width_paints_only_the_first_column() {
    let mut data = EditorData::default();
    data.selector = Selector { start: Pos::new(0, 0), end: Pos::new(3, 0) };
    set_tiles(&mut data, Some(String::from("Odd")), Some(sized(-1, 1)));
    assert_eq!(data.level.tile_map.len(), 1);
    assert_eq!(key_at(&data, 0, 0), Some(String::from("Odd")));
}

#[test]
fn an_edited_level_becomes_a_level_with_the_same_keys() {
    let mut edit = LevelEdit::default();
    edit.put_tile(Pos::new(1, 1), TileEdit::new(String::from("A")));
    edit.put_tile(Pos::new(-3, 0), TileEdit::new(String::from("B")));
    let level: Level = edit.into();
    assert_eq!(level.tile_defs.len(), 2);
    assert_eq!(level.tile_defs.get(&Pos::new(1, 1)), Some(&String::from("A")));
    assert_eq!(level.tile_defs.get(&Pos::new(-3, 0)), Some(&String::from("B")));
    assert_eq!(level.tile_defs.entry(0).0, Pos::new(1, 1));
    assert_eq!(level.pos, Pos::new(0, 0));
}

#[test]
fn cursor_steps() {
    let none = Direction2D::default();
    let right = Direction2D::from(Direction1D::Positive, Direction1D::Neutral);
    let left = Direction2D::from(Direction1D::Negative, Direction1D::Neutral);
    assert_eq!(cursor_step(&none, &right), CursorStep::Start);
    assert_eq!(cursor_step(&right, &left), CursorStep::Reset);
    assert_eq!(cursor_step(&right, &right), CursorStep::Continue);
    assert_eq!(cursor_step(&right, &none), CursorStep::Idle);
    assert_eq!(cursor_step(&none, &none), CursorStep::Idle);
}

#[test]
fn moving_without_shift_collapses_the_selection() {
    let right = Direction2D::from(Direction1D::Positive, Direction1D::Neutral);
    let mut s = Selector { start: Pos::new(0, 0), end: Pos::new(3, 3) };
    update_selection(&mut s, true, &right);
    assert_eq!(s.start, Pos::new(0, 0));
    update_selection(&mut s, false, &Direction2D::default());
    assert_eq!(s.start, Pos::new(0, 0));
    update_selection(&mut s, false, &right);
    assert_eq!(s.start, Pos::new(3, 3));
    assert_eq!(s.end, Pos::new(3, 3));
}

#[test]
fn painted_tiles_are_drawn_once() {
    let mut data = EditorData::default();
    data.selector.end = Pos::new(1, 0);
    set_tiles(&mut data, Some(String::from("Block1")), Some(sized(1, 1)));
    assert!(data.level.is_dirty(&Pos::new(0, 0)));
    assert!(data.level.is_dirty(&Pos::new(5, 5)));
    let drawn = data.level.take_dirty();
    assert_eq!(
        drawn,
        vec![(Pos::new(0, 0), String::from("Block1")), (Pos::new(1, 0), String::from("Block1"))]
    );
    assert!(!data.level.is_dirty(&Pos::new(0, 0)));
    assert!(!data.level.is_dirty(&Pos::new(1, 0)));
    assert!(data.level.take_dirty().is_empty());
    data.selector.start = Pos::new(1, 0);
    set_tiles(&mut data, None, None);
    assert!(data.level.is_dirty(&Pos::new(1, 0)));
    assert!(!data.level.is_dirty(&Pos::new(0, 0)));
    assert!(data.level.take_dirty().is_empty());
}

#[test]
fn a_level_opened_in_the_editor_saves_back_unchanged() {
    let mut level = Level::default();
    level.tile_defs.insert(Pos::new(2, 0), String::from("Ladder"));
    level.tile_defs.insert(Pos::new(0, 0), String::from("Block1"));
    let mut edit: LevelEdit = LevelEdit::from_level(level);
    assert_eq!(edit.tile_map.len(), 2);
    assert!(edit.is_dirty(&Pos::new(2, 0)));
    let drawn = edit.take_dirty();
    assert_eq!(drawn[0], (Pos::new(2, 0), String::from("Ladder")));
    assert_eq!(drawn[1], (Pos::new(0, 0), String::from("Block1")));
    let back: Level = edit.into();
    assert_eq!(back.tile_defs.len(), 2);
    assert_eq!(back.tile_defs.entry(0), &(Pos::new(2, 0), String::from("Ladder")));
    assert_eq!(back.tile_defs.entry(1), &(Pos::new(0, 0), String::from("Block1")));
}

#[test]
fn painting_needs_a_sized_brush_and_a_selection_in_range() {
    let mut data = EditorData::default();
    assert!(can_set_tiles(&data, None));
    assert!(can_set_tiles(&data, Some(sized(2, 3))));
    assert!(!can_set_tiles(&data, Some(sized(0, 1))));
    assert!(!can_set_tiles(&data, Some(sized(1, 0))));
    data.selector.end = Pos::new(i32::MAX, 0);
    assert!(!can_set_tiles(&data, None));
    data.selector.end = Pos::new(i32::MIN, 0);
    data.selector.start = Pos::new(1, 0);
    assert!(!can_set_tiles(&data, None));
}

#[test]
fn the_palette_cycles_through_the_keys_and_the_eraser() {
    let mut p = Palette::new(vec![String::from("Block1"), String::from("Ladder")]);
    assert_eq!(p.selected_key(), None);
    assert_eq!(p.select_next(), Some(String::from("Block1")));
    assert_eq!(p.select_next(), Some(String::from("Ladder")));
    assert_eq!(p.select_next(), None);
    assert_eq!(p.select_previous(), Some(String::from("Ladder")));
    assert_eq!(p.select_previous(), Some(String::from("Block1")));
    assert_eq!(p.select_previous(), None);
    assert_eq!(p.selected_key(), None);
    let mut empty = Palette::new(Vec::new());
    assert_eq!(empty.select_next(), None);
    assert_eq!(empty.select_previous(), None);
}

#[test]
fn selections_wider_than_the_grid_have_no_dimensions() {
    let mut s = Selector::default();
    assert!(s.dimens_fit());
    s.start = Pos::new(i32::MIN, 0);
    s.end = Pos::new(i32::MAX, 0);
    assert!(!s.dimens_fit());
    s.start = Pos::new(0, 0);
    s.end = Pos::new(i32::MAX - 1, -5);
    assert!(s.dimens_fit());
    assert_eq!(s.dimens(), Pos::new(i32::MAX, 6));
    s.end = Pos::new(i32::MAX, 0);
    assert!(!s.dimens_fit());
}

#[test]
fn painting_twice_is_painting_once() {
    let mut data = EditorData::default();
    data.selector = Selector { start: Pos::new(0, 0), end: Pos::new(3, 0) };
    set_tiles(&mut data, Some(String::from("Wide")), Some(sized(2, 1)));
    let once: Vec<(Pos, String)> = data.level.take_dirty();
    set_tiles(&mut data, Some(String::from("Wide")), Some(sized(2, 1)));
    assert_eq!(data.level.tile_map.len(), 2);
    let twice: Vec<(Pos, String)> = data.level.take_dirty();
    assert_eq!(once, twice);
    assert_eq!(key_at(&data, 0, 0), Some(String::from("Wide")));
    assert_eq!(key_at(&data, 2, 0), Some(String::from("Wide")));
    assert_eq!(key_at(&data, 1, 0), None);
}

#[test]
fn the_cursor_steps_one_cell_and_stops_at_the_grid_edge() {
    let mut s = Selector { start: Pos::new(0, 0), end: Pos::new(2, 2) };
    let up_left = Direction2D::from(Direction1D::Negative, Direction1D::Positive);
    assert!(step_cursor(&mut s, &up_left));
    assert_eq!(s.end, Pos::new(1, 3));
    assert_eq!(s.start, Pos::new(0, 0));
    s.end = Pos::new(i32::MIN, 0);
    assert!(!step_cursor(&mut s, &up_left));
    assert_eq!(s.end, Pos::new(i32::MIN, 0));
    assert!(step_cursor(&mut s, &Direction2D::default()));
    assert_eq!(s.end, Pos::new(i32::MIN, 0));
}
