use crate::components::movement::Pos;
use crate::levels::tile_definition::{Archetype, Level, TileDefinition};
use crate::pos_map::{entries_agree, PosMap};
use crate::resources::assets::{AssetType, SpriteType};
use vstd::prelude::*;

verus! {

/// The level the editor is working on. It can be turned into a Level.
pub struct LevelEdit {
    pub tile_map: PosMap<TileEdit>,
}

impl LevelEdit {
    /// The tile definition key at each position.
    pub open spec fn keys(&self) -> Map<Pos, Seq<char>> {
        self.tile_map@.map_values(|t: TileEdit| t.tile_def_key@)
    }

    pub fn put_tile(&mut self, pos: Pos, tile_edit: TileEdit)
        ensures
            final(self).tile_map@ == old(self).tile_map@.insert(pos, tile_edit),
    {
        self.tile_map.insert(pos, tile_edit);
    }
}

/// The tiles among the entries that still have to be drawn, in order, each with its key.
pub open spec fn dirty_tiles(entries: Seq<(Pos, TileEdit)>) -> Seq<(Pos, Seq<char>)>
    decreases entries.len(),
{
    if entries.len() == 0 {
        Seq::empty()
    } else {
        let rest = dirty_tiles(entries.drop_last());
        let last = entries.last();
        if last.1.dirty {
            rest.push((last.0, last.1.tile_def_key@))
        } else {
            rest
        }
    }
}

impl LevelEdit {
    /// Whether what is drawn at the position is out of date: no tile is there any more, or
    /// the tile there has not been drawn yet.
    pub fn is_dirty(&self, pos: &Pos) -> (res: bool)
        ensures
            res == (!self.tile_map@.contains_key(*pos) || self.tile_map@[*pos].dirty),
    {
        match self.tile_map.get(pos) {
            Some(t) => t.dirty,
            None => true,
        }
    }

    /// The editor's form of a level: each placed tile with its key, in the same order, each
    /// still to be drawn.
    pub fn from_level(level: Level) -> (res: LevelEdit)
        ensures
            res.keys() == level.keys(),
            res.tile_map.entry_seq().map_values(|e: (Pos, TileEdit)| (e.0, e.1.tile_def_key@))
                == level.placements(),
            forall|p: Pos| #[trigger] res.tile_map@.contains_key(p) ==> res.tile_map@[p].dirty,
    {
        let mut map: PosMap<TileEdit> = PosMap::new();
        let n = level.tile_defs.len();
        let ghost src = level.tile_defs.entry_seq();
        let mut i: usize = 0;
        while i < n
            invariant
                n == src.len(),
                src == level.tile_defs.entry_seq(),
                entries_agree(src, level.tile_defs@),
                i <= n,
                map.entry_seq() == src.take(i as int).map_values(
                    |e: (Pos, String)| (e.0, TileEdit { tile_def_key: e.1, dirty: true }),
                ),
                forall|p: Pos|
                    #[trigger] map@.contains_key(p) <==> exists|a: int|
                        0 <= a < i && #[trigger] src[a].0 == p,
                forall|a: int|
                    0 <= a < i ==> map@.contains_key(#[trigger] src[a].0) && map@[src[a].0]
                        == (TileEdit { tile_def_key: src[a].1, dirty: true }),
            decreases n - i,
        {
            let entry = level.tile_defs.entry(i);
            let t = TileEdit::new(entry.1.clone());
            proof {
                if map@.contains_key(entry.0) {
                    let a = choose|a: int| 0 <= a < i && #[trigger] src[a].0 == entry.0;
                    assert(src[i as int].0 == entry.0);
                }
            }
            map.insert(entry.0, t);
            proof {
                assert(src.take(i + 1).map_values(
                    |e: (Pos, String)| (e.0, TileEdit { tile_def_key: e.1, dirty: true }),
                ) =~= src.take(i as int).map_values(
                    |e: (Pos, String)| (e.0, TileEdit { tile_def_key: e.1, dirty: true }),
                ).push((entry.0, t)));
                assert forall|p: Pos| #[trigger] map@.contains_key(p) <==> exists|a: int|
                    0 <= a < i + 1 && #[trigger] src[a].0 == p by {
                    if p == entry.0 {
                        assert(src[i as int].0 == p);
                    }
                }
            }
            i = i + 1;
        }
        proof {
            assert(src.take(n as int) =~= src);
            assert(map@.map_values(|t: TileEdit| t.tile_def_key@) =~= level.tile_defs@.map_values(
                |k: String| k@,
            )) by {
                assert forall|p: Pos| #[trigger] map@.contains_key(p) implies level.tile_defs@.contains_key(p)
                    && map@[p].tile_def_key@ == level.tile_defs@[p]@ by {
                    let a = choose|a: int| 0 <= a < n && #[trigger] src[a].0 == p;
                }
                assert forall|p: Pos| #[trigger] level.tile_defs@.contains_key(p) implies map@.contains_key(p) by {
                    let a = choose|a: int| 0 <= a < src.len() && #[trigger] src[a].0 == p;
                }
            }
            assert(map.entry_seq().map_values(|e: (Pos, TileEdit)| (e.0, e.1.tile_def_key@))
                =~= src.map_values(|e: (Pos, String)| (e.0, e.1@)));
            assert forall|p: Pos| #[trigger] map@.contains_key(p) implies map@[p].dirty by {
                let a = choose|a: int| 0 <= a < n && #[trigger] src[a].0 == p;
            }
        }
        LevelEdit { tile_map: map }
    }

    /// Hands out the tiles that still have to be drawn, in order, each with its key, and
    /// marks every tile as drawn. The keys stay as they were.
    pub fn take_dirty(&mut self) -> (res: Vec<(Pos, String)>)
        ensures
            res@.map_values(|e: (Pos, String)| (e.0, e.1@)) == dirty_tiles(
                old(self).tile_map.entry_seq(),
            ),
            final(self).keys() == old(self).keys(),
            forall|p: Pos| #[trigger]
                final(self).tile_map@.contains_key(p) ==> !final(self).tile_map@[p].dirty,
    {
        let n = self.tile_map.len();
        let ghost es0 = self.tile_map.entry_seq();
        let ghost m0 = self.tile_map@;
        let mut out: Vec<(Pos, String)> = Vec::new();
        let mut i: usize = 0;
        while i < n
            invariant
                n == es0.len(),
                entries_agree(es0, m0),
                es0 == old(self).tile_map.entry_seq(),
                m0 == old(self).tile_map@,
                i <= n,
                self.tile_map.entry_seq().len() == n,
                forall|j: int|
                    0 <= j < n ==> (#[trigger] self.tile_map.entry_seq()[j]).0 == es0[j].0
                        && self.tile_map.entry_seq()[j].1.tile_def_key == es0[j].1.tile_def_key,
                forall|j: int| 0 <= j < i ==> !(#[trigger] self.tile_map.entry_seq()[j]).1.dirty,
                forall|j: int| i <= j < n ==> #[trigger] self.tile_map.entry_seq()[j] == es0[j],
                self.tile_map@.dom() == m0.dom(),
                forall|j: int|
                    0 <= j < n ==> self.tile_map@[#[trigger] es0[j].0] == self.tile_map.entry_seq()[j].1,
                out@.map_values(|e: (Pos, String)| (e.0, e.1@)) == dirty_tiles(es0.take(i as int)),
            decreases n - i,
        {
            let entry = self.tile_map.entry(i);
            let pos = entry.0;
            proof {
                assert(es0.take(i + 1).drop_last() =~= es0.take(i as int));
                assert(es0.take(i + 1).last() == es0[i as int]);
            }
            if entry.1.dirty {
                let key = entry.1.tile_def_key.clone();
                let ghost out0 = out@;
                out.push((pos, key.clone()));
                let ghost cur = self.tile_map.entry_seq();
                self.tile_map.set_value(i, TileEdit { tile_def_key: key, dirty: false });
                proof {
                    assert(out@.map_values(|e: (Pos, String)| (e.0, e.1@)) =~= out0.map_values(
                        |e: (Pos, String)| (e.0, e.1@),
                    ).push((pos, key@)));
                    assert forall|j: int| 0 <= j < n implies self.tile_map@[#[trigger] es0[j].0]
                        == self.tile_map.entry_seq()[j].1 by {
                        if j != i {
                            assert(es0[j].0 != es0[i as int].0);
                        }
                    }
                    assert(self.tile_map@.dom() =~= m0.dom());
                }
            }
            i = i + 1;
        }
        proof {
            assert(es0.take(n as int) =~= es0);
            assert(self.keys() =~= old(self).keys()) by {
                assert forall|p: Pos| #[trigger] self.tile_map@.contains_key(p) implies self.tile_map@[p].tile_def_key@
                    == m0[p].tile_def_key@ by {
                    let j = choose|j: int| 0 <= j < es0.len() && #[trigger] es0[j].0 == p;
                }
            }
            assert forall|p: Pos| #[trigger] self.tile_map@.contains_key(p) implies !self.tile_map@[p].dirty by {
                let j = choose|j: int| 0 <= j < es0.len() && #[trigger] es0[j].0 == p;
            }
        }
        out
    }
}

impl Default for LevelEdit {
    fn default() -> (res: Self)
        ensures
            res.tile_map@ == Map::<Pos, TileEdit>::empty(),
    {
        LevelEdit { tile_map: PosMap::new() }
    }
}

impl Level {
    /// The level that the editor's work describes: the same key at each position, in the
    /// same order. The bounds are left at the origin.
    pub fn from_edit(item: LevelEdit) -> (res: Level)
        ensures
            res.pos == (Pos { x: 0, y: 0 }),
            res.dimens == (Pos { x: 0, y: 0 }),
            res.keys() == item.keys(),
            res.placements() == item.tile_map.entry_seq().map_values(
                |e: (Pos, TileEdit)| (e.0, e.1.tile_def_key@),
            ),
    {
        item.to_level()
    }
}

impl LevelEdit {
    /// The level that the editor's work describes, leaving the work as it is: the same key
    /// at each position, in the same order. The bounds are left at the origin.
    pub fn to_level(&self) -> (res: Level)
        ensures
            res.pos == (Pos { x: 0, y: 0 }),
            res.dimens == (Pos { x: 0, y: 0 }),
            res.keys() == self.keys(),
            res.placements() == self.tile_map.entry_seq().map_values(
                |e: (Pos, TileEdit)| (e.0, e.1.tile_def_key@),
            ),
    {
        let mut map: PosMap<String> = PosMap::new();
        let n = self.tile_map.len();
        let ghost src = self.tile_map.entry_seq();
        let mut i: usize = 0;
        while i < n
            invariant
                n == src.len(),
                src == self.tile_map.entry_seq(),
                forall|a: int, b: int|
                    0 <= a < b < src.len() ==> #[trigger] src[a].0 != #[trigger] src[b].0,
                forall|a: int|
                    0 <= a < src.len() ==> self.tile_map@.contains_key(#[trigger] src[a].0)
                        && self.tile_map@[src[a].0] == src[a].1,
                forall|p: Pos|
                    #[trigger] self.tile_map@.contains_key(p) ==> exists|a: int|
                        0 <= a < src.len() && #[trigger] src[a].0 == p,
                i <= n,
                map.entry_seq() == src.take(i as int).map_values(
                    |e: (Pos, TileEdit)| (e.0, e.1.tile_def_key),
                ),
                forall|p: Pos|
                    #[trigger] map@.contains_key(p) <==> exists|a: int|
                        0 <= a < i && #[trigger] src[a].0 == p,
                forall|a: int|
                    0 <= a < i ==> map@.contains_key(#[trigger] src[a].0) && map@[src[a].0]
                        == src[a].1.tile_def_key,
            decreases n - i,
        {
            let entry = self.tile_map.entry(i);
            let key = entry.1.tile_def_key.clone();
            proof {
                if map@.contains_key(entry.0) {
                    let a = choose|a: int| 0 <= a < i && #[trigger] src[a].0 == entry.0;
                    assert(src[i as int].0 == entry.0);
                }
            }
            map.insert(entry.0, key);
            proof {
                assert(src.take(i + 1).map_values(|e: (Pos, TileEdit)| (e.0, e.1.tile_def_key))
                    =~= src.take(i as int).map_values(
                    |e: (Pos, TileEdit)| (e.0, e.1.tile_def_key),
                ).push((entry.0, key)));
                assert forall|p: Pos| #[trigger] map@.contains_key(p) <==> exists|a: int|
                    0 <= a < i + 1 && #[trigger] src[a].0 == p by {
                    if p == entry.0 {
                        assert(src[i as int].0 == p);
                    }
                }
            }
            i = i + 1;
        }
        proof {
            assert(src.take(n as int) =~= src);
            assert(map@.map_values(|k: String| k@) =~= self.tile_map@.map_values(
                |t: TileEdit| t.tile_def_key@,
            )) by {
                assert forall|p: Pos| #[trigger] map@.contains_key(p) implies self.tile_map@.contains_key(p)
                    && map@[p]@ == self.tile_map@[p].tile_def_key@ by {
                    let a = choose|a: int| 0 <= a < n && #[trigger] src[a].0 == p;
                }
                assert forall|p: Pos| #[trigger] self.tile_map@.contains_key(p) implies map@.contains_key(p) by {
                    let a = choose|a: int| 0 <= a < src.len() && #[trigger] src[a].0 == p;
                }
            }
            assert(map.entry_seq().map_values(|e: (Pos, String)| (e.0, e.1@)) =~= src.map_values(
                |e: (Pos, TileEdit)| (e.0, e.1.tile_def_key@),
            ));
        }
        Level { pos: Pos::new(0, 0), dimens: Pos::new(0, 0), tile_defs: map }
    }
}

impl From<LevelEdit> for Level {
    /// The same as `Level::from_edit`.
    fn from(item: LevelEdit) -> (res: Level)
        ensures
            res.pos == (Pos { x: 0, y: 0 }),
            res.dimens == (Pos { x: 0, y: 0 }),
            res.keys() == item.keys(),
            res.placements() == item.tile_map.entry_seq().map_values(
                |e: (Pos, TileEdit)| (e.0, e.1.tile_def_key@),
            ),
    {
        Level::from_edit(item)
    }
}

impl vstd::std_specs::convert::FromSpecImpl<LevelEdit> for Level {
    /// The conversion is not stated as a spec function; `Level::from_edit` states it.
    open spec fn obeys_from_spec() -> bool {
        false
    }

    open spec fn from_spec(v: LevelEdit) -> Level {
        vstd::pervasive::arbitrary()
    }
}

impl From<Level> for LevelEdit {
    /// The same as `LevelEdit::from_level`.
    fn from(level: Level) -> (res: LevelEdit)
        ensures
            res.keys() == level.keys(),
            res.tile_map.entry_seq().map_values(|e: (Pos, TileEdit)| (e.0, e.1.tile_def_key@))
                == level.placements(),
            forall|p: Pos| #[trigger] res.tile_map@.contains_key(p) ==> res.tile_map@[p].dirty,
    {
        LevelEdit::from_level(level)
    }
}

impl vstd::std_specs::convert::FromSpecImpl<Level> for LevelEdit {
    /// The conversion is not stated as a spec function; `LevelEdit::from_level` states it.
    open spec fn obeys_from_spec() -> bool {
        false
    }

    open spec fn from_spec(v: Level) -> LevelEdit {
        vstd::pervasive::arbitrary()
    }
}

/// A tile in the editor: its definition key, and whether it still has to be redrawn.
pub struct TileEdit {
    pub tile_def_key: String,
    pub dirty: bool,
}

impl TileEdit {
    /// A new tile is dirty: it has not been drawn yet.
    pub fn new(tile_def_key: String) -> (res: Self)
        ensures
            res.tile_def_key == tile_def_key,
            res.dirty,
    {
        TileEdit { tile_def_key, dirty: true }
    }
}

/// What the editor works on: the level, the brush and the selection.
pub struct EditorData {
    pub level: LevelEdit,
    pub brush: Brush,
    pub selector: Selector,
}

impl Default for EditorData {
    fn default() -> (res: Self)
        ensures
            res.level.tile_map@ == Map::<Pos, TileEdit>::empty(),
            res.brush.tile_def_key@ == "Block1"@,
            res.selector.start == (Pos { x: 0, y: 0 }),
            res.selector.end == (Pos { x: 0, y: 0 }),
    {
        EditorData { level: LevelEdit::default(), brush: Brush::default(), selector: Selector::default() }
    }
}

/// The tile that the editor paints with.
pub struct Brush {
    pub tile_def_key: String,
    pub tile_def: TileDefinition,
}

impl Default for Brush {
    fn default() -> (res: Self)
        ensures
            res.tile_def_key@ == "Block1"@,
            res.tile_def == (TileDefinition {
                dimens: Pos { x: 1, y: 1 },
                unique: false,
                mandatory: false,
                collision: None,
                asset: Some(AssetType::Still(SpriteType::Blocks, 0)),
                archetype: Archetype::Block,
            }),
    {
        Brush {
            tile_def_key: "Block1".to_owned(),
            tile_def: TileDefinition {
                dimens: Pos::new(1, 1),
                unique: false,
                mandatory: false,
                collision: None,
                asset: Some(AssetType::Still(SpriteType::Blocks, 0)),
                archetype: Archetype::Block,
            },
        }
    }
}

/// The selection after stepping forward through a palette of `n` keys: the empty brush
/// comes before the first key and after the last.
pub open spec fn next_selection(sel: Option<int>, n: int) -> Option<int> {
    match sel {
        None => if n > 0 {
            Some(0)
        } else {
            None
        },
        Some(i) => if i + 1 < n {
            Some(i + 1)
        } else {
            None
        },
    }
}

/// The selection after stepping back through a palette of `n` keys.
pub open spec fn previous_selection(sel: Option<int>, n: int) -> Option<int> {
    match sel {
        None => if n > 0 {
            Some(n - 1)
        } else {
            None
        },
        Some(i) => if i > 0 {
            Some(i - 1)
        } else {
            None
        },
    }
}

/// The tile definition keys that the brush can hold, in order, and the one it holds. A
/// brush that holds none erases.
pub struct Palette {
    keys: Vec<String>,
    selected: Option<usize>,
}

impl Palette {
    /// The keys, in order.
    pub closed spec fn spec_keys(&self) -> Seq<Seq<char>> {
        self.keys@.map_values(|k: String| k@)
    }

    /// The index of the held key, if any.
    pub closed spec fn spec_selected(&self) -> Option<int> {
        match self.selected {
            Some(i) => Some(i as int),
            None => None,
        }
    }

    #[verifier::type_invariant]
    spec fn inv(&self) -> bool {
        self.selected matches Some(i) ==> i < self.keys@.len()
    }

    /// The held key, as text, if any.
    pub open spec fn spec_key(&self) -> Option<Seq<char>> {
        match self.spec_selected() {
            Some(i) => Some(self.spec_keys()[i]),
            None => None,
        }
    }

    /// A palette of the given keys that holds none of them yet.
    pub fn new(keys: Vec<String>) -> (res: Self)
        ensures
            res.spec_keys() == keys@.map_values(|k: String| k@),
            res.spec_selected() == None::<int>,
    {
        Palette { keys, selected: None }
    }

    /// The held key, if any.
    pub fn selected_key(&self) -> (res: Option<String>)
        ensures
            match res {
                Some(k) => self.spec_key() == Some(k@),
                None => self.spec_key() == None::<Seq<char>>,
            },
    {
        proof {
            use_type_invariant(self);
        }
        match self.selected {
            Some(i) => Some(self.keys[i].clone()),
            None => None,
        }
    }

    /// Holds the next key, or none after the last one, and returns the held key.
    pub fn select_next(&mut self) -> (res: Option<String>)
        ensures
            final(self).spec_keys() == old(self).spec_keys(),
            final(self).spec_selected() == next_selection(
                old(self).spec_selected(),
                old(self).spec_keys().len() as int,
            ),
            match res {
                Some(k) => final(self).spec_key() == Some(k@),
                None => final(self).spec_key() == None::<Seq<char>>,
            },
    {
        proof {
            use_type_invariant(&*self);
        }
        let n = self.keys.len();
        let next = match self.selected {
            None => if n > 0 {
                Some(0)
            } else {
                None
            },
            Some(i) => if i + 1 < n {
                Some(i + 1)
            } else {
                None
            },
        };
        self.selected = next;
        self.selected_key()
    }

    /// Holds the previous key, or none before the first one, and returns the held key.
    pub fn select_previous(&mut self) -> (res: Option<String>)
        ensures
            final(self).spec_keys() == old(self).spec_keys(),
            final(self).spec_selected() == previous_selection(
                old(self).spec_selected(),
                old(self).spec_keys().len() as int,
            ),
            match res {
                Some(k) => final(self).spec_key() == Some(k@),
                None => final(self).spec_key() == None::<Seq<char>>,
            },
    {
        proof {
            use_type_invariant(&*self);
        }
        let n = self.keys.len();
        let previous = match self.selected {
            None => if n > 0 {
                Some(n - 1)
            } else {
                None
            },
            Some(i) => if i > 0 {
                Some(i - 1)
            } else {
                None
            },
        };
        self.selected = previous;
        self.selected_key()
    }
}

/// Stepping back through the palette undoes a step forward, and a step forward undoes a
/// step back, from any selection of the palette.
pub proof fn law_palette_steps_undo(sel: Option<int>, n: int)
    requires
        sel matches Some(i) ==> 0 <= i < n,
    ensures
        previous_selection(next_selection(sel, n), n) == sel,
        next_selection(previous_selection(sel, n), n) == sel,
{
}

/// The selection: a rectangle between two corners, both inclusive.
pub struct Selector {
    pub start: Pos,
    /// Always the current location of the cursor.
    pub end: Pos,
}

impl Default for Selector {
    fn default() -> (res: Self)
        ensures
            res.start == (Pos { x: 0, y: 0 }),
            res.end == (Pos { x: 0, y: 0 }),
    {
        Selector { start: Pos::new(0, 0), end: Pos::new(0, 0) }
    }
}

pub open spec fn spec_min(a: int, b: int) -> int {
    if a <= b {
        a
    } else {
        b
    }
}

pub open spec fn spec_abs(a: int) -> int {
    if a >= 0 {
        a
    } else {
        -a
    }
}

impl Selector {
    /// The width and height of the selection fit in an `i32`.
    pub open spec fn fits(&self) -> bool {
        spec_abs(self.start.x - self.end.x) + 1 <= i32::MAX && spec_abs(self.start.y - self.end.y)
            + 1 <= i32::MAX
    }

    /// The bottom-left corner of the selection.
    pub fn lower_bounds(&self) -> (res: Pos)
        ensures
            res.x == spec_min(self.start.x as int, self.end.x as int),
            res.y == spec_min(self.start.y as int, self.end.y as int),
    {
        Pos::new(
            if self.start.x <= self.end.x {
                self.start.x
            } else {
                self.end.x
            },
            if self.start.y <= self.end.y {
                self.start.y
            } else {
                self.end.y
            },
        )
    }

    /// Whether the width and height of the selection fit in an `i32`, as `dimens` needs.
    pub fn dimens_fit(&self) -> (res: bool)
        ensures
            res == self.fits(),
    {
        let w: i64 = self.start.x as i64 - self.end.x as i64;
        let h: i64 = self.start.y as i64 - self.end.y as i64;
        let aw: i64 = if w >= 0 {
            w
        } else {
            -w
        };
        let ah: i64 = if h >= 0 {
            h
        } else {
            -h
        };
        aw + 1 <= 2147483647i64 && ah + 1 <= 2147483647i64
    }

    /// The width and height of the selection; a single cell is 1 by 1.
    pub fn dimens(&self) -> (res: Pos)
        requires
            self.fits(),
        ensures
            res.x == spec_abs(self.start.x - self.end.x) + 1,
            res.y == spec_abs(self.start.y - self.end.y) + 1,
    {
        let w = if self.start.x >= self.end.x {
            self.start.x - self.end.x
        } else {
            self.end.x - self.start.x
        };
        let h = if self.start.y >= self.end.y {
            self.start.y - self.end.y
        } else {
            self.end.y - self.start.y
        };
        Pos::new(w + 1, h + 1)
    }
}

/// The selection runs from its lower bounds over its dimensions to the larger of its two
/// corners, whichever corner is the start.
pub proof fn law_selection_spans_corners(start: Pos, end: Pos)
    ensures
        spec_min(start.x as int, end.x as int) + spec_abs(start.x - end.x) + 1 - 1 == if start.x
            >= end.x {
            start.x as int
        } else {
            end.x as int
        },
        spec_min(start.y as int, end.y as int) + spec_abs(start.y - end.y) + 1 - 1 == if start.y
            >= end.y {
            start.y as int
        } else {
            end.y as int
        },
        spec_min(start.x as int, end.x as int) == spec_min(end.x as int, start.x as int),
        spec_abs(start.x - end.x) == spec_abs(end.x - start.x),
        spec_min(start.y as int, end.y as int) == spec_min(end.y as int, start.y as int),
        spec_abs(start.y - end.y) == spec_abs(end.y - start.y),
{
}

} // verus!
