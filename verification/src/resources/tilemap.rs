use crate::components::movement::Pos;
use crate::levels::tile_definition::{spec_definition, Level, TileDefinition, TileDefinitions};
use crate::pos_map::PosMap;
use vstd::prelude::*;

verus! {

/// The tiles of a running level, by position, together with their definitions.
pub struct TileMap {
    pub pos: Pos,
    pub dimens: Pos,
    pub tiles: PosMap<Tile>,
    pub tile_defs: TileDefinitions,
}

pub enum Tile {
    /// A dummy tile, points towards its anchor point, where the real tile is stored.
    /// Dummy tiles are used when a tile is bigger than 1 by 1. The bottom-left position within
    /// the tile holds the tile itself; all other positions hold a dummy that points towards
    /// that bottom-left position.
    Dummy(Pos),
    /// A tile. Contains a tile definition key.
    Key(String),
}

/// What a cell of the map holds.
pub enum Cell {
    Dummy(Pos),
    Key(Seq<char>),
}

pub open spec fn cell_of(t: Tile) -> Cell {
    match t {
        Tile::Dummy(p) => Cell::Dummy(p),
        Tile::Key(k) => Cell::Key(k@),
    }
}

/// Whether `q` lies in the rectangle from `(lo_x, lo_y)` (inclusive) to `(hi_x, hi_y)`
/// (exclusive).
pub open spec fn in_rect(q: Pos, lo_x: int, lo_y: int, hi_x: int, hi_y: int) -> bool {
    lo_x <= q.x < hi_x && lo_y <= q.y < hi_y
}

/// Whether `q` is covered by a tile anchored at `anchor` with the given width and height.
pub open spec fn in_footprint(q: Pos, anchor: Pos, dimens: Pos) -> bool {
    anchor.x <= q.x < anchor.x + dimens.x && anchor.y <= q.y < anchor.y + dimens.y
}

/// What a tile anchored at `anchor` puts at `q`: its key at the anchor, a dummy elsewhere.
pub open spec fn footprint_cell(q: Pos, anchor: Pos, key: Seq<char>) -> Cell {
    if q == anchor {
        Cell::Key(key)
    } else {
        Cell::Dummy(anchor)
    }
}

/// The cells after painting a tile anchored at `anchor` over a rectangle.
pub open spec fn paint(
    cells: Map<Pos, Cell>,
    anchor: Pos,
    key: Seq<char>,
    lo_x: int,
    lo_y: int,
    hi_x: int,
    hi_y: int,
) -> Map<Pos, Cell> {
    Map::new(
        |q: Pos| cells.contains_key(q) || in_rect(q, lo_x, lo_y, hi_x, hi_y),
        |q: Pos|
            if in_rect(q, lo_x, lo_y, hi_x, hi_y) {
                footprint_cell(q, anchor, key)
            } else {
                cells[q]
            },
    )
}

/// The cells after placing a tile: its whole footprint, where its width and height are
/// positive, and nothing otherwise.
pub open spec fn place(
    cells: Map<Pos, Cell>,
    anchor: Pos,
    key: Seq<char>,
    dimens: Pos,
) -> Map<Pos, Cell> {
    if dimens.x > 0 && dimens.y > 0 {
        paint(cells, anchor, key, anchor.x as int, anchor.y as int, anchor.x + dimens.x, anchor.y + dimens.y)
    } else {
        cells
    }
}

/// The cells of a map built from the given placements, in order; later tiles overwrite
/// the cells of earlier ones where they overlap.
pub open spec fn build_cells(
    placements: Seq<(Pos, Seq<char>)>,
    defs: Map<Seq<char>, TileDefinition>,
) -> Map<Pos, Cell>
    decreases placements.len(),
{
    if placements.len() == 0 {
        Map::empty()
    } else {
        let last = placements.last();
        place(
            build_cells(placements.drop_last(), defs),
            last.0,
            last.1,
            spec_definition(defs, last.1).dimens,
        )
    }
}

/// The key of the tile that covers `p`: the key stored at `p`, or, for a dummy, the key
/// stored at its anchor. None where nothing is stored, or a dummy's anchor holds no key.
pub open spec fn resolve(cells: Map<Pos, Cell>, p: Pos) -> Option<Seq<char>> {
    if !cells.contains_key(p) {
        None
    } else {
        match cells[p] {
            Cell::Key(k) => Some(k),
            Cell::Dummy(a) => if cells.contains_key(a) {
                match cells[a] {
                    Cell::Key(k) => Some(k),
                    Cell::Dummy(_) => None,
                }
            } else {
                None
            },
        }
    }
}

/// No tile of the level reaches beyond the largest coordinate.
pub open spec fn fits_in_grid(
    placements: Seq<(Pos, Seq<char>)>,
    defs: Map<Seq<char>, TileDefinition>,
) -> bool {
    forall|i: int|
        0 <= i < placements.len() ==> {
            let d = #[trigger] spec_definition(defs, placements[i].1).dimens;
            d.x > 0 && d.y > 0 ==> placements[i].0.x + d.x <= i32::MAX + 1 && placements[i].0.y
                + d.y <= i32::MAX + 1
        }
}

/// Whether every tile of the level, with the size its definition gives it, stays inside
/// the grid of `i32` positions, so that the level can be turned into a `TileMap`.
pub fn level_fits_in_grid(level: &Level, tile_defs: &TileDefinitions) -> (res: bool)
    ensures
        res == fits_in_grid(level.placements(), tile_defs.map@),
{
    let n = level.tile_defs.len();
    let ghost ps = level.placements();
    let mut i: usize = 0;
    while i < n
        invariant
            n == ps.len(),
            ps == level.placements(),
            i <= n,
            forall|j: int|
                0 <= j < i ==> {
                    let d = #[trigger] spec_definition(tile_defs.map@, ps[j].1).dimens;
                    d.x > 0 && d.y > 0 ==> ps[j].0.x + d.x <= i32::MAX + 1 && ps[j].0.y + d.y
                        <= i32::MAX + 1
                },
        decreases n - i,
    {
        let entry = level.tile_defs.entry(i);
        let d = tile_defs.get(entry.1.as_str()).dimens;
        proof {
            assert(ps[i as int] == (entry.0, entry.1@));
        }
        if d.x > 0 && d.y > 0 {
            let over_x = entry.0.x as i64 + d.x as i64 > 2147483648i64;
            let over_y = entry.0.y as i64 + d.y as i64 > 2147483648i64;
            if over_x || over_y {
                proof {
                    assert(spec_definition(tile_defs.map@, ps[i as int].1).dimens == d);
                }
                return false;
            }
        }
        i = i + 1;
    }
    true
}

impl TileMap {
    /// The cells of the map.
    pub closed spec fn cells(&self) -> Map<Pos, Cell> {
        self.tiles@.map_values(|t: Tile| cell_of(t))
    }

    /// The tile definitions the map was built with.
    pub closed spec fn defs(&self) -> Map<Seq<char>, TileDefinition> {
        self.tile_defs.map@
    }

    /// The definition of the tile that covers `p`, as `get_tile` finds it.
    pub open spec fn tile_at(&self, p: Pos) -> Option<TileDefinition> {
        match resolve(self.cells(), p) {
            Some(k) => Some(spec_definition(self.defs(), k)),
            None => None,
        }
    }

    /// Builds the map of a level: each tile is stored at its anchor position, and every
    /// other position that the tile covers holds a dummy pointing to that anchor.
    pub fn new(level: Level, tile_defs: TileDefinitions) -> (res: Self)
        requires
            fits_in_grid(level.placements(), tile_defs.map@),
        ensures
            res.pos == level.pos,
            res.dimens == level.dimens,
            res.defs() == tile_defs.map@,
            res.cells() == build_cells(level.placements(), tile_defs.map@),
    {
        let mut tiles: PosMap<Tile> = PosMap::new();
        let ghost placements = level.placements();
        let ghost defs = tile_defs.map@;
        let n = level.tile_defs.len();
        let mut i: usize = 0;
        proof {
            assert(tiles@.map_values(|t: Tile| cell_of(t)) =~= build_cells(
                placements.take(0),
                defs,
            ));
        }
        while i < n
            invariant
                n == placements.len(),
                placements == level.placements(),
                defs == tile_defs.map@,
                fits_in_grid(placements, defs),
                i <= n,
                tiles@.map_values(|t: Tile| cell_of(t)) == build_cells(placements.take(i as int), defs),
            decreases n - i,
        {
            let entry = level.tile_defs.entry(i);
            let anchor = entry.0;
            let key = &entry.1;
            let dimens = tile_defs.get(key.as_str()).dimens;
            proof {
                assert(placements[i as int] == (anchor, key@));
                assert(spec_definition(defs, placements[i as int].1).dimens == dimens);
                assert(placements.take(i + 1).drop_last() =~= placements.take(i as int));
                assert(placements.take(i + 1).last() == placements[i as int]);
            }
            let ghost before = tiles@.map_values(|t: Tile| cell_of(t));
            if dimens.x > 0 && dimens.y > 0 {
                let mut x: i32 = 0;
                while x < dimens.x
                    invariant
                        0 <= x <= dimens.x,
                        dimens.y > 0,
                        anchor.x + dimens.x <= i32::MAX + 1,
                        anchor.y + dimens.y <= i32::MAX + 1,
                        tiles@.map_values(|t: Tile| cell_of(t)) == paint(
                            before,
                            anchor,
                            key@,
                            anchor.x as int,
                            anchor.y as int,
                            anchor.x + x,
                            anchor.y + dimens.y,
                        ),
                    decreases dimens.x - x,
                {
                    let ghost column_start = tiles@.map_values(|t: Tile| cell_of(t));
                    let mut y: i32 = 0;
                    while y < dimens.y
                        invariant
                            0 <= x < dimens.x,
                            0 <= y <= dimens.y,
                            anchor.x + dimens.x <= i32::MAX + 1,
                            anchor.y + dimens.y <= i32::MAX + 1,
                            tiles@.map_values(|t: Tile| cell_of(t)) == paint(
                                column_start,
                                anchor,
                                key@,
                                anchor.x + x,
                                anchor.y as int,
                                anchor.x + x + 1,
                                anchor.y + y,
                            ),
                        decreases dimens.y - y,
                    {
                        let q = Pos::new(anchor.x + x, anchor.y + y);
                        let tile = if x == 0 && y == 0 {
                            Tile::Key(key.clone())
                        } else {
                            Tile::Dummy(anchor)
                        };
                        let ghost prev = tiles@.map_values(|t: Tile| cell_of(t));
                        let ghost cell = cell_of(tile);
                        assert(cell == footprint_cell(q, anchor, key@));
                        tiles.insert(q, tile);
                        proof {
                            assert(tiles@.map_values(|t: Tile| cell_of(t)) =~= prev.insert(q, cell));
                            assert(prev.insert(q, cell) =~= paint(
                                column_start,
                                anchor,
                                key@,
                                anchor.x + x,
                                anchor.y as int,
                                anchor.x + x + 1,
                                anchor.y + y + 1,
                            ));
                        }
                        y = y + 1;
                    }
                    proof {
                        assert(paint(
                            column_start,
                            anchor,
                            key@,
                            anchor.x + x,
                            anchor.y as int,
                            anchor.x + x + 1,
                            anchor.y + dimens.y,
                        ) =~= paint(
                            before,
                            anchor,
                            key@,
                            anchor.x as int,
                            anchor.y as int,
                            anchor.x + x + 1,
                            anchor.y + dimens.y,
                        ));
                    }
                    x = x + 1;
                }
            }
            i = i + 1;
        }
        proof {
            assert(placements.take(n as int) =~= placements);
        }
        TileMap { pos: level.pos, dimens: level.dimens, tiles, tile_defs }
    }

    /// The definition of the tile that covers `pos`, if any: the tile stored there, or the
    /// tile that a dummy stored there points to.
    pub fn get_tile(&self, pos: &Pos) -> (res: Option<TileDefinition>)
        ensures
            res == self.tile_at(*pos),
    {
        match self.tiles.get(pos) {
            None => None,
            Some(Tile::Key(key)) => Some(self.tile_defs.get(key.as_str())),
            Some(Tile::Dummy(anchor)) => match self.tiles.get(anchor) {
                Some(Tile::Key(key)) => Some(self.tile_defs.get(key.as_str())),
                _ => None,
            },
        }
    }

    /// Removes whatever is stored at `pos`.
    pub fn remove_tile(&mut self, pos: &Pos)
        ensures
            final(self).pos == old(self).pos,
            final(self).dimens == old(self).dimens,
            final(self).defs() == old(self).defs(),
            final(self).cells() == old(self).cells().remove(*pos),
    {
        self.tiles.remove(pos);
        proof {
            assert(self.cells() =~= old(self).cells().remove(*pos));
        }
    }
}

/// No two placed tiles cover the same position.
pub open spec fn footprints_disjoint(
    placements: Seq<(Pos, Seq<char>)>,
    defs: Map<Seq<char>, TileDefinition>,
) -> bool {
    forall|i: int, j: int, q: Pos|
        0 <= i < placements.len() && 0 <= j < placements.len() && i != j ==> !(#[trigger] in_footprint(
            q,
            placements[i].0,
            spec_definition(defs, placements[i].1).dimens,
        ) && #[trigger] in_footprint(q, placements[j].0, spec_definition(defs, placements[j].1).dimens))
}

proof fn lemma_build_cell(
    placements: Seq<(Pos, Seq<char>)>,
    defs: Map<Seq<char>, TileDefinition>,
    i: int,
    q: Pos,
)
    requires
        footprints_disjoint(placements, defs),
        0 <= i < placements.len(),
        in_footprint(q, placements[i].0, spec_definition(defs, placements[i].1).dimens),
    ensures
        build_cells(placements, defs).contains_key(q),
        build_cells(placements, defs)[q] == footprint_cell(q, placements[i].0, placements[i].1),
    decreases placements.len(),
{
    let n = placements.len() as int;
    let prefix = placements.drop_last();
    if i < n - 1 {
        assert forall|a: int, b: int, r: Pos|
            0 <= a < prefix.len() && 0 <= b < prefix.len() && a != b implies !(#[trigger] in_footprint(
            r,
            prefix[a].0,
            spec_definition(defs, prefix[a].1).dimens,
        ) && #[trigger] in_footprint(r, prefix[b].0, spec_definition(defs, prefix[b].1).dimens)) by {
            assert(prefix[a] == placements[a]);
            assert(prefix[b] == placements[b]);
        }
        assert(prefix[i] == placements[i]);
        lemma_build_cell(prefix, defs, i, q);
        let last = placements.last();
        assert(last == placements[n - 1]);
        assert(!in_footprint(q, last.0, spec_definition(defs, last.1).dimens));
    }
}

proof fn lemma_build_outside(
    placements: Seq<(Pos, Seq<char>)>,
    defs: Map<Seq<char>, TileDefinition>,
    q: Pos,
)
    requires
        forall|i: int|
            0 <= i < placements.len() ==> !in_footprint(
                q,
                placements[i].0,
                #[trigger] spec_definition(defs, placements[i].1).dimens,
            ),
    ensures
        !build_cells(placements, defs).contains_key(q),
    decreases placements.len(),
{
    if placements.len() > 0 {
        let prefix = placements.drop_last();
        assert forall|i: int| 0 <= i < prefix.len() implies !in_footprint(
            q,
            prefix[i].0,
            #[trigger] spec_definition(defs, prefix[i].1).dimens,
        ) by {
            assert(prefix[i] == placements[i]);
        }
        lemma_build_outside(prefix, defs, q);
        assert(placements.last() == placements[placements.len() - 1]);
    }
}

/// Every position covered by a tile of a level whose tiles do not overlap finds that tile:
/// the anchor holds the tile's key, and the dummies around it point back to the anchor.
pub proof fn law_covered_cells_find_their_tile(
    placements: Seq<(Pos, Seq<char>)>,
    defs: Map<Seq<char>, TileDefinition>,
    i: int,
    q: Pos,
)
    requires
        footprints_disjoint(placements, defs),
        0 <= i < placements.len(),
        in_footprint(q, placements[i].0, spec_definition(defs, placements[i].1).dimens),
    ensures
        resolve(build_cells(placements, defs), q) == Some(placements[i].1),
{
    let anchor = placements[i].0;
    lemma_build_cell(placements, defs, i, q);
    lemma_build_cell(placements, defs, i, anchor);
}

/// A position that no tile of the level covers holds nothing.
pub proof fn law_uncovered_cells_are_empty(
    placements: Seq<(Pos, Seq<char>)>,
    defs: Map<Seq<char>, TileDefinition>,
    q: Pos,
)
    requires
        forall|i: int|
            0 <= i < placements.len() ==> !in_footprint(
                q,
                placements[i].0,
                #[trigger] spec_definition(defs, placements[i].1).dimens,
            ),
    ensures
        resolve(build_cells(placements, defs), q) == None::<Seq<char>>,
{
    lemma_build_outside(placements, defs, q);
}

/// After removing what is stored at a position, nothing is found there any more.
pub proof fn law_removed_position_is_empty(cells: Map<Pos, Cell>, p: Pos)
    ensures
        resolve(cells.remove(p), p) == None::<Seq<char>>,
{
}

} // verus!
