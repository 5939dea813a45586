use crate::components::movement::Pos;
use crate::components::objects::Tool;
use crate::levels::tile_definition::{
    spec_definition, Archetype, Level, TileDefinition, TileDefinitions,
};
use crate::resources::assets::AssetType;
use crate::resources::win::WinCondition;
use vstd::prelude::*;

verus! {

/// What a tile of a level brings into play besides its block.
#[derive(Debug, Clone, Copy, PartialEq, Eq, Structural)]
pub enum Spawn {
    /// The player starts here.
    Player,
    /// A key to collect.
    Key,
    /// A tool lying here, shown by a still sprite.
    Tool(Tool),
    /// A tool whose definition has no still sprite: nothing can show it, so the tile is left out.
    UnshownTool,
    /// The exit door.
    Door,
    /// Nothing beyond the block itself.
    Plain,
}

/// What a tile with the given definition spawns, by its archetype.
pub open spec fn spec_spawn(def: TileDefinition) -> Spawn {
    match def.archetype {
        Archetype::Player => Spawn::Player,
        Archetype::Key => Spawn::Key,
        Archetype::Tool(tool_type) => match def.asset {
            Some(AssetType::Still(sprite, sprite_nr)) => Spawn::Tool(
                Tool { tool_type, sprite, sprite_nr },
            ),
            _ => Spawn::UnshownTool,
        },
        Archetype::Door => Spawn::Door,
        _ => Spawn::Plain,
    }
}

/// What a tile with the given definition spawns when the level is loaded.
pub fn spawn_for(def: &TileDefinition) -> (res: Spawn)
    ensures
        res == spec_spawn(*def),
{
    match def.archetype {
        Archetype::Player => Spawn::Player,
        Archetype::Key => Spawn::Key,
        Archetype::Tool(tool_type) => match def.asset {
            Some(AssetType::Still(sprite, sprite_nr)) => Spawn::Tool(
                Tool::new(tool_type, sprite, sprite_nr),
            ),
            _ => Spawn::UnshownTool,
        },
        Archetype::Door => Spawn::Door,
        _ => Spawn::Plain,
    }
}

/// The positions of a level's keys, in the order of its placements.
pub open spec fn key_positions(
    placements: Seq<(Pos, Seq<char>)>,
    defs: Map<Seq<char>, TileDefinition>,
) -> Seq<Pos>
    decreases placements.len(),
{
    if placements.len() == 0 {
        Seq::empty()
    } else {
        let rest = key_positions(placements.drop_last(), defs);
        let last = placements.last();
        if spec_definition(defs, last.1).archetype == Archetype::Key {
            rest.push(last.0)
        } else {
            rest
        }
    }
}

proof fn lemma_key_positions_come_from_placements(
    placements: Seq<(Pos, Seq<char>)>,
    defs: Map<Seq<char>, TileDefinition>,
    q: Pos,
)
    requires
        key_positions(placements, defs).contains(q),
    ensures
        exists|j: int| 0 <= j < placements.len() && #[trigger] placements[j].0 == q,
    decreases placements.len(),
{
    let rest = key_positions(placements.drop_last(), defs);
    let n = placements.len() - 1;
    if rest.contains(q) {
        lemma_key_positions_come_from_placements(placements.drop_last(), defs, q);
        let j = choose|j: int| 0 <= j < n && #[trigger] placements.drop_last()[j].0 == q;
        assert(placements[j].0 == q);
    } else {
        assert(placements[n].0 == q);
    }
}

/// The keys that must be collected to win the level: each tile whose definition is a key,
/// in the level's order.
pub fn win_condition_for(level: &Level, tile_defs: &TileDefinitions) -> (res: WinCondition)
    ensures
        res.key_order() == key_positions(level.placements(), tile_defs.map@),
        res.pending() == key_positions(level.placements(), tile_defs.map@).to_set(),
        forall|p: Pos|
            #[trigger] res.pending().contains(p) <==> exists|i: int|
                0 <= i < level.placements().len() && level.placements()[i].0 == p
                    && #[trigger] spec_definition(tile_defs.map@, level.placements()[i].1).archetype
                    == Archetype::Key,
{
    let mut win = WinCondition::default();
    let n = level.tile_defs.len();
    let ghost ps = level.placements();
    let ghost defs = tile_defs.map@;
    let mut i: usize = 0;
    while i < n
        invariant
            n == ps.len(),
            ps == level.placements(),
            defs == tile_defs.map@,
            forall|a: int, b: int| 0 <= a < b < ps.len() ==> #[trigger] ps[a].0 != #[trigger] ps[b].0,
            i <= n,
            win.key_order() == key_positions(ps.take(i as int), defs),
            win.key_order().to_set() == win.pending(),
        decreases n - i,
    {
        let entry = level.tile_defs.entry(i);
        let def = tile_defs.get(entry.1.as_str());
        proof {
            assert(ps.take(i + 1).drop_last() =~= ps.take(i as int));
            assert(ps.take(i + 1).last() == ps[i as int]);
            assert(ps[i as int] == (entry.0, entry.1@));
        }
        match def.archetype {
            Archetype::Key => {
                let ghost old_order = win.key_order();
                let ghost old_pending = win.pending();
                proof {
                    if win.pending().contains(entry.0) {
                        assert(win.key_order().contains(entry.0));
                        lemma_key_positions_come_from_placements(ps.take(i as int), defs, entry.0);
                        let j = choose|j: int| 0 <= j < i && #[trigger] ps.take(i as int)[j].0 == entry.0;
                        assert(ps[j].0 == ps[i as int].0);
                    }
                }
                win.add_key(&entry.0);
                proof {
                    let o = win.key_order();
                    assert(o == old_order.push(entry.0));
                    assert forall|q: Pos| o.to_set().contains(q) <==> win.pending().contains(q) by {
                        if o.to_set().contains(q) {
                            let k = choose|k: int| 0 <= k < o.len() && o[k] == q;
                            if k < old_order.len() {
                                assert(old_order[k] == q);
                                assert(old_order.to_set().contains(q));
                            }
                        }
                        if win.pending().contains(q) && q != entry.0 {
                            assert(old_pending.contains(q));
                            assert(old_order.to_set().contains(q));
                            let k = choose|k: int| 0 <= k < old_order.len() && old_order[k] == q;
                            assert(o[k] == q);
                        }
                        if q == entry.0 {
                            assert(o[o.len() - 1] == q);
                        }
                    }
                    assert(win.key_order().to_set() =~= win.pending());
                }
            },
            _ => {},
        }
        i = i + 1;
    }
    proof {
        assert(ps.take(n as int) =~= ps);
        assert forall|p: Pos| #[trigger] win.pending().contains(p) <==> exists|i: int|
            0 <= i < ps.len() && ps[i].0 == p && #[trigger] spec_definition(defs, ps[i].1).archetype
                == Archetype::Key by {
            law_keys_are_the_key_tiles(ps, defs, p);
        }
    }
    win
}

/// The place of the key display with the given index beside the door: four to a row, as
/// the column and the row.
pub fn key_display_slot(index: usize) -> (res: (usize, usize))
    ensures
        res == (index % 4, index / 4),
{
    (index % 4, index / 4)
}

/// The keys to collect are exactly the tiles of the level whose definition is a key: a
/// position is among them if and only if a tile placed there is a key. A door, a tool or
/// any other tile is never a key to collect, and no key tile is left out.
pub proof fn law_keys_are_the_key_tiles(
    placements: Seq<(Pos, Seq<char>)>,
    defs: Map<Seq<char>, TileDefinition>,
    p: Pos,
)
    ensures
        key_positions(placements, defs).contains(p) <==> exists|i: int|
            0 <= i < placements.len() && placements[i].0 == p && #[trigger] spec_definition(
                defs,
                placements[i].1,
            ).archetype == Archetype::Key,
    decreases placements.len(),
{
    if placements.len() > 0 {
        let rest = placements.drop_last();
        let n = placements.len() - 1;
        law_keys_are_the_key_tiles(rest, defs, p);
        if key_positions(placements, defs).contains(p) {
            if key_positions(rest, defs).contains(p) {
                let i = choose|i: int|
                    0 <= i < rest.len() && rest[i].0 == p && #[trigger] spec_definition(
                        defs,
                        rest[i].1,
                    ).archetype == Archetype::Key;
                assert(placements[i] == rest[i]);
            } else {
                let k = choose|k: int| 0 <= k < key_positions(placements, defs).len() && key_positions(placements, defs)[k] == p;
                assert(placements[n] == placements.last());
                assert(spec_definition(defs, placements[n].1).archetype == Archetype::Key);
            }
        }
        if exists|i: int|
            0 <= i < placements.len() && placements[i].0 == p && #[trigger] spec_definition(
                defs,
                placements[i].1,
            ).archetype == Archetype::Key {
            let i = choose|i: int|
                0 <= i < placements.len() && placements[i].0 == p && #[trigger] spec_definition(
                    defs,
                    placements[i].1,
                ).archetype == Archetype::Key;
            if i < n {
                assert(rest[i] == placements[i]);
                let k = choose|k: int| 0 <= k < key_positions(rest, defs).len() && key_positions(rest, defs)[k] == p;
                assert(key_positions(placements, defs)[k] == p);
            } else {
                assert(placements.last() == placements[i]);
                assert(key_positions(placements, defs).last() == p);
            }
        }
    }
}

} // verus!
