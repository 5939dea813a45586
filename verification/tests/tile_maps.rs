use dwarf_seeks_fortune::components::movement::Pos;
use dwarf_seeks_fortune::components::objects::Tool;
use dwarf_seeks_fortune::levels::load::{key_display_slot, spawn_for, win_condition_for, Spawn};
use dwarf_seeks_fortune::levels::map::{EntityType, LevelMap, TileType};
use dwarf_seeks_fortune::levels::tile_definition::{
    Archetype, CollisionDefinition, Level, TileDefinition, TileDefinitions, ToolType,
};
use dwarf_seeks_fortune::pos_map::PosMap;
use dwarf_seeks_fortune::resources::assets::{get_asset_dimensions, AnimType, AssetType, SpriteType};
use dwarf_seeks_fortune::resources::tilemap::{level_fits_in_grid, TileMap};

fn def(w: i32, h: i32, archetype: Archetype) -> TileDefinition {
    TileDefinition {
        dimens: Pos::new(w, h),
        unique: false,
        mandatory: false,
        collision: Some(CollisionDefinition {
            collides_top: true,
            collides_side: true,
            collides_bottom: true,
        }),
        asset: Some(AssetType::Still(SpriteType::Blocks, 0)),
        archetype,
    }
}

fn defs() -> TileDefinitions {
    let mut d = TileDefinitions::new();
    d.insert(String::from("Block"), def(1, 1, Archetype::Block));
    d.insert(String::from("Big"), def(2, 2, Archetype::MobSpawner));
    d
}

#[test]
fn pos_map_keeps_insertion_order_and_replaces() {
    let mut m: PosMap<u32> = PosMap::new();
    m.insert(Pos::new(1, 1), 10);
    m.insert(Pos::new(0, 0), 20);
    m.insert(Pos::new(1, 1), 30);
    assert_eq!(m.len(), 2);
    assert_eq!(m.entry(0), &(Pos::new(1, 1), 30));
    assert_eq!(m.entry(1), &(Pos::new(0, 0), 20));
    assert_eq!(m.get(&Pos::new(0, 0)), Some(&20));
    m.remove(&Pos::new(1, 1));
    assert!(!m.contains_key(&Pos::new(1, 1)));
    assert_eq!(m.len(), 1);
    m.remove(&Pos::new(5, 5));
    assert_eq!(m.len(), 1);
}

#[test]
fn unknown_keys_give_the_fallback_definition() {
    let d = defs();
    assert_eq!(d.get("Block"), def(1, 1, Archetype::Block));
    let fallback = d.get("NoSuchTile");
    assert_eq!(fallback, TileDefinition::fallback());
    assert_eq!(fallback.dimens, Pos::new(1, 1));
    assert_eq!(fallback.archetype, Archetype::NotFound);
    assert_eq!(fallback.asset, Some(AssetType::Still(SpriteType::NotFound, 0)));
    assert!(!fallback.provides_platform());
}

#[test]
fn large_tiles_are_found_from_every_cell_they_cover() {
    let mut level = Level::default();
    level.tile_defs.insert(Pos::new(0, 0), String::from("Big"));
    level.tile_defs.insert(Pos::new(5, 0), String::from("Block"));
    level.pos = Pos::new(-1, -1);
    level.dimens = Pos::new(10, 10);
    let map = TileMap::new(level, defs());
    assert_eq!(map.pos, Pos::new(-1, -1));
    assert_eq!(map.dimens, Pos::new(10, 10));
    for (x, y) in [(0, 0), (1, 0), (0, 1), (1, 1)] {
        assert_eq!(map.get_tile(&Pos::new(x, y)), Some(def(2, 2, Archetype::MobSpawner)));
    }
    assert_eq!(map.get_tile(&Pos::new(5, 0)), Some(def(1, 1, Archetype::Block)));
    assert_eq!(map.get_tile(&Pos::new(2, 0)), None);
    assert_eq!(map.get_tile(&Pos::new(0, 2)), None);
}

#[test]
fn removing_an_anchor_leaves_its_dummies_empty() {
    let mut level = Level::default();
    level.tile_defs.insert(Pos::new(0, 0), String::from("Big"));
    let mut map = TileMap::new(level, defs());
    map.remove_tile(&Pos::new(0, 0));
    assert_eq!(map.get_tile(&Pos::new(0, 0)), None);
    assert_eq!(map.get_tile(&Pos::new(1, 1)), None);
}

#[test]
fn removing_a_cell_empties_it() {
    let mut level = Level::default();
    level.tile_defs.insert(Pos::new(0, 0), String::from("Big"));
    let mut map = TileMap::new(level, defs());
    map.remove_tile(&Pos::new(1, 0));
    assert_eq!(map.get_tile(&Pos::new(1, 0)), None);
    assert_eq!(map.get_tile(&Pos::new(0, 1)), Some(def(2, 2, Archetype::MobSpawner)));
}

#[test]
fn later_tiles_overwrite_earlier_ones() {
    let mut level = Level::default();
    level.tile_defs.insert(Pos::new(0, 0), String::from("Big"));
    level.tile_defs.insert(Pos::new(1, 1), String::from("Block"));
    let map = TileMap::new(level, defs());
    assert_eq!(map.get_tile(&Pos::new(1, 1)), Some(def(1, 1, Archetype::Block)));
    assert_eq!(map.get_tile(&Pos::new(1, 0)), Some(def(2, 2, Archetype::MobSpawner)));
}

#[test]
fn unknown_keys_in_a_level_are_one_by_one_fallback_tiles() {
    let mut level = Level::default();
    level.tile_defs.insert(Pos::new(3, 3), String::from("Mystery"));
    let map = TileMap::new(level, defs());
    assert_eq!(map.get_tile(&Pos::new(3, 3)), Some(TileDefinition::fallback()));
    assert_eq!(map.get_tile(&Pos::new(4, 3)), None);
}

#[test]
fn level_map_puts_tiles_on_its_first_layer() {
    let mut m = LevelMap::default();
    assert_eq!(m.layers.len(), 1);
    let t = TileType {
        dimens: Pos::new(1, 1),
        asset: AssetType::Animated(AnimType::Mob),
        entity_type: EntityType::Ladder,
    };
    m.put_tile(Pos::new(2, 3), t);
    assert_eq!(m.layers[0].tiles.get(&Pos::new(2, 3)), Some(&t));
}

#[test]
fn asset_dimensions() {
    assert_eq!(get_asset_dimensions(&AssetType::Still(SpriteType::Background, 0)), Pos::new(2449, 1632));
    assert_eq!(get_asset_dimensions(&AssetType::Still(SpriteType::Frame, 3)), Pos::new(50, 50));
    assert_eq!(get_asset_dimensions(&AssetType::Still(SpriteType::Blocks, 1)), Pos::new(128, 128));
    assert_eq!(get_asset_dimensions(&AssetType::Animated(AnimType::Mob)), Pos::new(32, 32));
    assert_eq!(get_asset_dimensions(&AssetType::Animated(AnimType::NotFound)), Pos::new(128, 128));
}

#[test]
fn each_archetype_spawns_its_entity() {
    assert_eq!(spawn_for(&def(1, 1, Archetype::Player)), Spawn::Player);
    assert_eq!(spawn_for(&def(1, 1, Archetype::Key)), Spawn::Key);
    assert_eq!(spawn_for(&def(1, 1, Archetype::Door)), Spawn::Door);
    assert_eq!(spawn_for(&def(1, 1, Archetype::Block)), Spawn::Plain);
    assert_eq!(spawn_for(&def(1, 1, Archetype::Ladder)), Spawn::Plain);
    assert_eq!(spawn_for(&TileDefinition::fallback()), Spawn::Plain);
    let drill = ToolType::BreakBlocksBelow(2);
    let mut tool = def(1, 1, Archetype::Tool(drill));
    tool.asset = Some(AssetType::Still(SpriteType::Blocks, 4));
    assert_eq!(spawn_for(&tool), Spawn::Tool(Tool::new(drill, SpriteType::Blocks, 4)));
    tool.asset = Some(AssetType::Animated(AnimType::Mob));
    assert_eq!(spawn_for(&tool), Spawn::UnshownTool);
    tool.asset = None;
    assert_eq!(spawn_for(&tool), Spawn::UnshownTool);
}

#[test]
fn the_keys_of_a_level_must_be_collected() {
    let mut d = defs();
    d.insert(String::from("Key"), def(1, 1, Archetype::Key));
    let mut level = Level::default();
    level.tile_defs.insert(Pos::new(3, 1), String::from("Key"));
    level.tile_defs.insert(Pos::new(0, 0), String::from("Block"));
    level.tile_defs.insert(Pos::new(7, 2), String::from("Key"));
    level.tile_defs.insert(Pos::new(9, 9), String::from("Unknown"));
    let win = win_condition_for(&level, &d);
    assert_eq!(win.len(), 2);
    assert_eq!(win.key(0), Pos::new(3, 1));
    assert_eq!(win.key(1), Pos::new(7, 2));
    assert!(!win.all_collected());
    let empty = win_condition_for(&Level::default(), &d);
    assert!(empty.all_collected());
}

#[test]
fn key_displays_fill_rows_of_four() {
    assert_eq!(key_display_slot(0), (0, 0));
    assert_eq!(key_display_slot(3), (3, 0));
    assert_eq!(key_display_slot(4), (0, 1));
    assert_eq!(key_display_slot(9), (1, 2));
}

#[test]
fn a_level_must_fit_in_the_grid() {
    let d = defs();
    let mut level = Level::default();
    level.tile_defs.insert(Pos::new(i32::MAX - 1, 0), String::from("Big"));
    assert!(level_fits_in_grid(&level, &d));
    level.tile_defs.insert(Pos::new(0, i32::MAX), String::from("Big"));
    assert!(!level_fits_in_grid(&level, &d));
    let mut ok = Level::default();
    ok.tile_defs.insert(Pos::new(i32::MAX, i32::MAX), String::from("Block"));
    assert!(level_fits_in_grid(&ok, &d));
}

#[test]
fn setting_a_value_keeps_the_entry_in_place() {
    let mut m: PosMap<u32> = PosMap::new();
    m.insert(Pos::new(3, 3), 1);
    m.insert(Pos::new(1, 1), 2);
    m.set_value(0, 7);
    assert_eq!(m.entry(0), &(Pos::new(3, 3), 7));
    assert_eq!(m.entry(1), &(Pos::new(1, 1), 2));
    assert_eq!(m.get(&Pos::new(3, 3)), Some(&7));
    assert_eq!(m.len(), 2);
}
