use dwarf_seeks_fortune::components::movement::{Direction1D, Direction2D, Pos, Steering, SteeringMode};
use dwarf_seeks_fortune::components::player::Player;
use dwarf_seeks_fortune::levels::tile_definition::{
    Archetype, CollisionDefinition, Level, TileDefinition, TileDefinitions, ToolType,
};
use dwarf_seeks_fortune::resources::tilemap::TileMap;
use dwarf_seeks_fortune::systems::player_steering::{
    above_air, can_climb_down, can_climb_up, is_against_wall, is_against_wall_left,
    is_against_wall_right, is_grounded, on_solid_ground, steer, steering_fits_frame, ModeStart,
    SteeringFrame,
};
use dwarf_seeks_fortune::components::objects::Tool;
use dwarf_seeks_fortune::resources::assets::SpriteType;
use dwarf_seeks_fortune::systems::tools::{pick_up, tiles_below, tiles_to_side, tool_fits, use_tool};

fn block() -> TileDefinition {
    TileDefinition {
        dimens: Pos::new(1, 1),
        unique: false,
        mandatory: false,
        collision: Some(CollisionDefinition {
            collides_top: true,
            collides_side: true,
            collides_bottom: true,
        }),
        asset: None,
        archetype: Archetype::Block,
    }
}

fn ladder() -> TileDefinition {
    TileDefinition {
        collision: Some(CollisionDefinition {
            collides_top: true,
            collides_side: false,
            collides_bottom: false,
        }),
        archetype: Archetype::Ladder,
        ..block()
    }
}

fn door() -> TileDefinition {
    TileDefinition { collision: None, archetype: Archetype::Door, ..block() }
}

/// Builds a map from rows of text, the last row being y = 0: '#' block, 'H' ladder,
/// 'D' door, anything else empty.
fn map(rows: &[&str]) -> TileMap {
    let mut defs = TileDefinitions::new();
    defs.insert(String::from("block"), block());
    defs.insert(String::from("ladder"), ladder());
    defs.insert(String::from("door"), door());
    let mut level = Level::default();
    let h = rows.len() as i32;
    for (r, row) in rows.iter().enumerate() {
        for (c, ch) in row.chars().enumerate() {
            let key = match ch {
                '#' => "block",
                'H' => "ladder",
                'D' => "door",
                _ => continue,
            };
            level.tile_defs.insert(Pos::new(c as i32, h - 1 - r as i32), String::from(key));
        }
    }
    TileMap::new(level, defs)
}

fn at(x: i32, y: i32) -> Steering {
    Steering::new(Pos::new(x, y), Pos::new(1, 1))
}

#[test]
fn ground_and_solid_ground() {
    let m = map(&["  H ", "# H ", "####"]);
    assert!(is_grounded(&at(0, 1), &m));
    assert!(on_solid_ground(&at(0, 1), &m));
    assert!(!is_grounded(&at(1, 2), &m));
    assert!(above_air(&at(1, 2), &m));
    // Standing on a ladder with more ladder above: ground, but not solid ground.
    assert!(is_grounded(&at(2, 2), &m));
    assert!(!on_solid_ground(&at(2, 2), &m));
    // The top of a ladder is solid ground.
    assert!(on_solid_ground(&at(2, 3), &m));
    let wide = Steering::new(Pos::new(1, 2), Pos::new(2, 1));
    assert!(is_grounded(&wide, &m));
}

#[test]
fn walls_beside_the_entity() {
    let m = map(&["#  #", "#  #", "####"]);
    let s = at(1, 1);
    assert!(is_against_wall_left(&s, 1, true, &m));
    assert!(!is_against_wall_right(&s, 1, true, &m));
    assert!(is_against_wall(&s, 1, true, &m, 2));
    let wide = Steering::new(Pos::new(1, 1), Pos::new(2, 1));
    assert!(is_against_wall_right(&wide, 1, true, &m));
    // Between rows, one more row is touched.
    let m2 = map(&["   #", "    ", "####"]);
    assert!(!is_against_wall_right(&Steering::new(Pos::new(2, 1), Pos::new(1, 1)), 1, true, &m2));
    assert!(is_against_wall_right(&Steering::new(Pos::new(2, 1), Pos::new(1, 1)), 1, false, &m2));
}

#[test]
fn climbing_needs_ladders() {
    let m = map(&[" H", " H", "##"]);
    assert!(can_climb_up(&at(1, 1), &m));
    assert!(!can_climb_up(&at(0, 1), &m));
    assert!(can_climb_down(&at(1, 2), &m));
    assert!(!can_climb_down(&at(1, 1), &m));
}

#[test]
fn tiles_beside_and_below() {
    let mut s = Steering::new(Pos::new(5, 5), Pos::new(1, 2));
    assert_eq!(
        tiles_to_side(2, &s),
        vec![Pos::new(6, 5), Pos::new(6, 6), Pos::new(7, 5), Pos::new(7, 6)]
    );
    s.facing = Direction2D::from(Direction1D::Negative, Direction1D::Neutral);
    assert_eq!(
        tiles_to_side(2, &s),
        vec![Pos::new(4, 5), Pos::new(4, 6), Pos::new(3, 5), Pos::new(3, 6)]
    );
    let mut wide = Steering::new(Pos::new(0, 3), Pos::new(2, 1));
    assert_eq!(
        tiles_below(2, &wide),
        vec![Pos::new(1, 2), Pos::new(1, 1), Pos::new(2, 2), Pos::new(2, 1)]
    );
    wide.facing = Direction2D::from(Direction1D::Negative, Direction1D::Neutral);
    assert_eq!(
        tiles_below(2, &wide),
        vec![Pos::new(0, 2), Pos::new(0, 1), Pos::new(-1, 2), Pos::new(-1, 1)]
    );
    assert_eq!(tiles_to_side(0, &s), vec![]);
}

#[test]
fn a_tool_breaks_blocks_and_is_used_up() {
    let mut m = map(&["  # ", "  # ", "####"]);
    let s = at(1, 1);
    let mut player = Player { equipped: Some(ToolType::BreakBlocksHorizontally(2)) };
    let broken = use_tool(&mut player, &s, &mut m);
    assert_eq!(broken, Some(vec![Pos::new(2, 1), Pos::new(3, 1)]));
    assert_eq!(player.equipped, None);
    assert_eq!(m.get_tile(&Pos::new(2, 1)), None);
    assert_eq!(m.get_tile(&Pos::new(2, 2)), Some(block()));
    // Without a tool, nothing happens.
    assert_eq!(use_tool(&mut player, &s, &mut m), None);
}

#[test]
fn a_tool_refuses_unbreakable_targets() {
    let mut m = map(&["####", "#D# ", "####"]);
    let mut s = at(1, 2);
    let mut player = Player { equipped: Some(ToolType::BreakBlocksBelow(2)) };
    s.facing = Direction2D::from(Direction1D::Negative, Direction1D::Neutral);
    assert_eq!(use_tool(&mut player, &s, &mut m), None);
    assert_eq!(player.equipped, Some(ToolType::BreakBlocksBelow(2)));
    assert_eq!(m.get_tile(&Pos::new(1, 0)), Some(block()));
    // Mid-air, no tool can be used.
    s.mode = SteeringMode::Falling { x_movement: Direction1D::Neutral };
    s.facing = Direction2D::from(Direction1D::Positive, Direction1D::Neutral);
    let mut p2 = Player { equipped: Some(ToolType::BreakBlocksHorizontally(2)) };
    assert_eq!(use_tool(&mut p2, &s, &mut m), None);
}

fn frame(pos: Pos) -> SteeringFrame {
    SteeringFrame {
        pos,
        input_x: Direction1D::Neutral,
        input_y: Direction1D::Neutral,
        whole_x: Direction1D::Neutral,
        whole_y: Direction1D::Neutral,
        jump: false,
        jump_grace: false,
        jump_peaked: false,
        landed: true,
        past_dest_x: true,
        before_dest_x: true,
        past_dest_y: true,
        before_dest_y: true,
        floored_y: pos.y,
        on_grid_y: true,
    }
}

#[test]
fn walking_sets_the_next_column_as_destination() {
    let m = map(&["    ", "####"]);
    let mut s = at(1, 1);
    let mut f = frame(Pos::new(1, 1));
    f.input_x = Direction1D::Positive;
    f.whole_x = Direction1D::Positive;
    assert_eq!(steer(&mut s, &m, &f), ModeStart::Unchanged);
    assert_eq!(s.destination, Pos::new(2, 1));
    assert_eq!(s.direction, Direction2D::from(Direction1D::Positive, Direction1D::Neutral));
    assert!(s.is_grounded());
}

#[test]
fn walls_stop_walking() {
    let m = map(&["  # ", "####"]);
    let mut s = at(1, 1);
    let mut f = frame(Pos::new(1, 1));
    f.input_x = Direction1D::Positive;
    steer(&mut s, &m, &f);
    assert_eq!(s.destination, Pos::new(1, 1));
}

#[test]
fn jumping_then_peaking_then_landing() {
    let m = map(&["    ", "####"]);
    let mut s = at(1, 1);
    let mut f = frame(Pos::new(1, 1));
    f.jump = true;
    f.input_x = Direction1D::Positive;
    assert_eq!(steer(&mut s, &m, &f), ModeStart::Jumping);
    assert_eq!(s.mode, SteeringMode::Jumping { x_movement: Direction1D::Positive });
    let mut f2 = frame(Pos::new(2, 2));
    f2.jump_peaked = true;
    f2.landed = false;
    assert_eq!(steer(&mut s, &m, &f2), ModeStart::Peaked);
    assert_eq!(s.mode, SteeringMode::Falling { x_movement: Direction1D::Positive });
    let f3 = frame(Pos::new(3, 1));
    assert_eq!(steer(&mut s, &m, &f3), ModeStart::Unchanged);
    assert!(s.is_grounded());
    assert_eq!(s.destination, Pos::new(3, 1));
}

#[test]
fn walking_off_a_ledge_starts_a_fall() {
    let m = map(&["    ", "#   "]);
    let mut s = at(1, 1);
    let f = frame(Pos::new(1, 1));
    assert_eq!(steer(&mut s, &m, &f), ModeStart::Falling);
    assert_eq!(s.mode, SteeringMode::Falling { x_movement: Direction1D::Neutral });
}

#[test]
fn climbing_a_ladder() {
    let m = map(&[" H", " H", "##"]);
    let mut s = at(1, 1);
    let mut f = frame(Pos::new(1, 1));
    f.input_y = Direction1D::Positive;
    f.whole_y = Direction1D::Positive;
    assert_eq!(steer(&mut s, &m, &f), ModeStart::Unchanged);
    assert!(s.is_climbing());
    assert_eq!(s.destination, Pos::new(1, 2));
}

#[test]
fn only_empty_hands_pick_up_a_tool() {
    let mut player = Player::default();
    let drill = Tool::new(ToolType::BreakBlocksBelow(2), SpriteType::Blocks, 1);
    let pick = Tool::new(ToolType::BreakBlocksHorizontally(2), SpriteType::Blocks, 0);
    assert!(pick_up(&mut player, &drill));
    assert_eq!(player.equipped, Some(ToolType::BreakBlocksBelow(2)));
    assert!(!pick_up(&mut player, &pick));
    assert_eq!(player.equipped, Some(ToolType::BreakBlocksBelow(2)));
}

#[test]
fn steering_at_the_edge_of_the_grid_needs_room_only_where_it_moves() {
    let s = at(1, 1);
    assert!(steering_fits_frame(&s, &frame(Pos::new(1, 1))));
    let near = at(i32::MAX - 1, 1);
    assert!(steering_fits_frame(&near, &frame(Pos::new(i32::MAX - 1, 1))));
    let far = at(i32::MAX, 1);
    assert!(steering_fits_frame(&far, &frame(Pos::new(i32::MAX, 1))));
    let mut right = frame(Pos::new(i32::MAX, 1));
    right.input_x = Direction1D::Positive;
    assert!(!steering_fits_frame(&far, &right));
    let mut left = frame(Pos::new(i32::MAX, 1));
    left.input_x = Direction1D::Negative;
    assert!(steering_fits_frame(&far, &left));
    let mut drifting = at(i32::MIN, 1);
    drifting.mode = SteeringMode::Falling { x_movement: Direction1D::Negative };
    assert!(!steering_fits_frame(&drifting, &frame(Pos::new(i32::MIN, 1))));
    let low = Steering::new(Pos::new(0, i32::MIN), Pos::new(1, 1));
    assert!(!steering_fits_frame(&low, &frame(Pos::new(0, i32::MIN))));
}

#[test]
fn tool_targets_must_lie_in_the_grid() {
    let empty = Player::default();
    let edge = Steering::new(Pos::new(i32::MAX - 2, 0), Pos::new(2, 2));
    assert!(tool_fits(&empty, &edge));
    let pick = Player { equipped: Some(ToolType::BreakBlocksHorizontally(2)) };
    assert!(!tool_fits(&pick, &edge));
    assert!(tool_fits(&pick, &at(4, 4)));
    let drill = Player { equipped: Some(ToolType::BreakBlocksBelow(2)) };
    assert!(tool_fits(&drill, &edge));
    let bottom = Steering::new(Pos::new(0, i32::MIN + 1), Pos::new(2, 2));
    assert!(!tool_fits(&drill, &bottom));
}

#[test]
fn falls_land_on_top_of_a_ladder_but_not_in_its_middle() {
    let m = map(&["   ", " H ", " H ", "###"]);
    let mut s = at(1, 2);
    s.mode = SteeringMode::Falling { x_movement: Direction1D::Neutral };
    assert_eq!(steer(&mut s, &m, &frame(Pos::new(1, 2))), ModeStart::Unchanged);
    assert!(s.is_falling());
    let mut top = at(1, 3);
    top.mode = SteeringMode::Falling { x_movement: Direction1D::Neutral };
    assert_eq!(steer(&mut top, &m, &frame(Pos::new(1, 3))), ModeStart::Unchanged);
    assert!(top.is_grounded());
    assert_eq!(top.dimens, Pos::new(1, 1));
}

#[test]
fn no_jump_starts_in_the_air() {
    let m = map(&["    ", "    ", "####"]);
    let mut s = at(1, 2);
    s.mode = SteeringMode::Falling { x_movement: Direction1D::Neutral };
    let mut f = frame(Pos::new(1, 2));
    f.jump = true;
    f.landed = false;
    assert_eq!(steer(&mut s, &m, &f), ModeStart::Unchanged);
    assert!(s.is_falling());
    assert_eq!(s.pos, Pos::new(1, 2));
}

#[test]
fn walking_turns_the_player_and_standing_keeps_its_facing() {
    let m = map(&["    ", "####"]);
    let mut s = at(2, 1);
    let mut f = frame(Pos::new(2, 1));
    f.input_x = Direction1D::Negative;
    f.whole_x = Direction1D::Negative;
    steer(&mut s, &m, &f);
    let left = Direction2D::from(Direction1D::Negative, Direction1D::Neutral);
    assert_eq!(s.direction, left);
    assert_eq!(s.facing, left);
    assert_eq!(s.destination, Pos::new(1, 1));
    steer(&mut s, &m, &frame(Pos::new(1, 1)));
    assert_eq!(s.direction, Direction2D::default());
    assert_eq!(s.facing, left);
}

#[test]
fn a_player_that_walked_left_breaks_blocks_on_its_left() {
    let mut m = map(&["#   ", "####"]);
    let mut s = at(2, 1);
    let mut f = frame(Pos::new(2, 1));
    f.input_x = Direction1D::Negative;
    f.whole_x = Direction1D::Negative;
    steer(&mut s, &m, &f);
    steer(&mut s, &m, &frame(Pos::new(1, 1)));
    let mut p = Player { equipped: Some(ToolType::BreakBlocksHorizontally(2)) };
    let broken = use_tool(&mut p, &s, &mut m).expect("the block on the left can be broken");
    assert_eq!(broken, vec![Pos::new(0, 1), Pos::new(-1, 1)]);
    assert_eq!(m.get_tile(&Pos::new(0, 1)), None);
}

#[test]
fn climbing_faces_the_ladder_direction() {
    let m = map(&[" H", " H", "##"]);
    let mut s = at(1, 1);
    let mut f = frame(Pos::new(1, 1));
    f.input_y = Direction1D::Positive;
    f.whole_y = Direction1D::Positive;
    steer(&mut s, &m, &f);
    let up = Direction2D::from(Direction1D::Neutral, Direction1D::Positive);
    assert_eq!(s.direction, up);
    assert_eq!(s.facing, up);
}
