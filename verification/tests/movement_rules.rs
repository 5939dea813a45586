use dwarf_seeks_fortune::components::movement::{
    Direction1D, Direction2D, Pos, Steering, SteeringMode,
};
use dwarf_seeks_fortune::components::objects::{Key, KeyDisplay, Tool};
use dwarf_seeks_fortune::components::player::Player;
use dwarf_seeks_fortune::levels::tile_definition::ToolType;
use dwarf_seeks_fortune::resources::assets::SpriteType;

#[test]
fn opposite_directions_are_opposite_both_ways() {
    let n = Direction1D::Negative;
    let p = Direction1D::Positive;
    let z = Direction1D::Neutral;
    assert!(n.is_opposite(&p));
    assert!(p.is_opposite(&n));
    assert!(!z.is_opposite(&p));
    assert!(!p.is_opposite(&z));
    assert!(!p.is_opposite(&p));
    assert!(!z.is_opposite(&z));
}

#[test]
fn direction_predicates_and_signum() {
    assert!(Direction1D::Positive.is_positive());
    assert!(!Direction1D::Positive.is_negative());
    assert!(Direction1D::Negative.is_negative());
    assert!(Direction1D::Neutral.is_neutral());
    assert_eq!(Direction1D::Positive.signum_i(), 1);
    assert_eq!(Direction1D::Negative.signum_i(), -1);
    assert_eq!(Direction1D::Neutral.signum_i(), 0);
    assert_eq!(Direction1D::default(), Direction1D::Neutral);
}

#[test]
fn two_dimensional_directions() {
    let right = Direction2D::from(Direction1D::Positive, Direction1D::Neutral);
    let left_up = Direction2D::from(Direction1D::Negative, Direction1D::Positive);
    let up = Direction2D::from(Direction1D::Neutral, Direction1D::Positive);
    let down = Direction2D::from(Direction1D::Neutral, Direction1D::Negative);
    assert!(right.is_opposite(&left_up));
    assert!(left_up.is_opposite(&right));
    assert!(up.is_opposite(&down));
    assert!(!right.is_opposite(&up));
    assert!(Direction2D::default().is_neutral());
    assert!(!right.is_neutral());
}

#[test]
fn new_steering_is_grounded_and_faces_right() {
    let s = Steering::new(Pos::new(3, -2), Pos::new(2, 2));
    assert_eq!(s.pos, Pos::new(3, -2));
    assert_eq!(s.destination, Pos::new(3, -2));
    assert_eq!(s.dimens, Pos::new(2, 2));
    assert_eq!(s.facing, Direction2D::from(Direction1D::Positive, Direction1D::Neutral));
    assert!(s.direction.is_neutral());
    assert!(s.is_grounded());
    assert!(!s.is_mid_air());
    assert!(!s.is_climbing());
}

#[test]
fn steering_modes() {
    let mut s = Steering::new(Pos::new(0, 0), Pos::new(1, 1));
    s.mode = SteeringMode::Jumping { x_movement: Direction1D::Positive };
    assert!(s.is_jumping() && s.is_mid_air() && !s.is_falling() && !s.is_grounded());
    s.mode = SteeringMode::Falling { x_movement: Direction1D::Neutral };
    assert!(s.is_falling() && s.is_mid_air() && !s.is_jumping());
    s.mode = SteeringMode::Climbing;
    assert!(s.is_climbing() && !s.is_mid_air());
}

#[test]
fn objects_keep_what_they_are_made_with() {
    assert_eq!(Key::new(Pos::new(4, 5)).pos, Pos::new(4, 5));
    assert_eq!(KeyDisplay::new(Pos::new(-1, 2)).pos, Pos::new(-1, 2));
    let tool = Tool::new(ToolType::BreakBlocksBelow(2), SpriteType::Blocks, 7);
    assert_eq!(tool.tool_type, ToolType::BreakBlocksBelow(2));
    assert_eq!(tool.sprite, SpriteType::Blocks);
    assert_eq!(tool.sprite_nr, 7);
    assert_eq!(Player::default().equipped, None);
    assert_eq!(Pos::default(), Pos::new(0, 0));
}
