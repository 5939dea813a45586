use crate::components::movement::{spec_signum, Direction1D, Direction2D, Pos, Steering, SteeringMode};
use crate::levels::tile_definition::TileDefinition;
use crate::resources::tilemap::TileMap;
use vstd::prelude::*;

verus! {

/// The position at the given integer coordinates.
pub open spec fn at(x: int, y: int) -> Pos {
    Pos { x: x as i32, y: y as i32 }
}

pub open spec fn in_i32(v: int) -> bool {
    i32::MIN <= v <= i32::MAX
}

/// A tile at `q` that entities can stand on.
pub open spec fn platform_at(tile_map: &TileMap, q: Pos) -> bool {
    match tile_map.tile_at(q) {
        Some(t) => t.spec_provides_platform(),
        None => false,
    }
}

/// A ladder at `q`.
pub open spec fn ladder_at(tile_map: &TileMap, q: Pos) -> bool {
    match tile_map.tile_at(q) {
        Some(t) => t.spec_climbable(),
        None => false,
    }
}

/// A tile at `q` that blocks horizontal movement.
pub open spec fn wall_at(tile_map: &TileMap, q: Pos) -> bool {
    match tile_map.tile_at(q) {
        Some(t) => t.spec_collides_horizontally(),
        None => false,
    }
}

/// The row below the entity and every column of its body have coordinates that fit in an
/// `i32`.
pub open spec fn body_fits(steering: &Steering) -> bool {
    &&& steering.dimens.x > 0 ==> in_i32(steering.pos.x + steering.dimens.x - 1)
    &&& in_i32(steering.pos.y - 1)
}

/// Something to stand on directly below one of the entity's columns.
pub open spec fn spec_is_grounded(steering: &Steering, tile_map: &TileMap) -> bool {
    exists|i: int|
        0 <= i < steering.dimens.x && #[trigger] platform_at(
            tile_map,
            at(steering.pos.x + i, steering.pos.y - 1),
        )
}

/// Solid ground below one of the entity's columns: a platform that is not the middle of a
/// ladder (a ladder tile with another ladder tile above it).
pub open spec fn solid_below(steering: &Steering, tile_map: &TileMap, i: int) -> bool {
    platform_at(tile_map, at(steering.pos.x + i, steering.pos.y - 1)) && (!ladder_at(
        tile_map,
        at(steering.pos.x + i, steering.pos.y - 1),
    ) || !ladder_at(tile_map, at(steering.pos.x + i, steering.pos.y as int)))
}

pub open spec fn spec_on_solid_ground(steering: &Steering, tile_map: &TileMap) -> bool {
    exists|i: int| 0 <= i < steering.dimens.x && #[trigger] solid_below(steering, tile_map, i)
}

/// Every tile in the given rows of every column of the entity's body is a ladder.
pub open spec fn spec_can_climb(steering: &Steering, tile_map: &TileMap, lo: int, hi: int) -> bool {
    forall|i: int, j: int|
        0 <= i < steering.dimens.x && lo <= j < hi ==> #[trigger] ladder_at(
            tile_map,
            at(steering.pos.x + i, steering.pos.y + j),
        )
}

/// Nothing to stand on directly below any of the entity's columns.
pub open spec fn spec_above_air(steering: &Steering, tile_map: &TileMap) -> bool {
    forall|i: int|
        0 <= i < steering.dimens.x ==> !#[trigger] platform_at(
            tile_map,
            at(steering.pos.x + i, steering.pos.y - 1),
        )
}

/// The number of rows to check for walls: one more than the entity's height when it is
/// between two rows.
pub open spec fn wall_rows(steering: &Steering, on_grid: bool) -> int {
    if on_grid {
        steering.dimens.y as int
    } else {
        steering.dimens.y + 1
    }
}

/// A wall in the column at `x_offset` from the entity, in one of the rows it touches,
/// counting from `floored_y`.
pub open spec fn spec_is_against_wall(
    steering: &Steering,
    tile_map: &TileMap,
    floored_y: int,
    on_grid: bool,
    x_offset: int,
) -> bool {
    exists|i: int|
        0 <= i < wall_rows(steering, on_grid) && #[trigger] wall_at(
            tile_map,
            at(steering.pos.x + x_offset, floored_y + i),
        )
}

/// Whether the entity stands on something: a platform below one of its columns.
pub fn is_grounded(steering: &Steering, tile_map: &TileMap) -> (res: bool)
    requires
        body_fits(steering),
    ensures
        res == spec_is_grounded(steering, tile_map),
{
    let mut i: i32 = 0;
    while i < steering.dimens.x
        invariant
            0 <= i,
            steering.dimens.x > 0 ==> i <= steering.dimens.x,
            body_fits(steering),
            forall|k: int|
                0 <= k < i ==> !#[trigger] platform_at(
                    tile_map,
                    at(steering.pos.x + k, steering.pos.y - 1),
                ),
        decreases steering.dimens.x - i,
    {
        let q = Pos::new(steering.pos.x + i, steering.pos.y - 1);
        let found = match tile_map.get_tile(&q) {
            Some(t) => t.provides_platform(),
            None => false,
        };
        if found {
            assert(platform_at(tile_map, at(steering.pos.x + i, steering.pos.y - 1)));
            return true;
        }
        i = i + 1;
    }
    false
}

/// Whether the entity is on solid ground: the very top of a ladder or a proper, solid block.
/// The middle of a ladder can be walked on, but not landed on from a jump or a fall.
pub fn on_solid_ground(steering: &Steering, tile_map: &TileMap) -> (res: bool)
    requires
        body_fits(steering),
    ensures
        res == spec_on_solid_ground(steering, tile_map),
{
    let mut i: i32 = 0;
    while i < steering.dimens.x
        invariant
            0 <= i,
            steering.dimens.x > 0 ==> i <= steering.dimens.x,
            body_fits(steering),
            forall|k: int| 0 <= k < i ==> !#[trigger] solid_below(steering, tile_map, k),
        decreases steering.dimens.x - i,
    {
        let below = tile_map.get_tile(&Pos::new(steering.pos.x + i, steering.pos.y - 1));
        let above = tile_map.get_tile(&Pos::new(steering.pos.x + i, steering.pos.y));
        let solid = match below {
            Some(t) => t.provides_platform() && (!t.climbable() || !match above {
                Some(a) => a.climbable(),
                None => false,
            }),
            None => false,
        };
        if solid {
            assert(solid_below(steering, tile_map, i as int));
            return true;
        }
        i = i + 1;
    }
    false
}

/// Whether there is a wall in the column at `x_offset` from the entity, in any row it
/// touches. `floored_y` is the row of the entity's lower edge, rounded down; `on_grid` tells
/// whether that edge lies exactly on the row, so that the entity touches no extra row.
pub fn is_against_wall(
    steering: &Steering,
    floored_y: i32,
    on_grid: bool,
    tile_map: &TileMap,
    x_offset: i32,
) -> (res: bool)
    requires
        in_i32(steering.pos.x + x_offset),
        in_i32(wall_rows(steering, on_grid)),
        wall_rows(steering, on_grid) > 0 ==> in_i32(floored_y + wall_rows(steering, on_grid) - 1),
    ensures
        res == spec_is_against_wall(steering, tile_map, floored_y as int, on_grid, x_offset as int),
{
    let rows: i32 = if on_grid {
        steering.dimens.y
    } else {
        steering.dimens.y + 1
    };
    let column = steering.pos.x + x_offset;
    let mut i: i32 = 0;
    while i < rows
        invariant
            0 <= i,
            rows == wall_rows(steering, on_grid),
            rows > 0 ==> i <= rows,
            rows > 0 ==> in_i32(floored_y + rows - 1),
            column == steering.pos.x + x_offset,
            forall|k: int|
                0 <= k < i ==> !#[trigger] wall_at(tile_map, at(column as int, floored_y + k)),
        decreases rows - i,
    {
        let wall = match tile_map.get_tile(&Pos::new(column, floored_y + i)) {
            Some(t) => t.collides_horizontally(),
            None => false,
        };
        if wall {
            assert(wall_at(tile_map, at(column as int, floored_y + i)));
            return true;
        }
        i = i + 1;
    }
    false
}

/// Whether there is a wall directly left of the entity.
pub fn is_against_wall_left(
    steering: &Steering,
    floored_y: i32,
    on_grid: bool,
    tile_map: &TileMap,
) -> (res: bool)
    requires
        in_i32(steering.pos.x - 1),
        in_i32(wall_rows(steering, on_grid)),
        wall_rows(steering, on_grid) > 0 ==> in_i32(floored_y + wall_rows(steering, on_grid) - 1),
    ensures
        res == spec_is_against_wall(steering, tile_map, floored_y as int, on_grid, -1),
{
    is_against_wall(steering, floored_y, on_grid, tile_map, -1)
}

/// Whether there is a wall directly right of the entity.
pub fn is_against_wall_right(
    steering: &Steering,
    floored_y: i32,
    on_grid: bool,
    tile_map: &TileMap,
) -> (res: bool)
    requires
        in_i32(steering.pos.x + steering.dimens.x),
        in_i32(wall_rows(steering, on_grid)),
        wall_rows(steering, on_grid) > 0 ==> in_i32(floored_y + wall_rows(steering, on_grid) - 1),
    ensures
        res == spec_is_against_wall(
            steering,
            tile_map,
            floored_y as int,
            on_grid,
            steering.dimens.x as int,
        ),
{
    is_against_wall(steering, floored_y, on_grid, tile_map, steering.dimens.x)
}

/// Whether every tile in rows `lo` (inclusive) to `hi` (exclusive) relative to the entity,
/// in every column of its body, is a ladder.
pub fn can_climb(steering: &Steering, tile_map: &TileMap, y_range: (i32, i32)) -> (res: bool)
    requires
        steering.dimens.x > 0 ==> in_i32(steering.pos.x + steering.dimens.x - 1),
        y_range.0 < y_range.1 ==> in_i32(steering.pos.y + y_range.0) && in_i32(
            steering.pos.y + y_range.1 - 1,
        ),
    ensures
        res == spec_can_climb(steering, tile_map, y_range.0 as int, y_range.1 as int),
{
    let mut i: i32 = 0;
    while i < steering.dimens.x
        invariant
            0 <= i,
            steering.dimens.x > 0 ==> i <= steering.dimens.x,
            steering.dimens.x > 0 ==> in_i32(steering.pos.x + steering.dimens.x - 1),
            y_range.0 < y_range.1 ==> in_i32(steering.pos.y + y_range.0) && in_i32(
                steering.pos.y + y_range.1 - 1,
            ),
            forall|a: int, b: int|
                0 <= a < i && y_range.0 <= b < y_range.1 ==> #[trigger] ladder_at(
                    tile_map,
                    at(steering.pos.x + a, steering.pos.y + b),
                ),
        decreases steering.dimens.x - i,
    {
        let mut j: i32 = y_range.0;
        while j < y_range.1
            invariant
                0 <= i < steering.dimens.x,
                in_i32(steering.pos.x + steering.dimens.x - 1),
                y_range.0 <= j,
                y_range.0 < y_range.1 ==> j <= y_range.1,
                y_range.0 < y_range.1 ==> in_i32(steering.pos.y + y_range.0) && in_i32(
                    steering.pos.y + y_range.1 - 1,
                ),
                forall|b: int|
                    y_range.0 <= b < j ==> #[trigger] ladder_at(
                        tile_map,
                        at(steering.pos.x + i, steering.pos.y + b),
                    ),
            decreases y_range.1 - j,
        {
            let ladder = match tile_map.get_tile(&Pos::new(steering.pos.x + i, steering.pos.y + j)) {
                Some(t) => t.climbable(),
                None => false,
            };
            if !ladder {
                assert(!ladder_at(tile_map, at(steering.pos.x + i, steering.pos.y + j)));
                return false;
            }
            j = j + 1;
        }
        i = i + 1;
    }
    true
}

/// Whether the entity can climb up: ladder tiles fill its body's lowest row.
pub fn can_climb_up(steering: &Steering, tile_map: &TileMap) -> (res: bool)
    requires
        steering.dimens.x > 0 ==> in_i32(steering.pos.x + steering.dimens.x - 1),
    ensures
        res == spec_can_climb(steering, tile_map, 0, 1),
{
    can_climb(steering, tile_map, (0, 1))
}

/// Whether the entity can climb down: ladder tiles fill the row below it.
pub fn can_climb_down(steering: &Steering, tile_map: &TileMap) -> (res: bool)
    requires
        body_fits(steering),
    ensures
        res == spec_can_climb(steering, tile_map, -1, 0),
{
    can_climb(steering, tile_map, (-1, 0))
}

/// Whether nothing below any of the entity's columns can be stood on.
pub fn above_air(steering: &Steering, tile_map: &TileMap) -> (res: bool)
    requires
        body_fits(steering),
    ensures
        res == spec_above_air(steering, tile_map),
{
    let mut i: i32 = 0;
    while i < steering.dimens.x
        invariant
            0 <= i,
            steering.dimens.x > 0 ==> i <= steering.dimens.x,
            body_fits(steering),
            forall|k: int|
                0 <= k < i ==> !#[trigger] platform_at(
                    tile_map,
                    at(steering.pos.x + k, steering.pos.y - 1),
                ),
        decreases steering.dimens.x - i,
    {
        let platform = match tile_map.get_tile(&Pos::new(steering.pos.x + i, steering.pos.y - 1)) {
            Some(t) => t.provides_platform(),
            None => false,
        };
        if platform {
            assert(platform_at(tile_map, at(steering.pos.x + i, steering.pos.y - 1)));
            return false;
        }
        i = i + 1;
    }
    true
}

/// What the player's steering learns in a frame from the input and from where the player
/// actually is. The game loop derives these from the keyboard and from the player's
/// (continuous) position.
#[derive(Debug, Clone, Copy, PartialEq, Eq, Structural)]
pub struct SteeringFrame {
    /// The discrete position: the player's anchored coordinates, rounded.
    pub pos: Pos,
    /// The horizontal input, Neutral when too small to count.
    pub input_x: Direction1D,
    /// The vertical input, Neutral when too small to count.
    pub input_y: Direction1D,
    /// The sign of the horizontal input truncated to a whole number.
    pub whole_x: Direction1D,
    /// The sign of the vertical input truncated to a whole number.
    pub whole_y: Direction1D,
    /// Jump was pressed this frame.
    pub jump: bool,
    /// The short time after a jump starts, during which it can still get a direction.
    pub jump_grace: bool,
    /// The current jump has reached its peak.
    pub jump_peaked: bool,
    /// The anchored y-coordinate is at or below the discrete row.
    pub landed: bool,
    /// The anchored x-coordinate is at or past the destination column, moving right.
    pub past_dest_x: bool,
    /// The anchored x-coordinate is at or before the destination column, moving left.
    pub before_dest_x: bool,
    /// The anchored y-coordinate is at or past the destination row, moving up.
    pub past_dest_y: bool,
    /// The anchored y-coordinate is at or before the destination row, moving down.
    pub before_dest_y: bool,
    /// The row of the anchored y-coordinate, rounded down.
    pub floored_y: i32,
    /// The anchored y-coordinate lies on that row exactly.
    pub on_grid_y: bool,
}

/// What happened to the steering mode in a frame, for the game loop that keeps the height
/// and moment at which falls and jumps begin.
#[derive(Debug, Clone, Copy, PartialEq, Eq, Structural)]
pub enum ModeStart {
    /// No fall or jump began.
    Unchanged,
    /// A fall began this frame.
    Falling,
    /// A jump began this frame.
    Jumping,
    /// The jump peaked and turned into a fall.
    Peaked,
}

/// Aligned with the grid for a movement in the given direction: at or past the destination
/// when moving that way, or right at it.
pub open spec fn aligned(past: bool, before: bool, d: Direction1D) -> bool {
    (past && d == Direction1D::Positive) || (before && d == Direction1D::Negative) || (past && before)
}

/// The input points back towards where the entity came from.
pub open spec fn goes_back(dest: i32, pos: i32, whole: Direction1D) -> bool {
    (dest - pos) * spec_signum(whole) < 0
}

/// The entity may move horizontally in direction `d` this frame: the input points that way,
/// or it is in the air moving that way.
pub open spec fn x_way(s: &Steering, f: &SteeringFrame, d: Direction1D) -> bool {
    f.input_x == d || s.mode == (SteeringMode::Jumping { x_movement: d }) || s.mode == (
    SteeringMode::Falling { x_movement: d })
}

/// The rows that a wall check in the air looks at fit in an `i32`.
pub open spec fn air_rows_fit(s: &Steering, f: &SteeringFrame) -> bool {
    in_i32(s.dimens.y + 1) && in_i32(f.floored_y + s.dimens.y) && in_i32(f.pos.y + s.dimens.y)
}

/// No coordinate that steering computes in this frame leaves the `i32` range: the body's
/// columns and the row below it always, the next column, the walls and the destination's
/// neighbour on a side only when the entity may move to that side, and the row above only
/// when it is asked to climb up.
pub open spec fn steering_fits(s: &Steering, f: &SteeringFrame) -> bool {
    &&& s.dimens.x > 0 ==> in_i32(f.pos.x + s.dimens.x - 1)
    &&& in_i32(f.pos.y - 1)
    &&& x_way(s, f, Direction1D::Positive) ==> in_i32(f.pos.x + 1) && in_i32(f.pos.x + s.dimens.x)
        && in_i32(s.destination.x + 1) && air_rows_fit(s, f)
    &&& x_way(s, f, Direction1D::Negative) ==> in_i32(f.pos.x - 1) && in_i32(s.destination.x - 1)
        && air_rows_fit(s, f)
    &&& f.input_y == Direction1D::Positive ==> in_i32(f.pos.y + 1)
}

fn fits_i32(v: i64) -> (res: bool)
    ensures
        res == in_i32(v as int),
{
    -2147483648i64 <= v && v <= 2147483647i64
}

/// Whether no coordinate that `steer` computes for this steering and frame leaves the
/// `i32` range, as `steer` needs.
pub fn steering_fits_frame(steering: &Steering, frame: &SteeringFrame) -> (res: bool)
    ensures
        res == steering_fits(steering, frame),
{
    let px = frame.pos.x as i64;
    let py = frame.pos.y as i64;
    let w = steering.dimens.x as i64;
    let h = steering.dimens.y as i64;
    let dx = steering.destination.x as i64;
    let rows = fits_i32(h + 1) && fits_i32(frame.floored_y as i64 + h) && fits_i32(py + h);
    let right = frame.input_x.is_positive() || steering.mode == (SteeringMode::Jumping {
        x_movement: Direction1D::Positive,
    }) || steering.mode == (SteeringMode::Falling { x_movement: Direction1D::Positive });
    let left = frame.input_x.is_negative() || steering.mode == (SteeringMode::Jumping {
        x_movement: Direction1D::Negative,
    }) || steering.mode == (SteeringMode::Falling { x_movement: Direction1D::Negative });
    (w <= 0 || fits_i32(px + w - 1)) && fits_i32(py - 1) && (!right || (fits_i32(px + 1)
        && fits_i32(px + w) && fits_i32(dx + 1) && rows)) && (!left || (fits_i32(px - 1)
        && fits_i32(dx - 1) && rows)) && (!frame.input_y.is_positive() || fits_i32(py + 1))
}

/// No movement along either axis.
pub open spec fn standing_still() -> Direction2D {
    Direction2D { x: Direction1D::Neutral, y: Direction1D::Neutral }
}

pub open spec fn falling_still() -> SteeringMode {
    SteeringMode::Falling { x_movement: Direction1D::Neutral }
}

/// The mode after the frame's input and position are taken in, and the destination, before
/// the entity moves: the landing, falling, jumping, peaking and climbing rules, in that order.
pub open spec fn spec_mode_rules(s: Steering, tm: &TileMap, f: SteeringFrame) -> (Steering, ModeStart) {
    let grounded = s.mode == SteeringMode::Grounded;
    let climbing = s.mode == SteeringMode::Climbing;
    let has_ground = spec_is_grounded(&s, tm);
    if s.mode is Falling && f.landed && has_ground && spec_on_solid_ground(&s, tm) {
        (Steering { mode: SteeringMode::Grounded, destination: s.pos, ..s }, ModeStart::Unchanged)
    } else if (grounded && !has_ground && aligned(f.past_dest_x, f.before_dest_x, f.input_x)) || (
    climbing && f.jump) {
        (Steering { mode: falling_still(), ..s }, ModeStart::Falling)
    } else if grounded && f.jump {
        (Steering { mode: SteeringMode::Jumping { x_movement: f.input_x }, ..s }, ModeStart::Jumping)
    } else if s.mode is Jumping && f.jump_peaked {
        (
            Steering { mode: SteeringMode::Falling { x_movement: s.mode->Jumping_x_movement }, ..s },
            ModeStart::Peaked,
        )
    } else if grounded && aligned(f.past_dest_x, f.before_dest_x, f.input_x) && ((f.input_y
        == Direction1D::Positive && spec_can_climb(&s, tm, 0, 1)) || (f.input_y
        == Direction1D::Negative && spec_can_climb(&s, tm, -1, 0))) {
        (Steering { mode: SteeringMode::Climbing, ..s }, ModeStart::Unchanged)
    } else if climbing && aligned(f.past_dest_y, f.before_dest_y, f.input_y) && ((f.input_x
        == Direction1D::Positive && !spec_is_against_wall(&s, tm, s.pos.y as int, true, s.dimens.x as int))
        || (f.input_x == Direction1D::Negative && !spec_is_against_wall(
        &s,
        tm,
        s.pos.y as int,
        true,
        -1,
    ))) {
        (Steering { mode: SteeringMode::Grounded, ..s }, ModeStart::Unchanged)
    } else {
        (s, ModeStart::Unchanged)
    }
}

/// Moving horizontally through the air in a fixed direction: one more column once aligned,
/// unless a wall is in the way at the current height.
pub open spec fn spec_air_move(s: Steering, tm: &TileMap, f: SteeringFrame, xm: Direction1D) -> Pos {
    if xm == Direction1D::Neutral {
        Pos { x: s.pos.x, ..s.destination }
    } else if xm == Direction1D::Positive {
        if aligned(f.past_dest_x, f.before_dest_x, xm) && !spec_is_against_wall(
            &s,
            tm,
            f.floored_y as int,
            f.on_grid_y,
            s.dimens.x as int,
        ) {
            Pos { x: (s.destination.x + 1) as i32, ..s.destination }
        } else {
            s.destination
        }
    } else {
        if aligned(f.past_dest_x, f.before_dest_x, xm) && !spec_is_against_wall(
            &s,
            tm,
            f.floored_y as int,
            f.on_grid_y,
            -1,
        ) {
            Pos { x: (s.destination.x - 1) as i32, ..s.destination }
        } else {
            s.destination
        }
    }
}

/// How the entity moves in its mode: walking, climbing, or drifting while in the air.
pub open spec fn spec_move_rules(s: Steering, tm: &TileMap, f: SteeringFrame, start: ModeStart) -> (
    Steering,
    ModeStart,
) {
    match s.mode {
        SteeringMode::Grounded => if f.input_x != Direction1D::Neutral {
            let s2 = Steering {
                direction: Direction2D { x: f.input_x, y: Direction1D::Neutral },
                facing: Direction2D { x: f.input_x, y: Direction1D::Neutral },
                ..s
            };
            if f.past_dest_x && f.input_x == Direction1D::Positive {
                if !spec_is_against_wall(&s, tm, s.pos.y as int, true, s.dimens.x as int) {
                    (
                        Steering {
                            destination: Pos { x: (s.pos.x + 1) as i32, ..s.destination },
                            ..s2
                        },
                        start,
                    )
                } else {
                    (s2, start)
                }
            } else if f.before_dest_x && f.input_x == Direction1D::Negative {
                if !spec_is_against_wall(&s, tm, s.pos.y as int, true, -1) {
                    (
                        Steering {
                            destination: Pos { x: (s.pos.x - 1) as i32, ..s.destination },
                            ..s2
                        },
                        start,
                    )
                } else {
                    (s2, start)
                }
            } else if goes_back(s.destination.x, s.pos.x, f.whole_x) {
                (Steering { destination: Pos { x: s.pos.x, ..s.destination }, ..s2 }, start)
            } else {
                (s2, start)
            }
        } else {
            (Steering { direction: standing_still(), ..s }, start)
        },
        SteeringMode::Climbing => if f.input_y != Direction1D::Neutral {
            let s2 = Steering {
                direction: Direction2D { x: Direction1D::Neutral, y: f.input_y },
                facing: Direction2D { x: Direction1D::Neutral, y: f.input_y },
                ..s
            };
            if f.past_dest_y && f.input_y == Direction1D::Positive && spec_can_climb(&s, tm, 0, 1) {
                (
                    Steering { destination: Pos { y: (s.pos.y + 1) as i32, ..s.destination }, ..s2 },
                    start,
                )
            } else if f.before_dest_y && f.input_y == Direction1D::Negative {
                if spec_can_climb(&s, tm, -1, 0) {
                    (
                        Steering {
                            destination: Pos { y: (s.pos.y - 1) as i32, ..s.destination },
                            ..s2
                        },
                        start,
                    )
                } else if spec_above_air(&s, tm) {
                    (Steering { mode: falling_still(), ..s2 }, ModeStart::Falling)
                } else {
                    (s2, start)
                }
            } else if goes_back(s.destination.y, s.pos.y, f.whole_y) {
                (Steering { destination: Pos { y: s.pos.y, ..s.destination }, ..s2 }, start)
            } else {
                (s2, start)
            }
        } else {
            (Steering { direction: standing_still(), ..s }, start)
        },
        SteeringMode::Falling { x_movement } => (
            Steering { destination: spec_air_move(s, tm, f, x_movement), ..s },
            start,
        ),
        SteeringMode::Jumping { x_movement } => {
            let mode = if f.jump_grace && f.input_x != Direction1D::Neutral {
                SteeringMode::Jumping { x_movement: f.input_x }
            } else {
                s.mode
            };
            (Steering { mode, destination: spec_air_move(s, tm, f, x_movement), ..s }, start)
        },
    }
}

/// A frame of the player's steering: the discrete position follows the player, the mode
/// changes by the landing, falling, jumping and climbing rules, and the destination moves
/// by the walking, climbing and drifting rules.
pub open spec fn spec_steer(s: Steering, tm: &TileMap, f: SteeringFrame) -> (Steering, ModeStart) {
    let s1 = Steering { pos: f.pos, ..s };
    let (s2, start) = spec_mode_rules(s1, tm, f);
    spec_move_rules(s2, tm, f, start)
}

fn air_move(s: &Steering, tm: &TileMap, f: &SteeringFrame, xm: Direction1D) -> (res: Pos)
    requires
        s.pos == f.pos,
        xm == Direction1D::Positive ==> in_i32(s.destination.x + 1) && in_i32(
            s.pos.x + s.dimens.x,
        ) && air_rows_fit(s, f),
        xm == Direction1D::Negative ==> in_i32(s.destination.x - 1) && in_i32(s.pos.x - 1)
            && air_rows_fit(s, f),
    ensures
        res == spec_air_move(*s, tm, *f, xm),
{
    match xm {
        Direction1D::Neutral => Pos::new(s.pos.x, s.destination.y),
        Direction1D::Positive => {
            let aligned = f.past_dest_x || (f.past_dest_x && f.before_dest_x);
            if aligned && !is_against_wall(s, f.floored_y, f.on_grid_y, tm, s.dimens.x) {
                Pos::new(s.destination.x + 1, s.destination.y)
            } else {
                s.destination
            }
        },
        Direction1D::Negative => {
            let aligned = f.before_dest_x || (f.past_dest_x && f.before_dest_x);
            if aligned && !is_against_wall(s, f.floored_y, f.on_grid_y, tm, -1) {
                Pos::new(s.destination.x - 1, s.destination.y)
            } else {
                s.destination
            }
        },
    }
}

fn aligned_exec(past: bool, before: bool, d: Direction1D) -> (res: bool)
    ensures
        res == aligned(past, before, d),
{
    (past && d.is_positive()) || (before && d.is_negative()) || (past && before)
}

fn goes_back_exec(dest: i32, pos: i32, whole: Direction1D) -> (res: bool)
    ensures
        res == goes_back(dest, pos, whole),
{
    match whole {
        Direction1D::Positive => dest < pos,
        Direction1D::Negative => dest > pos,
        Direction1D::Neutral => false,
    }
}

/// Runs a frame of the player's steering (see `spec_steer`), and tells whether a fall or a
/// jump began.
pub fn steer(steering: &mut Steering, tile_map: &TileMap, frame: &SteeringFrame) -> (res: ModeStart)
    requires
        steering_fits(old(steering), frame),
    ensures
        (*final(steering), res) == spec_steer(*old(steering), tile_map, *frame),
{
    let ghost s0 = *steering;
    steering.pos = frame.pos;
    let ghost s1 = *steering;
    let f = frame;
    let grounded = steering.is_grounded();
    let climbing = steering.is_climbing();
    let has_ground = is_grounded(steering, tile_map);
    let mut start = ModeStart::Unchanged;
    if steering.is_falling() && f.landed && has_ground && on_solid_ground(steering, tile_map) {
        steering.mode = SteeringMode::Grounded;
        steering.destination = steering.pos;
    } else if (grounded && !has_ground && aligned_exec(f.past_dest_x, f.before_dest_x, f.input_x))
        || (climbing && f.jump) {
        steering.mode = SteeringMode::Falling { x_movement: Direction1D::Neutral };
        start = ModeStart::Falling;
    } else if grounded && f.jump {
        steering.mode = SteeringMode::Jumping { x_movement: f.input_x };
        start = ModeStart::Jumping;
    } else if steering.is_jumping() && f.jump_peaked {
        let xm = match steering.mode {
            SteeringMode::Jumping { x_movement } => x_movement,
            _ => Direction1D::Neutral,
        };
        steering.mode = SteeringMode::Falling { x_movement: xm };
        start = ModeStart::Peaked;
    } else if grounded && aligned_exec(f.past_dest_x, f.before_dest_x, f.input_x) && ((
    f.input_y.is_positive() && can_climb_up(steering, tile_map)) || (f.input_y.is_negative()
        && can_climb_down(steering, tile_map))) {
        steering.mode = SteeringMode::Climbing;
    } else if climbing && aligned_exec(f.past_dest_y, f.before_dest_y, f.input_y) && ((
    f.input_x.is_positive() && !is_against_wall_right(steering, steering.pos.y, true, tile_map))
        || (f.input_x.is_negative() && !is_against_wall_left(
        steering,
        steering.pos.y,
        true,
        tile_map,
    ))) {
        steering.mode = SteeringMode::Grounded;
    }
    assert((*steering, start) == spec_mode_rules(s1, tile_map, *f));
    let ghost s2 = *steering;
    match steering.mode {
        SteeringMode::Grounded => {
            if f.input_x.is_neutral() {
                steering.direction = Direction2D::default();
            } else {
                steering.direction = Direction2D::from(f.input_x, Direction1D::Neutral);
                steering.facing = steering.direction;
                if f.past_dest_x && f.input_x.is_positive() {
                    if !is_against_wall_right(steering, steering.pos.y, true, tile_map) {
                        steering.destination.x = steering.pos.x + 1;
                    }
                } else if f.before_dest_x && f.input_x.is_negative() {
                    if !is_against_wall_left(steering, steering.pos.y, true, tile_map) {
                        steering.destination.x = steering.pos.x - 1;
                    }
                } else if goes_back_exec(steering.destination.x, steering.pos.x, f.whole_x) {
                    steering.destination.x = steering.pos.x;
                }
            }
        },
        SteeringMode::Climbing => {
            if f.input_y.is_neutral() {
                steering.direction = Direction2D::default();
            } else {
                steering.direction = Direction2D::from(Direction1D::Neutral, f.input_y);
                steering.facing = steering.direction;
                if f.past_dest_y && f.input_y.is_positive() && can_climb_up(steering, tile_map) {
                    steering.destination.y = steering.pos.y + 1;
                } else if f.before_dest_y && f.input_y.is_negative() {
                    if can_climb_down(steering, tile_map) {
                        steering.destination.y = steering.pos.y - 1;
                    } else if above_air(steering, tile_map) {
                        steering.mode = SteeringMode::Falling { x_movement: Direction1D::Neutral };
                        start = ModeStart::Falling;
                    }
                } else if goes_back_exec(steering.destination.y, steering.pos.y, f.whole_y) {
                    steering.destination.y = steering.pos.y;
                }
            }
        },
        SteeringMode::Falling { x_movement } => {
            steering.destination = air_move(steering, tile_map, f, x_movement);
        },
        SteeringMode::Jumping { x_movement } => {
            if f.jump_grace && !f.input_x.is_neutral() {
                steering.mode = SteeringMode::Jumping { x_movement: f.input_x };
            }
            steering.destination = air_move(steering, tile_map, f, x_movement);
        },
    }
    start
}

/// An entity stands on solid ground only if it is grounded.
pub proof fn law_solid_ground_is_ground(steering: &Steering, tile_map: &TileMap)
    ensures
        spec_on_solid_ground(steering, tile_map) ==> spec_is_grounded(steering, tile_map),
{
    if spec_on_solid_ground(steering, tile_map) {
        let i = choose|i: int| 0 <= i < steering.dimens.x && #[trigger] solid_below(steering, tile_map, i);
        assert(platform_at(tile_map, at(steering.pos.x + i, steering.pos.y - 1)));
    }
}

/// An entity is above air exactly when it is not grounded.
pub proof fn law_above_air_is_not_grounded(steering: &Steering, tile_map: &TileMap)
    ensures
        spec_above_air(steering, tile_map) == !spec_is_grounded(steering, tile_map),
{
}

/// Steering moves the entity's discrete position to where the frame finds it and never
/// changes the size of its body. On the ground or on a ladder, the entity faces the way it
/// moves: while it moves, its facing is its direction; once it stands still, its direction
/// is neutral and it keeps facing the way it faced before.
pub proof fn law_steer_keeps_body(s: Steering, tile_map: &TileMap, f: SteeringFrame)
    ensures
        spec_steer(s, tile_map, f).0.pos == f.pos,
        spec_steer(s, tile_map, f).0.dimens == s.dimens,
        ({
            let r = spec_steer(s, tile_map, f).0;
            (r.mode == SteeringMode::Grounded || r.mode == SteeringMode::Climbing) ==> ((
            r.direction == standing_still() && r.facing == s.facing) || (r.direction
                != standing_still() && r.facing == r.direction))
        }),
{
}

/// A grounded entity that stays on the ground moves, and faces, the way of the horizontal
/// input; without input it stands still and keeps its facing.
pub proof fn law_walking_sets_facing(s: Steering, tile_map: &TileMap, f: SteeringFrame)
    ensures
        ({
            let r = spec_steer(s, tile_map, f).0;
            s.mode == SteeringMode::Grounded && r.mode == SteeringMode::Grounded ==> {
                &&& f.input_x != Direction1D::Neutral ==> r.direction == (Direction2D {
                    x: f.input_x,
                    y: Direction1D::Neutral,
                }) && r.facing == r.direction
                &&& f.input_x == Direction1D::Neutral ==> r.direction == standing_still()
                    && r.facing == s.facing
            }
        }),
{
}

/// A fall ends only on solid ground: the top of a ladder or a block, never the middle of a
/// ladder, which can be walked on but not landed on.
pub proof fn law_falls_end_on_solid_ground(s: Steering, tile_map: &TileMap, f: SteeringFrame)
    ensures
        s.mode is Falling && spec_steer(s, tile_map, f).0.mode == SteeringMode::Grounded
            ==> spec_on_solid_ground(&Steering { pos: f.pos, ..s }, tile_map),
{
}

/// A jump begins only from the ground, and only when jump was pressed in this frame.
pub proof fn law_jumps_start_on_the_ground(s: Steering, tile_map: &TileMap, f: SteeringFrame)
    ensures
        spec_steer(s, tile_map, f).1 == ModeStart::Jumping ==> s.mode == SteeringMode::Grounded
            && f.jump,
{
}

/// Walls stop walking: when steering gives a grounded entity a new destination one column
/// to its left or right, no tile in that column, in any row of its body, blocks horizontal
/// movement.
pub proof fn law_walls_stop_walking(s: Steering, tile_map: &TileMap, f: SteeringFrame)
    requires
        steering_fits(&s, &f),
    ensures
        ({
            let r = spec_steer(s, tile_map, f).0;
            r.mode == SteeringMode::Grounded && r.destination != s.destination ==> {
                &&& r.destination.x == f.pos.x - 1 ==> forall|i: int|
                    0 <= i < s.dimens.y ==> !#[trigger] wall_at(tile_map, at(f.pos.x - 1, f.pos.y + i))
                &&& r.destination.x == f.pos.x + 1 ==> forall|i: int|
                    0 <= i < s.dimens.y ==> !#[trigger] wall_at(
                        tile_map,
                        at(f.pos.x + s.dimens.x, f.pos.y + i),
                    )
            }
        }),
{
    let s1 = Steering { pos: f.pos, ..s };
    let (s2, start) = spec_mode_rules(s1, tile_map, f);
    let r = spec_move_rules(s2, tile_map, f, start).0;
    assert(spec_steer(s, tile_map, f).0 == r);
    if r.mode == SteeringMode::Grounded && r.destination != s.destination {
        assert(s2.mode == SteeringMode::Grounded);
        assert(s2.destination == s.destination || s2.destination == f.pos);
        if f.input_x == Direction1D::Neutral {
            assert(r.destination == s2.destination);
            assert(r.destination.x != f.pos.x - 1);
            assert(r.destination.x != f.pos.x + 1);
        } else if f.past_dest_x && f.input_x == Direction1D::Positive {
            assert(r.destination.x != f.pos.x - 1);
            if r.destination.x == f.pos.x + 1 {
                assert(!spec_is_against_wall(&s2, tile_map, s2.pos.y as int, true, s2.dimens.x as int));
                assert forall|i: int| 0 <= i < s.dimens.y implies !#[trigger] wall_at(
                    tile_map,
                    at(f.pos.x + s.dimens.x, f.pos.y + i),
                ) by {
                    assert(at(s2.pos.x + s2.dimens.x, s2.pos.y + i) == at(f.pos.x + s.dimens.x, f.pos.y + i));
                }
            }
        } else if f.before_dest_x && f.input_x == Direction1D::Negative {
            assert(r.destination.x != f.pos.x + 1);
            if r.destination.x == f.pos.x - 1 {
                assert(!spec_is_against_wall(&s2, tile_map, s2.pos.y as int, true, -1));
                assert forall|i: int| 0 <= i < s.dimens.y implies !#[trigger] wall_at(
                    tile_map,
                    at(f.pos.x - 1, f.pos.y + i),
                ) by {
                    assert(at(s2.pos.x + -1, s2.pos.y + i) == at(f.pos.x - 1, f.pos.y + i));
                }
            }
        } else {
            assert(r.destination.x != f.pos.x - 1);
            assert(r.destination.x != f.pos.x + 1);
        }
    }
}

/// Walking sets the next column as the destination: a grounded entity that stays on the
/// ground, is aligned with its destination, asks to walk to a side and has no wall there
/// in any row of its body, gets the neighbouring column on that side as its destination.
pub proof fn law_free_walking_moves_on(s: Steering, tile_map: &TileMap, f: SteeringFrame)
    requires
        in_i32(f.pos.x - 1),
        in_i32(f.pos.x + 1),
    ensures
        ({
            let r = spec_steer(s, tile_map, f).0;
            s.mode == SteeringMode::Grounded && r.mode == SteeringMode::Grounded && !f.jump ==> {
                &&& f.input_x == Direction1D::Negative && f.before_dest_x && (forall|i: int|
                    0 <= i < s.dimens.y ==> !#[trigger] wall_at(tile_map, at(f.pos.x - 1, f.pos.y + i)))
                    ==> r.destination.x == f.pos.x - 1
                &&& f.input_x == Direction1D::Positive && f.past_dest_x && (forall|i: int|
                    0 <= i < s.dimens.y ==> !#[trigger] wall_at(
                        tile_map,
                        at(f.pos.x + s.dimens.x, f.pos.y + i),
                    )) ==> r.destination.x == f.pos.x + 1
            }
        }),
{
}

/// Climbing goes one row at a time along the ladder: a climbing entity that stays on the
/// ladder, is aligned with its destination and asks to go up (or down) with ladder tiles
/// under every column of its body in that row, gets that row as its destination.
pub proof fn law_climbing_follows_the_ladder(s: Steering, tile_map: &TileMap, f: SteeringFrame)
    requires
        in_i32(f.pos.y - 1),
        in_i32(f.pos.y + 1),
    ensures
        ({
            let r = spec_steer(s, tile_map, f).0;
            let s1 = Steering { pos: f.pos, ..s };
            s.mode == SteeringMode::Climbing && !f.jump && f.input_x == Direction1D::Neutral ==> {
                &&& r.mode == SteeringMode::Climbing || r.mode == falling_still()
                &&& f.input_y == Direction1D::Negative && f.before_dest_y && spec_can_climb(
                    &s1,
                    tile_map,
                    -1,
                    0,
                ) ==> r.mode == SteeringMode::Climbing && r.destination.y == f.pos.y - 1
                &&& f.input_y == Direction1D::Positive && f.past_dest_y && spec_can_climb(
                    &s1,
                    tile_map,
                    0,
                    1,
                ) ==> r.mode == SteeringMode::Climbing && r.destination.y == f.pos.y + 1
            }
        }),
{
}

/// Walls stop drifting through the air: an entity jumping or falling sideways whose
/// destination moves one column on that side has no tile blocking horizontal movement in
/// that column, in any row it touches.
pub proof fn law_walls_stop_drifting(s: Steering, tile_map: &TileMap, f: SteeringFrame)
    requires
        steering_fits(&s, &f),
    ensures
        ({
            let r = spec_steer(s, tile_map, f).0;
            (r.mode is Jumping || r.mode is Falling) ==> {
                &&& (s.mode == (SteeringMode::Jumping { x_movement: Direction1D::Positive })
                    || s.mode == (SteeringMode::Falling { x_movement: Direction1D::Positive }))
                    && r.destination.x == s.destination.x + 1 ==> forall|i: int|
                    0 <= i < wall_rows(&s, f.on_grid_y) ==> !#[trigger] wall_at(
                        tile_map,
                        at(f.pos.x + s.dimens.x, f.floored_y + i),
                    )
                &&& (s.mode == (SteeringMode::Jumping { x_movement: Direction1D::Negative })
                    || s.mode == (SteeringMode::Falling { x_movement: Direction1D::Negative }))
                    && r.destination.x == s.destination.x - 1 ==> forall|i: int|
                    0 <= i < wall_rows(&s, f.on_grid_y) ==> !#[trigger] wall_at(
                        tile_map,
                        at(f.pos.x - 1, f.floored_y + i),
                    )
            }
        }),
{
    let s1 = Steering { pos: f.pos, ..s };
    let (s2, start) = spec_mode_rules(s1, tile_map, f);
    let r = spec_move_rules(s2, tile_map, f, start).0;
    assert(spec_steer(s, tile_map, f).0 == r);
    if r.mode is Jumping || r.mode is Falling {
        let right = s.mode == (SteeringMode::Jumping { x_movement: Direction1D::Positive })
            || s.mode == (SteeringMode::Falling { x_movement: Direction1D::Positive });
        let left = s.mode == (SteeringMode::Jumping { x_movement: Direction1D::Negative })
            || s.mode == (SteeringMode::Falling { x_movement: Direction1D::Negative });
        if right {
            assert(s2.destination == s.destination && s2.pos == f.pos);
            assert(r.destination == spec_air_move(s2, tile_map, f, Direction1D::Positive));
            if r.destination.x == s.destination.x + 1 {
                assert(!spec_is_against_wall(&s2, tile_map, f.floored_y as int, f.on_grid_y, s2.dimens.x as int));
                assert forall|i: int| 0 <= i < wall_rows(&s, f.on_grid_y) implies !#[trigger] wall_at(
                    tile_map,
                    at(f.pos.x + s.dimens.x, f.floored_y + i),
                ) by {
                    assert(wall_rows(&s2, f.on_grid_y) == wall_rows(&s, f.on_grid_y));
                    assert(at(s2.pos.x + s2.dimens.x, f.floored_y + i) == at(f.pos.x + s.dimens.x, f.floored_y + i));
                }
            }
        }
        if left {
            assert(s2.destination == s.destination && s2.pos == f.pos);
            assert(r.destination == spec_air_move(s2, tile_map, f, Direction1D::Negative));
            if r.destination.x == s.destination.x - 1 {
                assert(!spec_is_against_wall(&s2, tile_map, f.floored_y as int, f.on_grid_y, -1));
                assert forall|i: int| 0 <= i < wall_rows(&s, f.on_grid_y) implies !#[trigger] wall_at(
                    tile_map,
                    at(f.pos.x - 1, f.floored_y + i),
                ) by {
                    assert(wall_rows(&s2, f.on_grid_y) == wall_rows(&s, f.on_grid_y));
                    assert(at(s2.pos.x + -1, f.floored_y + i) == at(f.pos.x - 1, f.floored_y + i));
                }
            }
        }
    }
}

} // verus!
