use vstd::prelude::*;

verus! {

/// A direction along a single axis.
#[derive(Clone, Copy, Debug, PartialEq, Eq, Structural)]
pub enum Direction1D {
    Negative,
    Positive,
    Neutral,
}

/// The sign of a direction as an integer: 1, -1 or 0.
pub open spec fn spec_signum(d: Direction1D) -> int {
    match d {
        Direction1D::Positive => 1,
        Direction1D::Negative => -1,
        Direction1D::Neutral => 0,
    }
}

/// Two directions are opposite when one is positive and the other negative.
pub open spec fn spec_opposite(a: Direction1D, b: Direction1D) -> bool {
    (a == Direction1D::Negative && b == Direction1D::Positive)
        || (a == Direction1D::Positive && b == Direction1D::Negative)
}

impl Direction1D {
    pub fn is_opposite(&self, other: &Direction1D) -> (res: bool)
        ensures
            res == spec_opposite(*self, *other),
    {
        match (self, other) {
            (Direction1D::Negative, Direction1D::Positive) => true,
            (Direction1D::Positive, Direction1D::Negative) => true,
            _ => false,
        }
    }

    pub fn is_positive(&self) -> (res: bool)
        ensures
            res == (*self == Direction1D::Positive),
    {
        matches!(self, Direction1D::Positive)
    }

    pub fn is_negative(&self) -> (res: bool)
        ensures
            res == (*self == Direction1D::Negative),
    {
        matches!(self, Direction1D::Negative)
    }

    pub fn is_neutral(&self) -> (res: bool)
        ensures
            res == (*self == Direction1D::Neutral),
    {
        matches!(self, Direction1D::Neutral)
    }

    pub fn signum_i(&self) -> (res: i32)
        ensures
            res as int == spec_signum(*self),
    {
        match self {
            Direction1D::Positive => 1,
            Direction1D::Negative => -1,
            Direction1D::Neutral => 0,
        }
    }
}

impl Default for Direction1D {
    fn default() -> (res: Self)
        ensures
            res == Direction1D::Neutral,
    {
        Direction1D::Neutral
    }
}

/// Two directions on the plane. Opposite when they are opposite along either axis.
#[derive(Clone, Copy, Debug, PartialEq, Eq, Structural)]
pub struct Direction2D {
    pub x: Direction1D,
    pub y: Direction1D,
}

impl Direction2D {
    pub fn from(x: Direction1D, y: Direction1D) -> (res: Self)
        ensures
            res.x == x,
            res.y == y,
    {
        Direction2D { x, y }
    }

    pub fn is_opposite(&self, other: &Direction2D) -> (res: bool)
        ensures
            res == (spec_opposite(self.x, other.x) || spec_opposite(self.y, other.y)),
    {
        self.x.is_opposite(&other.x) || self.y.is_opposite(&other.y)
    }

    pub fn is_neutral(&self) -> (res: bool)
        ensures
            res == (self.x == Direction1D::Neutral && self.y == Direction1D::Neutral),
    {
        self.x.is_neutral() && self.y.is_neutral()
    }
}

impl Default for Direction2D {
    fn default() -> (res: Self)
        ensures
            res.x == Direction1D::Neutral,
            res.y == Direction1D::Neutral,
    {
        Direction2D { x: Direction1D::Neutral, y: Direction1D::Neutral }
    }
}

/// A discrete position in the world, with x and y being integral numbers.
/// Tiles are always snapped to such positions.
#[derive(Clone, Copy, Debug, PartialEq, Eq, Structural, Hash)]
pub struct Pos {
    pub x: i32,
    pub y: i32,
}

impl Pos {
    pub fn new(x: i32, y: i32) -> (res: Self)
        ensures
            res.x == x,
            res.y == y,
    {
        Pos { x, y }
    }
}

impl Default for Pos {
    fn default() -> (res: Self)
        ensures
            res.x == 0,
            res.y == 0,
    {
        Pos { x: 0, y: 0 }
    }
}

/// Remembers the direction an entity is moving in, and its destination as a discrete
/// position. Steering gives the snap-to-grid, tile-based movement.
#[derive(Debug, Clone, Copy, PartialEq, Eq, Structural)]
pub struct Steering {
    /// The entity's discrete position: the bottom-left tile of its body.
    pub pos: Pos,
    /// Width and height of the entity.
    pub dimens: Pos,
    /// Direction the entity is travelling along the x-axis and y-axis.
    /// Always Neutral if the entity is not moving.
    pub direction: Direction2D,
    /// Equal to direction while the entity moves; keeps the last direction once it stops.
    pub facing: Direction2D,
    pub destination: Pos,
    pub mode: SteeringMode,
}

/// How the entity intends to move, as given by the keyboard or by an AI.
#[derive(Debug, Clone, Copy, PartialEq, Eq, Structural)]
pub struct SteeringIntent {
    /// The entity wishes to walk along the floor in this direction.
    pub walk: Direction1D,
    /// The entity wishes to climb on a ladder in this direction.
    pub climb: Direction1D,
    /// The entity wishes to jump.
    pub jump: bool,
    /// The entity wishes to jump in this direction.
    pub jump_direction: Direction1D,
}

impl Default for SteeringIntent {
    fn default() -> (res: Self)
        ensures
            res.walk == Direction1D::Neutral,
            res.climb == Direction1D::Neutral,
            !res.jump,
            res.jump_direction == Direction1D::Neutral,
    {
        SteeringIntent {
            walk: Direction1D::Neutral,
            climb: Direction1D::Neutral,
            jump: false,
            jump_direction: Direction1D::Neutral,
        }
    }
}

/// How an entity moves: it decides max speeds, the ability to jump, to move, etc.
/// The height and the moment at which a fall or a jump began are kept by the game loop,
/// beside this state.
#[derive(Debug, Clone, Copy, PartialEq, Eq, Structural)]
pub enum SteeringMode {
    /// There is flat ground beneath the entity; it can move horizontally or start a jump.
    Grounded,
    /// Climbing on a ladder, up or down.
    Climbing,
    /// Falling straight down, with a constant horizontal movement.
    Falling { x_movement: Direction1D },
    /// Jumping, with a constant horizontal movement.
    Jumping { x_movement: Direction1D },
}

impl Default for SteeringMode {
    fn default() -> (res: Self)
        ensures
            res == SteeringMode::Grounded,
    {
        SteeringMode::Grounded
    }
}

impl Steering {
    /// A grounded entity standing still at `pos`, facing right.
    pub fn new(pos: Pos, dimens: Pos) -> (res: Steering)
        ensures
            res.pos == pos,
            res.dimens == dimens,
            res.direction == (Direction2D { x: Direction1D::Neutral, y: Direction1D::Neutral }),
            res.facing == (Direction2D { x: Direction1D::Positive, y: Direction1D::Neutral }),
            res.destination == pos,
            res.mode == SteeringMode::Grounded,
    {
        Steering {
            pos,
            dimens,
            direction: Direction2D::default(),
            facing: Direction2D::from(Direction1D::Positive, Direction1D::Neutral),
            destination: pos,
            mode: SteeringMode::Grounded,
        }
    }

    pub fn is_grounded(&self) -> (res: bool)
        ensures
            res == (self.mode == SteeringMode::Grounded),
    {
        matches!(self.mode, SteeringMode::Grounded)
    }

    /// Falling or jumping.
    pub fn is_mid_air(&self) -> (res: bool)
        ensures
            res == (self.mode is Falling || self.mode is Jumping),
    {
        match self.mode {
            SteeringMode::Falling { .. } => true,
            SteeringMode::Jumping { .. } => true,
            _ => false,
        }
    }

    pub fn is_jumping(&self) -> (res: bool)
        ensures
            res == (self.mode is Jumping),
    {
        matches!(self.mode, SteeringMode::Jumping { .. })
    }

    pub fn is_falling(&self) -> (res: bool)
        ensures
            res == (self.mode is Falling),
    {
        matches!(self.mode, SteeringMode::Falling { .. })
    }

    pub fn is_climbing(&self) -> (res: bool)
        ensures
            res == (self.mode == SteeringMode::Climbing),
    {
        matches!(self.mode, SteeringMode::Climbing)
    }
}

/// Oppositeness is symmetric, and a neutral direction is opposite to nothing.
pub proof fn law_opposite_symmetric(a: Direction1D, b: Direction1D)
    ensures
        spec_opposite(a, b) == spec_opposite(b, a),
        a == Direction1D::Neutral ==> !spec_opposite(a, b),
        !spec_opposite(a, a),
{
}

/// Two directions are opposite exactly when their signs multiply to -1.
pub proof fn law_opposite_signs(a: Direction1D, b: Direction1D)
    ensures
        spec_opposite(a, b) == (spec_signum(a) * spec_signum(b) == -1),
{
}

} // verus!
