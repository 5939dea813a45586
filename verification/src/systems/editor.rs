use crate::components::movement::{spec_opposite, spec_signum, Direction1D, Direction2D, Pos};
use crate::resources::editor::Selector;
use vstd::prelude::*;

verus! {

/// What the cursor does in a frame, given the direction it moved in the last frame and the
/// direction asked for now.
#[derive(Debug, Clone, Copy, PartialEq, Eq, Structural)]
pub enum CursorStep {
    /// Movement starts: move once now, then wait the long cooldown.
    Start,
    /// The direction reversed: wait the long cooldown again without moving.
    Reset,
    /// Movement goes on: tick the cooldown down and move once it has run out.
    Continue,
    /// No movement asked for.
    Idle,
}

pub open spec fn is_neutral_2d(d: Direction2D) -> bool {
    d.x == Direction1D::Neutral && d.y == Direction1D::Neutral
}

/// Decides how the cursor moves this frame.
pub fn cursor_step(last_direction: &Direction2D, new_direction: &Direction2D) -> (res: CursorStep)
    ensures
        is_neutral_2d(*last_direction) && !is_neutral_2d(*new_direction) ==> res == CursorStep::Start,
        !(is_neutral_2d(*last_direction) && !is_neutral_2d(*new_direction)) && (spec_opposite(
            last_direction.x,
            new_direction.x,
        ) || spec_opposite(last_direction.y, new_direction.y)) ==> res == CursorStep::Reset,
        !(is_neutral_2d(*last_direction) && !is_neutral_2d(*new_direction)) && !(spec_opposite(
            last_direction.x,
            new_direction.x,
        ) || spec_opposite(last_direction.y, new_direction.y)) ==> res == if !is_neutral_2d(
            *new_direction,
        ) {
            CursorStep::Continue
        } else {
            CursorStep::Idle
        },
{
    if last_direction.is_neutral() && !new_direction.is_neutral() {
        CursorStep::Start
    } else if last_direction.is_opposite(new_direction) {
        CursorStep::Reset
    } else if !new_direction.is_neutral() {
        CursorStep::Continue
    } else {
        CursorStep::Idle
    }
}

/// Unless shift is held, a moving cursor drags the selection's start along, so that the
/// selection shrinks to the cursor's cell.
pub fn update_selection(selector: &mut Selector, shift: bool, direction: &Direction2D)
    ensures
        final(selector).end == old(selector).end,
        !shift && !is_neutral_2d(*direction) ==> final(selector).start == old(selector).end,
        shift || is_neutral_2d(*direction) ==> final(selector).start == old(selector).start,
{
    if !shift && !direction.is_neutral() {
        selector.start = selector.end;
    }
}

/// Moves the cursor, the selection's end, one cell in the given direction. Where that cell
/// lies outside the grid of `i32` positions, nothing moves and the result is false.
pub fn step_cursor(selector: &mut Selector, direction: &Direction2D) -> (res: bool)
    ensures
        res == (i32::MIN <= old(selector).end.x + spec_signum(direction.x) <= i32::MAX
            && i32::MIN <= old(selector).end.y + spec_signum(direction.y) <= i32::MAX),
        final(selector).start == old(selector).start,
        res ==> final(selector).end == (Pos {
            x: (old(selector).end.x + spec_signum(direction.x)) as i32,
            y: (old(selector).end.y + spec_signum(direction.y)) as i32,
        }),
        !res ==> final(selector).end == old(selector).end,
{
    let x: i64 = selector.end.x as i64 + direction.x.signum_i() as i64;
    let y: i64 = selector.end.y as i64 + direction.y.signum_i() as i64;
    if x < -2147483648i64 || x > 2147483647i64 || y < -2147483648i64 || y > 2147483647i64 {
        return false;
    }
    selector.end = Pos::new(x as i32, y as i32);
    true
}

} // verus!
