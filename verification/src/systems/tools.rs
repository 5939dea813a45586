use crate::components::movement::{spec_signum, Direction1D, Pos, Steering, SteeringMode};
use crate::components::objects::Tool;
use crate::components::player::Player;
use crate::levels::tile_definition::ToolType;
use crate::resources::tilemap::{resolve, Cell, TileMap};
use crate::systems::player_steering::{at, in_i32};
use vstd::prelude::*;

verus! {

/// The column just beside the entity on the side it faces: right of its body when it faces
/// right, left of it otherwise.
pub open spec fn side_offset(steering: &Steering) -> int {
    if steering.facing.x == Direction1D::Positive {
        steering.dimens.x as int
    } else {
        -1
    }
}

/// The tile `x` columns deep beside the entity, at row `y` of its body.
pub open spec fn side_tile(steering: &Steering, x: int, y: int) -> (int, int) {
    (
        steering.pos.x + side_offset(steering) + x * spec_signum(steering.facing.x),
        steering.pos.y + y,
    )
}

/// The column of the entity's body at which breaking below starts: its right-most column
/// when it faces right, its left-most otherwise.
pub open spec fn below_offset(steering: &Steering) -> int {
    if steering.facing.x == Direction1D::Positive {
        steering.dimens.x - 1
    } else {
        0
    }
}

/// The tile below the entity at column `x` (counted in the facing direction) and `y` rows
/// deep.
pub open spec fn below_tile(steering: &Steering, x: int, y: int) -> (int, int) {
    (
        steering.pos.x + below_offset(steering) + x * spec_signum(steering.facing.x),
        steering.pos.y - 1 - y,
    )
}

/// The tiles beside the entity, `depth` columns deep: column by column, each from the bottom
/// row of the entity's body up.
pub open spec fn side_tiles(steering: &Steering, depth: int) -> Seq<Pos> {
    let h = steering.dimens.y as int;
    if h > 0 && depth > 0 {
        Seq::new((depth * h) as nat, |k: int| at(side_tile(steering, k / h, k % h).0, side_tile(steering, k / h, k % h).1))
    } else {
        Seq::empty()
    }
}

/// The tiles below the entity, `depth` rows deep: column by column in the facing direction,
/// each from the top down.
pub open spec fn below_tiles(steering: &Steering, depth: int) -> Seq<Pos> {
    let w = steering.dimens.x as int;
    if w > 0 && depth > 0 {
        Seq::new((w * depth) as nat, |k: int| at(below_tile(steering, k / depth, k % depth).0, below_tile(steering, k / depth, k % depth).1))
    } else {
        Seq::empty()
    }
}

/// A sequence laid out as `n` groups of `m`, whose element `a * m + b` is `f(a, b)`, is the
/// sequence of `f(k / m, k % m)`.
proof fn lemma_grid_seq(s: Seq<Pos>, n: int, m: int, f: spec_fn(int, int) -> Pos)
    requires
        n > 0,
        m > 0,
        s.len() == n * m,
        forall|a: int, b: int| 0 <= a < n && 0 <= b < m ==> s[a * m + b] == #[trigger] f(a, b),
    ensures
        s =~= Seq::new((n * m) as nat, |k: int| f(k / m, k % m)),
{
    assert forall|k: int| 0 <= k < n * m implies s[k] == f(k / m, k % m) by {
        vstd::arithmetic::div_mod::lemma_fundamental_div_mod(k, m);
        let a = k / m;
        let b = k % m;
        assert(0 <= b < m);
        assert(a >= 0) by (nonlinear_arith)
            requires
                k == m * a + b,
                0 <= k,
                0 <= b < m,
        ;
        assert(a < n) by (nonlinear_arith)
            requires
                k == m * a + b,
                k < n * m,
                0 <= b,
                m > 0,
        ;
        assert(k == a * m + b) by (nonlinear_arith)
            requires
                k == m * a + b,
        ;
    }
}

pub open spec fn side_tiles_fit(steering: &Steering, depth: int) -> bool {
    forall|x: int, y: int|
        0 <= x < depth && 0 <= y < steering.dimens.y ==> in_i32(
            (#[trigger] side_tile(steering, x, y)).0,
        ) && in_i32(side_tile(steering, x, y).1)
}

pub open spec fn below_tiles_fit(steering: &Steering, depth: int) -> bool {
    forall|x: int, y: int|
        0 <= x < steering.dimens.x && 0 <= y < depth ==> in_i32(
            (#[trigger] below_tile(steering, x, y)).0,
        ) && in_i32(below_tile(steering, x, y).1)
}

/// The tiles beside the entity, `depth` columns deep, on the side it faces; column by
/// column, each from the bottom row of the entity's body up.
pub fn tiles_to_side(depth: u8, steering: &Steering) -> (res: Vec<Pos>)
    requires
        side_tiles_fit(steering, depth as int),
    ensures
        res@ == side_tiles(steering, depth as int),
{
    let facing_offset: i64 = if steering.facing.x.is_positive() {
        steering.dimens.x as i64
    } else {
        -1
    };
    let sign: i64 = steering.facing.x.signum_i() as i64;
    let mut res: Vec<Pos> = Vec::new();
    let mut x: u8 = 0;
    while x < depth
        invariant
            x <= depth,
            facing_offset == side_offset(steering),
            sign == spec_signum(steering.facing.x),
            side_tiles_fit(steering, depth as int),
            steering.dimens.y > 0 ==> res@.len() == x * steering.dimens.y,
            steering.dimens.y <= 0 ==> res@.len() == 0,
            forall|a: int, b: int|
                0 <= a < x && 0 <= b < steering.dimens.y ==> res@[a * steering.dimens.y + b] == at(
                    side_tile(steering, a, b).0,
                    side_tile(steering, a, b).1,
                ),
        decreases depth - x,
    {
        let mut y: i32 = 0;
        let ghost start = res@;
        while y < steering.dimens.y
            invariant
                x < depth,
                0 <= y,
                steering.dimens.y > 0 ==> y <= steering.dimens.y,
                facing_offset == side_offset(steering),
                sign == spec_signum(steering.facing.x),
                side_tiles_fit(steering, depth as int),
                steering.dimens.y > 0 ==> start.len() == x * steering.dimens.y,
                steering.dimens.y <= 0 ==> start.len() == 0 && y == 0,
                res@.len() == start.len() + y,
                forall|k: int| 0 <= k < start.len() ==> res@[k] == start[k],
                forall|b: int|
                    0 <= b < y ==> res@[start.len() + b] == at(
                        side_tile(steering, x as int, b).0,
                        side_tile(steering, x as int, b).1,
                    ),
            decreases steering.dimens.y - y,
        {
            assert(in_i32(side_tile(steering, x as int, y as int).0) && in_i32(
                side_tile(steering, x as int, y as int).1,
            ));
            assert(-1 <= sign <= 1);
            assert(-256 <= (x as i64) * sign <= 256) by (nonlinear_arith)
                requires
                    -1 <= sign <= 1,
                    x < 256,
            ;
            let col: i64 = steering.pos.x as i64 + facing_offset + (x as i64) * sign;
            let row: i64 = steering.pos.y as i64 + y as i64;
            res.push(Pos::new(col as i32, row as i32));
            y = y + 1;
        }
        proof {
            if steering.dimens.y > 0 {
                assert(x * steering.dimens.y + steering.dimens.y == (x + 1) * steering.dimens.y)
                    by (nonlinear_arith);
                assert forall|a: int, b: int|
                    0 <= a < x + 1 && 0 <= b < steering.dimens.y implies res@[a * steering.dimens.y
                    + b] == at(side_tile(steering, a, b).0, side_tile(steering, a, b).1) by {
                    if a < x {
                        assert(a * steering.dimens.y + b < x * steering.dimens.y) by (nonlinear_arith)
                            requires
                                0 <= a < x,
                                0 <= b < steering.dimens.y,
                        ;
                    } else {
                        assert(a * steering.dimens.y == x * steering.dimens.y);
                    }
                }
            }
        }
        x = x + 1;
    }
    proof {
        let h = steering.dimens.y as int;
        if h > 0 && depth > 0 {
            lemma_grid_seq(
                res@,
                depth as int,
                h,
                |a: int, b: int| at(side_tile(steering, a, b).0, side_tile(steering, a, b).1),
            );
        } else if h > 0 {
            assert(res@.len() == 0);
        }
    }
    res
}

/// The tiles below the entity, `depth` rows deep, under each column of its body; column by
/// column in the facing direction, each from the top down.
pub fn tiles_below(depth: u8, steering: &Steering) -> (res: Vec<Pos>)
    requires
        below_tiles_fit(steering, depth as int),
    ensures
        res@ == below_tiles(steering, depth as int),
{
    let facing_offset: i64 = if steering.facing.x.is_positive() {
        steering.dimens.x as i64 - 1
    } else {
        0
    };
    let sign: i64 = steering.facing.x.signum_i() as i64;
    let mut res: Vec<Pos> = Vec::new();
    let mut x: i32 = 0;
    while x < steering.dimens.x
        invariant
            0 <= x,
            steering.dimens.x > 0 ==> x <= steering.dimens.x,
            steering.dimens.x <= 0 ==> x == 0,
            facing_offset == below_offset(steering),
            sign == spec_signum(steering.facing.x),
            below_tiles_fit(steering, depth as int),
            res@.len() == x * depth,
            forall|a: int, b: int|
                0 <= a < x && 0 <= b < depth ==> res@[a * depth + b] == at(
                    below_tile(steering, a, b).0,
                    below_tile(steering, a, b).1,
                ),
        decreases steering.dimens.x - x,
    {
        let mut y: u8 = 0;
        let ghost start = res@;
        while y < depth
            invariant
                0 <= x < steering.dimens.x,
                y <= depth,
                facing_offset == below_offset(steering),
                sign == spec_signum(steering.facing.x),
                below_tiles_fit(steering, depth as int),
                start.len() == x * depth,
                res@.len() == start.len() + y,
                forall|k: int| 0 <= k < start.len() ==> res@[k] == start[k],
                forall|b: int|
                    0 <= b < y ==> res@[start.len() + b] == at(
                        below_tile(steering, x as int, b).0,
                        below_tile(steering, x as int, b).1,
                    ),
            decreases depth - y,
        {
            assert(in_i32(below_tile(steering, x as int, y as int).0) && in_i32(
                below_tile(steering, x as int, y as int).1,
            ));
            assert(-1 <= sign <= 1);
            assert(-(i32::MAX as int) <= (x as i64) * sign <= i32::MAX) by (nonlinear_arith)
                requires
                    -1 <= sign <= 1,
                    0 <= x <= i32::MAX,
            ;
            let col: i64 = steering.pos.x as i64 + facing_offset + (x as i64) * sign;
            let row: i64 = steering.pos.y as i64 - 1 - y as i64;
            res.push(Pos::new(col as i32, row as i32));
            y = y + 1;
        }
        proof {
            assert(x * depth + depth == (x + 1) * depth) by (nonlinear_arith);
            assert forall|a: int, b: int| 0 <= a < x + 1 && 0 <= b < depth implies res@[a * depth + b]
                == at(below_tile(steering, a, b).0, below_tile(steering, a, b).1) by {
                if a < x {
                    assert(a * depth + b < x * depth) by (nonlinear_arith)
                        requires
                            0 <= a < x,
                            0 <= b < depth,
                    ;
                } else {
                    assert(a * depth == x * depth);
                }
            }
        }
        x = x + 1;
    }
    assert(0 * depth == 0);
    proof {
        let w = steering.dimens.x as int;
        if w > 0 && depth > 0 {
            assert(res@.len() == w * depth);
            lemma_grid_seq(
                res@,
                w,
                depth as int,
                |a: int, b: int| at(below_tile(steering, a, b).0, below_tile(steering, a, b).1),
            );
        } else if w > 0 {
            assert(w * 0 == 0);
        }
    }
    res
}

fn side_tiles_fit_exec(steering: &Steering, depth: u8) -> (res: bool)
    ensures
        res == side_tiles_fit(steering, depth as int),
{
    let sign: i64 = steering.facing.x.signum_i() as i64;
    let off: i64 = if steering.facing.x.is_positive() {
        steering.dimens.x as i64
    } else {
        -1
    };
    let h: i64 = steering.dimens.y as i64;
    let mut x: i64 = 0;
    while x < depth as i64
        invariant
            0 <= x <= depth,
            sign == spec_signum(steering.facing.x),
            off == side_offset(steering),
            h == steering.dimens.y,
            forall|a: int, b: int|
                0 <= a < x && 0 <= b < steering.dimens.y ==> in_i32(
                    (#[trigger] side_tile(steering, a, b)).0,
                ) && in_i32(side_tile(steering, a, b).1),
        decreases depth - x,
    {
        let cx: i64 = steering.pos.x as i64 + off + x * sign;
        let mut y: i64 = 0;
        while y < h
            invariant
                0 <= x < depth,
                0 <= y,
                h == steering.dimens.y,
                cx == side_tile(steering, x as int, 0).0,
                forall|a: int, b: int|
                    0 <= a < x && 0 <= b < steering.dimens.y ==> in_i32(
                        (#[trigger] side_tile(steering, a, b)).0,
                    ) && in_i32(side_tile(steering, a, b).1),
                forall|b: int|
                    0 <= b < y ==> in_i32((#[trigger] side_tile(steering, x as int, b)).0) && in_i32(
                        side_tile(steering, x as int, b).1,
                    ),
            decreases h - y,
        {
            let cy: i64 = steering.pos.y as i64 + y;
            if cx < -2147483648i64 || cx > 2147483647i64 || cy < -2147483648i64 || cy > 2147483647i64 {
                proof {
                    assert(side_tile(steering, x as int, y as int) == (cx as int, cy as int));
                }
                return false;
            }
            proof {
                assert(side_tile(steering, x as int, y as int) == (cx as int, cy as int));
            }
            y = y + 1;
        }
        x = x + 1;
    }
    true
}

fn below_tiles_fit_exec(steering: &Steering, depth: u8) -> (res: bool)
    ensures
        res == below_tiles_fit(steering, depth as int),
{
    let sign: i64 = steering.facing.x.signum_i() as i64;
    let off: i64 = if steering.facing.x.is_positive() {
        steering.dimens.x as i64 - 1
    } else {
        0
    };
    let w: i64 = steering.dimens.x as i64;
    let mut x: i64 = 0;
    while x < w
        invariant
            0 <= x,
            w == steering.dimens.x,
            sign == spec_signum(steering.facing.x),
            off == below_offset(steering),
            forall|a: int, b: int|
                0 <= a < x && 0 <= b < depth ==> in_i32(
                    (#[trigger] below_tile(steering, a, b)).0,
                ) && in_i32(below_tile(steering, a, b).1),
        decreases w - x,
    {
        let cx: i64 = steering.pos.x as i64 + off + x * sign;
        let mut y: i64 = 0;
        while y < depth as i64
            invariant
                0 <= x < w,
                0 <= y <= depth,
                w == steering.dimens.x,
                cx == below_tile(steering, x as int, 0).0,
                forall|a: int, b: int|
                    0 <= a < x && 0 <= b < depth ==> in_i32(
                        (#[trigger] below_tile(steering, a, b)).0,
                    ) && in_i32(below_tile(steering, a, b).1),
                forall|b: int|
                    0 <= b < y ==> in_i32((#[trigger] below_tile(steering, x as int, b)).0) && in_i32(
                        below_tile(steering, x as int, b).1,
                    ),
            decreases depth - y,
        {
            let cy: i64 = steering.pos.y as i64 - 1 - y;
            if cx < -2147483648i64 || cx > 2147483647i64 || cy < -2147483648i64 || cy > 2147483647i64 {
                proof {
                    assert(below_tile(steering, x as int, y as int) == (cx as int, cy as int));
                }
                return false;
            }
            proof {
                assert(below_tile(steering, x as int, y as int) == (cx as int, cy as int));
            }
            y = y + 1;
        }
        x = x + 1;
    }
    true
}

/// Whether the tiles that the player's tool would target lie inside the grid of `i32`
/// positions, as `use_tool` needs.
pub fn tool_fits(player: &Player, steering: &Steering) -> (res: bool)
    ensures
        res == ((player.equipped matches Some(ToolType::BreakBlocksHorizontally(_))
            ==> side_tiles_fit(steering, 2)) && (player.equipped matches Some(
            ToolType::BreakBlocksBelow(_),
        ) ==> below_tiles_fit(steering, 2))),
{
    match player.equipped {
        Some(ToolType::BreakBlocksHorizontally(_)) => side_tiles_fit_exec(steering, 2),
        Some(ToolType::BreakBlocksBelow(_)) => below_tiles_fit_exec(steering, 2),
        None => true,
    }
}

/// The player touches a tool. A player with empty hands takes it up; one that already
/// carries a tool leaves it lying. Returns whether the tool was taken, so that its entity
/// can be removed from the level.
pub fn pick_up(player: &mut Player, tool: &Tool) -> (res: bool)
    ensures
        res == (old(player).equipped is None),
        res ==> final(player).equipped == Some(tool.tool_type),
        !res ==> *final(player) == *old(player),
{
    if player.equipped.is_some() {
        false
    } else {
        player.equipped = Some(tool.tool_type);
        true
    }
}

/// The positions that the carried tool would break: two columns beside the player for a
/// horizontal breaker, two rows below it for a downward one. None without a tool.
pub open spec fn tool_targets(equipped: Option<ToolType>, steering: &Steering) -> Option<Seq<Pos>> {
    match equipped {
        Some(ToolType::BreakBlocksHorizontally(_)) => Some(side_tiles(steering, 2)),
        Some(ToolType::BreakBlocksBelow(_)) => Some(below_tiles(steering, 2)),
        None => None,
    }
}

pub open spec fn breakable_at(tile_map: &TileMap, q: Pos) -> bool {
    match tile_map.tile_at(q) {
        Some(t) => t.spec_is_breakable(),
        None => false,
    }
}

/// At least one of the targets can be broken, and each target is either breakable or empty.
pub open spec fn can_break(tile_map: &TileMap, targets: Seq<Pos>) -> bool {
    &&& exists|k: int| 0 <= k < targets.len() && #[trigger] breakable_at(tile_map, targets[k])
    &&& forall|k: int|
        0 <= k < targets.len() ==> tile_map.tile_at(targets[k]) is None || #[trigger] breakable_at(
            tile_map,
            targets[k],
        )
}

/// Whether the player uses its tool: it stands on the ground, carries a tool, and the tool
/// can break what it targets.
pub open spec fn tool_used(player: Player, steering: &Steering, tile_map: &TileMap) -> bool {
    &&& steering.mode == SteeringMode::Grounded
    &&& tool_targets(player.equipped, steering) matches Some(targets)
    &&& can_break(tile_map, targets)
}

/// The player tries to use its tool. If it is used, the tool is used up, the targeted tiles
/// are removed from the map, and their positions are returned so that the entities there
/// can be deleted. Otherwise nothing changes.
pub fn use_tool(player: &mut Player, steering: &Steering, tile_map: &mut TileMap) -> (res: Option<
    Vec<Pos>,
>)
    requires
        old(player).equipped matches Some(ToolType::BreakBlocksHorizontally(_)) ==> side_tiles_fit(
            steering,
            2,
        ),
        old(player).equipped matches Some(ToolType::BreakBlocksBelow(_)) ==> below_tiles_fit(
            steering,
            2,
        ),
    ensures
        tool_used(*old(player), steering, old(tile_map)) ==> {
            &&& res matches Some(targets)
            &&& Some(targets@) == tool_targets(old(player).equipped, steering)
            &&& final(player).equipped == None::<ToolType>
            &&& final(tile_map).pos == old(tile_map).pos
            &&& final(tile_map).dimens == old(tile_map).dimens
            &&& final(tile_map).defs() == old(tile_map).defs()
            &&& final(tile_map).cells() == old(tile_map).cells().remove_keys(targets@.to_set())
        },
        !tool_used(*old(player), steering, old(tile_map)) ==> {
            &&& res is None
            &&& *final(player) == *old(player)
            &&& *final(tile_map) == *old(tile_map)
        },
        res matches Some(targets) ==> exists|k: int|
            0 <= k < targets@.len() && #[trigger] breakable_at(old(tile_map), targets@[k]),
{
    if !steering.is_grounded() {
        return None;
    }
    let targets = match player.equipped {
        Some(ToolType::BreakBlocksHorizontally(_)) => tiles_to_side(2, steering),
        Some(ToolType::BreakBlocksBelow(_)) => tiles_below(2, steering),
        None => {
            return None;
        },
    };
    let ghost ts = targets@;
    let n = targets.len();
    let mut any_breakable = false;
    let mut all_clear = true;
    let mut k: usize = 0;
    while k < n
        invariant
            n == ts.len(),
            ts == targets@,
            k <= n,
            any_breakable == exists|j: int| 0 <= j < k && #[trigger] breakable_at(tile_map, ts[j]),
            all_clear == forall|j: int|
                0 <= j < k ==> tile_map.tile_at(ts[j]) is None || #[trigger] breakable_at(
                    tile_map,
                    ts[j],
                ),
        decreases n - k,
    {
        let tile = tile_map.get_tile(&targets[k]);
        match tile {
            Some(t) => {
                if t.is_breakable() {
                    any_breakable = true;
                    assert(breakable_at(tile_map, ts[k as int]));
                } else {
                    all_clear = false;
                    assert(!breakable_at(tile_map, ts[k as int]));
                }
            },
            None => {
                assert(!breakable_at(tile_map, ts[k as int]));
            },
        }
        k = k + 1;
    }
    if !(any_breakable && all_clear) {
        return None;
    }
    proof {
        assert(*tile_map == *old(tile_map));
        assert(exists|j: int| 0 <= j < ts.len() && #[trigger] breakable_at(old(tile_map), ts[j]));
    }
    player.equipped = None;
    let ghost before = tile_map.cells();
    let mut i: usize = 0;
    while i < n
        invariant
            n == ts.len(),
            ts == targets@,
            i <= n,
            tile_map.pos == old(tile_map).pos,
            tile_map.dimens == old(tile_map).dimens,
            tile_map.defs() == old(tile_map).defs(),
            tile_map.cells() == before.remove_keys(ts.take(i as int).to_set()),
            exists|j: int| 0 <= j < ts.len() && #[trigger] breakable_at(old(tile_map), ts[j]),
        decreases n - i,
    {
        tile_map.remove_tile(&targets[i]);
        proof {
            let s2 = ts.take(i + 1);
            assert(s2.drop_last() =~= ts.take(i as int));
            assert(s2.to_set() =~= ts.take(i as int).to_set().insert(ts[i as int])) by {
                broadcast use vstd::seq_lib::group_seq_properties;

                assert(s2.drop_last().to_set().insert(s2.last()) =~= s2.to_set());
            }
            assert(before.remove_keys(ts.take(i + 1).to_set()) =~= before.remove_keys(
                ts.take(i as int).to_set(),
            ).remove(ts[i as int]));
        }
        i = i + 1;
    }
    proof {
        assert(ts.take(n as int) =~= ts);
    }
    Some(targets)
}

/// Once a tool has broken its targets, no tile is found at any of them any more.
pub proof fn law_broken_tiles_are_gone(cells: Map<Pos, Cell>, targets: Seq<Pos>, k: int)
    requires
        0 <= k < targets.len(),
    ensures
        resolve(cells.remove_keys(targets.to_set()), targets[k]) == None::<Seq<char>>,
{
    assert(targets.to_set().contains(targets[k]));
}

/// A tool is used only where it breaks something: the player stands on the ground and
/// carries a tool, at least one of the tiles it targets can be broken, and every other
/// target is breakable or empty. A tool is never used up on empty air or against a tile
/// that cannot be broken.
pub proof fn law_tools_break_something(player: Player, steering: Steering, tile_map: TileMap)
    ensures
        tool_used(player, &steering, &tile_map) <==> {
            &&& steering.mode == SteeringMode::Grounded
            &&& tool_targets(player.equipped, &steering) matches Some(targets)
            &&& exists|k: int| 0 <= k < targets.len() && #[trigger] breakable_at(&tile_map, targets[k])
            &&& forall|k: int|
                0 <= k < targets.len() ==> tile_map.tile_at(targets[k]) is None || #[trigger] breakable_at(
                    &tile_map,
                    targets[k],
                )
        },
        tool_used(player, &steering, &tile_map) ==> player.equipped is Some,
        (forall|q: Pos| tile_map.tile_at(q) is None) ==> !tool_used(player, &steering, &tile_map),
{
}

} // verus!
