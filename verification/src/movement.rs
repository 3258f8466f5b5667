use vstd::prelude::*;

verus! {

use crate::grid::PassableTiles;

/// Marker for the single player-controlled entity.
#[derive(Default)]
pub struct Player;

/// World position of an entity, in world units.
#[derive(Clone, Copy, Debug, PartialEq, Eq, Structural)]
pub struct Position {
    pub x: i64,
    pub y: i64,
}

/// Distance the player covers per tick and per unit of axis input.
pub const PLAYER_SPEED: i64 = 5;

/// The candidate position one tick of input proposes: the current position
/// translated by the input axes scaled by the player speed.
pub open spec fn spec_goal(p: Position, x_move: i64, y_move: i64) -> (int, int) {
    (p.x + x_move * (PLAYER_SPEED as int), p.y + y_move * (PLAYER_SPEED as int))
}

/// One movement tick against a loaded grid: the goal position is committed
/// exactly when it lands on a walkable tile, and rejected (position kept)
/// otherwise — no partial sliding.
pub open spec fn spec_move(grid: PassableTiles, p: Position, x_move: i64, y_move: i64) -> Position {
    let (gx, gy) = spec_goal(p, x_move, y_move);
    if grid.spec_walkable_at(gx, gy) {
        Position { x: gx as i64, y: gy as i64 }
    } else {
        p
    }
}

/// One movement tick: without a grid the system is a no-op, with one it
/// gates the move as `spec_move` says.
pub open spec fn spec_move_opt(
    grid: Option<PassableTiles>,
    p: Position,
    x_move: i64,
    y_move: i64,
) -> Position {
    match grid {
        Some(g) => spec_move(g, p, x_move, y_move),
        None => p,
    }
}

/// The position after `n` movement ticks with the same grid and the same
/// input axes.
pub open spec fn spec_run_ticks(
    grid: Option<PassableTiles>,
    p: Position,
    x_move: i64,
    y_move: i64,
    n: nat,
) -> Position
    decreases n,
{
    if n == 0 {
        p
    } else {
        spec_move_opt(grid, spec_run_ticks(grid, p, x_move, y_move, (n - 1) as nat), x_move, y_move)
    }
}

/// The movement system: once per tick it reads the input axes, proposes a
/// translated position for the player, and commits it only if the
/// passability grid allows the destination tile.
pub struct MovementSystem;

impl MovementSystem {
    /// Run one movement tick for the player at `transform`, with input axis
    /// values `x_move` and `y_move`. Without a grid the tick is a no-op and
    /// nothing is asked of the caller; with one, the goal is committed
    /// exactly when its tile is walkable (out-of-bounds destinations count
    /// as not walkable), and the bounds in `requires` only keep the goal
    /// coordinates representable.
    pub fn run(
        &mut self,
        passable: Option<&PassableTiles>,
        transform: &mut Position,
        x_move: i64,
        y_move: i64,
    )
        requires
            passable is Some ==> i64::MIN <= old(transform).x + x_move * PLAYER_SPEED
                <= i64::MAX,
            passable is Some ==> i64::MIN <= old(transform).y + y_move * PLAYER_SPEED
                <= i64::MAX,
        ensures
            passable is None ==> *final(transform) == *old(transform),
            passable matches Some(grid) ==> *final(transform) == spec_move(
                *grid,
                *old(transform),
                x_move,
                y_move,
            ),
    {
        if let Some(grid) = passable {
            let goal_x_wide: i128 = transform.x as i128 + (x_move as i128) * (PLAYER_SPEED
                as i128);
            let goal_y_wide: i128 = transform.y as i128 + (y_move as i128) * (PLAYER_SPEED
                as i128);
            let goal_x: i64 = goal_x_wide as i64;
            let goal_y: i64 = goal_y_wide as i64;
            if grid.walkable_at(goal_x, goal_y) {
                transform.x = goal_x;
                transform.y = goal_y;
            }
        }
    }
}

/// Idle input moves nothing: with both axes zero, any number of movement
/// ticks leaves the player's position unchanged, whatever the grid holds
/// and whether one is loaded at all.
pub proof fn lemma_zero_input_never_moves(grid: Option<PassableTiles>, p: Position, n: nat)
    ensures
        spec_run_ticks(grid, p, 0, 0, n) == p,
    decreases n,
{
    if n > 0 {
        lemma_zero_input_never_moves(grid, p, (n - 1) as nat);
    }
}

} // verus!
