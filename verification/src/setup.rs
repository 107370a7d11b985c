use vstd::prelude::*;
use crate::arena::{
    ball_start, paddle_start, paddle_y, wall_placement, IVec3, Placement, Wall, WallLocation,
    BALL_DEPTH, BALL_DIAMETER, BALL_STARTING_Y, PADDLE_HEIGHT, PADDLE_WIDTH,
};
use crate::bricks::{brick_at, brick_columns, brick_layout, brick_rows, BrickPlacement};

verus! {

/// Everything that a new game places in the arena.
#[derive(Clone, Debug, PartialEq, Eq)]
pub struct GameLayout {
    /// The paddle.
    pub paddle: Placement,
    /// The ball.
    pub ball: Placement,
    /// The walls, each with its location: left, right, bottom, top.
    pub walls: Vec<(WallLocation, Placement)>,
    /// The bricks, row by row from the bottom, each row from left to right.
    pub bricks: Vec<BrickPlacement>,
}

/// The location of the `i`th wall that a game places.
pub open spec fn wall_order(i: int) -> WallLocation {
    if i == 0 {
        WallLocation::Left
    } else if i == 1 {
        WallLocation::Right
    } else if i == 2 {
        WallLocation::Bottom
    } else {
        WallLocation::Top
    }
}

/// What a new game places: the paddle centred on its line, the ball at its
/// start, the four walls, and the grid of bricks.
pub fn game_setup() -> (layout: GameLayout)
    ensures
        layout.paddle == (Placement {
            translation: IVec3 { x: 0, y: paddle_y() as i32, z: 0 },
            scale: IVec3 { x: PADDLE_WIDTH, y: PADDLE_HEIGHT, z: 1 },
        }),
        layout.ball == (Placement {
            translation: IVec3 { x: 0, y: BALL_STARTING_Y, z: BALL_DEPTH },
            scale: IVec3 { x: BALL_DIAMETER, y: BALL_DIAMETER, z: 1 },
        }),
        layout.walls.len() == 4,
        forall|i: int|
            0 <= i < 4 ==> #[trigger] layout.walls[i] == (wall_order(i), wall_placement(wall_order(i))),
        layout.bricks.len() == brick_rows() * brick_columns(),
        forall|k: int|
            0 <= k < layout.bricks.len() ==> #[trigger] layout.bricks[k] == brick_at(
                k / brick_columns(),
                k % brick_columns(),
            ),
{
    let paddle = paddle_start();
    let ball = ball_start();
    let mut walls: Vec<(WallLocation, Placement)> = Vec::new();
    let (_, left) = Wall::new(WallLocation::Left);
    walls.push((WallLocation::Left, left));
    let (_, right) = Wall::new(WallLocation::Right);
    walls.push((WallLocation::Right, right));
    let (_, bottom) = Wall::new(WallLocation::Bottom);
    walls.push((WallLocation::Bottom, bottom));
    let (_, top) = Wall::new(WallLocation::Top);
    walls.push((WallLocation::Top, top));
    let bricks = brick_layout();
    GameLayout { paddle, ball, walls, bricks }
}

/// A new game places each of the four walls exactly once, so the arena is
/// closed on every side.
pub proof fn lemma_setup_places_every_wall_once()
    ensures
        exists|i: int| 0 <= i < 4 && #[trigger] wall_order(i) == WallLocation::Left,
        exists|i: int| 0 <= i < 4 && #[trigger] wall_order(i) == WallLocation::Right,
        exists|i: int| 0 <= i < 4 && #[trigger] wall_order(i) == WallLocation::Bottom,
        exists|i: int| 0 <= i < 4 && #[trigger] wall_order(i) == WallLocation::Top,
        forall|i: int, j: int| 0 <= i < j < 4 ==> #[trigger] wall_order(i) != #[trigger] wall_order(j),
{
    assert(wall_order(0) == WallLocation::Left);
    assert(wall_order(1) == WallLocation::Right);
    assert(wall_order(2) == WallLocation::Bottom);
    assert(wall_order(3) == WallLocation::Top);
}

} // verus!
