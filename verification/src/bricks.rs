use vstd::prelude::*;
use crate::arena::{
    arena_width, paddle_y, IVec3, wall_max_x, wall_min_x, wall_min_y, WallLocation,
    BOTTOM_WALL, GAP_BETWEEN_PADDLE_AND_FLOOR, LEFT_WALL, PADDLE_HEIGHT, RIGHT_WALL, TOP_WALL,
};

verus! {

/// Width of a brick.
pub const BRICK_WIDTH: i32 = 100;
/// Height of a brick.
pub const BRICK_HEIGHT: i32 = 30;
/// Distance from the paddle's centre line up to the lowest edge of the bricks.
pub const GAP_BETWEEN_PADDLE_AND_BRICKS: i32 = 270;
/// Space between two neighbouring bricks.
pub const GAP_BETWEEN_BRICKS: i32 = 5;
/// Least space between the highest bricks and the top wall's centre line.
pub const GAP_BETWEEN_BRICKS_AND_CEILING: i32 = 20;
/// Least space between the outer bricks and a side wall's centre line.
pub const GAP_BETWEEN_BRICKS_AND_SIDES: i32 = 20;

/// One brick of the starting wall: its cell in the grid, its centre, doubled
/// (a centre may fall on a half pixel) at depth 0, and how far its unit
/// square is stretched.
#[derive(Clone, Copy, PartialEq, Eq, Debug, Hash, Structural)]
pub struct BrickPlacement {
    pub column: usize,
    pub row: usize,
    pub center_x2: i32,
    pub center_y2: i32,
    pub depth: i32,
    pub scale: IVec3,
}

/// Width that the bricks may fill: the arena less a margin at each side.
pub open spec fn bricks_total_width() -> int {
    arena_width() - 2 * GAP_BETWEEN_BRICKS_AND_SIDES
}

/// y of the lowest edge of the bricks.
pub open spec fn bricks_bottom_edge() -> int {
    paddle_y() + GAP_BETWEEN_PADDLE_AND_BRICKS
}

/// Height that the bricks may fill: from their lowest edge to a margin below
/// the top wall.
pub open spec fn bricks_total_height() -> int {
    TOP_WALL - bricks_bottom_edge() - GAP_BETWEEN_BRICKS_AND_CEILING
}

/// Number of columns: as many bricks, each with one gap, as the width holds.
pub open spec fn brick_columns() -> int {
    bricks_total_width() / (BRICK_WIDTH + GAP_BETWEEN_BRICKS) as int
}

/// Number of rows: as many bricks, each with one gap, as the height holds.
pub open spec fn brick_rows() -> int {
    bricks_total_height() / (BRICK_HEIGHT + GAP_BETWEEN_BRICKS) as int
}

/// Doubled x of the centre of the bricks in `column`: the columns, with a gap
/// between each two, are centred between the side walls.
pub open spec fn brick_center_x2(column: int) -> int {
    let left_edge_x2 = (LEFT_WALL + RIGHT_WALL) - brick_columns() * BRICK_WIDTH
        - (brick_columns() - 1) * GAP_BETWEEN_BRICKS;
    left_edge_x2 + BRICK_WIDTH + column * (2 * (BRICK_WIDTH + GAP_BETWEEN_BRICKS))
}

/// Doubled y of the centre of the bricks in `row`: rows stack upwards from the
/// lowest edge of the bricks, with a gap between each two.
pub open spec fn brick_center_y2(row: int) -> int {
    2 * bricks_bottom_edge() + BRICK_HEIGHT + row * (2 * (BRICK_HEIGHT + GAP_BETWEEN_BRICKS))
}

/// The brick in cell (`row`, `column`).
pub open spec fn brick_at(row: int, column: int) -> BrickPlacement {
    BrickPlacement {
        column: column as usize,
        row: row as usize,
        center_x2: brick_center_x2(column) as i32,
        center_y2: brick_center_y2(row) as i32,
        depth: 0,
        scale: IVec3 { x: BRICK_WIDTH, y: BRICK_HEIGHT, z: 1 },
    }
}

proof fn lemma_grid_size()
    ensures
        brick_columns() == 8,
        brick_rows() == 7,
{
    assert(bricks_total_width() == 860);
    assert(bricks_total_height() == 250);
}

proof fn lemma_brick_centers(row: int, column: int)
    ensures
        brick_center_x2(column) == 210 * column - 735,
        brick_center_y2(row) == 70 * row + 90,
{
    lemma_grid_size();
    let step_x2 = 2 * (BRICK_WIDTH + GAP_BETWEEN_BRICKS);
    let step_y2 = 2 * (BRICK_HEIGHT + GAP_BETWEEN_BRICKS);
    let columns = brick_columns();
    assert(step_x2 == 210);
    assert(step_y2 == 70);
    assert(column * step_x2 == 210 * column) by (nonlinear_arith)
        requires
            step_x2 == 210,
    ;
    assert(row * step_y2 == 70 * row) by (nonlinear_arith)
        requires
            step_y2 == 70,
    ;
    assert(columns * BRICK_WIDTH == 800) by (nonlinear_arith)
        requires
            columns == 8,
            BRICK_WIDTH == 100,
    ;
    assert((columns - 1) * GAP_BETWEEN_BRICKS == 35) by (nonlinear_arith)
        requires
            columns == 8,
            GAP_BETWEEN_BRICKS == 5,
    ;
}

/// The bricks that a game starts with, row by row from the bottom, each row
/// from left to right.
pub fn brick_layout() -> (bricks: Vec<BrickPlacement>)
    ensures
        bricks.len() == brick_rows() * brick_columns(),
        forall|k: int|
            0 <= k < bricks.len() ==> #[trigger] bricks[k] == brick_at(
                k / brick_columns(),
                k % brick_columns(),
            ),
{
    proof {
        lemma_grid_size();
    }
    let paddle_y: i32 = BOTTOM_WALL + GAP_BETWEEN_PADDLE_AND_FLOOR;
    let total_width_of_bricks: i32 = (RIGHT_WALL - LEFT_WALL) - 2 * GAP_BETWEEN_BRICKS_AND_SIDES;
    let bottom_edge_of_bricks: i32 = paddle_y + GAP_BETWEEN_PADDLE_AND_BRICKS;
    let total_height_of_bricks: i32 = TOP_WALL - bottom_edge_of_bricks
        - GAP_BETWEEN_BRICKS_AND_CEILING;
    assert(total_width_of_bricks > 0);
    assert(total_height_of_bricks > 0);

    let n_columns: usize = (total_width_of_bricks / (BRICK_WIDTH + GAP_BETWEEN_BRICKS)) as usize;
    let n_rows: usize = (total_height_of_bricks / (BRICK_HEIGHT + GAP_BETWEEN_BRICKS)) as usize;
    assert(n_columns == 8);
    assert(n_rows == 7);
    let n_vertical_gaps: usize = n_columns - 1;

    let center_of_bricks_x2: i32 = LEFT_WALL + RIGHT_WALL;
    let left_edge_of_bricks_x2: i32 = center_of_bricks_x2 - (n_columns as i32) * BRICK_WIDTH
        - (n_vertical_gaps as i32) * GAP_BETWEEN_BRICKS;
    let offset_x2: i32 = left_edge_of_bricks_x2 + BRICK_WIDTH;
    let offset_y2: i32 = 2 * bottom_edge_of_bricks + BRICK_HEIGHT;
    assert(offset_x2 == brick_center_x2(0));
    assert(offset_y2 == brick_center_y2(0));

    let mut bricks: Vec<BrickPlacement> = Vec::new();
    let mut row: usize = 0;
    while row < n_rows
        invariant
            n_rows == 7,
            n_columns == 8,
            brick_columns() == 8,
            brick_rows() == 7,
            offset_x2 == brick_center_x2(0),
            offset_y2 == brick_center_y2(0),
            row <= n_rows,
            bricks.len() == row * 8,
            forall|k: int|
                0 <= k < bricks.len() ==> #[trigger] bricks[k] == brick_at(k / 8, k % 8),
        decreases n_rows - row,
    {
        let mut column: usize = 0;
        while column < n_columns
            invariant
                n_rows == 7,
                n_columns == 8,
                brick_columns() == 8,
                offset_x2 == brick_center_x2(0),
                offset_y2 == brick_center_y2(0),
                row < n_rows,
                column <= n_columns,
                bricks.len() == row * 8 + column,
                forall|k: int|
                    0 <= k < bricks.len() ==> #[trigger] bricks[k] == brick_at(k / 8, k % 8),
            decreases n_columns - column,
        {
            proof {
                lemma_brick_centers(row as int, column as int);
            }
            let brick = BrickPlacement {
                column: column,
                row: row,
                center_x2: offset_x2 + (column as i32) * (2 * (BRICK_WIDTH + GAP_BETWEEN_BRICKS)),
                center_y2: offset_y2 + (row as i32) * (2 * (BRICK_HEIGHT + GAP_BETWEEN_BRICKS)),
                depth: 0,
                scale: IVec3 { x: BRICK_WIDTH, y: BRICK_HEIGHT, z: 1 },
            };
            proof {
                let k = bricks.len() as int;
                assert(k / 8 == row as int);
                assert(k % 8 == column as int);
                assert(brick == brick_at(row as int, column as int));
            }
            bricks.push(brick);
            column = column + 1;
        }
        row = row + 1;
    }
    bricks
}

/// The grid is the largest that fits: one more column, or one more row, each
/// brick with its gap, would not fit in the room left for the bricks.
pub proof fn lemma_grid_is_largest()
    ensures
        brick_columns() > 0,
        brick_rows() > 0,
        brick_columns() * (BRICK_WIDTH + GAP_BETWEEN_BRICKS) <= bricks_total_width()
            < (brick_columns() + 1) * (BRICK_WIDTH + GAP_BETWEEN_BRICKS),
        brick_rows() * (BRICK_HEIGHT + GAP_BETWEEN_BRICKS) <= bricks_total_height()
            < (brick_rows() + 1) * (BRICK_HEIGHT + GAP_BETWEEN_BRICKS),
{
    lemma_grid_size();
}

/// Doubled x of a brick sprite's left edge.
pub open spec fn left_x2(b: BrickPlacement) -> int {
    b.center_x2 - b.scale.x
}

/// Doubled x of a brick sprite's right edge.
pub open spec fn right_x2(b: BrickPlacement) -> int {
    b.center_x2 + b.scale.x
}

/// Doubled y of a brick sprite's lower edge.
pub open spec fn bottom_y2(b: BrickPlacement) -> int {
    b.center_y2 - b.scale.y
}

/// Doubled y of a brick sprite's upper edge.
pub open spec fn top_y2(b: BrickPlacement) -> int {
    b.center_y2 + b.scale.y
}

/// Every brick of the grid is the same: a `BRICK_WIDTH` by `BRICK_HEIGHT`
/// sprite with depth scale 1, at depth 0, standing in its own cell.
pub proof fn lemma_every_brick_same_size(row: int, column: int)
    requires
        0 <= row < brick_rows(),
        0 <= column < brick_columns(),
    ensures
        brick_at(row, column).scale == (IVec3 { x: BRICK_WIDTH, y: BRICK_HEIGHT, z: 1 }),
        brick_at(row, column).scale.x == 100 && brick_at(row, column).scale.y == 30,
        brick_at(row, column).depth == 0,
        brick_at(row, column).row == row,
        brick_at(row, column).column == column,
{
    lemma_grid_size();
}

/// Every brick lies clear of the walls and of the paddle: its sprite stands
/// between the inner faces of the side walls, below the inner face of the top
/// wall, and above the top of the paddle (doubled coordinates throughout).
pub proof fn lemma_bricks_inside_arena(row: int, column: int)
    requires
        0 <= row < brick_rows(),
        0 <= column < brick_columns(),
    ensures
        2 * wall_max_x(WallLocation::Left) < left_x2(brick_at(row, column)),
        right_x2(brick_at(row, column)) < 2 * wall_min_x(WallLocation::Right),
        2 * (paddle_y() + PADDLE_HEIGHT / 2) < bottom_y2(brick_at(row, column)),
        top_y2(brick_at(row, column)) < 2 * wall_min_y(WallLocation::Top),
{
    lemma_grid_size();
    lemma_brick_centers(row, column);
}

/// No two bricks overlap: the sprites of two different cells are at least
/// one gap apart across or up (doubled coordinates).
pub proof fn lemma_bricks_disjoint(row1: int, column1: int, row2: int, column2: int)
    requires
        0 <= row1 < brick_rows(),
        0 <= column1 < brick_columns(),
        0 <= row2 < brick_rows(),
        0 <= column2 < brick_columns(),
        row1 != row2 || column1 != column2,
    ensures
        ({
            let b1 = brick_at(row1, column1);
            let b2 = brick_at(row2, column2);
            ||| right_x2(b1) + 2 * GAP_BETWEEN_BRICKS <= left_x2(b2)
            ||| right_x2(b2) + 2 * GAP_BETWEEN_BRICKS <= left_x2(b1)
            ||| top_y2(b1) + 2 * GAP_BETWEEN_BRICKS <= bottom_y2(b2)
            ||| top_y2(b2) + 2 * GAP_BETWEEN_BRICKS <= bottom_y2(b1)
        }),
{
    lemma_grid_size();
    lemma_brick_centers(row1, column1);
    lemma_brick_centers(row2, column2);
}

/// Neighbouring bricks are exactly one gap apart, across and up (doubled).
pub proof fn lemma_neighbours_one_gap_apart(row: int, column: int)
    requires
        0 <= row < brick_rows(),
        0 <= column < brick_columns(),
    ensures
        column + 1 < brick_columns() ==> left_x2(brick_at(row, column + 1)) - right_x2(
            brick_at(row, column),
        ) == 2 * GAP_BETWEEN_BRICKS,
        row + 1 < brick_rows() ==> bottom_y2(brick_at(row + 1, column)) - top_y2(
            brick_at(row, column),
        ) == 2 * GAP_BETWEEN_BRICKS,
{
    lemma_grid_size();
    lemma_brick_centers(row, column);
    lemma_brick_centers(row + 1, column + 1);
}

/// The wall of bricks is centred between the side walls: the columns mirror
/// each other about the arena's centre line (whose doubled x is
/// `LEFT_WALL + RIGHT_WALL`), so the left edge of a brick mirrors the right
/// edge of its counterpart.
pub proof fn lemma_bricks_centred(row: int, column: int)
    requires
        0 <= row < brick_rows(),
        0 <= column < brick_columns(),
    ensures
        brick_at(row, column).center_x2 + brick_at(row, brick_columns() - 1 - column).center_x2
            == 2 * (LEFT_WALL + RIGHT_WALL),
        left_x2(brick_at(row, column)) + right_x2(brick_at(row, brick_columns() - 1 - column))
            == 2 * (LEFT_WALL + RIGHT_WALL),
{
    lemma_grid_size();
    lemma_brick_centers(row, column);
    lemma_brick_centers(row, brick_columns() - 1 - column);
}

} // verus!
