use vstd::prelude::*;

verus! {

/// x of the left wall's centre line.
pub const LEFT_WALL: i32 = -450;
/// x of the right wall's centre line.
pub const RIGHT_WALL: i32 = 450;
/// y of the bottom wall's centre line.
pub const BOTTOM_WALL: i32 = -300;
/// y of the top wall's centre line.
pub const TOP_WALL: i32 = 300;
/// Thickness of every wall.
pub const WALL_THICKNESS: i32 = 10;

/// Width of the paddle.
pub const PADDLE_WIDTH: i32 = 120;
/// Height of the paddle.
pub const PADDLE_HEIGHT: i32 = 20;
/// Distance from the bottom wall's centre line to the paddle's centre.
pub const GAP_BETWEEN_PADDLE_AND_FLOOR: i32 = 60;
/// Space the paddle keeps from a side wall at the end of its travel.
pub const PADDLE_PADDING: i32 = 10;
/// Horizontal speed of the paddle, in pixels per second.
pub const PADDLE_SPEED: i32 = 500;

/// Diameter of the ball.
pub const BALL_DIAMETER: i32 = 30;
/// y of the ball's centre when a game starts (its x is 0).
pub const BALL_STARTING_Y: i32 = -50;
/// Depth of the ball, in front of the other sprites.
pub const BALL_DEPTH: i32 = 1;
/// Speed of the ball, in pixels per second.
pub const BALL_SPEED: i32 = 400;

/// A vector of whole pixels.
#[derive(Clone, Copy, PartialEq, Eq, Debug, Hash, Structural)]
pub struct IVec2 {
    pub x: i32,
    pub y: i32,
}

/// A vector of whole pixels with a depth.
#[derive(Clone, Copy, PartialEq, Eq, Debug, Hash, Structural)]
pub struct IVec3 {
    pub x: i32,
    pub y: i32,
    pub z: i32,
}

/// Where a sprite stands and how far it is stretched from a unit square.
#[derive(Clone, Copy, PartialEq, Eq, Debug, Hash, Structural)]
pub struct Placement {
    pub translation: IVec3,
    pub scale: IVec3,
}

/// The four walls of the arena.
#[derive(Clone, Copy, PartialEq, Eq, Debug, Hash, Structural)]
pub enum WallLocation {
    Left,
    Right,
    Bottom,
    Top,
}

/// Height of the arena between the centre lines of the bottom and top walls.
pub open spec fn arena_height() -> int {
    TOP_WALL - BOTTOM_WALL
}

/// Width of the arena between the centre lines of the left and right walls.
pub open spec fn arena_width() -> int {
    RIGHT_WALL - LEFT_WALL
}

/// The centre of a wall.
pub open spec fn wall_position(location: WallLocation) -> (int, int) {
    match location {
        WallLocation::Left => (LEFT_WALL as int, 0),
        WallLocation::Right => (RIGHT_WALL as int, 0),
        WallLocation::Bottom => (0, BOTTOM_WALL as int),
        WallLocation::Top => (0, TOP_WALL as int),
    }
}

/// The width and height of a wall: the side walls are as high as the arena
/// and the end walls as wide, each plus one wall thickness.
pub open spec fn wall_size(location: WallLocation) -> (int, int) {
    match location {
        WallLocation::Left | WallLocation::Right => (
            WALL_THICKNESS as int,
            arena_height() + WALL_THICKNESS,
        ),
        WallLocation::Bottom | WallLocation::Top => (
            arena_width() + WALL_THICKNESS,
            WALL_THICKNESS as int,
        ),
    }
}

impl WallLocation {
    /// The centre of this wall.
    pub fn position(&self) -> (p: IVec2)
        ensures
            (p.x as int, p.y as int) == wall_position(*self),
    {
        match self {
            WallLocation::Left => IVec2 { x: LEFT_WALL, y: 0 },
            WallLocation::Right => IVec2 { x: RIGHT_WALL, y: 0 },
            WallLocation::Bottom => IVec2 { x: 0, y: BOTTOM_WALL },
            WallLocation::Top => IVec2 { x: 0, y: TOP_WALL },
        }
    }

    /// The width and height of this wall.
    pub fn size(&self) -> (s: IVec2)
        ensures
            (s.x as int, s.y as int) == wall_size(*self),
    {
        let arena_height: i32 = TOP_WALL - BOTTOM_WALL;
        let arena_width: i32 = RIGHT_WALL - LEFT_WALL;
        assert(arena_height > 0);
        assert(arena_width > 0);
        match self {
            WallLocation::Left | WallLocation::Right => IVec2 {
                x: WALL_THICKNESS,
                y: arena_height + WALL_THICKNESS,
            },
            WallLocation::Bottom | WallLocation::Top => IVec2 {
                x: arena_width + WALL_THICKNESS,
                y: WALL_THICKNESS,
            },
        }
    }
}

/// A wall's sprite: a unit square moved to the wall's centre, at depth 0, and
/// stretched to the wall's size.
pub open spec fn wall_placement(location: WallLocation) -> Placement {
    Placement {
        translation: IVec3 {
            x: wall_position(location).0 as i32,
            y: wall_position(location).1 as i32,
            z: 0,
        },
        scale: IVec3 { x: wall_size(location).0 as i32, y: wall_size(location).1 as i32, z: 1 },
    }
}

/// Smallest x that a wall's sprite covers.
pub open spec fn wall_min_x(location: WallLocation) -> int {
    wall_placement(location).translation.x - wall_placement(location).scale.x / 2
}

/// Largest x that a wall's sprite covers.
pub open spec fn wall_max_x(location: WallLocation) -> int {
    wall_placement(location).translation.x + wall_placement(location).scale.x / 2
}

/// Smallest y that a wall's sprite covers.
pub open spec fn wall_min_y(location: WallLocation) -> int {
    wall_placement(location).translation.y - wall_placement(location).scale.y / 2
}

/// Largest y that a wall's sprite covers.
pub open spec fn wall_max_y(location: WallLocation) -> int {
    wall_placement(location).translation.y + wall_placement(location).scale.y / 2
}

/// Each wall's sprite, from the arena's constants: the side walls are thin
/// and upright, one thickness wide and as high as the arena plus one
/// thickness, standing on the centre lines x = LEFT_WALL and x = RIGHT_WALL;
/// the end walls lie across, as wide as the arena plus one thickness and one
/// thickness high, on y = BOTTOM_WALL and y = TOP_WALL; all at depth 0 with
/// depth scale 1.
pub proof fn lemma_wall_sprites(location: WallLocation)
    ensures
        wall_placement(location).translation.z == 0,
        wall_placement(location).scale.z == 1,
        (location == WallLocation::Left || location == WallLocation::Right) ==> {
            &&& wall_placement(location).scale.x == WALL_THICKNESS
            &&& wall_placement(location).scale.y == TOP_WALL - BOTTOM_WALL + WALL_THICKNESS
            &&& wall_placement(location).translation.y == 0
        },
        (location == WallLocation::Bottom || location == WallLocation::Top) ==> {
            &&& wall_placement(location).scale.x == RIGHT_WALL - LEFT_WALL + WALL_THICKNESS
            &&& wall_placement(location).scale.y == WALL_THICKNESS
            &&& wall_placement(location).translation.x == 0
        },
        location == WallLocation::Left ==> wall_placement(location).translation.x == LEFT_WALL,
        location == WallLocation::Right ==> wall_placement(location).translation.x == RIGHT_WALL,
        location == WallLocation::Bottom ==> wall_placement(location).translation.y == BOTTOM_WALL,
        location == WallLocation::Top ==> wall_placement(location).translation.y == TOP_WALL,
{
}

/// A wall of the arena.
#[derive(Clone, Copy, PartialEq, Eq, Debug, Hash, Structural)]
pub struct Wall;

impl Wall {
    /// A wall at `location`: a unit square moved to the wall's centre, at
    /// depth 0, and stretched to the wall's size.
    pub fn new(location: WallLocation) -> (w: (Wall, Placement))
        ensures
            w.1 == wall_placement(location),
    {
        let position = location.position();
        let size = location.size();
        (
            Wall,
            Placement {
                translation: IVec3 { x: position.x, y: position.y, z: 0 },
                scale: IVec3 { x: size.x, y: size.y, z: 1 },
            },
        )
    }
}

/// The paddle's centre line: a fixed height above the bottom wall.
pub open spec fn paddle_y() -> int {
    BOTTOM_WALL + GAP_BETWEEN_PADDLE_AND_FLOOR
}

/// Leftmost x that the paddle's centre may take: the paddle then keeps
/// `PADDLE_PADDING` from the inner face of the left wall.
pub open spec fn paddle_left_bound() -> int {
    LEFT_WALL + WALL_THICKNESS / 2 + PADDLE_WIDTH / 2 + PADDLE_PADDING
}

/// Rightmost x that the paddle's centre may take.
pub open spec fn paddle_right_bound() -> int {
    RIGHT_WALL - WALL_THICKNESS / 2 - PADDLE_WIDTH / 2 - PADDLE_PADDING
}

/// Where the paddle stands when a game starts: centred, on its line, at
/// depth 0, stretched to its size.
pub fn paddle_start() -> (p: Placement)
    ensures
        p.translation.x == 0,
        p.translation.y == paddle_y(),
        p.translation.z == 0,
        p.scale.x == PADDLE_WIDTH,
        p.scale.y == PADDLE_HEIGHT,
        p.scale.z == 1,
{
    Placement {
        translation: IVec3 { x: 0, y: BOTTOM_WALL + GAP_BETWEEN_PADDLE_AND_FLOOR, z: 0 },
        scale: IVec3 { x: PADDLE_WIDTH, y: PADDLE_HEIGHT, z: 1 },
    }
}

/// Where the ball stands when a game starts: below the centre, in front of
/// the other sprites, stretched to its diameter.
pub fn ball_start() -> (p: Placement)
    ensures
        p.translation.x == 0,
        p.translation.y == BALL_STARTING_Y,
        p.translation.z == BALL_DEPTH,
        p.scale.x == BALL_DIAMETER,
        p.scale.y == BALL_DIAMETER,
        p.scale.z == 1,
{
    Placement {
        translation: IVec3 { x: 0, y: BALL_STARTING_Y, z: BALL_DEPTH },
        scale: IVec3 { x: BALL_DIAMETER, y: BALL_DIAMETER, z: 1 },
    }
}

/// The range that the paddle's centre is held to: the first bound is the
/// left one, the second the right one.
pub fn paddle_bounds() -> (b: (i32, i32))
    ensures
        b.0 == paddle_left_bound(),
        b.1 == paddle_right_bound(),
{
    let left_bound: i32 = LEFT_WALL + WALL_THICKNESS / 2 + PADDLE_WIDTH / 2 + PADDLE_PADDING;
    let right_bound: i32 = RIGHT_WALL - WALL_THICKNESS / 2 - PADDLE_WIDTH / 2 - PADDLE_PADDING;
    (left_bound, right_bound)
}

/// The way the paddle is pushed by the arrow keys: -1 to the left, 1 to the
/// right, 0 when neither or both are held.
pub fn paddle_direction(left_pressed: bool, right_pressed: bool) -> (d: i32)
    ensures
        d == (if right_pressed { 1int } else { 0int }) - (if left_pressed { 1int } else { 0int }),
{
    let mut direction: i32 = 0;
    if left_pressed {
        direction = direction - 1;
    }
    if right_pressed {
        direction = direction + 1;
    }
    direction
}

/// The four walls close the arena: each side wall runs from the outer face of
/// the bottom wall to the outer face of the top wall, and each end wall from
/// the outer face of the left wall to the outer face of the right wall, so
/// no gap is left at a corner.
pub proof fn lemma_walls_meet_at_corners()
    ensures
        wall_min_y(WallLocation::Left) == wall_min_y(WallLocation::Bottom),
        wall_max_y(WallLocation::Left) == wall_max_y(WallLocation::Top),
        wall_min_y(WallLocation::Right) == wall_min_y(WallLocation::Bottom),
        wall_max_y(WallLocation::Right) == wall_max_y(WallLocation::Top),
        wall_min_x(WallLocation::Bottom) == wall_min_x(WallLocation::Left),
        wall_max_x(WallLocation::Bottom) == wall_max_x(WallLocation::Right),
        wall_min_x(WallLocation::Top) == wall_min_x(WallLocation::Left),
        wall_max_x(WallLocation::Top) == wall_max_x(WallLocation::Right),
{
}

/// The arena is mirrored about its centre: opposite walls stand at opposite
/// positions and have the same size.
pub proof fn lemma_walls_are_symmetric()
    ensures
        wall_position(WallLocation::Left).0 == -wall_position(WallLocation::Right).0,
        wall_position(WallLocation::Bottom).1 == -wall_position(WallLocation::Top).1,
        wall_size(WallLocation::Left) == wall_size(WallLocation::Right),
        wall_size(WallLocation::Bottom) == wall_size(WallLocation::Top),
{
}

/// The paddle's travel is a non-empty range, centred on the arena, that keeps
/// `PADDLE_PADDING` between the paddle and either wall at its ends; the
/// paddle starts inside it.
pub proof fn lemma_paddle_travel()
    ensures
        paddle_left_bound() < 0 < paddle_right_bound(),
        paddle_left_bound() == -paddle_right_bound(),
        (paddle_left_bound() - PADDLE_WIDTH / 2) - wall_max_x(WallLocation::Left) == PADDLE_PADDING,
        wall_min_x(WallLocation::Right) - (paddle_right_bound() + PADDLE_WIDTH / 2) == PADDLE_PADDING,
        wall_max_y(WallLocation::Bottom) < paddle_y() - PADDLE_HEIGHT / 2,
{
}

/// Whether the point (x / d, y / d) lies in the closed box
/// [lo_x, hi_x] x [lo_y, hi_y]; `d` is a positive denominator, so that every
/// rational point can be asked about.
pub open spec fn in_box(lo_x: int, hi_x: int, lo_y: int, hi_y: int, x: int, y: int, d: int) -> bool {
    &&& lo_x * d <= x <= hi_x * d
    &&& lo_y * d <= y <= hi_y * d
}

/// Whether the point (x / d, y / d) lies on the wall at `location`.
pub open spec fn on_wall(location: WallLocation, x: int, y: int, d: int) -> bool {
    in_box(
        wall_min_x(location),
        wall_max_x(location),
        wall_min_y(location),
        wall_max_y(location),
        x,
        y,
        d,
    )
}

/// The four walls together form a closed frame: a point lies on some wall
/// exactly when it lies in the box bounded by the walls' outer faces,
/// [-455, 455] x [-305, 305], and not strictly inside the box bounded by
/// their inner faces, (-445, 445) x (-295, 295). No gap is left anywhere.
pub proof fn lemma_walls_form_closed_frame(x: int, y: int, d: int)
    requires
        d > 0,
    ensures
        wall_min_x(WallLocation::Left) == -455 && wall_max_x(WallLocation::Right) == 455,
        wall_min_y(WallLocation::Bottom) == -305 && wall_max_y(WallLocation::Top) == 305,
        wall_max_x(WallLocation::Left) == -445 && wall_min_x(WallLocation::Right) == 445,
        wall_max_y(WallLocation::Bottom) == -295 && wall_min_y(WallLocation::Top) == 295,
        (on_wall(WallLocation::Left, x, y, d) || on_wall(WallLocation::Right, x, y, d)
            || on_wall(WallLocation::Bottom, x, y, d) || on_wall(WallLocation::Top, x, y, d))
            <==> (in_box(
            wall_min_x(WallLocation::Left),
            wall_max_x(WallLocation::Right),
            wall_min_y(WallLocation::Bottom),
            wall_max_y(WallLocation::Top),
            x,
            y,
            d,
        ) && !(wall_max_x(WallLocation::Left) * d < x < wall_min_x(WallLocation::Right) * d
            && wall_max_y(WallLocation::Bottom) * d < y < wall_min_y(WallLocation::Top) * d)),
{
    assert(-455 * d < -445 * d < 0 < 445 * d < 455 * d) by (nonlinear_arith)
        requires
            d > 0,
    ;
    assert(-305 * d < -295 * d < 0 < 295 * d < 305 * d) by (nonlinear_arith)
        requires
            d > 0,
    ;
}

} // verus!
