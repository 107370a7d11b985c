use brick_breaker::arena::{
    ball_start, paddle_bounds, paddle_direction, paddle_start, IVec2, IVec3, Placement, Wall,
    WallLocation,
};
use brick_breaker::bricks::{brick_layout, BrickPlacement};
use brick_breaker::setup::game_setup;

#[test]
fn wall_positions() {
    assert_eq!(WallLocation::Left.position(), IVec2 { x: -450, y: 0 });
    assert_eq!(WallLocation::Right.position(), IVec2 { x: 450, y: 0 });
    assert_eq!(WallLocation::Bottom.position(), IVec2 { x: 0, y: -300 });
    assert_eq!(WallLocation::Top.position(), IVec2 { x: 0, y: 300 });
}

#[test]
fn wall_sizes() {
    assert_eq!(WallLocation::Left.size(), IVec2 { x: 10, y: 610 });
    assert_eq!(WallLocation::Right.size(), IVec2 { x: 10, y: 610 });
    assert_eq!(WallLocation::Bottom.size(), IVec2 { x: 910, y: 10 });
    assert_eq!(WallLocation::Top.size(), IVec2 { x: 910, y: 10 });
}

#[test]
fn wall_new_places_sprite() {
    let (_, p) = Wall::new(WallLocation::Bottom);
    assert_eq!(
        p,
        Placement {
            translation: IVec3 { x: 0, y: -300, z: 0 },
            scale: IVec3 { x: 910, y: 10, z: 1 },
        }
    );
}

#[test]
fn walls_meet_at_corners() {
    // left wall spans y from -305 to 305, the outer faces of the end walls
    let l = WallLocation::Left;
    assert_eq!(l.position().y - l.size().y / 2, -305);
    assert_eq!(l.position().y + l.size().y / 2, 305);
    let b = WallLocation::Bottom;
    assert_eq!(b.position().y - b.size().y / 2, -305);
    let t = WallLocation::Top;
    assert_eq!(t.position().x - t.size().x / 2, l.position().x - l.size().x / 2);
}

#[test]
fn paddle_travel() {
    assert_eq!(paddle_bounds(), (-375, 375));
    let p = paddle_start();
    assert_eq!(p.translation, IVec3 { x: 0, y: -240, z: 0 });
    assert_eq!(p.scale, IVec3 { x: 120, y: 20, z: 1 });
}

#[test]
fn paddle_keys() {
    assert_eq!(paddle_direction(false, false), 0);
    assert_eq!(paddle_direction(true, false), -1);
    assert_eq!(paddle_direction(false, true), 1);
    assert_eq!(paddle_direction(true, true), 0);
}

#[test]
fn ball_starts_below_centre() {
    let b = ball_start();
    assert_eq!(b.translation, IVec3 { x: 0, y: -50, z: 1 });
    assert_eq!(b.scale, IVec3 { x: 30, y: 30, z: 1 });
}

#[test]
fn brick_grid_is_eight_by_seven() {
    let bricks = brick_layout();
    assert_eq!(bricks.len(), 56);
    assert_eq!(
        bricks[0],
        BrickPlacement { column: 0, row: 0, center_x2: -735, center_y2: 90, depth: 0, scale: IVec3 { x: 100, y: 30, z: 1 } }
    );
    assert_eq!(
        bricks[7],
        BrickPlacement { column: 7, row: 0, center_x2: 735, center_y2: 90, depth: 0, scale: IVec3 { x: 100, y: 30, z: 1 } }
    );
    assert_eq!(
        bricks[8],
        BrickPlacement { column: 0, row: 1, center_x2: -735, center_y2: 160, depth: 0, scale: IVec3 { x: 100, y: 30, z: 1 } }
    );
    assert_eq!(
        bricks[55],
        BrickPlacement { column: 7, row: 6, center_x2: 735, center_y2: 510, depth: 0, scale: IVec3 { x: 100, y: 30, z: 1 } }
    );
}

#[test]
fn bricks_are_centred_and_apart() {
    let bricks = brick_layout();
    for row in 0..7 {
        for column in 0..8 {
            let b = bricks[row * 8 + column];
            let mirror = bricks[row * 8 + (7 - column)];
            assert_eq!(b.center_x2 + mirror.center_x2, 0);
            if column + 1 < 8 {
                let next = bricks[row * 8 + column + 1];
                // doubled: 2 * (width + gap)
                assert_eq!(next.center_x2 - b.center_x2, 210);
            }
            // inside the inner faces of the side walls (doubled: +-890)
            assert!(b.center_x2 - 100 > -890);
            assert!(b.center_x2 + 100 < 890);
            // below the inner face of the top wall (doubled: 590)
            assert!(b.center_y2 + 30 < 590);
        }
    }
}

#[test]
fn game_setup_places_everything() {
    let layout = game_setup();
    assert_eq!(layout.paddle, paddle_start());
    assert_eq!(layout.ball, ball_start());
    assert_eq!(layout.walls.len(), 4);
    assert_eq!(layout.walls[0].0, WallLocation::Left);
    assert_eq!(layout.walls[1].0, WallLocation::Right);
    assert_eq!(layout.walls[2].0, WallLocation::Bottom);
    assert_eq!(layout.walls[3].0, WallLocation::Top);
    assert_eq!(layout.walls[3].1, Wall::new(WallLocation::Top).1);
    assert_eq!(layout.bricks, brick_layout());
}
