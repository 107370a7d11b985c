use brick_breaker::collision::{
    ball_collision, bounce, check_for_collisions, hit_count, Bounce, Collision, Contact, Heading,
    Overlap, Sign,
};
use brick_breaker::state::{countdown, DisplayQuality, GameOverTimer, GameState, Volume, GAME_OVER_NANOS};

fn overlap(intersects: bool, horizontal: bool, offset_x: Sign, offset_y: Sign) -> Overlap {
    Overlap { intersects, horizontal, offset_x, offset_y }
}

fn contact(is_brick: bool, ball: Option<Collision>, paddle_touches: bool) -> Contact {
    Contact { is_brick, ball, paddle_touches }
}

#[test]
fn game_opens_on_splash() {
    assert_eq!(GameState::default(), GameState::Splash);
}

#[test]
fn settings_types() {
    assert_ne!(DisplayQuality::Low, DisplayQuality::High);
    assert_eq!(Volume::new(7), Volume::new(7));
    assert_eq!(Volume::new(7).level(), 7);
}

#[test]
fn countdown_returns_to_menu_after_two_seconds() {
    assert_eq!(GAME_OVER_NANOS, 2_000_000_000);
    let mut timer = GameOverTimer::new();
    assert_eq!(timer.elapsed_nanos, 0);
    assert_eq!(countdown(&mut timer, 1_500_000_000), None);
    assert_eq!(timer.elapsed_nanos, 1_500_000_000);
    assert_eq!(countdown(&mut timer, 400_000_000), None);
    assert_eq!(timer.elapsed_nanos, 1_900_000_000);
    // the frame that passes two seconds in all sends the game to the menu,
    // and the timer stops at its duration
    assert_eq!(countdown(&mut timer, 300_000_000), Some(GameState::Menu));
    assert_eq!(timer.elapsed_nanos, 2_000_000_000);
    // a finished timer stays finished
    assert_eq!(countdown(&mut timer, 0), Some(GameState::Menu));
    assert_eq!(timer.elapsed_nanos, 2_000_000_000);
}

#[test]
fn countdown_exactly_two_seconds() {
    let mut timer = GameOverTimer::new();
    assert_eq!(countdown(&mut timer, 2_000_000_000), Some(GameState::Menu));
    let mut timer = GameOverTimer::new();
    assert!(!timer.tick(1_999_999_999));
    assert!(timer.tick(1));
    let mut timer = GameOverTimer::new();
    assert!(timer.tick(u64::MAX));
    assert_eq!(timer.elapsed_nanos, 2_000_000_000);
}

#[test]
fn sign_negation() {
    assert_eq!(Sign::Negative.negate(), Sign::Positive);
    assert_eq!(Sign::Zero.negate(), Sign::Zero);
    assert_eq!(Sign::Positive.negate(), Sign::Negative);
}

#[test]
fn no_overlap_no_collision() {
    assert_eq!(ball_collision(overlap(false, true, Sign::Negative, Sign::Zero)), None);
}

#[test]
fn collision_sides() {
    assert_eq!(
        ball_collision(overlap(true, true, Sign::Negative, Sign::Positive)),
        Some(Collision::Left)
    );
    assert_eq!(
        ball_collision(overlap(true, true, Sign::Positive, Sign::Negative)),
        Some(Collision::Right)
    );
    // a centre on the box's edge across counts as the right face
    assert_eq!(
        ball_collision(overlap(true, true, Sign::Zero, Sign::Zero)),
        Some(Collision::Right)
    );
    assert_eq!(
        ball_collision(overlap(true, false, Sign::Negative, Sign::Positive)),
        Some(Collision::Top)
    );
    // a centre on the box's edge up (or inside it) counts as the bottom face
    assert_eq!(
        ball_collision(overlap(true, false, Sign::Positive, Sign::Zero)),
        Some(Collision::Bottom)
    );
    assert_eq!(
        ball_collision(overlap(true, false, Sign::Positive, Sign::Negative)),
        Some(Collision::Bottom)
    );
}

#[test]
fn bounce_turns_only_an_approaching_ball() {
    let right_down = Heading { x: Sign::Positive, y: Sign::Negative };
    assert_eq!(bounce(Collision::Left, right_down), Bounce { reflect_x: true, reflect_y: false });
    assert_eq!(bounce(Collision::Right, right_down), Bounce { reflect_x: false, reflect_y: false });
    assert_eq!(bounce(Collision::Top, right_down), Bounce { reflect_x: false, reflect_y: true });
    assert_eq!(bounce(Collision::Bottom, right_down), Bounce { reflect_x: false, reflect_y: false });
    let still = Heading { x: Sign::Zero, y: Sign::Zero };
    assert_eq!(bounce(Collision::Left, still), Bounce { reflect_x: false, reflect_y: false });
}

#[test]
fn reflected_heading() {
    let h = Heading { x: Sign::Positive, y: Sign::Negative };
    assert_eq!(
        h.reflected(Bounce { reflect_x: true, reflect_y: true }),
        Heading { x: Sign::Negative, y: Sign::Positive }
    );
    assert_eq!(h.reflected(Bounce { reflect_x: false, reflect_y: false }), h);
}

#[test]
fn strike_twice_is_once() {
    let h = Heading { x: Sign::Positive, y: Sign::Positive };
    for c in [Collision::Left, Collision::Right, Collision::Top, Collision::Bottom] {
        let once = h.reflected(bounce(c, h));
        let twice = once.reflected(bounce(c, once));
        assert_eq!(once, twice);
    }
}

#[test]
fn empty_frame_changes_nothing() {
    let h = Heading { x: Sign::Positive, y: Sign::Negative };
    let r = check_for_collisions(12, h, &Vec::new());
    assert_eq!(r.score, 12);
    assert_eq!(r.collisions, 0);
    assert!(r.despawned.is_empty());
    assert_eq!(r.velocity, h);
    assert!(!r.flip_x && !r.flip_y && !r.back_to_menu);
}

#[test]
fn frame_scores_removes_and_bounces() {
    let h = Heading { x: Sign::Positive, y: Sign::Positive };
    let contacts = vec![
        // a wall struck on its left face: the ball turns left, one point
        contact(false, Some(Collision::Left), false),
        // a brick not struck
        contact(true, None, false),
        // a brick struck on its bottom face: removed, the ball turns down
        contact(true, Some(Collision::Bottom), false),
        // another wall struck on its left face: the ball already moves left
        contact(false, Some(Collision::Left), false),
    ];
    let r = check_for_collisions(10, h, &contacts);
    assert_eq!(r.score, 13);
    assert_eq!(r.collisions, 3);
    assert_eq!(r.despawned, vec![2]);
    assert_eq!(r.velocity, Heading { x: Sign::Negative, y: Sign::Negative });
    assert!(r.flip_x && r.flip_y);
    assert!(!r.back_to_menu);
}

#[test]
fn brick_reaching_paddle_ends_game() {
    let h = Heading { x: Sign::Negative, y: Sign::Negative };
    let contacts = vec![contact(false, None, false), contact(true, None, true)];
    let r = check_for_collisions(0, h, &contacts);
    assert!(r.back_to_menu);
    assert_eq!(r.score, 0);
    // a wall never ends the game, whatever the flag says
    let r = check_for_collisions(0, h, &vec![contact(false, None, true)]);
    assert!(!r.back_to_menu);
}

#[test]
fn paddle_strike_scores_but_stays() {
    let h = Heading { x: Sign::Zero, y: Sign::Negative };
    let r = check_for_collisions(0, h, &vec![contact(false, Some(Collision::Top), false)]);
    assert_eq!(r.score, 1);
    assert!(r.despawned.is_empty());
    assert_eq!(r.velocity, Heading { x: Sign::Zero, y: Sign::Positive });
    assert!(!r.flip_x && r.flip_y);
}

#[test]
fn frame_in_two_parts() {
    let h = Heading { x: Sign::Positive, y: Sign::Negative };
    let all = vec![
        contact(false, Some(Collision::Left), false),
        contact(true, Some(Collision::Top), false),
        contact(true, Some(Collision::Right), false),
        contact(false, None, false),
    ];
    let whole = check_for_collisions(0, h, &all);
    let first = check_for_collisions(0, h, &all[..2].to_vec());
    let second = check_for_collisions(first.score, first.velocity, &all[2..].to_vec());
    assert_eq!(whole.score, second.score);
    assert_eq!(whole.velocity, second.velocity);
}

#[test]
fn hit_count_counts_strikes() {
    let contacts = vec![
        contact(false, Some(Collision::Left), false),
        contact(true, None, true),
        contact(true, Some(Collision::Top), false),
    ];
    assert_eq!(hit_count(&contacts), 2);
    assert_eq!(hit_count(&Vec::new()), 0);
}

#[test]
fn mirrored_overlap_swaps_left_and_right() {
    let o = overlap(true, true, Sign::Negative, Sign::Positive);
    let m = overlap(true, true, Sign::Positive, Sign::Positive);
    assert_eq!(ball_collision(o), Some(Collision::Left));
    assert_eq!(ball_collision(m), Some(Collision::Right));
    let o = overlap(true, false, Sign::Negative, Sign::Positive);
    let m = overlap(true, false, Sign::Positive, Sign::Positive);
    assert_eq!(ball_collision(o), ball_collision(m));
}

#[test]
fn frame_twice_is_once() {
    let h = Heading { x: Sign::Positive, y: Sign::Positive };
    let contacts = vec![
        contact(false, Some(Collision::Left), false),
        contact(true, Some(Collision::Bottom), false),
        contact(false, Some(Collision::Right), false),
    ];
    let first = check_for_collisions(0, h, &contacts);
    let second = check_for_collisions(first.score, first.velocity, &contacts);
    assert_eq!(first.velocity, second.velocity);
    assert_eq!(second.score - first.score, first.score);
    assert!(!second.flip_x && !second.flip_y);
}
