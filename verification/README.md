# brick_breaker

The rules of a small brick-breaker game, verified with Verus.

- `src/state.rs`: the screens of the game and the settings types; the
  game-over timer (ticked through bevy's `Timer`) and countdown.
- `src/arena.rs`: the walls, the paddle's travel and start, the ball's start.
- `src/bricks.rs`: the grid of bricks a game starts with (centres doubled,
  as they fall on half pixels).
- `src/collision.rs`: which face the ball struck, how a strike turns the ball,
  and what a frame of contacts does to the score, the bricks and the screen.
- `src/setup.rs`: everything a new game places.
- `app/`: the bevy program around the library: rendering, input, timing and
  the float geometry of motion and overlap tests.
