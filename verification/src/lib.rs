//! The rules of a brick-breaker game: the screens it moves between, the
//! layout of the arena and the bricks, and what a frame of ball contacts does
//! to the score, the bricks, the ball's direction and the screen.
//!
//! Positions and sizes are in whole pixels unless a name says otherwise.
//! Brick centres fall on half pixels, so they are given doubled.
pub mod arena;
pub mod bricks;
pub mod collision;
pub mod setup;
pub mod state;
