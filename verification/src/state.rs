use vstd::prelude::*;
use bevy::time::{Timer, TimerMode};
use core::time::Duration;

verus! {

/// The screens of the game.
#[derive(Clone, Copy, PartialEq, Eq, Debug, Hash, Structural)]
pub enum GameState {
    Splash,
    Menu,
    Game,
    GameOver,
}

impl Default for GameState {
    /// The game opens on the splash screen.
    fn default() -> (s: GameState)
        ensures
            s == GameState::Splash,
    {
        GameState::Splash
    }
}

/// The display quality that the settings offer.
#[derive(Clone, Copy, PartialEq, Eq, Debug, Hash, Structural)]
pub enum DisplayQuality {
    Low,
    Medium,
    High,
}

/// The sound volume that the settings offer.
#[derive(Clone, Copy, PartialEq, Eq, Debug, Hash, Structural)]
pub struct Volume(u32);

impl View for Volume {
    type V = u32;

    closed spec fn view(&self) -> u32 {
        self.0
    }
}

impl Volume {
    /// The volume at `level`.
    pub fn new(level: u32) -> (v: Volume)
        ensures
            v@ == level,
    {
        Volume(level)
    }

    /// The level of this volume.
    pub fn level(&self) -> (l: u32)
        ensures
            l == self@,
    {
        self.0
    }
}

/// How long the game-over screen stays, in nanoseconds: two seconds.
pub const GAME_OVER_NANOS: u64 = 2_000_000_000;

/// The game-over screen's one-shot timer: the time it has counted so far.
#[derive(Clone, Copy, PartialEq, Eq, Debug, Hash, Structural)]
pub struct GameOverTimer {
    pub elapsed_nanos: u64,
}

/// Ticks a one-shot `bevy::time::Timer` of `duration_nanos` that has counted
/// `elapsed_nanos` and is not finished, by `delta_nanos`, through
/// `Timer::tick`. Claimed of bevy's code (bevy_time, `Timer::tick` and
/// `Stopwatch::tick`): the elapsed time becomes the smaller of the old one
/// plus the delta and the duration, and the timer is finished exactly when the
/// old elapsed time plus the delta reaches the duration.
#[verifier::external_body]
fn tick_one_shot_timer(elapsed_nanos: u64, duration_nanos: u64, delta_nanos: u64) -> (r: (u64, bool))
    ensures
        r.0 == (if elapsed_nanos + delta_nanos < duration_nanos {
            elapsed_nanos + delta_nanos
        } else {
            duration_nanos as int
        }),
        r.1 == (elapsed_nanos + delta_nanos >= duration_nanos),
{
    let mut timer = Timer::new(Duration::from_nanos(duration_nanos), TimerMode::Once);
    timer.set_elapsed(Duration::from_nanos(elapsed_nanos));
    let ticked = timer.tick(Duration::from_nanos(delta_nanos));
    (ticked.elapsed().as_nanos() as u64, ticked.is_finished())
}

/// The time a one-shot timer of `GAME_OVER_NANOS` has counted after
/// `elapsed` plus `delta`.
pub open spec fn ticked(elapsed: int, delta: int) -> int {
    if elapsed + delta < GAME_OVER_NANOS {
        elapsed + delta
    } else {
        GAME_OVER_NANOS as int
    }
}

impl GameOverTimer {
    /// A timer that has counted nothing yet.
    pub fn new() -> (t: GameOverTimer)
        ensures
            t.elapsed_nanos == 0,
    {
        GameOverTimer { elapsed_nanos: 0 }
    }

    /// Counts `delta_nanos` more, up to `GAME_OVER_NANOS`; says whether the
    /// timer has now finished, that is whether the time counted reaches
    /// `GAME_OVER_NANOS`.
    pub fn tick(&mut self, delta_nanos: u64) -> (finished: bool)
        ensures
            final(self).elapsed_nanos == ticked(old(self).elapsed_nanos as int, delta_nanos as int),
            finished == (old(self).elapsed_nanos + delta_nanos >= GAME_OVER_NANOS),
    {
        let (elapsed, finished) = tick_one_shot_timer(self.elapsed_nanos, GAME_OVER_NANOS, delta_nanos);
        self.elapsed_nanos = elapsed;
        finished
    }
}

/// What the game-over screen does each frame: its timer counts the frame's
/// time, and once it has counted `GAME_OVER_NANOS` the game goes back to the
/// menu; before, it stays.
pub fn countdown(timer: &mut GameOverTimer, delta_nanos: u64) -> (next: Option<GameState>)
    ensures
        final(timer).elapsed_nanos == ticked(old(timer).elapsed_nanos as int, delta_nanos as int),
        next == (if old(timer).elapsed_nanos + delta_nanos >= GAME_OVER_NANOS {
            Some(GameState::Menu)
        } else {
            None::<GameState>
        }),
{
    if timer.tick(delta_nanos) {
        Some(GameState::Menu)
    } else {
        None
    }
}

/// Sum of a sequence of frame times.
pub open spec fn total(deltas: Seq<u64>) -> int
    decreases deltas.len(),
{
    if deltas.len() == 0 {
        0
    } else {
        total(deltas.drop_last()) + deltas.last()
    }
}

/// The time a fresh game-over timer has counted after the frames `deltas`.
pub open spec fn counted(deltas: Seq<u64>) -> int
    decreases deltas.len(),
{
    if deltas.len() == 0 {
        0
    } else {
        ticked(counted(deltas.drop_last()), deltas.last() as int)
    }
}

/// A fresh game-over timer, ticked frame by frame, has counted the sum of the
/// frame times, up to `GAME_OVER_NANOS`: so the screen goes back to the menu
/// on the first frame by which two seconds have passed in all.
pub proof fn lemma_counted_is_capped_total(deltas: Seq<u64>)
    ensures
        counted(deltas) == (if total(deltas) < GAME_OVER_NANOS {
            total(deltas)
        } else {
            GAME_OVER_NANOS as int
        }),
        total(deltas) >= 0,
    decreases deltas.len(),
{
    if deltas.len() > 0 {
        lemma_counted_is_capped_total(deltas.drop_last());
    }
}

/// Frame by frame, the game-over screen goes back to the menu exactly on the
/// frames by which two seconds have passed in all: on frame `j`, with the
/// timer having counted the frames before it, the countdown's test
/// (`counted + delta >= GAME_OVER_NANOS`) holds exactly when the frame times
/// up to and including frame `j` sum to at least `GAME_OVER_NANOS`.
pub proof fn lemma_menu_exactly_after_two_seconds(deltas: Seq<u64>, j: int)
    requires
        0 <= j < deltas.len(),
    ensures
        (counted(deltas.take(j)) + deltas[j] >= GAME_OVER_NANOS) == (total(deltas.take(j + 1))
            >= GAME_OVER_NANOS),
{
    let before = deltas.take(j);
    let upto = deltas.take(j + 1);
    assert(upto.drop_last() =~= before);
    assert(upto.last() == deltas[j]);
    lemma_counted_is_capped_total(before);
    lemma_counted_is_capped_total(upto);
}

} // verus!
