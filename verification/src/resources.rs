use vstd::prelude::*;

use crate::pitching::{pitch_invariant, pitch_state_of};

verus! {

/// Strikes the batter has taken in the current game.
#[derive(Clone, Copy, Debug, PartialEq, Eq, Structural)]
pub struct Strikes(pub usize);

/// Pitches the batter has hit in the current game.
#[derive(Clone, Copy, Debug, PartialEq, Eq, Structural)]
pub struct Score(pub usize);

/// Whether the batter's current swing connected with the ball.
#[derive(Clone, Copy, Debug, PartialEq, Eq, Structural)]
pub struct BallHit(pub bool);

/// The resources a game starts with: no hit pending, no strikes, no score.
/// With the pitcher on its first frame, that is a state that play reaches.
pub fn initial_resources() -> (r: (BallHit, Strikes, Score))
    ensures
        r == (BallHit(false), Strikes(0), Score(0)),
        pitch_invariant(pitch_state_of(0, r.0, r.1, r.2)),
{
    (BallHit(false), Strikes(0), Score(0))
}

} // verus!
