use vstd::prelude::*;

use crate::states::GameState;

verus! {

/// A sound effect that a game step asks to be played.
#[derive(Clone, Copy, Debug, PartialEq, Eq, Hash, Structural)]
pub enum Sound {
    /// The bat swings.
    Swing,
    /// The ball passes the batter: a strike.
    Miss,
    /// The bat connects with the ball.
    Hit,
    /// The hit ball leaves the park.
    HomeRun,
}

/// What a game step asks of the engine besides the resources it updates.
#[derive(Clone, Copy, Debug, PartialEq, Eq, Structural)]
pub struct Outcome {
    /// A screen to move to, if any.
    pub next_state: Option<GameState>,
    /// A sound to play, if any.
    pub sound: Option<Sound>,
}

/// A step that asks for nothing.
pub open spec fn quiet() -> Outcome {
    Outcome { next_state: None, sound: None }
}

} // verus!
