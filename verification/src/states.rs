use vstd::prelude::*;

verus! {

/// The screens the game moves through.
#[derive(Clone, Copy, Debug, PartialEq, Eq, Hash, Structural)]
pub enum GameState {
    Boot,
    Menu,
    Level,
    End,
}

impl Default for GameState {
    /// The game starts on the boot splash screen.
    fn default() -> (s: GameState)
        ensures
            s == GameState::Boot,
    {
        GameState::Boot
    }
}

/// Whether play is paused.
#[derive(Clone, Copy, Debug, PartialEq, Eq, Hash, Structural)]
pub enum PauseState {
    Unpaused,
    Paused,
}

impl Default for PauseState {
    /// The game starts unpaused.
    fn default() -> (s: PauseState)
        ensures
            s == PauseState::Unpaused,
    {
        PauseState::Unpaused
    }
}

} // verus!
