use vstd::prelude::*;

use crate::pitching::{pitch_spec, PitchState};
use crate::screens::{menu_spec, splash_spec};
use crate::states::GameState;

verus! {

/// The game's per-frame systems.
#[derive(Clone, Copy, Debug, PartialEq, Eq, Hash, Structural)]
pub enum GameSystem {
    AdvanceSplashScreen,
    AdvanceMenu,
    Pitch,
    SwingBat,
    UpdateStrikeSprite,
    QuitGame,
}

/// The screens on which each system runs.
pub open spec fn runs_in_spec(system: GameSystem, state: GameState) -> bool {
    match system {
        GameSystem::AdvanceSplashScreen => state == GameState::Boot || state == GameState::End,
        GameSystem::AdvanceMenu => state == GameState::Menu,
        GameSystem::Pitch => state == GameState::Level,
        GameSystem::SwingBat => state == GameState::Level,
        GameSystem::UpdateStrikeSprite => state == GameState::Level,
        GameSystem::QuitGame => true,
    }
}

/// Whether `system` runs while the game shows `state`.
pub fn runs_in(system: GameSystem, state: GameState) -> (b: bool)
    ensures
        b == runs_in_spec(system, state),
{
    match system {
        GameSystem::AdvanceSplashScreen => match state {
            GameState::Boot => true,
            GameState::End => true,
            _ => false,
        },
        GameSystem::AdvanceMenu => match state {
            GameState::Menu => true,
            _ => false,
        },
        GameSystem::Pitch | GameSystem::SwingBat | GameSystem::UpdateStrikeSprite => match state {
            GameState::Level => true,
            _ => false,
        },
        GameSystem::QuitGame => true,
    }
}

/// The screen that follows each screen: boot and game over lead to the menu,
/// the menu to play, and play to game over.
pub open spec fn screen_after(state: GameState) -> GameState {
    match state {
        GameState::Boot => GameState::Menu,
        GameState::Menu => GameState::Level,
        GameState::Level => GameState::End,
        GameState::End => GameState::Menu,
    }
}

/// Every screen change that a running system asks for moves to the screen
/// that follows the current one; so the boot screen is shown only once, and
/// after it the game cycles menu, play, game over.
pub proof fn lemma_screens_cycle(
    state: GameState,
    space_pressed: bool,
    boot_finished: bool,
    batter_frames: Seq<usize>,
    pitcher: PitchState,
    timer_finished: bool,
)
    ensures
        runs_in_spec(GameSystem::AdvanceSplashScreen, state) && splash_spec(space_pressed, boot_finished) is Some
            ==> splash_spec(space_pressed, boot_finished) == Some(screen_after(state)),
        runs_in_spec(GameSystem::AdvanceMenu, state) && menu_spec(space_pressed, batter_frames).1.next_state is Some
            ==> menu_spec(space_pressed, batter_frames).1.next_state == Some(screen_after(state)),
        runs_in_spec(GameSystem::Pitch, state) && pitch_spec(pitcher, timer_finished).1.next_state is Some
            ==> pitch_spec(pitcher, timer_finished).1.next_state == Some(screen_after(state)),
        screen_after(state) != GameState::Boot,
{
}

} // verus!
