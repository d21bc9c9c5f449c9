use vstd::prelude::*;

use crate::batting::{next_batter_frame, BATTER_FRAMES};
use crate::outcome::{quiet, Outcome, Sound};
use crate::resources::Score;
use crate::states::GameState;

verus! {

/// The splash screens (boot and game over) give way to the menu when the
/// swing key is pressed or the boot timer has just finished.
pub open spec fn splash_spec(space_pressed: bool, boot_finished: bool) -> Option<GameState> {
    if space_pressed || boot_finished {
        Some(GameState::Menu)
    } else {
        None
    }
}

/// One step of a splash screen: the screen to move to, if any. When it is
/// `Some`, the boot timer is to be reset.
pub fn advance_splash_screen(space_pressed: bool, boot_finished: bool) -> (next: Option<GameState>)
    ensures
        next == splash_spec(space_pressed, boot_finished),
{
    if space_pressed || boot_finished {
        Some(GameState::Menu)
    } else {
        None
    }
}

/// What the menu does on a step: on the swing key, every batter takes one
/// frame of its swing, the swing is heard, and play starts.
pub open spec fn menu_spec(space_pressed: bool, batter_frames: Seq<usize>) -> (Seq<usize>, Outcome) {
    if space_pressed {
        (
            batter_frames.map_values(|f: usize| ((f + 1) % (BATTER_FRAMES as int)) as usize),
            Outcome { next_state: Some(GameState::Level), sound: Some(Sound::Swing) },
        )
    } else {
        (batter_frames, quiet())
    }
}

/// One step of the menu, on the frames of the batters shown there. When play
/// starts, the pitcher and the strike counter are to be spawned on frame 0.
pub fn advance_menu(space_pressed: bool, batter_frames: &mut Vec<usize>) -> (out: Outcome)
    ensures
        (final(batter_frames)@, out) == menu_spec(space_pressed, old(batter_frames)@),
{
    if !space_pressed {
        return Outcome { next_state: None, sound: None };
    }
    let n = batter_frames.len();
    let mut k: usize = 0;
    while k < n
        invariant
            n == batter_frames.len(),
            n == old(batter_frames)@.len(),
            k <= n,
            forall|j: int|
                0 <= j < k ==> batter_frames@[j] == (old(batter_frames)@[j] + 1) % (BATTER_FRAMES as int),
            forall|j: int| k <= j < n ==> batter_frames@[j] == old(batter_frames)@[j],
        decreases n - k,
    {
        let f = next_batter_frame(batter_frames[k]);
        batter_frames.set(k, f);
        k = k + 1;
    }
    assert(batter_frames@ =~= old(batter_frames)@.map_values(
        |f: usize| ((f + 1) % (BATTER_FRAMES as int)) as usize,
    ));
    Outcome { next_state: Some(GameState::Level), sound: Some(Sound::Swing) }
}

/// Entering the game-over screen: the score to show is the final score, and
/// the score is cleared for the next game.
pub fn spawn_end(score: &mut Score) -> (shown: usize)
    ensures
        shown == old(score).0,
        final(score).0 == 0,
{
    let shown = score.0;
    score.0 = 0;
    shown
}

/// A splash screen moves on, always to the menu, exactly when the key is
/// pressed or the boot timer has finished.
pub proof fn lemma_splash_advances(space_pressed: bool, boot_finished: bool)
    ensures
        splash_spec(space_pressed, boot_finished) is Some <==> space_pressed || boot_finished,
        splash_spec(space_pressed, boot_finished) is Some ==> splash_spec(space_pressed, boot_finished) == Some(
            GameState::Menu,
        ),
{
}

/// Without the swing key the menu waits: no screen change, no sound, and the
/// batters keep their frames. With it, play starts with the swing sound and
/// every batter moves one frame along its sheet.
pub proof fn lemma_menu_waits_for_key(space_pressed: bool, batter_frames: Seq<usize>)
    ensures
        !space_pressed ==> menu_spec(space_pressed, batter_frames).0 == batter_frames,
        !space_pressed ==> menu_spec(space_pressed, batter_frames).1 == (Outcome {
            next_state: None,
            sound: None,
        }),
        space_pressed ==> menu_spec(space_pressed, batter_frames).1 == (Outcome {
            next_state: Some(GameState::Level),
            sound: Some(Sound::Swing),
        }),
        space_pressed ==> menu_spec(space_pressed, batter_frames).0.len() == batter_frames.len(),
        space_pressed ==> forall|k: int|
            0 <= k < batter_frames.len() ==> #[trigger] menu_spec(space_pressed, batter_frames).0[k] == (
            batter_frames[k] + 1) % 6,
{
}

} // verus!
