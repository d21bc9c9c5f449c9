use vstd::prelude::*;

use crate::outcome::Sound;
use crate::pitching::{pitch_invariant, pitch_spec, PitchState};
use crate::resources::BallHit;

verus! {

/// Frames of the batter's sprite sheet: 0 stands ready, 1 to 5 swing.
pub const BATTER_FRAMES: usize = 6;

/// The pitcher frame in which the ball can be hit.
pub const CONTACT_FRAME: usize = 2;

/// Some pitcher shows the ball in reach of the bat.
pub open spec fn ball_in_reach(pitcher_frames: Seq<usize>) -> bool {
    exists|k: int| 0 <= k < pitcher_frames.len() && pitcher_frames[k] == CONTACT_FRAME
}

/// One step of a batter: its new frame, whether a hit is pending, and the
/// sound to play. `swing_finished` is whether the swing timer has just
/// finished (it paces the batter only mid-swing, see `swing_in_progress`);
/// `space_pressed` is whether the swing key was just pressed.
pub open spec fn swing_spec(
    sprite_index: usize,
    hit: bool,
    swing_finished: bool,
    space_pressed: bool,
    pitcher_frames: Seq<usize>,
) -> (usize, bool, Option<Sound>) {
    if sprite_index != 0 {
        if swing_finished {
            (((sprite_index + 1) % (BATTER_FRAMES as int)) as usize, hit, None)
        } else {
            (sprite_index, hit, None)
        }
    } else if space_pressed {
        (1, hit || ball_in_reach(pitcher_frames), Some(Sound::Swing))
    } else {
        (sprite_index, hit, None)
    }
}

/// Whether the swing timer paces the batter on the given frame.
pub fn swing_in_progress(sprite_index: usize) -> (b: bool)
    ensures
        b == (sprite_index != 0),
{
    sprite_index != 0
}

/// Whether any of the pitchers' frames holds the ball in reach of the bat.
pub fn ball_within_reach(pitcher_frames: &Vec<usize>) -> (b: bool)
    ensures
        b == ball_in_reach(pitcher_frames@),
{
    let mut k: usize = 0;
    while k < pitcher_frames.len()
        invariant
            k <= pitcher_frames.len(),
            forall|j: int| 0 <= j < k ==> pitcher_frames@[j] != CONTACT_FRAME,
        decreases pitcher_frames.len() - k,
    {
        if pitcher_frames[k] == CONTACT_FRAME {
            return true;
        }
        k = k + 1;
    }
    false
}

/// Advances a batter by one step. A swing starts when the key is pressed
/// while the batter stands ready, and it connects when some pitcher, whose
/// frames are `pitcher_frames`, has the ball in reach.
pub fn swing_bat(
    sprite_index: &mut usize,
    hit: &mut BallHit,
    swing_finished: bool,
    space_pressed: bool,
    pitcher_frames: &Vec<usize>,
) -> (sound: Option<Sound>)
    ensures
        (*final(sprite_index), final(hit).0, sound) == swing_spec(
            *old(sprite_index),
            old(hit).0,
            swing_finished,
            space_pressed,
            pitcher_frames@,
        ),
{
    if *sprite_index != 0 {
        if swing_finished {
            *sprite_index = next_batter_frame(*sprite_index);
        }
        None
    } else if space_pressed {
        *sprite_index = next_batter_frame(*sprite_index);
        if ball_within_reach(pitcher_frames) {
            hit.0 = true;
        }
        Some(Sound::Swing)
    } else {
        None
    }
}

/// The frame after `i` on the batter's sheet, wrapping around its end.
pub fn next_batter_frame(i: usize) -> (r: usize)
    ensures
        r == (i + 1) % (BATTER_FRAMES as int),
{
    (i % BATTER_FRAMES + 1) % BATTER_FRAMES
}

/// A batter's frame stays on its sheet, and a swing never takes back a hit.
pub proof fn lemma_swing_keeps_frames_and_hits(
    sprite_index: usize,
    hit: bool,
    swing_finished: bool,
    space_pressed: bool,
    pitcher_frames: Seq<usize>,
)
    requires
        sprite_index < BATTER_FRAMES,
    ensures
        swing_spec(sprite_index, hit, swing_finished, space_pressed, pitcher_frames).0 < BATTER_FRAMES,
        hit ==> swing_spec(sprite_index, hit, swing_finished, space_pressed, pitcher_frames).1,
{
}

/// A swing started while the ball is in reach scores one run when the pitch
/// reaches the plate, two pitcher steps later.
pub proof fn lemma_timed_swing_scores(s: PitchState, pitcher_frames: Seq<usize>)
    requires
        s.sprite_index == CONTACT_FRAME,
        pitcher_frames.contains(s.sprite_index),
        s.score < usize::MAX,
    ensures
        ({
            let swung = PitchState { hit: swing_spec(0, s.hit, false, true, pitcher_frames).1, ..s };
            let at_plate = pitch_spec(swung, true).0;
            let (after, out) = pitch_spec(at_plate, true);
            &&& at_plate.sprite_index == 3
            &&& after.score == s.score + 1
            &&& after.strikes == s.strikes
            &&& after.sprite_index == 5
            &&& out.sound == Some(Sound::Hit)
        }),
{
}

/// Without a hit pending, a pitch in reach of the bat becomes a strike when it
/// reaches the plate.
pub proof fn lemma_unswung_pitch_is_strike(s: PitchState)
    requires
        s.sprite_index == CONTACT_FRAME,
        !s.hit,
        s.strikes < usize::MAX,
    ensures
        ({
            let at_plate = pitch_spec(s, true).0;
            let (after, out) = pitch_spec(at_plate, true);
            &&& after.strikes == s.strikes + 1
            &&& after.score == s.score
            &&& after.sprite_index == 4
            &&& out.sound == Some(Sound::Miss)
        }),
{
}

/// A hit is only pending while the single pitcher's ball is in reach of the
/// bat or at the plate.
pub open spec fn hit_invariant(s: PitchState) -> bool {
    s.hit ==> s.sprite_index == CONTACT_FRAME || s.sprite_index == 3
}

/// With one pitcher on the field, a batter's step and a pitcher's step both
/// keep the states that play reaches, and so does any interleaving of them.
pub proof fn lemma_play_keeps_invariants(
    s: PitchState,
    batter_frame: usize,
    swing_finished: bool,
    space_pressed: bool,
    timer_finished: bool,
)
    requires
        pitch_invariant(s),
        hit_invariant(s),
    ensures
        ({
            let swung = PitchState {
                hit: swing_spec(batter_frame, s.hit, swing_finished, space_pressed, seq![s.sprite_index]).1,
                ..s
            };
            pitch_invariant(swung) && hit_invariant(swung)
        }),
        pitch_invariant(pitch_spec(s, timer_finished).0),
        hit_invariant(pitch_spec(s, timer_finished).0),
{
    let frames = seq![s.sprite_index];
    if ball_in_reach(frames) {
        let k = choose|k: int| 0 <= k < frames.len() && frames[k] == CONTACT_FRAME;
        assert(frames[k] == s.sprite_index);
    }
}

/// A swing registers a hit only when the batter, standing ready, swings on
/// the key while some pitcher shows the contact frame; a batter mid-swing, or
/// one that does not swing, never changes the pending hit. A swing on the
/// contact frame always registers it.
pub proof fn lemma_swing_hits_only_on_contact(
    sprite_index: usize,
    hit: bool,
    swing_finished: bool,
    space_pressed: bool,
    pitcher_frames: Seq<usize>,
)
    ensures
        swing_spec(sprite_index, hit, swing_finished, space_pressed, pitcher_frames).1 ==> hit || (
        sprite_index == 0 && space_pressed && exists|k: int|
            0 <= k < pitcher_frames.len() && pitcher_frames[k] == 2),
        sprite_index != 0 || !space_pressed ==> swing_spec(
            sprite_index,
            hit,
            swing_finished,
            space_pressed,
            pitcher_frames,
        ).1 == hit,
        sprite_index == 0 && space_pressed && (exists|k: int|
            0 <= k < pitcher_frames.len() && pitcher_frames[k] == 2) ==> swing_spec(
            sprite_index,
            hit,
            swing_finished,
            space_pressed,
            pitcher_frames,
        ).1,
{
}

/// The batter's frames and sound: standing ready it starts a swing on frame 1
/// with the swing sound exactly when the key is pressed; mid-swing it moves
/// one frame along its sheet (wrapping to ready) only when the swing timer
/// finishes, silently.
pub proof fn lemma_swing_frames(
    sprite_index: usize,
    hit: bool,
    swing_finished: bool,
    space_pressed: bool,
    pitcher_frames: Seq<usize>,
)
    ensures
        ({
            let (next, _h, sound) = swing_spec(sprite_index, hit, swing_finished, space_pressed, pitcher_frames);
            &&& sprite_index == 0 && space_pressed ==> next == 1 && sound == Some(Sound::Swing)
            &&& sprite_index == 0 && !space_pressed ==> next == 0 && sound is None
            &&& sprite_index != 0 && swing_finished ==> next == (sprite_index + 1) % 6 && sound is None
            &&& sprite_index != 0 && !swing_finished ==> next == sprite_index && sound is None
        }),
{
}

} // verus!
