use vstd::prelude::*;

use crate::resources::{BallHit, Score, Strikes};
use crate::outcome::{quiet, Outcome, Sound};
use crate::states::GameState;

verus! {

/// Frames of the pitcher's sprite sheet, which drive the pitch:
/// 0 winds up, 1 and 2 carry the ball towards the plate, 3 is the ball at the
/// plate, 4 shows a strike, 5 to 7 follow a hit ball out of the park.
pub const PITCHER_FRAMES: usize = 8;

/// Strikes that end a game.
pub const STRIKE_OUT: usize = 3;

/// What the pitcher and the scoreboard hold between two frames of play.
#[derive(Clone, Copy, Debug, PartialEq, Eq, Structural)]
pub struct PitchState {
    pub sprite_index: usize,
    pub hit: bool,
    pub strikes: usize,
    pub score: usize,
}

/// The timer that paces the pitcher's current frame.
#[derive(Clone, Copy, Debug, PartialEq, Eq, Structural)]
pub enum PitchClock {
    /// The pitcher waits between pitches: the pitch delay timer.
    Delay,
    /// A pitch is under way: the pitch timer.
    Flight,
}

/// One step of the pitcher, given whether the timer that paces its current
/// frame (see `pitch_clock`) has just finished.
pub open spec fn pitch_spec(s: PitchState, timer_finished: bool) -> (PitchState, Outcome) {
    if !timer_finished {
        (s, quiet())
    } else if s.sprite_index == 0 {
        if s.strikes == STRIKE_OUT {
            (PitchState { strikes: 0, ..s }, Outcome { next_state: Some(GameState::End), sound: None })
        } else {
            (PitchState { sprite_index: 1, ..s }, quiet())
        }
    } else if s.sprite_index < 3 {
        (PitchState { sprite_index: (s.sprite_index + 1) as usize, ..s }, quiet())
    } else if s.sprite_index == 3 && !s.hit {
        (
            PitchState { sprite_index: 4, hit: false, strikes: (s.strikes + 1) as usize, ..s },
            Outcome { next_state: None, sound: Some(Sound::Miss) },
        )
    } else if s.sprite_index == 3 {
        (
            PitchState { sprite_index: 5, hit: false, score: (s.score + 1) as usize, ..s },
            Outcome { next_state: None, sound: Some(Sound::Hit) },
        )
    } else if s.sprite_index == 4 {
        (PitchState { sprite_index: 0, ..s }, quiet())
    } else if s.sprite_index == 6 {
        (PitchState { sprite_index: 7, ..s }, Outcome { next_state: None, sound: Some(Sound::HomeRun) })
    } else {
        (PitchState { sprite_index: ((s.sprite_index + 1) % (PITCHER_FRAMES as int)) as usize, ..s }, quiet())
    }
}

/// The counters that a step bumps still fit in a `usize`.
pub open spec fn pitch_fits(s: PitchState, timer_finished: bool) -> bool {
    timer_finished && s.sprite_index == 3 ==> {
        &&& !s.hit ==> s.strikes < usize::MAX
        &&& s.hit ==> s.score < usize::MAX
    }
}

/// The pitcher and scoreboard states that play reaches: the pitcher is on one
/// of its frames, strikes never pass the strike-out count, and a third strike
/// is only held while the pitcher shows it (frame 4) or winds up (frame 0).
pub open spec fn pitch_invariant(s: PitchState) -> bool {
    &&& s.sprite_index < PITCHER_FRAMES
    &&& s.strikes <= STRIKE_OUT
    &&& s.strikes == STRIKE_OUT ==> s.sprite_index == 0 || s.sprite_index == 4
}

/// Every pitch step keeps the reachable-state invariant, and from such a state
/// a step can only overflow the score.
pub proof fn lemma_pitch_keeps_invariant(s: PitchState, timer_finished: bool)
    requires
        pitch_invariant(s),
    ensures
        pitch_invariant(pitch_spec(s, timer_finished).0),
        s.score < usize::MAX ==> pitch_fits(s, timer_finished),
{
}

/// A pitch step changes the score only by scoring a pending hit when the ball
/// reaches the plate, and then by exactly one.
pub proof fn lemma_pitch_scores_only_hits(s: PitchState, timer_finished: bool)
    requires
        pitch_fits(s, timer_finished),
    ensures
        pitch_spec(s, timer_finished).0.score == (if timer_finished && s.sprite_index == 3 && s.hit {
            s.score + 1
        } else {
            s.score as int
        }),
{
}

/// The ball reaching the plate always settles the pending hit: afterwards no
/// hit is pending, and the batter either scored or took a strike.
pub proof fn lemma_plate_settles_hit(s: PitchState)
    requires
        s.sprite_index == 3,
        pitch_fits(s, true),
    ensures
        !pitch_spec(s, true).0.hit,
        s.hit ==> pitch_spec(s, true).0.score == s.score + 1 && pitch_spec(s, true).0.strikes == s.strikes,
        !s.hit ==> pitch_spec(s, true).0.strikes == s.strikes + 1 && pitch_spec(s, true).0.score == s.score,
{
}

/// The game ends exactly when the pitcher finishes winding up with the batter
/// struck out, and the strikes are then cleared for the next game.
pub proof fn lemma_strike_out_ends_game(s: PitchState, timer_finished: bool)
    ensures
        pitch_spec(s, timer_finished).1.next_state is Some <==> (timer_finished && s.sprite_index == 0
            && s.strikes == STRIKE_OUT),
        pitch_spec(s, timer_finished).1.next_state is Some ==> pitch_spec(s, timer_finished).1.next_state
            == Some(GameState::End) && pitch_spec(s, timer_finished).0.strikes == 0,
{
}

pub open spec fn pitch_state_of(sprite_index: usize, hit: BallHit, strikes: Strikes, score: Score) -> PitchState {
    PitchState { sprite_index, hit: hit.0, strikes: strikes.0, score: score.0 }
}

/// Which timer paces the pitcher on the given frame.
pub fn pitch_clock(sprite_index: usize) -> (c: PitchClock)
    ensures
        c == (if sprite_index == 0 { PitchClock::Delay } else { PitchClock::Flight }),
{
    if sprite_index == 0 {
        PitchClock::Delay
    } else {
        PitchClock::Flight
    }
}

/// Advances the pitcher by one step: `timer_finished` tells whether the timer
/// named by `pitch_clock(*sprite_index)` has just finished.
pub fn pitch(
    sprite_index: &mut usize,
    hit: &mut BallHit,
    strikes: &mut Strikes,
    score: &mut Score,
    timer_finished: bool,
) -> (out: Outcome)
    requires
        pitch_fits(pitch_state_of(*old(sprite_index), *old(hit), *old(strikes), *old(score)), timer_finished),
    ensures
        (pitch_state_of(*final(sprite_index), *final(hit), *final(strikes), *final(score)), out)
            == pitch_spec(pitch_state_of(*old(sprite_index), *old(hit), *old(strikes), *old(score)), timer_finished),
{
    let none = Outcome { next_state: None, sound: None };
    if !timer_finished {
        return none;
    }
    if *sprite_index == 0 {
        if strikes.0 == STRIKE_OUT {
            strikes.0 = 0;
            Outcome { next_state: Some(GameState::End), sound: None }
        } else {
            *sprite_index = *sprite_index + 1;
            none
        }
    } else if *sprite_index < 3 {
        *sprite_index = *sprite_index + 1;
        none
    } else if *sprite_index == 3 && !hit.0 {
        *sprite_index = 4;
        hit.0 = false;
        strikes.0 = strikes.0 + 1;
        Outcome { next_state: None, sound: Some(Sound::Miss) }
    } else if *sprite_index == 3 && hit.0 {
        *sprite_index = 5;
        hit.0 = false;
        score.0 = score.0 + 1;
        Outcome { next_state: None, sound: Some(Sound::Hit) }
    } else if *sprite_index == 4 {
        *sprite_index = 0;
        none
    } else if *sprite_index == 6 {
        *sprite_index = next_frame(*sprite_index);
        Outcome { next_state: None, sound: Some(Sound::HomeRun) }
    } else {
        *sprite_index = next_frame(*sprite_index);
        none
    }
}

/// The frame after `i` on the pitcher's sheet, wrapping around its end.
fn next_frame(i: usize) -> (r: usize)
    ensures
        r == (i + 1) % (PITCHER_FRAMES as int),
{
    (i % PITCHER_FRAMES + 1) % PITCHER_FRAMES
}

/// The frame of the strike counter sprite for a strike count: one frame per
/// strike, up to the strike-out count.
pub open spec fn strike_frame(strikes: usize) -> usize {
    if strikes < STRIKE_OUT {
        strikes
    } else {
        STRIKE_OUT
    }
}

/// The frame the strike counter shows for the current strikes.
pub fn update_strike_sprite(strikes: &Strikes) -> (frame: usize)
    ensures
        frame == strike_frame(strikes.0),
{
    if strikes.0 < STRIKE_OUT {
        strikes.0
    } else {
        STRIKE_OUT
    }
}

/// In every state that play reaches, the strike counter shows exactly the
/// strikes taken.
pub proof fn lemma_strike_sprite_shows_strikes(s: PitchState)
    requires
        pitch_invariant(s),
    ensures
        strike_frame(s.strikes) == s.strikes,
{
}

/// Without its pacing timer finishing, the pitcher holds still: frame, hit,
/// strikes and score stay, and nothing is asked of the engine.
pub proof fn lemma_pitch_waits_for_timer(s: PitchState)
    ensures
        pitch_spec(s, false).0 == s,
        pitch_spec(s, false).1.next_state is None,
        pitch_spec(s, false).1.sound is None,
{
}

/// The pitcher's frames: a finished wind-up starts a pitch on frame 1 unless
/// the batter is out; a pitch in flight moves one frame at a time, so every
/// pitch passes through the contact frame before the plate; the plate leads
/// to the strike frame 4 or, with a hit pending, to frame 5; the strike frame
/// returns to the wind-up; and frames from 5 on move one frame along the
/// sheet, wrapping to the wind-up.
pub proof fn lemma_pitch_frames(s: PitchState)
    ensures
        ({
            let next = pitch_spec(s, true).0.sprite_index;
            &&& s.sprite_index == 0 && s.strikes != STRIKE_OUT ==> next == 1
            &&& s.sprite_index == 0 && s.strikes == STRIKE_OUT ==> next == 0
            &&& 0 < s.sprite_index < 3 ==> next == s.sprite_index + 1
            &&& s.sprite_index == 3 && !s.hit ==> next == 4
            &&& s.sprite_index == 3 && s.hit ==> next == 5
            &&& s.sprite_index == 4 ==> next == 0
            &&& s.sprite_index > 4 ==> next == (s.sprite_index + 1) % 8
        }),
{
}

/// A pitch step never sets a pending hit: only a swing does. It clears one
/// only at the plate.
pub proof fn lemma_pitch_never_sets_hit(s: PitchState, timer_finished: bool)
    ensures
        pitch_spec(s, timer_finished).0.hit ==> s.hit,
        !(timer_finished && s.sprite_index == 3) ==> pitch_spec(s, timer_finished).0.hit == s.hit,
{
}

/// Strikes change only on a pitch that reaches the plate with no hit pending
/// (one more strike) and on the wind-up after the strike-out (cleared); every
/// other step, a hit or a home run included, leaves them as they were.
pub proof fn lemma_pitch_strikes(s: PitchState, timer_finished: bool)
    requires
        pitch_fits(s, timer_finished),
    ensures
        pitch_spec(s, timer_finished).0.strikes == (if timer_finished && s.sprite_index == 3 && !s.hit {
            s.strikes + 1
        } else if timer_finished && s.sprite_index == 0 && s.strikes == STRIKE_OUT {
            0
        } else {
            s.strikes as int
        }),
{
}

/// The sounds of a pitch step: a miss exactly when a strike is added, a hit
/// exactly when a run is scored, a home run exactly when the hit ball leaves
/// frame 6, and no sound otherwise.
pub proof fn lemma_pitch_sounds(s: PitchState, timer_finished: bool)
    ensures
        (pitch_spec(s, timer_finished).1.sound == Some(Sound::Miss)) <==> (timer_finished && s.sprite_index == 3
            && !s.hit),
        (pitch_spec(s, timer_finished).1.sound == Some(Sound::Hit)) <==> (timer_finished && s.sprite_index == 3
            && s.hit),
        (pitch_spec(s, timer_finished).1.sound == Some(Sound::HomeRun)) <==> (timer_finished && s.sprite_index
            == 6),
        pitch_spec(s, timer_finished).1.sound != Some(Sound::Swing),
{
}

} // verus!
