use space_batter::batting::{ball_within_reach, next_batter_frame, swing_bat, swing_in_progress};
use space_batter::outcome::{Outcome, Sound};
use space_batter::pitching::{pitch, pitch_clock, update_strike_sprite, PitchClock};
use space_batter::resources::{initial_resources, BallHit, Score, Strikes};
use space_batter::states::GameState;

fn step(frame: &mut usize, hit: &mut BallHit, strikes: &mut Strikes, score: &mut Score, finished: bool) -> Outcome {
    pitch(frame, hit, strikes, score, finished)
}

#[test]
fn pitch_waits_until_its_timer_finishes() {
    for start in 0..8usize {
        let mut frame = start;
        let mut hit = BallHit(true);
        let mut strikes = Strikes(1);
        let mut score = Score(4);
        let out = step(&mut frame, &mut hit, &mut strikes, &mut score, false);
        assert_eq!(frame, start);
        assert_eq!(hit, BallHit(true));
        assert_eq!(strikes, Strikes(1));
        assert_eq!(score, Score(4));
        assert_eq!(out, Outcome { next_state: None, sound: None });
    }
}

#[test]
fn pitch_clock_follows_frame() {
    assert_eq!(pitch_clock(0), PitchClock::Delay);
    assert_eq!(pitch_clock(1), PitchClock::Flight);
    assert_eq!(pitch_clock(7), PitchClock::Flight);
}

#[test]
fn unswung_pitch_is_a_strike() {
    let (mut hit, mut strikes, mut score) = initial_resources();
    let mut frame = 0usize;
    let mut frames = Vec::new();
    let mut sounds = Vec::new();
    for _ in 0..5 {
        let out = step(&mut frame, &mut hit, &mut strikes, &mut score, true);
        frames.push(frame);
        sounds.push(out.sound);
        assert_eq!(out.next_state, None);
    }
    assert_eq!(frames, vec![1, 2, 3, 4, 0]);
    assert_eq!(sounds, vec![None, None, None, Some(Sound::Miss), None]);
    assert_eq!(strikes, Strikes(1));
    assert_eq!(score, Score(0));
    assert_eq!(hit, BallHit(false));
}

#[test]
fn timed_swing_scores_a_home_run() {
    let (mut hit, mut strikes, mut score) = initial_resources();
    let mut frame = 0usize;
    step(&mut frame, &mut hit, &mut strikes, &mut score, true);
    step(&mut frame, &mut hit, &mut strikes, &mut score, true);
    assert_eq!(frame, 2);
    let mut batter = 0usize;
    let sound = swing_bat(&mut batter, &mut hit, false, true, &vec![frame]);
    assert_eq!(sound, Some(Sound::Swing));
    assert_eq!(batter, 1);
    assert_eq!(hit, BallHit(true));
    let mut frames = Vec::new();
    let mut sounds = Vec::new();
    for _ in 0..5 {
        let out = step(&mut frame, &mut hit, &mut strikes, &mut score, true);
        frames.push(frame);
        sounds.push(out.sound);
    }
    assert_eq!(frames, vec![3, 5, 6, 7, 0]);
    assert_eq!(sounds, vec![None, Some(Sound::Hit), None, Some(Sound::HomeRun), None]);
    assert_eq!(score, Score(1));
    assert_eq!(strikes, Strikes(0));
    assert_eq!(hit, BallHit(false));
}

#[test]
fn early_swing_misses() {
    let mut hit = BallHit(false);
    let mut batter = 0usize;
    swing_bat(&mut batter, &mut hit, false, true, &vec![1]);
    assert_eq!(hit, BallHit(false));
    let mut frame = 3usize;
    let mut strikes = Strikes(0);
    let mut score = Score(0);
    let out = step(&mut frame, &mut hit, &mut strikes, &mut score, true);
    assert_eq!(out.sound, Some(Sound::Miss));
    assert_eq!(strikes, Strikes(1));
}

#[test]
fn third_strike_ends_the_game() {
    let mut frame = 0usize;
    let mut hit = BallHit(false);
    let mut strikes = Strikes(0);
    let mut score = Score(2);
    let mut ended = None;
    for _ in 0..20 {
        let out = step(&mut frame, &mut hit, &mut strikes, &mut score, true);
        if out.next_state.is_some() {
            ended = out.next_state;
            break;
        }
    }
    assert_eq!(ended, Some(GameState::End));
    assert_eq!(strikes, Strikes(0));
    assert_eq!(frame, 0);
    assert_eq!(score, Score(2));
}

#[test]
fn struck_out_pitcher_ends_on_wind_up() {
    let mut frame = 0usize;
    let mut hit = BallHit(false);
    let mut strikes = Strikes(3);
    let mut score = Score(9);
    let out = step(&mut frame, &mut hit, &mut strikes, &mut score, true);
    assert_eq!(out, Outcome { next_state: Some(GameState::End), sound: None });
    assert_eq!(frame, 0);
    assert_eq!(strikes, Strikes(0));
    assert_eq!(score, Score(9));
}

#[test]
fn out_of_sheet_frames_wrap() {
    let mut frame = 9usize;
    let mut hit = BallHit(false);
    let mut strikes = Strikes(0);
    let mut score = Score(0);
    step(&mut frame, &mut hit, &mut strikes, &mut score, true);
    assert_eq!(frame, 2);
    let mut frame = usize::MAX;
    step(&mut frame, &mut hit, &mut strikes, &mut score, true);
    assert_eq!(frame, 0);
}

#[test]
fn batter_swing_cycles_six_frames() {
    let mut batter = 1usize;
    let mut hit = BallHit(false);
    let mut seen = Vec::new();
    for _ in 0..5 {
        assert!(swing_in_progress(batter));
        let sound = swing_bat(&mut batter, &mut hit, true, true, &vec![2]);
        assert_eq!(sound, None);
        seen.push(batter);
    }
    assert_eq!(seen, vec![2, 3, 4, 5, 0]);
    assert!(!swing_in_progress(batter));
    assert_eq!(hit, BallHit(false));
}

#[test]
fn batter_mid_swing_waits_for_timer() {
    let mut batter = 3usize;
    let mut hit = BallHit(false);
    assert_eq!(swing_bat(&mut batter, &mut hit, false, true, &vec![2]), None);
    assert_eq!(batter, 3);
    assert_eq!(hit, BallHit(false));
}

#[test]
fn idle_batter_without_key_stays() {
    let mut batter = 0usize;
    let mut hit = BallHit(true);
    assert_eq!(swing_bat(&mut batter, &mut hit, true, false, &vec![2]), None);
    assert_eq!(batter, 0);
    assert_eq!(hit, BallHit(true));
}

#[test]
fn swing_keeps_earlier_hit() {
    let mut batter = 0usize;
    let mut hit = BallHit(true);
    swing_bat(&mut batter, &mut hit, false, true, &vec![]);
    assert_eq!(hit, BallHit(true));
}

#[test]
fn ball_reach_over_pitchers() {
    assert!(!ball_within_reach(&vec![]));
    assert!(!ball_within_reach(&vec![0, 1, 3, 7]));
    assert!(ball_within_reach(&vec![0, 2]));
    assert_eq!(next_batter_frame(5), 0);
    assert_eq!(next_batter_frame(usize::MAX), 4);
}

#[test]
fn strike_sprite_counts_up_to_three() {
    assert_eq!(update_strike_sprite(&Strikes(0)), 0);
    assert_eq!(update_strike_sprite(&Strikes(2)), 2);
    assert_eq!(update_strike_sprite(&Strikes(3)), 3);
    assert_eq!(update_strike_sprite(&Strikes(17)), 3);
}

#[test]
fn long_play_stays_in_reachable_states() {
    let (mut hit, mut strikes, mut score) = initial_resources();
    let mut frame = 0usize;
    let mut batter = 0usize;
    let mut games = 0;
    for t in 0..400usize {
        let press = t % 7 == 0 || t % 11 == 3;
        swing_bat(&mut batter, &mut hit, t % 2 == 0, press, &vec![frame]);
        if hit.0 {
            assert!(frame == 2 || frame == 3);
        }
        let out = step(&mut frame, &mut hit, &mut strikes, &mut score, t % 3 != 1);
        if out.next_state == Some(GameState::End) {
            games += 1;
            assert_eq!(strikes, Strikes(0));
        }
        assert!(frame < 8);
        assert!(batter < 6);
        assert!(strikes.0 <= 3);
        if strikes.0 == 3 {
            assert!(frame == 0 || frame == 4);
        }
        assert_eq!(update_strike_sprite(&strikes), strikes.0);
    }
    assert!(games > 0);
}
