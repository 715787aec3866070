use sprite_character::animation::{
    animate_sprites, Animation, AnimationError, AnimationMode, AnimationState, ClipParams,
    SpriteFrame,
};

const FRAME: u64 = 100_000_000;

fn clip(start: usize, end: usize, mode: AnimationMode) -> Animation {
    Animation::new(FRAME, start, end, mode, false).unwrap()
}

#[test]
fn new_clip_starts_on_its_first_frame() {
    let a = Animation::new(FRAME, 30, 36, AnimationMode::Repeating, true).unwrap();
    assert_eq!(a.start(), 30);
    assert_eq!(a.end(), 36);
    assert_eq!(a.len(), 6);
    assert_eq!(a.play_mode(), AnimationMode::Repeating);
    assert!(a.flip_x());
    assert_eq!(a.state(), AnimationState::Playing);
    assert_eq!(a.current_frame(), 0);
    assert_eq!(a.frame_time(), FRAME);
    assert_eq!(a.elapsed(), 0);
    assert_eq!(a.shown(), SpriteFrame { index: 30, flip_x: true });
}

#[test]
fn new_refuses_zero_frame_time() {
    let made = Animation::new(0, 0, 6, AnimationMode::Repeating, false);
    assert_eq!(made.unwrap_err(), AnimationError::ZeroFrameTime);
    // The cadence is looked at first.
    let made = Animation::new(0, 6, 6, AnimationMode::Once, false);
    assert_eq!(made.unwrap_err(), AnimationError::ZeroFrameTime);
}

#[test]
fn new_refuses_empty_range() {
    let made = Animation::new(FRAME, 6, 6, AnimationMode::Repeating, false);
    assert_eq!(made.unwrap_err(), AnimationError::EmptyRange);
    let made = Animation::new(FRAME, 7, 6, AnimationMode::Once, false);
    assert_eq!(made.unwrap_err(), AnimationError::EmptyRange);
}

#[test]
fn new_refuses_single_frame_played_once() {
    let made = Animation::new(FRAME, 6, 7, AnimationMode::Once, false);
    assert_eq!(made.unwrap_err(), AnimationError::SingleFrameOnce);
    // A single frame may repeat.
    let a = Animation::new(FRAME, 6, 7, AnimationMode::Repeating, false).unwrap();
    assert_eq!(a.len(), 1);
}

#[test]
fn defaults_are_repeating_and_playing() {
    assert_eq!(AnimationMode::default(), AnimationMode::Repeating);
    assert_eq!(AnimationState::default(), AnimationState::Playing);
}

#[test]
fn no_step_before_a_frame_time_has_passed() {
    let mut a = clip(0, 6, AnimationMode::Repeating);
    assert!(!a.advance(FRAME - 1));
    assert_eq!(a.current_frame(), 0);
    assert_eq!(a.elapsed(), FRAME - 1);
    assert!(a.advance(1));
    assert_eq!(a.current_frame(), 1);
    assert_eq!(a.elapsed(), 0);
}

#[test]
fn time_left_over_is_kept() {
    let mut a = Animation::new(100, 0, 6, AnimationMode::Repeating, false).unwrap();
    assert!(a.advance(250));
    assert_eq!(a.current_frame(), 2);
    assert_eq!(a.elapsed(), 50);
    assert!(a.advance(60));
    assert_eq!(a.current_frame(), 3);
    assert_eq!(a.elapsed(), 10);
    assert!(!a.advance(0));
    assert_eq!(a.current_frame(), 3);
    assert_eq!(a.elapsed(), 10);
}

#[test]
fn repeating_cursor_is_steps_modulo_length() {
    for n in 0..40u64 {
        let mut a = clip(30, 36, AnimationMode::Repeating);
        a.advance(n * FRAME);
        assert_eq!(a.current_frame() as u64, n % 6);
        assert_eq!(a.state(), AnimationState::Playing);
        assert_eq!(a.shown().index as u64, 30 + n % 6);
    }
}

#[test]
fn repeating_cursor_cycles_step_by_step() {
    let mut a = clip(30, 36, AnimationMode::Repeating);
    let mut seen = vec![a.current_frame()];
    for _ in 0..13 {
        assert!(a.advance(FRAME));
        seen.push(a.current_frame());
    }
    assert_eq!(seen, vec![0, 1, 2, 3, 4, 5, 0, 1, 2, 3, 4, 5, 0, 1]);
}

#[test]
fn single_frame_repeats_on_the_spot() {
    let mut a = clip(9, 10, AnimationMode::Repeating);
    assert!(a.advance(5 * FRAME));
    assert_eq!(a.current_frame(), 0);
    assert_eq!(a.state(), AnimationState::Playing);
}

#[test]
fn once_finishes_one_step_short_of_its_length() {
    let mut a = clip(36, 40, AnimationMode::Once);
    assert!(a.advance(FRAME));
    assert_eq!((a.current_frame(), a.state()), (1, AnimationState::Playing));
    assert!(a.advance(FRAME));
    assert_eq!((a.current_frame(), a.state()), (2, AnimationState::Playing));
    assert!(a.advance(FRAME));
    assert_eq!((a.current_frame(), a.state()), (3, AnimationState::Finished));
    assert_eq!(a.shown().index, 39);
}

#[test]
fn once_is_finished_exactly_from_length_less_one_steps() {
    for len in 2..9usize {
        for n in 0..12u64 {
            let mut a = clip(10, 10 + len, AnimationMode::Once);
            a.advance(n * FRAME);
            let finished = n >= len as u64 - 1;
            assert_eq!(a.state() == AnimationState::Finished, finished);
            assert_eq!(a.current_frame() as u64, n.min(len as u64 - 1));
        }
    }
}

#[test]
fn finished_clip_ignores_time() {
    let mut a = Animation::new(100, 36, 40, AnimationMode::Once, false).unwrap();
    assert!(a.advance(350));
    assert_eq!(a.state(), AnimationState::Finished);
    assert_eq!(a.elapsed(), 50);
    assert!(!a.advance(1_000));
    assert_eq!(a.state(), AnimationState::Finished);
    assert_eq!(a.current_frame(), 3);
    assert_eq!(a.elapsed(), 50);
}

#[test]
fn reset_rewinds_whatever_the_state() {
    let mut a = Animation::new(100, 36, 40, AnimationMode::Once, true).unwrap();
    a.advance(130);
    assert_eq!(a.state(), AnimationState::Playing);
    a.reset();
    assert_eq!((a.current_frame(), a.state(), a.elapsed()), (0, AnimationState::Playing, 0));
    a.advance(1_000);
    assert_eq!(a.state(), AnimationState::Finished);
    a.reset();
    assert_eq!((a.current_frame(), a.state(), a.elapsed()), (0, AnimationState::Playing, 0));
    assert_eq!((a.start(), a.end(), a.play_mode(), a.flip_x()), (36, 40, AnimationMode::Once, true));
    assert_eq!(a.frame_time(), 100);
}

#[test]
fn more_periods_than_a_timer_counts_in_one_tick() {
    let mut a = Animation::new(1, 0, 6, AnimationMode::Repeating, false).unwrap();
    assert!(a.advance(10_000_000_000));
    assert_eq!(a.current_frame(), 4);
    assert_eq!(a.elapsed(), 0);

    let mut a = Animation::new(3, 0, 6, AnimationMode::Repeating, false).unwrap();
    assert!(!a.advance(2));
    assert_eq!(a.elapsed(), 2);
    assert!(a.advance(15_000_000_002));
    assert_eq!(a.current_frame(), 3);
    assert_eq!(a.elapsed(), 1);

    let mut a = Animation::new(1, 0, 6, AnimationMode::Repeating, false).unwrap();
    assert!(a.advance(u64::MAX));
    assert_eq!(a.current_frame() as u64, u64::MAX % 6);

    let mut a = Animation::new(2, 36, 40, AnimationMode::Once, false).unwrap();
    assert!(a.advance(u64::MAX));
    assert_eq!(a.state(), AnimationState::Finished);
    assert_eq!(a.current_frame(), 3);
    assert_eq!(a.elapsed(), 1);
}

#[test]
fn just_under_the_count_a_timer_holds() {
    let mut a = Animation::new(1, 0, 7, AnimationMode::Repeating, false).unwrap();
    assert!(a.advance(4_294_967_294));
    assert_eq!(a.current_frame() as u64, 4_294_967_294 % 7);
    let mut a = Animation::new(1, 0, 7, AnimationMode::Repeating, false).unwrap();
    assert!(a.advance(4_294_967_295));
    assert_eq!(a.current_frame() as u64, 4_294_967_295 % 7);
}

#[test]
fn play_rewrites_the_clip_in_place() {
    let mut a = Animation::new(100, 0, 6, AnimationMode::Repeating, false).unwrap();
    a.advance(250);
    let attack =
        ClipParams { start: 42, end: 46, flip_x: true, play_mode: AnimationMode::Once };
    assert_eq!(a.play(attack), Ok(()));
    assert_eq!((a.start(), a.end(), a.flip_x(), a.play_mode()), (42, 46, true, AnimationMode::Once));
    assert_eq!((a.current_frame(), a.state(), a.elapsed()), (0, AnimationState::Playing, 0));
    assert_eq!(a.frame_time(), 100);
}

#[test]
fn play_refuses_a_bad_range_and_keeps_the_clip() {
    let mut a = Animation::new(100, 0, 6, AnimationMode::Repeating, false).unwrap();
    a.advance(250);
    let empty = ClipParams { start: 6, end: 6, flip_x: true, play_mode: AnimationMode::Once };
    assert_eq!(a.play(empty), Err(AnimationError::EmptyRange));
    let single = ClipParams { start: 6, end: 7, flip_x: true, play_mode: AnimationMode::Once };
    assert_eq!(a.play(single), Err(AnimationError::SingleFrameOnce));
    assert_eq!((a.start(), a.end(), a.flip_x(), a.play_mode()), (0, 6, false, AnimationMode::Repeating));
    assert_eq!((a.current_frame(), a.state(), a.elapsed()), (2, AnimationState::Playing, 50));
}

#[test]
fn sprite_is_written_when_a_step_is_taken() {
    let mut a = Animation::new(100, 24, 30, AnimationMode::Repeating, true).unwrap();
    let mut sprite = SpriteFrame { index: 7, flip_x: false };
    animate_sprites(&mut sprite, &mut a, 99);
    assert_eq!(sprite, SpriteFrame { index: 7, flip_x: false });
    assert_eq!(a.elapsed(), 99);
    animate_sprites(&mut sprite, &mut a, 1);
    assert_eq!(sprite, SpriteFrame { index: 25, flip_x: true });
    animate_sprites(&mut sprite, &mut a, 500);
    assert_eq!(sprite, SpriteFrame { index: 24, flip_x: true });
}

#[test]
fn sprite_of_a_finished_clip_stays() {
    let mut a = Animation::new(100, 36, 40, AnimationMode::Once, false).unwrap();
    let mut sprite = SpriteFrame { index: 0, flip_x: true };
    animate_sprites(&mut sprite, &mut a, 900);
    assert_eq!(sprite, SpriteFrame { index: 39, flip_x: false });
    sprite = SpriteFrame { index: 5, flip_x: true };
    animate_sprites(&mut sprite, &mut a, 900);
    assert_eq!(sprite, SpriteFrame { index: 5, flip_x: true });
}
