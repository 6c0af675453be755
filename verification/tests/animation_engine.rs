//! The animation engine: frame advancement, looping, repeats, keep-last and
//! reset-after semantics, validation, and removal of finished animations.

use c4_display::{
    Animation, AnimationEngine, AnimationFrame, DisplayError, Grid, LedColor, LedState,
};

fn led(color: LedColor) -> LedState {
    LedState::with_color(color)
}

fn one_frame_animation(
    looping: bool,
    repeats: usize,
    keep_last: bool,
    rst_after: bool,
) -> Animation {
    let frame = AnimationFrame::new(10, vec![(0, 0, led(LedColor::Red))], rst_after);
    Animation::new(looping, vec![frame], repeats, keep_last).unwrap()
}

#[test]
fn empty_animation_is_rejected_at_construction() {
    let r = Animation::new(false, Vec::new(), 0, false);
    assert!(matches!(r, Err(DisplayError::InvalidDim)));
}

#[test]
fn frame_without_start_cannot_be_queried() {
    let frame = AnimationFrame::new(10, Vec::new(), false);
    assert!(matches!(frame.finished(5), Err(DisplayError::Uninitiated)));
}

#[test]
fn frame_expires_exactly_when_its_duration_is_reached() {
    let frame = AnimationFrame {
        frame_dur: 10,
        leds: Vec::new(),
        start_time: Some(5),
        rst_after: false,
    };
    assert!(matches!(frame.finished(14), Ok(false)));
    assert!(matches!(frame.finished(15), Ok(true)));
    assert!(matches!(frame.finished(16), Ok(true)));
}

#[test]
fn animation_reset_decrements_repeats_saturating() {
    let mut a = one_frame_animation(false, 2, false, false);
    a.rst();
    assert_eq!(a.remaining_repeats(), 1);
    a.rst();
    assert_eq!(a.remaining_repeats(), 0);
    a.rst();
    assert_eq!(a.remaining_repeats(), 0);
    assert_eq!(a.active_frame(), 0);
    assert!(!a.is_finished());
}

#[test]
fn next_frame_advances_and_reset_rewinds() {
    let f0 = AnimationFrame::new(10, vec![(0, 0, led(LedColor::Red))], false);
    let f1 = AnimationFrame::new(10, vec![(1, 0, led(LedColor::Green))], false);
    let mut a = Animation::new(false, vec![f0, f1], 0, false).unwrap();
    assert_eq!(a.active_frame(), 0);
    a.next_frame();
    assert_eq!(a.active_frame(), 1);
    a.rst_frame_ctr();
    assert_eq!(a.active_frame(), 0);
    a.rst_frame_st();
    assert_eq!(a.frame_count(), 2);
}

#[test]
fn out_of_range_frame_led_is_rejected_before_the_active_set() {
    let mut engine = AnimationEngine::new(4, 4);
    let frame = AnimationFrame::new(10, vec![(4, 0, led(LedColor::Red))], false);
    let a = Animation::new(false, vec![frame], 0, false).unwrap();
    let r = engine.add_animation(a);
    assert!(matches!(r, Err(DisplayError::InvalidDim)));
    assert_eq!(engine.animation_count(), 0);
}

#[test]
fn in_range_animation_is_accepted() {
    let mut engine = AnimationEngine::new(4, 4);
    let a = one_frame_animation(false, 0, false, false);
    assert!(engine.add_animation(a).is_ok());
    assert_eq!(engine.animation_count(), 1);
    engine.clear();
    assert_eq!(engine.animation_count(), 0);
}

#[test]
fn first_tick_writes_the_first_frame() {
    let mut engine = AnimationEngine::new(4, 4);
    let mut grid = Grid::new(4, 4).unwrap();
    engine.add_animation(one_frame_animation(false, 0, false, false)).unwrap();
    engine.tick(&mut grid, 0);
    assert_eq!(grid.led_at(0, 0), Some(led(LedColor::Red)));
    assert_eq!(engine.animation_count(), 1);
}

#[test]
fn looping_animation_is_never_removed() {
    let mut engine = AnimationEngine::new(4, 4);
    let mut grid = Grid::new(4, 4).unwrap();
    let f0 = AnimationFrame::new(10, vec![(0, 0, led(LedColor::Red))], false);
    let f1 = AnimationFrame::new(10, vec![(0, 0, led(LedColor::Green))], false);
    let a = Animation::new(true, vec![f0, f1], 0, false).unwrap();
    engine.add_animation(a).unwrap();
    let mut now: u64 = 0;
    for _ in 0..200 {
        engine.tick(&mut grid, now);
        assert_eq!(engine.animation_count(), 1);
        now += 7;
    }
}

#[test]
fn looping_animation_cycles_through_its_frames() {
    let mut engine = AnimationEngine::new(4, 4);
    let mut grid = Grid::new(4, 4).unwrap();
    let f0 = AnimationFrame::new(10, vec![(0, 0, led(LedColor::Red))], false);
    let f1 = AnimationFrame::new(10, vec![(0, 0, led(LedColor::Green))], false);
    let a = Animation::new(true, vec![f0, f1], 0, false).unwrap();
    engine.add_animation(a).unwrap();
    engine.tick(&mut grid, 0); // frame 0 starts
    assert_eq!(grid.led_at(0, 0), Some(led(LedColor::Red)));
    engine.tick(&mut grid, 11); // frame 0 expired
    engine.tick(&mut grid, 12); // frame 1 starts
    assert_eq!(grid.led_at(0, 0), Some(led(LedColor::Green)));
    engine.tick(&mut grid, 23); // frame 1 expired
    engine.tick(&mut grid, 24); // no frame left: re-armed
    engine.tick(&mut grid, 25); // frame 0 starts again
    assert_eq!(grid.led_at(0, 0), Some(led(LedColor::Red)));
    assert_eq!(engine.animation_count(), 1);
}

#[test]
fn two_repeats_run_the_sequence_three_times() {
    let mut engine = AnimationEngine::new(4, 4);
    let mut grid = Grid::new(4, 4).unwrap();
    engine.add_animation(one_frame_animation(false, 2, false, false)).unwrap();

    // first run
    engine.tick(&mut grid, 0); // frame starts
    assert_eq!(grid.led_at(0, 0), Some(led(LedColor::Red)));
    engine.tick(&mut grid, 20); // frame expired
    engine.tick(&mut grid, 21); // finished: first repeat re-arms it
    assert_eq!(engine.animation_count(), 1);

    // second run
    engine.tick(&mut grid, 22);
    engine.tick(&mut grid, 40);
    engine.tick(&mut grid, 41); // finished: second repeat re-arms it
    assert_eq!(engine.animation_count(), 1);

    // third run
    engine.tick(&mut grid, 42);
    engine.tick(&mut grid, 60);
    engine.tick(&mut grid, 61); // finished for good: removed
    assert_eq!(engine.animation_count(), 0);
}

#[test]
fn keep_last_persists_the_final_frame() {
    let mut engine = AnimationEngine::new(4, 4);
    let mut grid = Grid::new(4, 4).unwrap();
    let frame = AnimationFrame::new(5, vec![(1, 1, led(LedColor::Blue))], false);
    let a = Animation::new(false, vec![frame], 0, true).unwrap();
    engine.add_animation(a).unwrap();
    engine.tick(&mut grid, 0);
    engine.tick(&mut grid, 6);
    engine.tick(&mut grid, 7);
    assert_eq!(engine.animation_count(), 0);
    assert_eq!(grid.led_at(1, 1), Some(led(LedColor::Blue)));
}

#[test]
fn reset_after_clears_the_previous_frame() {
    let mut engine = AnimationEngine::new(4, 4);
    let mut grid = Grid::new(4, 4).unwrap();
    let f0 = AnimationFrame::new(5, vec![(0, 0, led(LedColor::Red))], true);
    let f1 = AnimationFrame::new(5, vec![(1, 0, led(LedColor::Green))], false);
    let a = Animation::new(false, vec![f0, f1], 0, false).unwrap();
    engine.add_animation(a).unwrap();
    engine.tick(&mut grid, 0);
    assert_eq!(grid.led_at(0, 0), Some(led(LedColor::Red)));
    engine.tick(&mut grid, 6); // frame 0 expired
    engine.tick(&mut grid, 7); // frame 1 starts: frame 0's cells cleared first
    assert_eq!(grid.led_at(0, 0), Some(LedState::default()));
    assert_eq!(grid.led_at(1, 0), Some(led(LedColor::Green)));
}

#[test]
fn reset_after_clears_the_last_frame_on_finish() {
    let mut engine = AnimationEngine::new(4, 4);
    let mut grid = Grid::new(4, 4).unwrap();
    engine.add_animation(one_frame_animation(false, 0, false, true)).unwrap();
    engine.tick(&mut grid, 0);
    assert_eq!(grid.led_at(0, 0), Some(led(LedColor::Red)));
    engine.tick(&mut grid, 11);
    engine.tick(&mut grid, 12); // finished: last frame cleared, animation removed
    assert_eq!(grid.led_at(0, 0), Some(LedState::default()));
    assert_eq!(engine.animation_count(), 0);
}

#[test]
fn later_animations_override_earlier_ones_within_a_tick() {
    let mut engine = AnimationEngine::new(4, 4);
    let mut grid = Grid::new(4, 4).unwrap();
    let first = AnimationFrame::new(50, vec![(0, 0, led(LedColor::Red))], false);
    let second = AnimationFrame::new(50, vec![(0, 0, led(LedColor::Green))], false);
    engine.add_animation(Animation::new(false, vec![first], 0, false).unwrap()).unwrap();
    engine.add_animation(Animation::new(false, vec![second], 0, false).unwrap()).unwrap();
    engine.tick(&mut grid, 0);
    assert_eq!(grid.led_at(0, 0), Some(led(LedColor::Green)));
}
