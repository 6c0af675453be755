//! Control-side validation: the checks a command passes before it is sent to
//! the render thread.

use c4_display::{
    validate_animation, validate_sync, Animation, AnimationFrame, BlinkInfo, DisplayError,
    LedColor, LedState, Rotation, Sync, SyncTemplate, SyncType,
};

fn led(color: LedColor) -> LedState {
    LedState::with_color(color)
}

#[test]
fn validate_sync_accepts_a_well_formed_single() {
    let cmd = SyncType::Single(Sync { x: 3, y: 3, state: led(LedColor::Red) });
    assert!(validate_sync(4, 4, &cmd).is_ok());
}

#[test]
fn validate_sync_rejects_out_of_range_coordinates() {
    let cmd = SyncType::Single(Sync { x: 4, y: 0, state: led(LedColor::Red) });
    assert!(matches!(validate_sync(4, 4, &cmd), Err(DisplayError::InvalidDim)));
    let multi = SyncType::Multi(vec![
        Sync { x: 0, y: 0, state: led(LedColor::Red) },
        Sync { x: 0, y: 7, state: led(LedColor::Red) },
    ]);
    assert!(matches!(validate_sync(4, 4, &multi), Err(DisplayError::InvalidDim)));
}

#[test]
fn validate_sync_rejects_a_bad_blink_after_dimensions() {
    let bad_blink = LedState {
        color: LedColor::Red,
        blink: Some(BlinkInfo { dur: 9, period: 3 }),
    };
    let cmd = SyncType::Single(Sync { x: 0, y: 0, state: bad_blink });
    assert!(matches!(validate_sync(4, 4, &cmd), Err(DisplayError::BlinkInvariantViolation)));
    // an out-of-range coordinate wins over the blink error
    let cmd2 = SyncType::Single(Sync { x: 9, y: 0, state: bad_blink });
    assert!(matches!(validate_sync(4, 4, &cmd2), Err(DisplayError::InvalidDim)));
}

#[test]
fn validate_sync_checks_the_full_board_shape() {
    let good = SyncType::All(vec![vec![led(LedColor::Off); 2]; 3]);
    assert!(validate_sync(2, 3, &good).is_ok());
    let wrong_rows = SyncType::All(vec![vec![led(LedColor::Off); 2]; 2]);
    assert!(matches!(validate_sync(2, 3, &wrong_rows), Err(DisplayError::InvalidDim)));
}

#[test]
fn validate_sync_allows_rotation_only_on_square_boards() {
    assert!(validate_sync(4, 4, &SyncType::Rotate(Rotation::OneEighty)).is_ok());
    assert!(matches!(
        validate_sync(4, 2, &SyncType::Rotate(Rotation::Clockwise)),
        Err(DisplayError::InvalidDim)
    ));
}

#[test]
fn validate_animation_checks_every_frame() {
    let good = Animation::new(
        false,
        vec![
            AnimationFrame::new(5, vec![(3, 3, led(LedColor::Red))], false),
            AnimationFrame::new(5, vec![(0, 0, led(LedColor::Green))], false),
        ],
        0,
        false,
    )
    .unwrap();
    assert!(validate_animation(4, 4, &good));
    let bad = Animation::new(
        false,
        vec![
            AnimationFrame::new(5, vec![(0, 0, led(LedColor::Red))], false),
            AnimationFrame::new(5, vec![(0, 4, led(LedColor::Green))], false),
        ],
        0,
        false,
    )
    .unwrap();
    assert!(!validate_animation(4, 4, &bad));
}

#[test]
fn sync_template_is_an_all_off_board() {
    let t = SyncTemplate::new(3, 2);
    assert_eq!(t.board.len(), 2);
    for row in &t.board {
        assert_eq!(row.len(), 3);
        for cell in row {
            assert_eq!(*cell, LedColor::Off);
        }
    }
}
