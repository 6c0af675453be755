//! Sync command semantics on the board: single and batched writes,
//! full-board replacement, and rotations.

use c4_display::{
    BlinkInfo, DisplayError, Grid, LedColor, LedState, Rotation, Sync, SyncType,
};

fn led(color: LedColor) -> LedState {
    LedState::with_color(color)
}

#[test]
fn single_write_lands_on_its_cell() {
    let mut g = Grid::new(4, 4).unwrap();
    let r = g.sync(SyncType::Single(Sync { x: 1, y: 2, state: led(LedColor::Red) }));
    assert!(r.is_ok());
    assert_eq!(g.led_at(1, 2), Some(led(LedColor::Red)));
    assert_eq!(g.led_at(0, 0), Some(LedState::default()));
}

#[test]
fn single_write_out_of_range_is_rejected_unchanged() {
    let mut g = Grid::new(4, 4).unwrap();
    g.sync(SyncType::Single(Sync { x: 0, y: 0, state: led(LedColor::Blue) })).unwrap();
    let r = g.sync(SyncType::Single(Sync { x: 4, y: 0, state: led(LedColor::Red) }));
    assert!(matches!(r, Err(DisplayError::InvalidDim)));
    let r2 = g.sync(SyncType::Single(Sync { x: 0, y: 4, state: led(LedColor::Red) }));
    assert!(matches!(r2, Err(DisplayError::InvalidDim)));
    assert_eq!(g.led_at(0, 0), Some(led(LedColor::Blue)));
    assert_eq!(g.led_at(3, 3), Some(LedState::default()));
}

#[test]
fn single_write_with_bad_blink_is_rejected() {
    let mut g = Grid::new(4, 4).unwrap();
    let bad = LedState {
        color: LedColor::Red,
        blink: Some(BlinkInfo { dur: 50_000, period: 40_000 }),
    };
    let r = g.sync(SyncType::Single(Sync { x: 0, y: 0, state: bad }));
    assert!(matches!(r, Err(DisplayError::BlinkInvariantViolation)));
    assert_eq!(g.led_at(0, 0), Some(LedState::default()));
}

#[test]
fn multi_later_entries_override_earlier_ones() {
    let mut g = Grid::new(4, 4).unwrap();
    let r = g.sync(SyncType::Multi(vec![
        Sync { x: 0, y: 0, state: led(LedColor::Red) },
        Sync { x: 1, y: 0, state: led(LedColor::Blue) },
        Sync { x: 0, y: 0, state: led(LedColor::Green) },
    ]));
    assert!(r.is_ok());
    assert_eq!(g.led_at(0, 0), Some(led(LedColor::Green)));
    assert_eq!(g.led_at(1, 0), Some(led(LedColor::Blue)));
}

#[test]
fn multi_with_one_bad_entry_writes_nothing() {
    let mut g = Grid::new(4, 4).unwrap();
    let r = g.sync(SyncType::Multi(vec![
        Sync { x: 0, y: 0, state: led(LedColor::Red) },
        Sync { x: 9, y: 0, state: led(LedColor::Blue) },
    ]));
    assert!(matches!(r, Err(DisplayError::InvalidDim)));
    assert_eq!(g.led_at(0, 0), Some(LedState::default()));
}

#[test]
fn all_replaces_the_whole_board() {
    let mut g = Grid::new(2, 2).unwrap();
    let board = vec![
        vec![led(LedColor::Red), led(LedColor::Green)],
        vec![led(LedColor::Blue), led(LedColor::White)],
    ];
    assert!(g.sync(SyncType::All(board)).is_ok());
    assert_eq!(g.led_at(0, 0), Some(led(LedColor::Red)));
    assert_eq!(g.led_at(1, 0), Some(led(LedColor::Green)));
    assert_eq!(g.led_at(0, 1), Some(led(LedColor::Blue)));
    assert_eq!(g.led_at(1, 1), Some(led(LedColor::White)));
}

#[test]
fn all_with_wrong_shape_fails_without_partial_writes() {
    let mut g = Grid::new(4, 4).unwrap();
    let three_rows = vec![
        vec![led(LedColor::Red); 4],
        vec![led(LedColor::Red); 4],
        vec![led(LedColor::Red); 4],
    ];
    let r = g.sync(SyncType::All(three_rows));
    assert!(matches!(r, Err(DisplayError::InvalidDim)));
    let short_row = vec![
        vec![led(LedColor::Red); 4],
        vec![led(LedColor::Red); 3],
        vec![led(LedColor::Red); 4],
        vec![led(LedColor::Red); 4],
    ];
    let r2 = g.sync(SyncType::All(short_row));
    assert!(matches!(r2, Err(DisplayError::InvalidDim)));
    for y in 0..4 {
        for x in 0..4 {
            assert_eq!(g.led_at(x, y), Some(LedState::default()));
        }
    }
}

fn painted_3x3() -> Grid {
    let mut g = Grid::new(3, 3).unwrap();
    let colors = [
        LedColor::Off,
        LedColor::Red,
        LedColor::Green,
        LedColor::Yellow,
        LedColor::Blue,
        LedColor::Magenta,
        LedColor::Cyan,
        LedColor::White,
        LedColor::Red,
    ];
    let mut entries = Vec::new();
    for y in 0..3 {
        for x in 0..3 {
            entries.push(Sync { x, y, state: led(colors[y * 3 + x]) });
        }
    }
    g.sync(SyncType::Multi(entries)).unwrap();
    g
}

fn snapshot(g: &Grid) -> Vec<Option<LedState>> {
    let mut cells = Vec::new();
    for y in 0..g.height() {
        for x in 0..g.width() {
            cells.push(g.led_at(x, y));
        }
    }
    cells
}

#[test]
fn rotate_clockwise_moves_cells_as_documented() {
    let mut g = painted_3x3();
    let before = snapshot(&g);
    assert!(g.sync(SyncType::Rotate(Rotation::Clockwise)).is_ok());
    // the cell at (x, y) now shows what was at (y, n-1-x)
    assert_eq!(g.led_at(2, 0), before[0]);
    assert_eq!(g.led_at(0, 0), before[2 * 3]);
    assert_eq!(g.led_at(1, 1), before[1 * 3 + 1]);
}

#[test]
fn rotate_clockwise_four_times_is_identity() {
    let mut g = painted_3x3();
    let before = snapshot(&g);
    for _ in 0..4 {
        assert!(g.sync(SyncType::Rotate(Rotation::Clockwise)).is_ok());
    }
    assert_eq!(snapshot(&g), before);
}

#[test]
fn rotate_180_twice_is_identity() {
    let mut g = painted_3x3();
    let before = snapshot(&g);
    assert!(g.sync(SyncType::Rotate(Rotation::OneEighty)).is_ok());
    assert!(g.sync(SyncType::Rotate(Rotation::OneEighty)).is_ok());
    assert_eq!(snapshot(&g), before);
}

#[test]
fn rotate_counterclockwise_undoes_clockwise() {
    let mut g = painted_3x3();
    let before = snapshot(&g);
    assert!(g.sync(SyncType::Rotate(Rotation::Clockwise)).is_ok());
    assert!(g.sync(SyncType::Rotate(Rotation::CounterClockwise)).is_ok());
    assert_eq!(snapshot(&g), before);
}

#[test]
fn rotate_non_square_is_rejected_unchanged() {
    let mut g = Grid::new(4, 2).unwrap();
    g.sync(SyncType::Single(Sync { x: 3, y: 1, state: led(LedColor::Red) })).unwrap();
    let r = g.sync(SyncType::Rotate(Rotation::Clockwise));
    assert!(matches!(r, Err(DisplayError::InvalidDim)));
    assert_eq!(g.led_at(3, 1), Some(led(LedColor::Red)));
}

#[test]
fn grid_rejects_empty_dimensions() {
    assert!(matches!(Grid::new(0, 4), Err(DisplayError::InvalidDim)));
    assert!(matches!(Grid::new(4, 0), Err(DisplayError::InvalidDim)));
}
