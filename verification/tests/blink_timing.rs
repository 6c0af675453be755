//! Blink phase evaluation, the per-led time budget, and the busy wait.

use c4_display::{
    time_per_led_micros, spin_wait, BlinkInfo, DisplayError, LedColor, LedState, PinConfig,
    Display,
};

#[test]
fn blink_is_on_early_in_the_period() {
    let state = LedState {
        color: LedColor::Red,
        blink: Some(BlinkInfo { dur: 10_000, period: 40_000 }),
    };
    assert_eq!(state.effective_color(5_000), LedColor::Red);
}

#[test]
fn blink_is_off_late_in_the_period() {
    let state = LedState {
        color: LedColor::Red,
        blink: Some(BlinkInfo { dur: 10_000, period: 40_000 }),
    };
    assert_eq!(state.effective_color(25_000), LedColor::Off);
    // and on again one period later plus a little
    assert_eq!(state.effective_color(45_000), LedColor::Red);
}

#[test]
fn blink_with_longer_on_time_than_period_fails_validation() {
    let r = BlinkInfo::new(50_000, 40_000);
    assert!(matches!(r, Err(DisplayError::BlinkInvariantViolation)));
    assert!(matches!(BlinkInfo::new(10_000, 40_000), Ok(BlinkInfo { dur: 10_000, period: 40_000 })));
}

#[test]
fn led_without_blink_always_shows_its_color() {
    let state = LedState::with_color(LedColor::Cyan);
    assert_eq!(state.effective_color(0), LedColor::Cyan);
    assert_eq!(state.effective_color(123_456_789), LedColor::Cyan);
}

#[test]
fn time_per_led_follows_the_refresh_formula() {
    // 1 second over refresh × W × H cell visits
    assert_eq!(time_per_led_micros(60, 4, 4).unwrap(), 1_000_000 / (60 * 16));
    assert_eq!(time_per_led_micros(60, 4, 4).unwrap(), 1041);
    assert_eq!(time_per_led_micros(60, 7, 7).unwrap(), 340);
    assert_eq!(time_per_led_micros(1, 1, 1).unwrap(), 1_000_000);
}

#[test]
fn time_per_led_rejects_impossible_shapes() {
    assert!(matches!(time_per_led_micros(0, 4, 4), Err(DisplayError::InvalidDim)));
    assert!(matches!(time_per_led_micros(60, 0, 4), Err(DisplayError::InvalidDim)));
    assert!(matches!(time_per_led_micros(60, 4, 0), Err(DisplayError::InvalidDim)));
    assert!(matches!(
        time_per_led_micros(u64::MAX, usize::MAX, usize::MAX),
        Err(DisplayError::InvalidDim)
    ));
}

#[test]
fn spin_wait_lasts_at_least_the_asked_time() {
    let t = std::time::Instant::now();
    spin_wait(2_000);
    assert!(t.elapsed().as_micros() >= 2_000);
}

#[test]
fn display_init_rejects_a_zero_refresh_rate() {
    let pins = PinConfig {
        sr_serin: 17,
        sr_srclk: 22,
        sr_rclk: 23,
        sr_srclr: 24,
        sr_oe: 27,
        dec_a0: 25,
        dec_a1: 11,
        dec_a2: 5,
        dec_le: 6,
        dec_e1: 10,
    };
    assert!(matches!(Display::init(0, 4, 4, pins), Err(DisplayError::InvalidDim)));
}
