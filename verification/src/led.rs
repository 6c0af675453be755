//! Led colors, blink settings, and the state of a single led.

use vstd::prelude::*;

use crate::error::{DisplayResult, DisplayError};

verus! {

/// Colors that can be displayed.
///
/// Each color is a 3-bit pattern: bit 0 is red, bit 1 is green, bit 2 is
/// blue; combinations yield the secondary colors.
#[derive(Debug, Clone, Copy, PartialEq, Eq, Structural)]
pub enum LedColor {
    /// No color. This is also the default.
    Off,
    /// The color red.
    Red,
    /// The color green.
    Green,
    /// The color yellow.
    Yellow,
    /// The color blue.
    Blue,
    /// The color purple.
    Magenta,
    /// The color cyan.
    Cyan,
    /// The color white.
    White,
}

impl LedColor {
    /// The color's 3-bit pattern: bit 0 red, bit 1 green, bit 2 blue.
    pub open spec fn spec_bits(self) -> u8 {
        match self {
            LedColor::Off => 0,
            LedColor::Red => 1,
            LedColor::Green => 2,
            LedColor::Yellow => 3,
            LedColor::Blue => 4,
            LedColor::Magenta => 5,
            LedColor::Cyan => 6,
            LedColor::White => 7,
        }
    }

    /// The color's bits in the order the shift register receives them:
    /// lowest bit first — red, then green, then blue.
    pub open spec fn spec_bit_pattern(self) -> Seq<bool> {
        seq![
            self.spec_bits() & 1 != 0,
            (self.spec_bits() >> 1) & 1 != 0,
            (self.spec_bits() >> 2) & 1 != 0,
        ]
    }

    /// The color's 3-bit pattern, for the shift register.
    pub fn bits(&self) -> (r: u8)
        ensures
            r == self.spec_bits(),
    {
        match self {
            LedColor::Off => 0,
            LedColor::Red => 1,
            LedColor::Green => 2,
            LedColor::Yellow => 3,
            LedColor::Blue => 4,
            LedColor::Magenta => 5,
            LedColor::Cyan => 6,
            LedColor::White => 7,
        }
    }
}

impl Default for LedColor {
    /// The default color is [LedColor::Off].
    fn default() -> (r: Self)
        ensures
            r == LedColor::Off,
    {
        LedColor::Off
    }
}

/// Blink duration and interval, both in microseconds.
///
/// Invariant: the on-duration `dur` must not exceed the `period`; a
/// violation is rejected by every validating entry point of this crate.
#[derive(Debug, Clone, Copy, PartialEq, Eq, Structural)]
pub struct BlinkInfo {
    /// The time the led is on within one period, in microseconds. PWM equivalent: ton
    pub dur: u64,
    /// The length of one blink period, in microseconds. PWM equivalent: t
    pub period: u64,
}

impl BlinkInfo {
    /// The blink invariant: the on-duration does not exceed the period.
    pub open spec fn valid(self) -> bool {
        self.dur <= self.period
    }

    /// Build a blink setting, rejecting an on-duration larger than the period.
    pub fn new(dur: u64, period: u64) -> (r: DisplayResult<BlinkInfo>)
        ensures
            dur <= period ==> r == Ok::<BlinkInfo, DisplayError>(BlinkInfo { dur, period }),
            dur > period ==> r == Err::<BlinkInfo, DisplayError>(DisplayError::BlinkInvariantViolation),
    {
        if dur <= period {
            Ok(BlinkInfo { dur, period })
        } else {
            Err(DisplayError::BlinkInvariantViolation)
        }
    }
}

/// Led state, contains color, blink duration and blink interval.
#[derive(Debug, Clone, Copy, PartialEq, Eq, Structural)]
pub struct LedState {
    /// The color of the led.
    pub color: LedColor,
    /// The blink information of the led.
    pub blink: Option<BlinkInfo>,
}

impl LedState {
    /// The default state: off, with no blink.
    pub open spec fn spec_default() -> LedState {
        LedState { color: LedColor::Off, blink: None }
    }

    /// Whether the blink this state carries, if any, keeps its invariant.
    pub open spec fn blink_ok(self) -> bool {
        match self.blink {
            Some(b) => b.valid(),
            None => true,
        }
    }

    /// Whether the blink this state carries, if any, keeps its invariant.
    pub fn check_blink(&self) -> (r: bool)
        ensures
            r == self.blink_ok(),
    {
        match self.blink {
            Some(b) => b.dur <= b.period,
            None => true,
        }
    }

    /// The color shown at `now_micros`: [LedColor::Off] while a blinking led
    /// sits in the off phase of its period, the configured color otherwise.
    ///
    /// The off phase covers the instants whose offset into the period exceeds
    /// the on-duration. A blink with period zero never reaches an off phase.
    pub open spec fn spec_effective_color(self, now_micros: u64) -> LedColor {
        match self.blink {
            Some(b) => if b.period > 0 && now_micros % b.period > b.dur {
                LedColor::Off
            } else {
                self.color
            },
            None => self.color,
        }
    }

    /// The color to drive at `now_micros`, blink phase applied.
    pub fn effective_color(&self, now_micros: u64) -> (r: LedColor)
        ensures
            r == self.spec_effective_color(now_micros),
    {
        match self.blink {
            Some(b) => if b.period > 0 && now_micros % b.period > b.dur {
                LedColor::Off
            } else {
                self.color
            },
            None => self.color,
        }
    }

    /// Create a new [LedState] with the given color and default blink.
    pub fn with_color(color: LedColor) -> (r: Self)
        ensures
            r == (LedState { color, blink: None }),
    {
        Self { color, blink: None }
    }
}

impl Default for LedState {
    /// The default state: off, with no blink.
    fn default() -> (r: Self)
        ensures
            r == LedState::spec_default(),
    {
        Self { color: LedColor::Off, blink: None }
    }
}

} // verus!
