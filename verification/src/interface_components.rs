//! The value types that cross between the control side and the render side.

use vstd::prelude::*;

use crate::animation::Animation;
use crate::led::{LedColor, LedState};

verus! {

/// The types of message that can be sent to the display thread.
#[derive(Debug)]
pub enum Instruction {
    /// Leave the render loop.
    Stop,
    /// Park the render thread until an external wake signal.
    Pause,
    /// Update the colors of the grid.
    Sync(SyncType),
    /// Append an animation to the active set.
    AddAnimation(Animation),
    /// Drop every active animation.
    ClearAnimations,
}

/// Indicates the current state of a display interface.
pub trait State {

}

/// The running state of a display interface.
pub struct Running;

impl State for Running {

}

/// The paused state of a display interface.
pub struct Paused;

impl State for Paused {

}

/// The stopped state of a display interface.
pub struct Stopped;

impl State for Stopped {

}

/// Data struct to change a led's color.
#[derive(Debug, Clone, Copy)]
pub struct Sync {
    /// The x position of the led to be changed.
    pub x: usize,
    /// The y position of the led to be changed.
    pub y: usize,
    /// The new state the led should have.
    pub state: LedState,
}

/// The amount to rotate.
#[derive(Debug, Clone, Copy, PartialEq, Eq, Structural)]
pub enum Rotation {
    /// Rotate 90° clockwise.
    Clockwise,
    /// Rotate 90° counterclockwise.
    CounterClockwise,
    /// Rotate 180°.
    OneEighty,
}

/// The synchronization type. Synchronization is used to update which led has
/// which color.
///
/// Use [SyncType::Single] to change the color of one led.
///
/// Use [SyncType::Multi] to change the color of multiple leds.
///
/// Use [SyncType::All] to change the color of all leds at once.
///
/// Use [SyncType::Rotate] to rotate the whole grid in place.
#[derive(Debug)]
pub enum SyncType {
    /// Change the color of one led.
    Single(Sync),
    /// Change the color of a vector of leds.
    Multi(Vec<Sync>),
    /// Change the color of all leds.
    All(Vec<Vec<LedState>>),
    /// Rotate the entire grid.
    Rotate(Rotation),
}

/// An empty board of colors, a template to fill before a full sync.
pub struct SyncTemplate {
    /// The board: h rows of w default colors.
    pub board: Vec<Vec<LedColor>>,
}

impl SyncTemplate {
    /// Creates an empty board of `h` rows, each of `w` [LedColor::Off] cells.
    pub fn new(w: usize, h: usize) -> (r: SyncTemplate)
        ensures
            r.board@.len() == h,
            forall|y: int| 0 <= y < h ==> (#[trigger] r.board@[y])@.len() == w,
            forall|y: int, x: int|
                0 <= y < h && 0 <= x < w ==> #[trigger] r.board@[y]@[x] == LedColor::Off,
    {
        let mut board: Vec<Vec<LedColor>> = Vec::new();
        let mut y: usize = 0;
        while y < h
            invariant
                y <= h,
                board@.len() == y,
                forall|k: int| 0 <= k < y ==> (#[trigger] board@[k])@.len() == w,
                forall|k: int, x: int|
                    0 <= k < y && 0 <= x < w ==> #[trigger] board@[k]@[x] == LedColor::Off,
            decreases h - y,
        {
            let mut row: Vec<LedColor> = Vec::new();
            let mut x: usize = 0;
            while x < w
                invariant
                    x <= w,
                    row@.len() == x,
                    forall|k: int| 0 <= k < x ==> #[trigger] row@[k] == LedColor::Off,
                decreases w - x,
            {
                row.push(LedColor::Off);
                x = x + 1;
            }
            board.push(row);
            y = y + 1;
        }
        SyncTemplate { board }
    }
}

} // verus!
