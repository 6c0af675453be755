//! Library to drive a multiplexed led matrix through a row shift register and
//! a column decoder.
//!
//! A render engine scans a W×H grid of led states within a time budget derived
//! from a target refresh rate, an animation engine advances per-led frame
//! sequences, and a manager applies control instructions between scans.

use vstd::prelude::*;

mod animation;
mod clock;
mod dec;
mod display;
mod engine;
mod error;
mod gpio;
mod grid;
mod interface_components;
mod led;
mod manager;
mod shift_reg;

pub use animation::{
    clear_writes, AnimView, Animation, AnimationFrame, AnimationParseError, FrameView,
};
pub use dec::DecOutput;
pub use display::{time_per_led_micros, Display, FULL_SECOND_MICROS};
pub use engine::{
    anim_ok, apply_writes, full_passes, keep_last_writes, lemma_loop_animation_lives,
    lemma_loop_index_cycles, lemma_looping_never_finishes, lemma_repeats_run_the_sequence,
    lemma_step_preserves, lemma_surviving_keeps_looping, removed_within, step_writes_all,
    stepped_many, surviving, tick_writes, validate_animation, AnimationEngine,
};
pub use error::{DisplayError, DisplayResult};
pub use grid::{
    apply_multi, flattened, lemma_rotate_180_twice, lemma_rotate_cw_four_times,
    lemma_rotate_cw_twice, rotated, rotated_180, rotated_ccw, rotated_cw, rotation_source,
    sync_blink_ok, sync_dims_ok, sync_ok, synced, validate_sync, Grid,
};
pub use interface_components::{
    Instruction, Paused, Rotation, Running, State, Stopped, Sync, SyncTemplate, SyncType,
};
pub use led::{BlinkInfo, LedColor, LedState};
pub use manager::{cycle_result, DisplayManager, StepAction};

verus! {

/// GPIO pin numbers to use for shift registers and decoders.
///
/// Pins starting with sr_ are used by the shift register,
/// whereas pins starting with dec_ are used by the decoder.
#[derive(Debug, Clone, Copy)]
pub struct PinConfig {
    /// Serial input pin of the shift register
    pub sr_serin: u8,
    /// Serial clock pin of the shift register
    pub sr_srclk: u8,
    /// Register clock pin of the shift register
    pub sr_rclk: u8,
    /// Serial clear pin of the shift register
    pub sr_srclr: u8,
    /// Output enable pin of the shift register (active low)
    pub sr_oe: u8,
    /// First decoder bit. This is the least significant bit, equivalent to 1.
    pub dec_a0: u8,
    /// Second decoder bit. This is the second least significant bit, equivalent to 2.
    pub dec_a1: u8,
    /// Third decoder bit. This is the most significant bit, equivalent to 4.
    pub dec_a2: u8,
    /// Decoder latch enable.
    /// While raised, changes to the input of the decoder do not affect the output.
    pub dec_le: u8,
    /// Decoder output enable (active low).
    /// While raised, the decoder outputs are all low.
    pub dec_e1: u8,
}

/// Busy-wait until at least `dur_micros` microseconds have passed.
///
/// The wait polls a monotonic clock rather than sleeping, trading processor
/// time for sub-millisecond precision.
pub fn spin_wait(dur_micros: u64) {
    let t = clock::instant_now();
    // the clock alone gives the loop no measure, so a step counter far beyond
    // any reachable wait bounds it
    let mut fuel: u64 = u64::MAX;
    while fuel > 0
        decreases fuel,
    {
        if clock::micros_since(&t) >= dur_micros {
            return;
        }
        clock::spin_hint();
        fuel = fuel - 1;
    }
}

} // verus!
