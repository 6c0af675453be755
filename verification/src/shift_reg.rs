//! The row driver: a serial shift register that stages one column's worth of
//! color bits before they are pushed to the output stage.
//!
//! The register's state is modeled in ghost fields: the bits staged so far,
//! the pattern held by the output stage, whether the outputs are enabled,
//! and the record of every pattern pushed to the output stage.

use vstd::prelude::*;

use crate::error::{DisplayError, DisplayResult};
use crate::gpio::acquire_output_pin;
use crate::led::LedColor;
use crate::spin_wait;

verus! {

/// Time for a gpio line to switch state, in microseconds.
const PSWT_MICROS: u64 = 1;

/// The row shift register, driven through five GPIO lines.
pub struct ShiftReg {
    /// Serial input pin. Active high.
    serin: rppal::gpio::OutputPin,
    /// Serial clock pin. Active high.
    srclk: rppal::gpio::OutputPin,
    /// Register clock pin. Active high.
    rclk: rppal::gpio::OutputPin,
    /// Serial clear pin. Active low.
    srclr: rppal::gpio::OutputPin,
    /// Output enable pin. Active low.
    oe: rppal::gpio::OutputPin,
    /// The bits shifted into the input stage since it was last cleared.
    staged: Ghost<Seq<bool>>,
    /// The pattern held by the output stage.
    pushed: Ghost<Seq<bool>>,
    /// Whether the outputs are enabled.
    enabled: Ghost<bool>,
    /// Every pattern pushed to the output stage, in order.
    pushes: Ghost<Seq<Seq<bool>>>,
}

impl ShiftReg {
    /// The bits shifted into the input stage since it was last cleared.
    pub closed spec fn spec_staged(self) -> Seq<bool> {
        self.staged@
    }

    /// The pattern held by the output stage.
    pub closed spec fn spec_pushed(self) -> Seq<bool> {
        self.pushed@
    }

    /// Whether the outputs are enabled.
    pub closed spec fn spec_enabled(self) -> bool {
        self.enabled@
    }

    /// Every pattern pushed to the output stage, in order.
    pub closed spec fn spec_pushes(self) -> Seq<Seq<bool>> {
        self.pushes@
    }

    /// Claim the register's five GPIO pins, clear both register stages, and
    /// leave the lines in their idle levels with output enabled.
    pub(crate) fn new(
        serin_nr: u8,
        srclk_nr: u8,
        rclk_nr: u8,
        srclr_nr: u8,
        oe_nr: u8,
    ) -> (r: DisplayResult<ShiftReg>)
        ensures
            match r {
                Ok(sr) => sr.spec_staged().len() == 0 && sr.spec_pushed().len() == 0
                    && sr.spec_enabled() && sr.spec_pushes().len() == 0,
                Err(e) => e is Gpio,
            },
    {
        let serin = match acquire_output_pin(serin_nr) {
            Ok(p) => p,
            Err(e) => {
                return Err(DisplayError::Gpio(e));
            },
        };
        let srclk = match acquire_output_pin(srclk_nr) {
            Ok(p) => p,
            Err(e) => {
                return Err(DisplayError::Gpio(e));
            },
        };
        let rclk = match acquire_output_pin(rclk_nr) {
            Ok(p) => p,
            Err(e) => {
                return Err(DisplayError::Gpio(e));
            },
        };
        let srclr = match acquire_output_pin(srclr_nr) {
            Ok(p) => p,
            Err(e) => {
                return Err(DisplayError::Gpio(e));
            },
        };
        let oe = match acquire_output_pin(oe_nr) {
            Ok(p) => p,
            Err(e) => {
                return Err(DisplayError::Gpio(e));
            },
        };
        let mut sr = ShiftReg {
            serin,
            srclk,
            rclk,
            srclr,
            oe,
            staged: Ghost(Seq::empty()),
            pushed: Ghost(Seq::empty()),
            enabled: Ghost(true),
            pushes: Ghost(Seq::empty()),
        };
        sr.power_on_clear();
        sr.serin.set_low();
        sr.srclk.set_low();
        sr.rclk.set_low();
        sr.srclr.set_high();
        sr.oe.set_low();
        Ok(sr)
    }

    /// Clear both register stages at power-on: pulse the serial clear line
    /// low, then clock the emptied contents through to the output stage.
    /// Unlike a regular push, this leaves no rendered pattern to record.
    ///
    /// This function takes at least 4x `PSWT_MICROS`.
    fn power_on_clear(&mut self)
        ensures
            final (self).spec_staged().len() == 0,
            final (self).spec_pushed().len() == 0,
            final (self).spec_enabled() == old(self).spec_enabled(),
            final (self).spec_pushes() == old(self).spec_pushes(),
    {
        self.srclr.set_high();
        spin_wait(PSWT_MICROS);
        self.srclr.set_low();
        spin_wait(PSWT_MICROS);
        self.rclk.set_high();
        spin_wait(PSWT_MICROS);
        self.rclk.set_low();
        spin_wait(PSWT_MICROS);
        self.staged = Ghost(Seq::empty());
        self.pushed = Ghost(Seq::empty());
    }

    /// Enable the shift register outputs (the enable line is active low).
    ///
    /// This function takes at least 1x `PSWT_MICROS`.
    pub(crate) fn enable(&mut self)
        ensures
            final (self).spec_enabled(),
            final (self).spec_staged() == old(self).spec_staged(),
            final (self).spec_pushed() == old(self).spec_pushed(),
            final (self).spec_pushes() == old(self).spec_pushes(),
    {
        self.oe.set_low();
        spin_wait(PSWT_MICROS);
        self.enabled = Ghost(true);
    }

    /// Disable the shift register outputs.
    ///
    /// This function takes at least 1x `PSWT_MICROS`.
    pub(crate) fn disable(&mut self)
        ensures
            !final (self).spec_enabled(),
            final (self).spec_staged() == old(self).spec_staged(),
            final (self).spec_pushed() == old(self).spec_pushed(),
            final (self).spec_pushes() == old(self).spec_pushes(),
    {
        self.oe.set_high();
        spin_wait(PSWT_MICROS);
        self.enabled = Ghost(false);
    }

    /// Push the input register to the output register: the staged bits
    /// become the pattern the outputs drive, and the push is recorded.
    ///
    /// This function takes at least 2x `PSWT_MICROS`.
    pub(crate) fn push(&mut self)
        ensures
            final (self).spec_pushed() == old(self).spec_staged(),
            final (self).spec_staged() == old(self).spec_staged(),
            final (self).spec_enabled() == old(self).spec_enabled(),
            final (self).spec_pushes() == old(self).spec_pushes().push(old(self).spec_staged()),
    {
        self.rclk.set_high();
        spin_wait(PSWT_MICROS);
        self.rclk.set_low();
        spin_wait(PSWT_MICROS);
        self.pushed = Ghost(self.staged@);
        self.pushes = Ghost(self.pushes@.push(self.staged@));
    }

    /// Shift a [LedColor] into the shift register, least significant bit
    /// first: bit 0 red, bit 1 green, bit 2 blue.
    ///
    /// This function takes at least 9x `PSWT_MICROS`.
    pub(crate) fn shift_color(&mut self, color: &LedColor)
        ensures
            final (self).spec_staged() == old(self).spec_staged() + color.spec_bit_pattern(),
            final (self).spec_pushed() == old(self).spec_pushed(),
            final (self).spec_enabled() == old(self).spec_enabled(),
            final (self).spec_pushes() == old(self).spec_pushes(),
    {
        let ghost staged0 = self.staged@;
        let bits = color.bits();
        self.shift(bits & 1 != 0);
        self.shift((bits >> 1) & 1 != 0);
        self.shift((bits >> 2) & 1 != 0);
        proof {
            assert(self.staged@ =~= staged0 + color.spec_bit_pattern());
        }
    }

    /// Shift one bit into the shift register.
    ///
    /// This function takes at least 3x `PSWT_MICROS`.
    fn shift(&mut self, bit: bool)
        ensures
            final (self).spec_staged() == old(self).spec_staged().push(bit),
            final (self).spec_pushed() == old(self).spec_pushed(),
            final (self).spec_enabled() == old(self).spec_enabled(),
            final (self).spec_pushes() == old(self).spec_pushes(),
    {
        if bit {
            self.serin.set_high();
        } else {
            self.serin.set_low();
        }
        spin_wait(PSWT_MICROS);
        self.srclk.set_high();
        spin_wait(PSWT_MICROS);
        self.srclk.set_low();
        spin_wait(PSWT_MICROS);
        self.staged = Ghost(self.staged@.push(bit));
    }

    /// Clear the input register.
    ///
    /// This function takes at least 2x `PSWT_MICROS`.
    pub(crate) fn clear(&mut self)
        ensures
            final (self).spec_staged().len() == 0,
            final (self).spec_pushed() == old(self).spec_pushed(),
            final (self).spec_enabled() == old(self).spec_enabled(),
            final (self).spec_pushes() == old(self).spec_pushes(),
    {
        self.srclr.set_low();
        spin_wait(PSWT_MICROS);
        self.srclr.set_high();
        spin_wait(PSWT_MICROS);
        self.staged = Ghost(Seq::empty());
    }
}

} // verus!
