//! The column decoder: a 3-bit address selecting one of eight columns, with
//! wraparound arithmetic and a latch to commit address changes atomically.

use vstd::prelude::*;

use crate::error::{DisplayError, DisplayResult};
use crate::gpio::acquire_output_pin;
use crate::spin_wait;

verus! {

/// The wait that lets a decoder line settle, in microseconds.
const DEC_SETTLE_MICROS: u64 = 1;

/// One of the eight output lines a 3-bit decoder can select.
#[derive(Debug, Clone, Copy, PartialEq, Eq, Structural)]
pub enum DecOutput {
    /// Output line 0.
    Y0,
    /// Output line 1.
    Y1,
    /// Output line 2.
    Y2,
    /// Output line 3.
    Y3,
    /// Output line 4.
    Y4,
    /// Output line 5.
    Y5,
    /// Output line 6.
    Y6,
    /// Output line 7.
    Y7,
}

impl DecOutput {
    /// The line's number, 0 through 7.
    pub open spec fn spec_value(self) -> int {
        match self {
            DecOutput::Y0 => 0,
            DecOutput::Y1 => 1,
            DecOutput::Y2 => 2,
            DecOutput::Y3 => 3,
            DecOutput::Y4 => 4,
            DecOutput::Y5 => 5,
            DecOutput::Y6 => 6,
            DecOutput::Y7 => 7,
        }
    }

    /// The line's number, 0 through 7.
    pub fn value(&self) -> (r: u8)
        ensures
            r as int == self.spec_value(),
            r < 8,
    {
        match self {
            DecOutput::Y0 => 0,
            DecOutput::Y1 => 1,
            DecOutput::Y2 => 2,
            DecOutput::Y3 => 3,
            DecOutput::Y4 => 4,
            DecOutput::Y5 => 5,
            DecOutput::Y6 => 6,
            DecOutput::Y7 => 7,
        }
    }

    /// The output line numbered `n`, for `n` below 8.
    fn nth(n: usize) -> (r: DecOutput)
        requires
            n < 8,
        ensures
            r.spec_value() == n,
    {
        match n {
            0 => DecOutput::Y0,
            1 => DecOutput::Y1,
            2 => DecOutput::Y2,
            3 => DecOutput::Y3,
            4 => DecOutput::Y4,
            5 => DecOutput::Y5,
            6 => DecOutput::Y6,
            _ => DecOutput::Y7,
        }
    }

    /// The output line numbered `num`, clamped to the last line for numbers
    /// past 7.
    pub fn from_index(num: usize) -> (r: DecOutput)
        ensures
            num <= 7 ==> r.spec_value() == num,
            num > 7 ==> r.spec_value() == 7,
    {
        if num < 8 {
            Self::nth(num)
        } else {
            DecOutput::Y7
        }
    }

    /// The line `rhs` steps forward, wrapping around after line 7.
    pub fn add(self, rhs: usize) -> (r: DecOutput)
        ensures
            r.spec_value() == (self.spec_value() + rhs) % 8,
    {
        let v = self.value() as usize;
        let s = (v + rhs % 8) % 8;
        proof {
            lemma_mod_add_reduce(v as int, rhs as int);
        }
        Self::nth(s)
    }

    /// The line `rhs` steps backward, wrapping around before line 0.
    pub fn sub(self, rhs: usize) -> (r: DecOutput)
        ensures
            r.spec_value() == (self.spec_value() - rhs) % 8,
    {
        let v = self.value() as usize;
        let s = (v + 8 - rhs % 8) % 8;
        proof {
            lemma_mod_sub_reduce(v as int, rhs as int);
        }
        Self::nth(s)
    }

    /// Step the line forward in place, wrapping around after line 7.
    pub fn add_assign(&mut self, rhs: usize)
        ensures
            final (self).spec_value() == (old(self).spec_value() + rhs) % 8,
    {
        *self = (*self).add(rhs);
    }

    /// Step the line backward in place, wrapping around before line 0.
    pub fn sub_assign(&mut self, rhs: usize)
        ensures
            final (self).spec_value() == (old(self).spec_value() - rhs) % 8,
    {
        *self = (*self).sub(rhs);
    }
}

impl Default for DecOutput {
    /// The default selection is line 0.
    fn default() -> (r: Self)
        ensures
            r == DecOutput::Y0,
    {
        Self::Y0
    }
}

/// Adding a value and adding its remainder select the same line.
proof fn lemma_mod_add_reduce(v: int, rhs: int)
    by (nonlinear_arith)
    requires
        0 <= v < 8,
        0 <= rhs,
    ensures
        (v + rhs % 8) % 8 == (v + rhs) % 8,
{
}

/// Subtracting a value steps back by its remainder, modulo 8.
proof fn lemma_mod_sub_reduce(v: int, rhs: int)
    by (nonlinear_arith)
    requires
        0 <= v < 8,
        0 <= rhs,
    ensures
        (v + 8 - rhs % 8) % 8 == (v - rhs) % 8,
{
}

/// The column decoder: three address lines, a latch-enable line, and an
/// output-enable line, all driven through GPIO.
///
/// Besides the selection held in `output`, two ghost fields model the
/// hardware-facing state: the 3-bit value the address lines are driven to,
/// and whether the latch currently locks the decoder's outputs.
pub struct Dec {
    a0: rppal::gpio::OutputPin,
    a1: rppal::gpio::OutputPin,
    a2: rppal::gpio::OutputPin,
    le: rppal::gpio::OutputPin,
    e1: rppal::gpio::OutputPin,
    output: DecOutput,
    /// The 3-bit value the address lines are driven to.
    lines: Ghost<int>,
    /// Whether the latch locks the decoder's outputs.
    latched: Ghost<bool>,
}

impl Dec {
    /// The line the decoder currently selects.
    pub closed spec fn spec_output(self) -> DecOutput {
        self.output
    }

    /// The 3-bit value the address lines are driven to.
    pub closed spec fn spec_lines(self) -> int {
        self.lines@
    }

    /// Whether the latch locks the decoder's outputs.
    pub closed spec fn spec_latched(self) -> bool {
        self.latched@
    }

    /// Claim the decoder's five GPIO pins and select line 0, address lines
    /// low, latch open, outputs enabled (the enable line is active low).
    pub(crate) fn new(
        a0_nr: u8,
        a1_nr: u8,
        a2_nr: u8,
        le_nr: u8,
        e1_nr: u8,
    ) -> (r: DisplayResult<Dec>)
        ensures
            match r {
                Ok(d) => d.spec_output() == DecOutput::Y0 && d.spec_lines() == 0
                    && !d.spec_latched(),
                Err(e) => e is Gpio,
            },
    {
        let mut a0 = match acquire_output_pin(a0_nr) {
            Ok(p) => p,
            Err(e) => {
                return Err(DisplayError::Gpio(e));
            },
        };
        let mut a1 = match acquire_output_pin(a1_nr) {
            Ok(p) => p,
            Err(e) => {
                return Err(DisplayError::Gpio(e));
            },
        };
        let mut a2 = match acquire_output_pin(a2_nr) {
            Ok(p) => p,
            Err(e) => {
                return Err(DisplayError::Gpio(e));
            },
        };
        let mut le = match acquire_output_pin(le_nr) {
            Ok(p) => p,
            Err(e) => {
                return Err(DisplayError::Gpio(e));
            },
        };
        let mut e1 = match acquire_output_pin(e1_nr) {
            Ok(p) => p,
            Err(e) => {
                return Err(DisplayError::Gpio(e));
            },
        };
        a0.set_low();
        a1.set_low();
        a2.set_low();
        le.set_low();
        e1.set_low();
        spin_wait(DEC_SETTLE_MICROS);
        Ok(
            Dec {
                a0,
                a1,
                a2,
                le,
                e1,
                output: DecOutput::Y0,
                lines: Ghost(0),
                latched: Ghost(false),
            },
        )
    }

    /// Drive the three address lines to the bits of the selected line's
    /// number, then let them settle.
    ///
    /// This function takes at least 1 microsecond.
    fn update(&mut self)
        ensures
            final (self).spec_output() == old(self).spec_output(),
            final (self).spec_lines() == old(self).spec_output().spec_value(),
            final (self).spec_latched() == old(self).spec_latched(),
    {
        let v = self.output.value();
        if v & 1 != 0 {
            self.a0.set_high();
        } else {
            self.a0.set_low();
        }
        if (v >> 1) & 1 != 0 {
            self.a1.set_high();
        } else {
            self.a1.set_low();
        }
        if (v >> 2) & 1 != 0 {
            self.a2.set_high();
        } else {
            self.a2.set_low();
        }
        spin_wait(DEC_SETTLE_MICROS);
        self.lines = Ghost(self.output.spec_value());
    }

    /// Set the decoder output to a specific position, clamped to line 7, and
    /// drive the address lines to it.
    ///
    /// This function takes at least 1 microsecond.
    pub(crate) fn set(&mut self, num: usize)
        ensures
            num <= 7 ==> final (self).spec_output().spec_value() == num,
            num > 7 ==> final (self).spec_output().spec_value() == 7,
            final (self).spec_lines() == final (self).spec_output().spec_value(),
            final (self).spec_latched() == old(self).spec_latched(),
    {
        self.output = DecOutput::from_index(num);
        self.update();
    }

    /// Lock the decoder output.
    ///
    /// This function takes at least 1 microsecond.
    pub(crate) fn latch_on(&mut self)
        ensures
            final (self).spec_latched(),
            final (self).spec_output() == old(self).spec_output(),
            final (self).spec_lines() == old(self).spec_lines(),
    {
        self.le.set_high();
        spin_wait(DEC_SETTLE_MICROS);
        self.latched = Ghost(true);
    }

    /// Unlock the decoder output.
    ///
    /// This function takes at least 1 microsecond.
    pub(crate) fn latch_off(&mut self)
        ensures
            !final (self).spec_latched(),
            final (self).spec_output() == old(self).spec_output(),
            final (self).spec_lines() == old(self).spec_lines(),
    {
        self.le.set_low();
        spin_wait(DEC_SETTLE_MICROS);
        self.latched = Ghost(false);
    }

    /// Step the selected line forward, wrapping around after line 7, and
    /// drive the address lines to it.
    pub(crate) fn add_assign(&mut self, rhs: usize)
        ensures
            final (self).spec_output().spec_value() == (old(self).spec_output().spec_value() + rhs)
                % 8,
            final (self).spec_lines() == final (self).spec_output().spec_value(),
            final (self).spec_latched() == old(self).spec_latched(),
    {
        self.output.add_assign(rhs);
        self.update();
    }

    /// Step the selected line backward, wrapping around before line 0, and
    /// drive the address lines to it.
    pub(crate) fn sub_assign(&mut self, rhs: usize)
        ensures
            final (self).spec_output().spec_value() == (old(self).spec_output().spec_value() - rhs)
                % 8,
            final (self).spec_lines() == final (self).spec_output().spec_value(),
            final (self).spec_latched() == old(self).spec_latched(),
    {
        self.output.sub_assign(rhs);
        self.update();
    }
}

} // verus!
