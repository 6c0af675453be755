//! Animations: ordered frame sequences that the animation engine advances.

use vstd::prelude::*;

use crate::error::{DisplayError, DisplayResult};
use crate::led::LedState;

verus! {

/// Ways in which an animation text description can be malformed.
#[derive(Debug, Clone, Copy, PartialEq, Eq, Structural)]
pub enum AnimationParseError {
    /// A required parameter is missing.
    MissingParam,
    /// A line does not follow the expected layout.
    BadFormatting,
    /// The blank line between frames is missing.
    MissingSeperator,
}

/// A single frame of an animation.
#[derive(Debug, Clone)]
pub struct AnimationFrame {
    /// Time the frame is active, in microseconds.
    pub frame_dur: u64,
    /// The led assignments the frame writes: x, y, led.
    pub leds: Vec<(usize, usize, LedState)>,
    /// Frame start time, in microseconds; unset until first visited.
    pub start_time: Option<u64>,
    /// Clear the affected leds after the frame ends.
    pub rst_after: bool,
}

/// The mathematical image of one animation frame.
#[verifier::ext_equal]
pub struct FrameView {
    /// Time the frame is active, in microseconds.
    pub dur: u64,
    /// The led assignments the frame writes: x, y, led.
    pub leds: Seq<(usize, usize, LedState)>,
    /// Frame start time, in microseconds; unset until first visited.
    pub start: Option<u64>,
    /// Clear the affected leds after the frame ends.
    pub rst_after: bool,
}

impl View for AnimationFrame {
    type V = FrameView;

    open spec fn view(&self) -> FrameView {
        FrameView {
            dur: self.frame_dur,
            leds: self.leds@,
            start: self.start_time,
            rst_after: self.rst_after,
        }
    }
}

impl FrameView {
    /// Whether the frame has run out at `now`: it has started and `now` has
    /// reached its start time plus its duration.
    pub open spec fn expired(self, now: u64) -> bool {
        match self.start {
            Some(s) => s + self.dur <= now,
            None => false,
        }
    }

    /// The frame with its start time cleared.
    pub open spec fn cleared(self) -> FrameView {
        FrameView { start: None, ..self }
    }
}

impl AnimationFrame {
    /// Create a new animation frame; `frame_dur` is in microseconds.
    pub fn new(frame_dur: u64, leds: Vec<(usize, usize, LedState)>, rst_after: bool) -> (r: Self)
        ensures
            r@ == (FrameView { dur: frame_dur, leds: leds@, start: None, rst_after }),
    {
        Self { frame_dur, leds, start_time: None, rst_after }
    }

    /// Check if the frame has finished at `now` microseconds: whether `now`
    /// has reached its start time plus its duration. A frame that never
    /// became active has no start time and cannot be queried; that is an
    /// engine defect, reported as [DisplayError::Uninitiated].
    pub fn finished(&self, now: u64) -> (r: DisplayResult<bool>)
        ensures
            match r {
                Ok(b) => self@.start is Some && b == self@.expired(now),
                Err(e) => self@.start is None && e == DisplayError::Uninitiated,
            },
    {
        let start_time = match self.start_time {
            Some(start_time) => start_time,
            None => {
                return Err(DisplayError::Uninitiated);
            },
        };
        if now >= self.frame_dur {
            Ok(start_time <= now - self.frame_dur)
        } else {
            Ok(false)
        }
    }
}

/// Struct containing animation info.
#[derive(Debug)]
pub struct Animation {
    /// Run the animation again every time it finishes.
    pub looping: bool,
    /// Frames of the animation.
    pub frames: Vec<AnimationFrame>,
    /// Remaining times to repeat the animation.
    pub repeats: usize,
    /// Keep the last frame's leds lit once the animation is removed.
    pub keep_last: bool,
    /// Index of the frame currently shown.
    pub activeframe: usize,
    /// Whether the animation has run out of frames.
    pub finished: bool,
}

/// The mathematical image of an animation.
#[verifier::ext_equal]
pub struct AnimView {
    /// Run the animation again every time it finishes.
    pub looping: bool,
    /// Frames of the animation.
    pub frames: Seq<FrameView>,
    /// Remaining times to repeat the animation.
    pub repeats: int,
    /// Keep the last frame's leds lit once the animation is removed.
    pub keep_last: bool,
    /// Index of the frame currently shown.
    pub activeframe: int,
    /// Whether the animation has run out of frames.
    pub finished: bool,
}

impl View for Animation {
    type V = AnimView;

    open spec fn view(&self) -> AnimView {
        AnimView {
            looping: self.looping,
            frames: self.frames@.map_values(|f: AnimationFrame| f@),
            repeats: self.repeats as int,
            keep_last: self.keep_last,
            activeframe: self.activeframe as int,
            finished: self.finished,
        }
    }
}

/// The same cell assignments, each set back to the default led state.
pub open spec fn clear_writes(leds: Seq<(usize, usize, LedState)>) -> Seq<
    (usize, usize, LedState),
> {
    leds.map_values(|e: (usize, usize, LedState)| (e.0, e.1, LedState::spec_default()))
}

impl AnimView {
    /// Well-formed: at least one frame, and the active index never runs past
    /// the end of the frame list.
    pub open spec fn wf(self) -> bool {
        1 <= self.frames.len() && 0 <= self.activeframe <= self.frames.len()
    }

    /// Every led this animation addresses lies on a w×h board.
    pub open spec fn in_bounds(self, w: int, h: int) -> bool {
        forall|i: int, j: int|
            0 <= i < self.frames.len() && 0 <= j < self.frames[i].leds.len() ==> (#[trigger] self.frames[i].leds[j]).0
                < w && self.frames[i].leds[j].1 < h
    }

    /// The animation re-armed for another pass: first frame active, all start
    /// times cleared, remaining repeats decremented saturating at zero, and
    /// the finished flag cleared.
    pub open spec fn reset(self) -> AnimView {
        AnimView {
            activeframe: 0,
            frames: self.frames.map_values(|f: FrameView| f.cleared()),
            repeats: if self.repeats > 0 {
                self.repeats - 1
            } else {
                0
            },
            finished: false,
            ..self
        }
    }

    /// One tick of the per-animation state machine at time `now`: start the
    /// active frame if it has no start time yet, advance past it once it
    /// expires; with no frame left, finish, and re-arm if the animation loops
    /// or still has repeats.
    pub open spec fn step(self, now: u64) -> AnimView {
        if self.activeframe < self.frames.len() {
            let f0 = self.frames[self.activeframe];
            let f1 = if f0.start is None {
                FrameView { start: Some(now), ..f0 }
            } else {
                f0
            };
            AnimView {
                frames: self.frames.update(self.activeframe, f1),
                activeframe: if f1.expired(now) {
                    self.activeframe + 1
                } else {
                    self.activeframe
                },
                ..self
            }
        } else if self.looping || self.repeats > 0 {
            self.reset()
        } else {
            AnimView { finished: true, ..self }
        }
    }

    /// The cell writes one tick at `now` emits, in order: when a frame first
    /// becomes active, the clears of a reset-after predecessor followed by the
    /// frame's own assignments; when the animation finishes, the clears of a
    /// reset-after last frame.
    pub open spec fn step_writes(self, now: u64) -> Seq<(usize, usize, LedState)> {
        if self.activeframe < self.frames.len() {
            let f0 = self.frames[self.activeframe];
            if f0.start is None {
                if self.activeframe > 0 && self.frames[self.activeframe - 1].rst_after {
                    clear_writes(self.frames[self.activeframe - 1].leds) + f0.leds
                } else {
                    f0.leds
                }
            } else {
                Seq::empty()
            }
        } else {
            if self.frames.last().rst_after {
                clear_writes(self.frames.last().leds)
            } else {
                Seq::empty()
            }
        }
    }

    /// The writes that persist a removed animation's terminal visual state:
    /// its last frame's assignments, where keep-last is set.
    pub open spec fn last_frame_writes(self) -> Seq<(usize, usize, LedState)> {
        if self.keep_last {
            self.frames.last().leds
        } else {
            Seq::empty()
        }
    }
}

impl Animation {
    /// Create a new animation. An animation must hold at least one frame; an
    /// empty frame list is rejected with [DisplayError::InvalidDim].
    pub fn new(looping: bool, frames: Vec<AnimationFrame>, repeats: usize, keep_last: bool) -> (r:
        DisplayResult<Animation>)
        ensures
            frames@.len() == 0 ==> r == Err::<Animation, DisplayError>(DisplayError::InvalidDim),
            frames@.len() > 0 ==> (match r {
                Ok(a) => a@ == (AnimView {
                    looping,
                    frames: frames@.map_values(|f: AnimationFrame| f@),
                    repeats: repeats as int,
                    keep_last,
                    activeframe: 0,
                    finished: false,
                }) && a@.wf(),
                Err(_) => false,
            }),
    {
        if frames.len() == 0 {
            Err(DisplayError::InvalidDim)
        } else {
            Ok(Self { looping, frames, repeats, keep_last, activeframe: 0, finished: false })
        }
    }

    /// Increase the active frame by one.
    pub fn next_frame(&mut self)
        requires
            old(self).activeframe < old(self).frames@.len(),
        ensures
            final (self)@ == (AnimView { activeframe: old(self)@.activeframe + 1, ..old(self)@ }),
    {
        let n = self.frames.len();
        assert(self.activeframe < n);
        self.activeframe = self.activeframe + 1;
    }

    /// Reset the active frame to frame 0.
    pub fn rst_frame_ctr(&mut self)
        ensures
            final (self)@ == (AnimView { activeframe: 0, ..old(self)@ }),
    {
        self.activeframe = 0;
    }

    /// Reset start time of all frames to [None].
    pub fn rst_frame_st(&mut self)
        ensures
            final (self)@ == (AnimView {
                frames: old(self)@.frames.map_values(|f: FrameView| f.cleared()),
                ..old(self)@
            }),
    {
        let ghost orig: AnimView = self@;
        let n = self.frames.len();
        let mut i: usize = 0;
        while i < n
            invariant
                i <= n,
                n == self.frames@.len(),
                n == orig.frames.len(),
                self.looping == orig.looping,
                self.repeats as int == orig.repeats,
                self.keep_last == orig.keep_last,
                self.activeframe as int == orig.activeframe,
                self.finished == orig.finished,
                forall|k: int| 0 <= k < i ==> (#[trigger] self.frames@[k])@ == orig.frames[k].cleared(),
                forall|k: int| i <= k < n ==> (#[trigger] self.frames@[k])@ == orig.frames[k],
            decreases n - i,
        {
            self.frames[i].start_time = None;
            i = i + 1;
        }
        proof {
            assert(self@.frames =~= orig.frames.map_values(|f: FrameView| f.cleared()));
            assert(self@ =~= (AnimView {
                frames: orig.frames.map_values(|f: FrameView| f.cleared()),
                ..orig
            }));
        }
    }

    /// Reset the animation: first frame active again, all start times
    /// cleared, remaining repeats decremented by one saturating at zero, and
    /// the finished flag cleared.
    pub fn rst(&mut self)
        ensures
            final (self)@ == old(self)@.reset(),
    {
        let ghost orig: AnimView = self@;
        self.rst_frame_ctr();
        self.rst_frame_st();
        self.repeats = if self.repeats > 0 {
            self.repeats - 1
        } else {
            0
        };
        self.finished = false;
        proof {
            assert(self@ =~= orig.reset());
        }
    }

    /// Whether the animation has run out of frames.
    pub fn is_finished(&self) -> (r: bool)
        ensures
            r == self@.finished,
    {
        self.finished
    }

    /// The index of the frame currently shown.
    pub fn active_frame(&self) -> (r: usize)
        ensures
            r as int == self@.activeframe,
    {
        self.activeframe
    }

    /// How many frames the animation holds.
    pub fn frame_count(&self) -> (r: usize)
        ensures
            r as int == self@.frames.len(),
    {
        self.frames.len()
    }

    /// The remaining number of repeats.
    pub fn remaining_repeats(&self) -> (r: usize)
        ensures
            r as int == self@.repeats,
    {
        self.repeats
    }
}

} // verus!
