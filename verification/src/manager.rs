//! The render thread's state: the render engine, the animation engine, and
//! the handling of one control-loop cycle.

use vstd::prelude::*;

use crate::animation::AnimView;
use crate::clock;
use crate::dec::DecOutput;
use crate::display::Display;
use crate::engine::{anim_ok, apply_writes, surviving, tick_writes, AnimationEngine};
use crate::error::{DisplayError, DisplayResult};
use crate::grid::{sync_blink_ok, sync_dims_ok, sync_ok, synced};
use crate::interface_components::Instruction;
use crate::led::LedState;

verus! {

/// What the render loop should do after one cycle.
#[derive(Debug, Clone, Copy, PartialEq, Eq, Structural)]
pub enum StepAction {
    /// Go on with the next cycle.
    Proceed,
    /// Park the thread and restart the cycle on the next wake signal.
    Park,
    /// Leave the render loop.
    Halt,
}

/// The render thread's state: one display's render engine together with its
/// animation engine, driven one cycle at a time by the control loop.
pub struct DisplayManager {
    disp: Display,
    engine: AnimationEngine,
}

/// The state a manager reaches by one animation tick at time `now` followed
/// by a render pass, starting from the given board and animation set.
pub open spec fn cycle_result(
    post: DisplayManager,
    board: Seq<LedState>,
    w: int,
    anims: Seq<AnimView>,
    now: u64,
) -> bool {
    post.anims() == surviving(anims, now) && post.board() == apply_writes(
        board,
        w,
        tick_writes(anims, now),
    )
}

impl DisplayManager {
    /// The board of the managed display, row-major by (y, x).
    pub closed spec fn board(self) -> Seq<LedState> {
        self.disp.grid.board()
    }

    /// The board width.
    pub closed spec fn spec_width(self) -> int {
        self.disp.grid.spec_width()
    }

    /// The board height.
    pub closed spec fn spec_height(self) -> int {
        self.disp.grid.spec_height()
    }

    /// The active animations, in insertion order.
    pub closed spec fn anims(self) -> Seq<AnimView> {
        self.engine.anims()
    }

    /// The decoder line the column selector currently selects.
    pub closed spec fn column_line(self) -> DecOutput {
        self.disp.column_line()
    }

    /// Whether the row register's outputs are enabled.
    pub closed spec fn row_enabled(self) -> bool {
        self.disp.row_enabled()
    }

    /// The pattern the row register's output stage holds.
    pub closed spec fn row_pushed(self) -> Seq<bool> {
        self.disp.row_pushed()
    }

    /// Every pattern pushed to the row register's output stage, in order.
    pub closed spec fn row_pushes(self) -> Seq<Seq<bool>> {
        self.disp.row_pushes()
    }

    /// Well-formed: display and animation engine well-formed and agreeing on
    /// the board's dimensions.
    pub closed spec fn wf(self) -> bool {
        self.disp.wf() && self.engine.wf() && self.engine.spec_width()
            == self.disp.grid.spec_width() && self.engine.spec_height()
            == self.disp.grid.spec_height()
    }

    /// Create a new manager around a display, with an empty animation set.
    pub fn new(disp: Display) -> (r: DisplayManager)
        requires
            disp.wf(),
        ensures
            r.wf(),
            r.board() == disp.board(),
            r.spec_width() == disp.spec_width(),
            r.spec_height() == disp.spec_height(),
            r.anims().len() == 0,
    {
        proof {
            disp.lemma_views();
            disp.grid.lemma_wf();
        }
        let w = disp.grid.width();
        let h = disp.grid.height();
        let engine = AnimationEngine::new(w, h);
        DisplayManager { disp, engine }
    }

    /// Apply one control instruction.
    ///
    /// Stop and Pause touch nothing and ask the loop to halt or park. A sync
    /// command updates the board as [crate::Grid::sync] describes; adding an
    /// animation validates it as [AnimationEngine::add_animation] describes;
    /// clearing empties the animation set. An invalid command is rejected
    /// with its error and the state stays as it was.
    pub fn handle_instruction(&mut self, instr: Instruction) -> (r: DisplayResult<StepAction>)
        requires
            old(self).wf(),
        ensures
            final (self).wf(),
            final (self).spec_width() == old(self).spec_width(),
            final (self).spec_height() == old(self).spec_height(),
            final (self).row_pushes() == old(self).row_pushes(),
            final (self).row_enabled() == old(self).row_enabled(),
            final (self).column_line() == old(self).column_line(),
            match instr {
                Instruction::Stop => r == Ok::<StepAction, DisplayError>(StepAction::Halt) && final (
                self).board() == old(self).board() && final (self).anims() == old(self).anims(),
                Instruction::Pause => r == Ok::<StepAction, DisplayError>(StepAction::Park)
                    && final (self).board() == old(self).board() && final (self).anims() == old(
                    self,
                ).anims(),
                Instruction::Sync(cmd) => final (self).anims() == old(self).anims() && (sync_ok(
                    old(self).spec_width(),
                    old(self).spec_height(),
                    cmd,
                ) ==> r == Ok::<StepAction, DisplayError>(StepAction::Proceed) && final (
                self).board() == synced(
                    old(self).board(),
                    old(self).spec_width(),
                    old(self).spec_height(),
                    cmd,
                )) && (!sync_dims_ok(old(self).spec_width(), old(self).spec_height(), cmd) ==> r
                    == Err::<StepAction, DisplayError>(DisplayError::InvalidDim) && final (
                self).board() == old(self).board()) && (sync_dims_ok(
                    old(self).spec_width(),
                    old(self).spec_height(),
                    cmd,
                ) && !sync_blink_ok(cmd) ==> r == Err::<StepAction, DisplayError>(
                    DisplayError::BlinkInvariantViolation,
                ) && final (self).board() == old(self).board()),
                Instruction::AddAnimation(a) => final (self).board() == old(self).board() && (
                anim_ok(old(self).spec_width(), old(self).spec_height(), a@) ==> r == Ok::<
                    StepAction,
                    DisplayError,
                >(StepAction::Proceed) && final (self).anims() == old(self).anims().push(a@)) && (
                !anim_ok(old(self).spec_width(), old(self).spec_height(), a@) ==> r == Err::<
                    StepAction,
                    DisplayError,
                >(DisplayError::InvalidDim) && final (self).anims() == old(self).anims()),
                Instruction::ClearAnimations => r == Ok::<StepAction, DisplayError>(
                    StepAction::Proceed,
                ) && final (self).board() == old(self).board() && final (self).anims().len() == 0,
            },
    {
        match instr {
            Instruction::Stop => Ok(StepAction::Halt),
            Instruction::Pause => Ok(StepAction::Park),
            Instruction::Sync(cmd) => {
                proof {
                    self.disp.lemma_views();
                }
                let ghost disp0 = self.disp;
                let r = self.disp.sync(cmd);
                proof {
                    self.disp.lemma_views();
                    disp0.lemma_views();
                }
                match r {
                    Ok(()) => Ok(StepAction::Proceed),
                    Err(e) => Err(e),
                }
            },
            Instruction::AddAnimation(a) => {
                match self.engine.add_animation(a) {
                    Ok(()) => Ok(StepAction::Proceed),
                    Err(e) => Err(e),
                }
            },
            Instruction::ClearAnimations => {
                self.engine.clear();
                Ok(StepAction::Proceed)
            },
        }
    }

    /// Run one cycle of the render loop: handle the instruction, if any —
    /// Stop and Pause end the cycle at once — then advance the animations by
    /// one tick at the engine's current time, and finish with one multiplex
    /// pass whose per-cell waits are measured from the cycle's start.
    ///
    /// The tick's time is whatever the clock reports; every outcome of the
    /// tick is described by [cycle_result].
    pub fn run_cycle(&mut self, instr: Option<Instruction>) -> (r: DisplayResult<StepAction>)
        requires
            old(self).wf(),
        ensures
            final (self).wf(),
            final (self).spec_width() == old(self).spec_width(),
            final (self).spec_height() == old(self).spec_height(),
            r == Ok::<StepAction, DisplayError>(StepAction::Proceed) ==> final (self).row_enabled()
                && final (self).column_line().spec_value() == (if old(self).spec_height() - 1 <= 7 {
                old(self).spec_height() - 1
            } else {
                7
            }) && final (self).row_pushes().len() == old(self).row_pushes().len() + old(
                self,
            ).spec_height(),
            match instr {
                None => r == Ok::<StepAction, DisplayError>(StepAction::Proceed) && (exists|
                    now: u64,
                |
                    cycle_result(*final (self), old(self).board(), old(self).spec_width(), old(self).anims(), now)),
                Some(i) => match i {
                    Instruction::Stop => r == Ok::<StepAction, DisplayError>(StepAction::Halt)
                        && final (self).board() == old(self).board() && final (self).anims() == old(
                        self,
                    ).anims(),
                    Instruction::Pause => r == Ok::<StepAction, DisplayError>(StepAction::Park)
                        && final (self).board() == old(self).board() && final (self).anims() == old(
                        self,
                    ).anims(),
                    Instruction::Sync(cmd) => (sync_ok(
                        old(self).spec_width(),
                        old(self).spec_height(),
                        cmd,
                    ) ==> r == Ok::<StepAction, DisplayError>(StepAction::Proceed) && (exists|
                        now: u64,
                    |
                        cycle_result(
                            *final (self),
                            synced(
                                old(self).board(),
                                old(self).spec_width(),
                                old(self).spec_height(),
                                cmd,
                            ),
                            old(self).spec_width(),
                            old(self).anims(),
                            now,
                        ))) && (!sync_dims_ok(old(self).spec_width(), old(self).spec_height(), cmd)
                        ==> r == Err::<StepAction, DisplayError>(DisplayError::InvalidDim) && final (
                    self).board() == old(self).board() && final (self).anims() == old(self).anims())
                        && (sync_dims_ok(old(self).spec_width(), old(self).spec_height(), cmd)
                        && !sync_blink_ok(cmd) ==> r == Err::<StepAction, DisplayError>(
                        DisplayError::BlinkInvariantViolation,
                    ) && final (self).board() == old(self).board() && final (self).anims() == old(
                        self,
                    ).anims()),
                    Instruction::AddAnimation(a) => (anim_ok(
                        old(self).spec_width(),
                        old(self).spec_height(),
                        a@,
                    ) ==> r == Ok::<StepAction, DisplayError>(StepAction::Proceed) && (exists|
                        now: u64,
                    |
                        cycle_result(
                            *final (self),
                            old(self).board(),
                            old(self).spec_width(),
                            old(self).anims().push(a@),
                            now,
                        ))) && (!anim_ok(old(self).spec_width(), old(self).spec_height(), a@) ==> r
                        == Err::<StepAction, DisplayError>(DisplayError::InvalidDim) && final (
                    self).board() == old(self).board() && final (self).anims() == old(
                        self,
                    ).anims()),
                    Instruction::ClearAnimations => r == Ok::<StepAction, DisplayError>(
                        StepAction::Proceed,
                    ) && final (self).board() == old(self).board() && final (self).anims().len()
                        == 0,
                },
            },
    {
        let start = clock::instant_now();
        let act = match instr {
            None => StepAction::Proceed,
            Some(i) => match self.handle_instruction(i) {
                Ok(a) => a,
                Err(e) => {
                    return Err(e);
                },
            },
        };
        let ghost mid_board = self.board();
        let ghost mid_anims = self.anims();
        match act {
            StepAction::Halt => {
                return Ok(StepAction::Halt);
            },
            StepAction::Park => {
                return Ok(StepAction::Park);
            },
            StepAction::Proceed => {},
        }
        let now = clock::micros_since(&self.disp.origin);
        let ghost disp0 = self.disp;
        proof {
            self.disp.lemma_views();
        }
        self.engine.tick(&mut self.disp.grid, now);
        proof {
            Display::lemma_wf_swap_grid(disp0, self.disp);
            Display::lemma_hw_swap_grid(disp0, self.disp);
        }
        let ghost disp2 = self.disp;
        self.disp.run_once(&start);
        proof {
            disp2.lemma_views();
            assert(cycle_result(*self, mid_board, old(self).spec_width(), mid_anims, now));
        }
        Ok(StepAction::Proceed)
    }

    /// Leave the hardware in its safe all-off teardown state: row output
    /// disabled, column selector parked at column 0 with its latch open, and
    /// the row register's both stages cleared.
    pub fn shutdown(&mut self)
        requires
            old(self).wf(),
        ensures
            final (self).wf(),
            final (self).spec_width() == old(self).spec_width(),
            final (self).spec_height() == old(self).spec_height(),
            final (self).board() == old(self).board(),
            final (self).anims() == old(self).anims(),
            !final (self).row_enabled(),
            final (self).row_pushed().len() == 0,
            final (self).column_line() == DecOutput::Y0,
    {
        self.disp.shutdown();
    }

    /// Clear the row register and push the cleared contents out, blanking
    /// the column currently driven.
    pub fn clear_row(&mut self)
        requires
            old(self).wf(),
        ensures
            final (self).wf(),
            final (self).spec_width() == old(self).spec_width(),
            final (self).spec_height() == old(self).spec_height(),
            final (self).board() == old(self).board(),
            final (self).anims() == old(self).anims(),
            final (self).row_pushed().len() == 0,
            final (self).row_pushes().len() == old(self).row_pushes().len() + 1,
            final (self).column_line() == old(self).column_line(),
    {
        self.disp.clear_row();
    }

    /// How many animations are active.
    pub fn animation_count(&self) -> (r: usize)
        ensures
            r as int == self.anims().len(),
    {
        self.engine.animation_count()
    }
}

} // verus!
