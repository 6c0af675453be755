//! The animation engine: advances every active animation by one tick and
//! emits the resulting cell updates into the grid.

use vstd::prelude::*;

use crate::animation::{clear_writes, AnimView, Animation, FrameView};
use crate::error::{DisplayError, DisplayResult};
use crate::grid::Grid;
use crate::led::LedState;

verus! {

/// The board after the given cell writes (x, y, state), applied in order.
pub open spec fn apply_writes(
    cells: Seq<LedState>,
    w: int,
    writes: Seq<(usize, usize, LedState)>,
) -> Seq<LedState>
    decreases writes.len(),
{
    if writes.len() == 0 {
        cells
    } else {
        let e = writes.last();
        apply_writes(cells, w, writes.drop_last()).update(e.1 * w + e.0, e.2)
    }
}

/// Writes applied one after the other are the writes of the concatenation.
proof fn lemma_apply_writes_concat(
    cells: Seq<LedState>,
    w: int,
    a: Seq<(usize, usize, LedState)>,
    b: Seq<(usize, usize, LedState)>,
)
    ensures
        apply_writes(cells, w, a + b) == apply_writes(apply_writes(cells, w, a), w, b),
    decreases b.len(),
{
    if b.len() == 0 {
        assert(a + b =~= a);
    } else {
        lemma_apply_writes_concat(cells, w, a, b.drop_last());
        assert((a + b).drop_last() =~= a + b.drop_last());
        assert((a + b).last() == b.last());
    }
}

/// An animation a w×h display accepts: well-formed, not yet finished, every
/// led it addresses on the board.
pub open spec fn anim_ok(w: int, h: int, a: AnimView) -> bool {
    a.wf() && !a.finished && a.in_bounds(w, h)
}

/// The animations that remain active after every animation took one step at
/// `now`: the stepped animations, in order, without the finished ones.
pub open spec fn surviving(anims: Seq<AnimView>, now: u64) -> Seq<AnimView>
    decreases anims.len(),
{
    if anims.len() == 0 {
        Seq::empty()
    } else {
        let rest = surviving(anims.drop_last(), now);
        let stepped = anims.last().step(now);
        if stepped.finished {
            rest
        } else {
            rest.push(stepped)
        }
    }
}

/// The cell writes the per-animation steps emit, in insertion order.
pub open spec fn step_writes_all(anims: Seq<AnimView>, now: u64) -> Seq<(usize, usize, LedState)>
    decreases anims.len(),
{
    if anims.len() == 0 {
        Seq::empty()
    } else {
        step_writes_all(anims.drop_last(), now) + anims.last().step_writes(now)
    }
}

/// The writes that persist the last frame of each animation that finished at
/// this tick and asks to keep it, in insertion order.
pub open spec fn keep_last_writes(anims: Seq<AnimView>, now: u64) -> Seq<(usize, usize, LedState)>
    decreases anims.len(),
{
    if anims.len() == 0 {
        Seq::empty()
    } else {
        keep_last_writes(anims.drop_last(), now) + (if anims.last().step(now).finished {
            anims.last().step(now).last_frame_writes()
        } else {
            Seq::empty()
        })
    }
}

/// Every cell write one engine tick at `now` performs, in order: first the
/// per-animation step writes, then the keep-last writes of the animations
/// removed at this tick.
pub open spec fn tick_writes(anims: Seq<AnimView>, now: u64) -> Seq<(usize, usize, LedState)> {
    step_writes_all(anims, now) + keep_last_writes(anims, now)
}

/// One step keeps an animation well-formed, keeps its leds within the board,
/// and leaves its frame count, loop flag and keep-last flag unchanged.
pub proof fn lemma_step_preserves(a: AnimView, now: u64, w: int, h: int)
    requires
        a.wf(),
        a.in_bounds(w, h),
    ensures
        a.step(now).wf(),
        a.step(now).in_bounds(w, h),
        a.step(now).frames.len() == a.frames.len(),
        a.step(now).keep_last == a.keep_last,
        a.step(now).looping == a.looping,
{
    let s = a.step(now);
    assert forall|i: int| 0 <= i < s.frames.len() implies #[trigger] s.frames[i].leds
        == a.frames[i].leds by {}
    assert forall|i: int, j: int|
        0 <= i < s.frames.len() && 0 <= j < s.frames[i].leds.len() implies (
    #[trigger] s.frames[i].leds[j]).0 < w && s.frames[i].leds[j].1 < h by {
        assert(s.frames[i].leds == a.frames[i].leds);
        assert(a.frames[i].leds[j].0 < w && a.frames[i].leds[j].1 < h);
    }
}

/// A looping animation never comes out of a step finished: the step that
/// would finish it re-arms it instead.
pub proof fn lemma_looping_never_finishes(a: AnimView, now: u64)
    requires
        a.wf(),
        !a.finished,
        a.looping,
    ensures
        !a.step(now).finished,
        a.step(now).wf(),
        a.step(now).looping,
{
    assert forall|i: int| 0 <= i < a.step(now).frames.len() implies #[trigger] a.step(
        now,
    ).frames[i].leds == a.frames[i].leds by {}
}

/// A looping animation's active frame walks through the frame indices one
/// step at a time — a tick keeps it or advances it by one — and returns to
/// the first frame on the tick after the last frame expires, so the indices
/// repeat forever.
pub proof fn lemma_loop_index_cycles(a: AnimView, now: u64)
    requires
        a.wf(),
        !a.finished,
        a.looping,
    ensures
        a.activeframe < a.frames.len() ==> a.step(now).activeframe == a.activeframe || a.step(
            now,
        ).activeframe == a.activeframe + 1,
        a.activeframe == a.frames.len() ==> a.step(now).activeframe == 0,
{
}

/// Whether the animation ends removed across the given tick times: stepping
/// it at each time in turn, it comes out of some step finished — the engine
/// removes it at that same tick.
pub open spec fn removed_within(a: AnimView, nows: Seq<u64>) -> bool
    decreases nows.len(),
{
    if nows.len() == 0 {
        false
    } else {
        let a1 = a.step(nows.first());
        if a1.finished {
            true
        } else {
            removed_within(a1, nows.drop_first())
        }
    }
}

/// How many full passes of its frame sequence the animation completes across
/// the given tick times, counted up to the tick that removes it: a pass
/// completes at each tick that finds the frame sequence fully played, with
/// the active index just past the last frame.
pub open spec fn full_passes(a: AnimView, nows: Seq<u64>) -> int
    decreases nows.len(),
{
    if nows.len() == 0 {
        0
    } else {
        let completing: int = if a.activeframe == a.frames.len() {
            1
        } else {
            0
        };
        let a1 = a.step(nows.first());
        if a1.finished {
            completing
        } else {
            completing + full_passes(a1, nows.drop_first())
        }
    }
}

/// An animation that does not loop and has `repeats` repeats left runs its
/// full frame sequence exactly `repeats + 1` times: across any tick times it
/// completes at most that many passes — each completed pass either spends
/// one repeat, decrementing the counter saturating at zero, or, with none
/// left, finishes the animation for good — and at the tick that removes it,
/// it has completed exactly one initial pass plus one per repeat.
pub proof fn lemma_repeats_run_the_sequence(a: AnimView, nows: Seq<u64>)
    requires
        a.wf(),
        !a.finished,
        !a.looping,
        a.repeats >= 0,
    ensures
        full_passes(a, nows) <= a.repeats + 1,
        removed_within(a, nows) ==> full_passes(a, nows) == a.repeats + 1,
    decreases nows.len(),
{
    if nows.len() > 0 {
        let a1 = a.step(nows.first());
        if a.activeframe == a.frames.len() {
            if a.repeats > 0 {
                // the pass spends one repeat and re-arms the animation
                assert(a1 == a.reset());
                assert(a1.frames.len() == a.frames.len());
                assert(a1.wf() && !a1.finished && !a1.looping && a1.repeats == a.repeats - 1);
                lemma_repeats_run_the_sequence(a1, nows.drop_first());
            } else {
                // with no repeat left, this tick finishes the animation: one
                // pass completed, exactly the one the counter still owed
                assert(a1.finished);
                assert(full_passes(a, nows) == 1);
            }
        } else {
            // a mid-sequence tick: no pass completes, no repeat is spent
            assert(a1.frames.len() == a.frames.len());
            assert(a1.wf() && !a1.finished && !a1.looping && a1.repeats == a.repeats);
            lemma_repeats_run_the_sequence(a1, nows.drop_first());
            assert(full_passes(a, nows) == full_passes(a1, nows.drop_first()));
        }
    }
}

/// The remaining ticks of an animation, at the given sequence of times.
pub open spec fn stepped_many(a: AnimView, nows: Seq<u64>) -> AnimView
    decreases nows.len(),
{
    if nows.len() == 0 {
        a
    } else {
        stepped_many(a.step(nows.first()), nows.drop_first())
    }
}

/// An animation with the loop flag set never reaches a permanently finished
/// state: across arbitrarily many ticks, at arbitrary times, it stays
/// well-formed, still looping, and not finished.
pub proof fn lemma_loop_animation_lives(a: AnimView, nows: Seq<u64>)
    requires
        a.wf(),
        !a.finished,
        a.looping,
    ensures
        !stepped_many(a, nows).finished,
        stepped_many(a, nows).wf(),
        stepped_many(a, nows).looping,
    decreases nows.len(),
{
    if nows.len() > 0 {
        lemma_looping_never_finishes(a, nows.first());
        lemma_loop_animation_lives(a.step(nows.first()), nows.drop_first());
    }
}

/// A tick never removes a looping animation from the active set: its stepped
/// state stands among the survivors.
pub proof fn lemma_surviving_keeps_looping(anims: Seq<AnimView>, now: u64, k: int)
    requires
        0 <= k < anims.len(),
        anims[k].looping,
        anims[k].wf(),
        !anims[k].finished,
    ensures
        exists|m: int|
            0 <= m < surviving(anims, now).len() && surviving(anims, now)[m] == anims[k].step(now),
    decreases anims.len(),
{
    if k == anims.len() - 1 {
        lemma_looping_never_finishes(anims[k], now);
        assert(anims.last() == anims[k]);
        let s = surviving(anims, now);
        assert(s[s.len() - 1] == anims[k].step(now));
    } else {
        lemma_surviving_keeps_looping(anims.drop_last(), now, k);
        let rest = surviving(anims.drop_last(), now);
        let m = choose|m: int| 0 <= m < rest.len() && rest[m] == anims.drop_last()[k].step(now);
        assert(anims.drop_last()[k] == anims[k]);
        assert(surviving(anims, now)[m] == rest[m]);
    }
}

impl Animation {
    /// Write one frame's led assignments to the grid, in order.
    #[verifier::loop_isolation(false)]
    fn write_frame_leds(&self, idx: usize, grid: &mut Grid)
        requires
            idx < self@.frames.len(),
            old(grid).wf(),
            self@.in_bounds(old(grid).spec_width(), old(grid).spec_height()),
        ensures
            final (grid).wf(),
            final (grid).spec_width() == old(grid).spec_width(),
            final (grid).spec_height() == old(grid).spec_height(),
            final (grid).board() == apply_writes(
                old(grid).board(),
                old(grid).spec_width(),
                self@.frames[idx as int].leds,
            ),
    {
        let ghost g0 = grid.board();
        let ghost w0 = grid.spec_width();
        let ghost leds = self@.frames[idx as int].leds;
        let n = self.frames[idx].leds.len();
        let mut j: usize = 0;
        while j < n
            invariant
                j <= n,
                n == leds.len(),
                grid.wf(),
                grid.spec_width() == w0,
                grid.spec_height() == old(grid).spec_height(),
                grid.board() == apply_writes(g0, w0, leds.take(j as int)),
            decreases n - j,
        {
            let e = self.frames[idx].leds[j];
            assert(e == leds[j as int]);
            grid.write_at(e.0, e.1, e.2);
            proof {
                let t = leds.take(j + 1);
                assert(t.drop_last() =~= leds.take(j as int));
                assert(t.last() == leds[j as int]);
            }
            j = j + 1;
        }
        proof {
            assert(leds.take(n as int) =~= leds);
        }
    }

    /// Clear one frame's led assignments back to the default state, in order.
    #[verifier::loop_isolation(false)]
    fn write_frame_clears(&self, idx: usize, grid: &mut Grid)
        requires
            idx < self@.frames.len(),
            old(grid).wf(),
            self@.in_bounds(old(grid).spec_width(), old(grid).spec_height()),
        ensures
            final (grid).wf(),
            final (grid).spec_width() == old(grid).spec_width(),
            final (grid).spec_height() == old(grid).spec_height(),
            final (grid).board() == apply_writes(
                old(grid).board(),
                old(grid).spec_width(),
                clear_writes(self@.frames[idx as int].leds),
            ),
    {
        let ghost g0 = grid.board();
        let ghost w0 = grid.spec_width();
        let ghost writes = clear_writes(self@.frames[idx as int].leds);
        let n = self.frames[idx].leds.len();
        let mut j: usize = 0;
        while j < n
            invariant
                j <= n,
                n == writes.len(),
                grid.wf(),
                grid.spec_width() == w0,
                grid.spec_height() == old(grid).spec_height(),
                grid.board() == apply_writes(g0, w0, writes.take(j as int)),
            decreases n - j,
        {
            let e = self.frames[idx].leds[j];
            assert(writes[j as int] == (e.0, e.1, LedState::spec_default()));
            grid.write_at(e.0, e.1, LedState::default());
            proof {
                let t = writes.take(j + 1);
                assert(t.drop_last() =~= writes.take(j as int));
                assert(t.last() == writes[j as int]);
            }
            j = j + 1;
        }
        proof {
            assert(writes.take(n as int) =~= writes);
        }
    }

    /// One engine tick for this animation: record the active frame's start
    /// time when it is first visited (writing its leds, after clearing a
    /// reset-after predecessor), advance past an expired frame, and on
    /// running out of frames finish — clearing a reset-after last frame and
    /// re-arming a looping or repeating animation.
    pub(crate) fn step(&mut self, grid: &mut Grid, now: u64)
        requires
            old(self)@.wf(),
            !old(self)@.finished,
            old(grid).wf(),
            old(self)@.in_bounds(old(grid).spec_width(), old(grid).spec_height()),
        ensures
            final (self)@ == old(self)@.step(now),
            final (grid).wf(),
            final (grid).spec_width() == old(grid).spec_width(),
            final (grid).spec_height() == old(grid).spec_height(),
            final (grid).board() == apply_writes(
                old(grid).board(),
                old(grid).spec_width(),
                old(self)@.step_writes(now),
            ),
    {
        let ghost pre = self@;
        let ghost g0 = grid.board();
        let ghost w0 = grid.spec_width();
        let ghost h0 = grid.spec_height();
        let af = self.activeframe;
        let nframes = self.frames.len();
        if af < nframes {
            if self.frames[af].start_time.is_none() {
                self.frames[af].start_time = Some(now);
                proof {
                    assert(self@.frames =~= pre.frames.update(
                        af as int,
                        (FrameView { start: Some(now), ..pre.frames[af as int] }),
                    ));
                    assert forall|i: int| 0 <= i < self@.frames.len() implies #[trigger] self@.frames[i].leds == pre.frames[i].leds by {}
                    assert(self@.in_bounds(w0, h0));
                }
                if af > 0 && self.frames[af - 1].rst_after {
                    self.write_frame_clears(af - 1, grid);
                    self.write_frame_leds(af, grid);
                    proof {
                        lemma_apply_writes_concat(
                            g0,
                            w0,
                            clear_writes(pre.frames[af - 1].leds),
                            self@.frames[af as int].leds,
                        );
                        assert(self@.frames[af as int].leds == pre.frames[af as int].leds);
                    }
                } else {
                    self.write_frame_leds(af, grid);
                }
            }
            let expired = match self.frames[af].finished(now) {
                Ok(b) => b,
                Err(_) => {
                    proof {
                        assert(false);
                    }
                    vstd::pervasive::unreached()
                },
            };
            if expired {
                self.activeframe = af + 1;
            }
            proof {
                assert(self@ =~= pre.step(now));
            }
        } else {
            self.finished = true;
            if self.frames[nframes - 1].rst_after {
                self.write_frame_clears(nframes - 1, grid);
            }
            if self.looping || self.repeats > 0 {
                self.rst();
            }
            proof {
                assert(self@ =~= pre.step(now));
            }
        }
    }
}

/// Whether a w×h display accepts the animation: at least one frame, a frame
/// index within range, not yet finished, and every led on the board.
pub fn validate_animation(w: usize, h: usize, a: &Animation) -> (r: bool)
    ensures
        r == anim_ok(w as int, h as int, a@),
{
    if a.frames.len() < 1 || a.activeframe > a.frames.len() || a.finished {
        return false;
    }
    let nframes = a.frames.len();
    let mut i: usize = 0;
    while i < nframes
        invariant
            i <= nframes,
            nframes == a@.frames.len(),
            forall|k: int, j: int|
                0 <= k < i && 0 <= j < a@.frames[k].leds.len() ==> (
                #[trigger] a@.frames[k].leds[j]).0 < w && a@.frames[k].leds[j].1 < h,
        decreases nframes - i,
    {
        let nleds = a.frames[i].leds.len();
        let mut j: usize = 0;
        while j < nleds
            invariant
                j <= nleds,
                i < nframes,
                nframes == a@.frames.len(),
                nleds == a@.frames[i as int].leds.len(),
                forall|k: int, j2: int|
                    0 <= k < i && 0 <= j2 < a@.frames[k].leds.len() ==> (
                    #[trigger] a@.frames[k].leds[j2]).0 < w && a@.frames[k].leds[j2].1 < h,
                forall|j2: int|
                    0 <= j2 < j ==> (#[trigger] a@.frames[i as int].leds[j2]).0 < w
                        && a@.frames[i as int].leds[j2].1 < h,
            decreases nleds - j,
        {
            let e = a.frames[i].leds[j];
            if e.0 >= w || e.1 >= h {
                return false;
            }
            j = j + 1;
        }
        i = i + 1;
    }
    true
}

/// The set of active animations of a w×h display, advanced one tick at a
/// time in insertion order.
pub struct AnimationEngine {
    w: usize,
    h: usize,
    animations: Vec<Animation>,
}

impl AnimationEngine {
    /// The display width the engine validates against.
    pub closed spec fn spec_width(self) -> int {
        self.w as int
    }

    /// The display height the engine validates against.
    pub closed spec fn spec_height(self) -> int {
        self.h as int
    }

    /// The active animations, in insertion order.
    pub closed spec fn anims(self) -> Seq<AnimView> {
        self.animations@.map_values(|a: Animation| a@)
    }

    /// Well-formed: positive dimensions, and every active animation accepted
    /// by the display and not yet finished.
    pub closed spec fn wf(self) -> bool {
        1 <= self.w && 1 <= self.h && forall|i: int|
            0 <= i < self.anims().len() ==> anim_ok(
                self.w as int,
                self.h as int,
                #[trigger] self.anims()[i],
            )
    }

    /// An empty animation set for a w×h display.
    pub fn new(w: usize, h: usize) -> (r: AnimationEngine)
        requires
            w >= 1,
            h >= 1,
        ensures
            r.wf(),
            r.spec_width() == w,
            r.spec_height() == h,
            r.anims().len() == 0,
    {
        AnimationEngine { w, h, animations: Vec::new() }
    }

    /// How many animations are active.
    pub fn animation_count(&self) -> (r: usize)
        ensures
            r as int == self.anims().len(),
    {
        self.animations.len()
    }

    /// Append an animation to the active set.
    ///
    /// The animation is validated against the display first: it is accepted
    /// if and only if it holds at least one frame, its frame index is in
    /// range, it is not already finished, and every led it addresses lies on
    /// the board; anything else is rejected with [DisplayError::InvalidDim]
    /// and the active set stays as it was.
    pub fn add_animation(&mut self, a: Animation) -> (r: DisplayResult<()>)
        requires
            old(self).wf(),
        ensures
            final (self).wf(),
            final (self).spec_width() == old(self).spec_width(),
            final (self).spec_height() == old(self).spec_height(),
            anim_ok(old(self).spec_width(), old(self).spec_height(), a@) ==> r == Ok::<
                (),
                DisplayError,
            >(()) && final (self).anims() == old(self).anims().push(a@),
            !anim_ok(old(self).spec_width(), old(self).spec_height(), a@) ==> r == Err::<
                (),
                DisplayError,
            >(DisplayError::InvalidDim) && final (self).anims() == old(self).anims(),
    {
        if !validate_animation(self.w, self.h, &a) {
            return Err(DisplayError::InvalidDim);
        }
        let ghost pre = self.anims();
        self.animations.push(a);
        proof {
            assert(self.anims() =~= pre.push(a@));
        }
        Ok(())
    }

    /// Drop every active animation.
    pub fn clear(&mut self)
        requires
            old(self).wf(),
        ensures
            final (self).wf(),
            final (self).spec_width() == old(self).spec_width(),
            final (self).spec_height() == old(self).spec_height(),
            final (self).anims().len() == 0,
    {
        self.animations.clear();
        proof {
            assert(self.anims() =~= Seq::<AnimView>::empty());
        }
    }

    /// Advance every active animation by one tick at time `now`, writing the
    /// resulting cell updates into the grid in insertion order — later
    /// animations override earlier ones for a shared cell — and remove the
    /// animations that finished, persisting the last frame of those marked
    /// keep-last.
    #[verifier::loop_isolation(false)]
    pub fn tick(&mut self, grid: &mut Grid, now: u64)
        requires
            old(self).wf(),
            old(grid).wf(),
            old(self).spec_width() == old(grid).spec_width(),
            old(self).spec_height() == old(grid).spec_height(),
        ensures
            final (self).wf(),
            final (self).spec_width() == old(self).spec_width(),
            final (self).spec_height() == old(self).spec_height(),
            final (grid).wf(),
            final (grid).spec_width() == old(grid).spec_width(),
            final (grid).spec_height() == old(grid).spec_height(),
            final (self).anims() == surviving(old(self).anims(), now),
            final (grid).board() == apply_writes(
                old(grid).board(),
                old(grid).spec_width(),
                tick_writes(old(self).anims(), now),
            ),
    {
        let ghost pre = self.anims();
        let ghost g0 = grid.board();
        let ghost w0 = grid.spec_width();
        let ghost h0 = grid.spec_height();
        let n = self.animations.len();
        let mut i: usize = 0;
        while i < n
            invariant
                i <= n,
                n == self.animations@.len(),
                self.w == old(self).w,
                self.h == old(self).h,
                grid.wf(),
                grid.spec_width() == w0,
                grid.spec_height() == h0,
                forall|k: int| i <= k < n ==> #[trigger] self.anims()[k] == pre[k],
                forall|k: int| 0 <= k < i ==> #[trigger] self.anims()[k] == pre[k].step(now),
                grid.board() == apply_writes(g0, w0, step_writes_all(pre.take(i as int), now)),
            decreases n - i,
        {
            let ghost av0 = self.anims();
            let ghost vec0 = self.animations@;
            proof {
                assert(anim_ok(w0, h0, pre[i as int]));
                assert(av0[i as int] == vec0[i as int]@);
                assert(anim_ok(w0, h0, self.animations@[i as int]@));
            }
            self.animations[i].step(grid, now);
            proof {
                let t = pre.take(i + 1);
                assert(t.drop_last() =~= pre.take(i as int));
                assert(t.last() == pre[i as int]);
                lemma_apply_writes_concat(
                    g0,
                    w0,
                    step_writes_all(pre.take(i as int), now),
                    pre[i as int].step_writes(now),
                );
                assert forall|k: int| i + 1 <= k < n implies #[trigger] self.anims()[k]
                    == pre[k] by {
                    assert(self.animations@[k] == vec0[k]);
                    assert(av0[k] == vec0[k]@);
                    assert(self.anims()[k] == self.animations@[k]@);
                }
                assert forall|k: int| 0 <= k < i + 1 implies #[trigger] self.anims()[k]
                    == pre[k].step(now) by {
                    if k < i {
                        assert(self.animations@[k] == vec0[k]);
                        assert(av0[k] == vec0[k]@);
                    }
                    assert(self.anims()[k] == self.animations@[k]@);
                }
            }
            i = i + 1;
        }
        proof {
            assert(pre.take(n as int) =~= pre);
            assert forall|k: int| 0 <= k < n implies anim_ok(w0, h0, #[trigger] pre[k].step(now))
                || pre[k].step(now).finished by {
                lemma_step_preserves(pre[k], now, w0, h0);
            }
        }
        let ghost mid = grid.board();
        let mut kept: Vec<Animation> = Vec::new();
        let mut j: usize = 0;
        while j < n
            invariant
                j <= n,
                n == pre.len(),
                self.animations@.len() == n - j,
                self.w == old(self).w,
                self.h == old(self).h,
                grid.wf(),
                grid.spec_width() == w0,
                grid.spec_height() == h0,
                forall|k: int|
                    0 <= k < n - j ==> #[trigger] self.anims()[k] == pre[j + k].step(now),
                kept@.map_values(|a: Animation| a@) == surviving(pre.take(j as int), now),
                forall|m: int| 0 <= m < kept@.len() ==> anim_ok(w0, h0, (#[trigger] kept@[m])@),
                grid.board() == apply_writes(mid, w0, keep_last_writes(pre.take(j as int), now)),
            decreases n - j,
        {
            let ghost av_pre = self.anims();
            let ghost rem_pre = self.animations@;
            let a = self.animations.remove(0);
            proof {
                assert(av_pre[0] == rem_pre[0]@);
                assert(a@ == pre[j as int].step(now));
                lemma_step_preserves(pre[j as int], now, w0, h0);
                rem_pre.remove_ensures(0);
                assert forall|k: int|
                    0 <= k < n - j - 1 implies #[trigger] self.anims()[k] == pre[j + 1 + k].step(
                    now,
                ) by {
                    assert(self.animations@[k] == rem_pre[k + 1]);
                    assert(av_pre[k + 1] == rem_pre[k + 1]@);
                    assert(self.anims()[k] == self.animations@[k]@);
                }
            }
            let ghost t = pre.take(j + 1);
            proof {
                assert(t.drop_last() =~= pre.take(j as int));
                assert(t.last() == pre[j as int]);
            }
            if a.finished {
                if a.keep_last {
                    let lf = a.frames.len() - 1;
                    a.write_frame_leds(lf, grid);
                    proof {
                        assert(a@.frames[lf as int].leds == a@.last_frame_writes());
                        lemma_apply_writes_concat(
                            mid,
                            w0,
                            keep_last_writes(pre.take(j as int), now),
                            a@.last_frame_writes(),
                        );
                    }
                } else {
                    proof {
                        assert(a@.last_frame_writes() =~= Seq::<(usize, usize, LedState)>::empty());
                        lemma_apply_writes_concat(
                            mid,
                            w0,
                            keep_last_writes(pre.take(j as int), now),
                            a@.last_frame_writes(),
                        );
                    }
                }
            } else {
                kept.push(a);
                proof {
                    assert(kept@.map_values(|x: Animation| x@) =~= surviving(
                        pre.take(j as int),
                        now,
                    ).push(a@));
                    assert(keep_last_writes(t, now) =~= keep_last_writes(pre.take(j as int), now));
                }
            }
            j = j + 1;
        }
        self.animations = kept;
        proof {
            assert(pre.take(n as int) =~= pre);
            assert(self.anims() == surviving(pre, now));
            lemma_apply_writes_concat(g0, w0, step_writes_all(pre, now), keep_last_writes(pre, now));
        }
    }
}

} // verus!
