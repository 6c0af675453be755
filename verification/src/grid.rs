//! The W×H board of led states and the sync commands that update it.

use vstd::arithmetic::div_mod::{
    lemma_fundamental_div_mod, lemma_fundamental_div_mod_converse, lemma_mod_bound,
};
use vstd::prelude::*;

use crate::error::{DisplayError, DisplayResult};
use crate::interface_components::{Rotation, Sync, SyncType};
use crate::led::LedState;

verus! {

/// The board of led states a display shows, row-major by (y, x).
///
/// Width and height are fixed at construction and never change.
pub struct Grid {
    w: usize,
    h: usize,
    cells: Vec<LedState>,
}

/// Position (x, y) in a row-major board of width `w` is in range.
pub(crate) proof fn lemma_grid_cell_index(w: int, h: int, x: int, y: int)
    by (nonlinear_arith)
    requires
        0 <= x < w,
        0 <= y < h,
    ensures
        0 <= y * w + x,
        y * w + x < w * h,
{
}

/// One more full row adds `w` cells.
proof fn lemma_mul_succ(y: int, w: int)
    by (nonlinear_arith)
    ensures
        (y + 1) * w == y * w + w,
        y * w == w * y,
{
}

/// Where a 180° rotation's source index lands in the flat board.
proof fn lemma_rot180_index(n: int, x: int, y: int)
    by (nonlinear_arith)
    requires
        0 <= x < n,
        0 <= y < n,
    ensures
        (n - 1 - y) * n + (n - 1 - x) == n * n - 1 - (y * n + x),
{
}

/// Row-major index y*w + x decomposes back into its row and column.
proof fn lemma_row_major(x: int, y: int, w: int)
    requires
        0 <= x < w,
        0 <= y,
    ensures
        (y * w + x) % w == x,
        (y * w + x) / w == y,
{
    lemma_fundamental_div_mod_converse(y * w + x, w, y, x);
}

impl Grid {
    /// The board width.
    pub closed spec fn spec_width(self) -> int {
        self.w as int
    }

    /// The board height.
    pub closed spec fn spec_height(self) -> int {
        self.h as int
    }

    /// The cells, row-major by (y, x).
    pub closed spec fn board(self) -> Seq<LedState> {
        self.cells@
    }

    /// Well-formed: positive dimensions and one cell for every position.
    pub closed spec fn wf(self) -> bool {
        1 <= self.w && 1 <= self.h && self.cells@.len() == self.w * self.h
    }

    /// The led at position (x, y).
    pub open spec fn led(self, x: int, y: int) -> LedState {
        self.board()[y * self.spec_width() + x]
    }

    /// What well-formedness guarantees about the board's shape.
    pub proof fn lemma_wf(self)
        requires
            self.wf(),
        ensures
            self.board().len() == self.spec_width() * self.spec_height(),
            1 <= self.spec_width(),
            1 <= self.spec_height(),
    {
    }

    /// Create a board of `w` × `h` default (off, not blinking) leds.
    ///
    /// Empty dimensions, or a cell count that does not fit in memory, are
    /// rejected with [DisplayError::InvalidDim].
    pub fn new(w: usize, h: usize) -> (r: DisplayResult<Grid>)
        ensures
            match r {
                Ok(g) => g.wf() && g.spec_width() == w && g.spec_height() == h && g.board().len()
                    == w * h && w * h <= usize::MAX && (forall|i: int|
                    0 <= i < g.board().len() ==> g.board()[i] == LedState::spec_default()) && w >= 1
                    && h >= 1,
                Err(e) => e == DisplayError::InvalidDim && (w < 1 || h < 1 || w * h > usize::MAX),
            },
    {
        if w < 1 || h < 1 {
            return Err(DisplayError::InvalidDim);
        }
        let n = match w.checked_mul(h) {
            Some(n) => n,
            None => {
                return Err(DisplayError::InvalidDim);
            },
        };
        let mut cells: Vec<LedState> = Vec::new();
        let mut i: usize = 0;
        while i < n
            invariant
                i <= n,
                cells@.len() == i,
                forall|k: int| 0 <= k < i ==> cells@[k] == LedState::spec_default(),
            decreases n - i,
        {
            cells.push(LedState::default());
            i = i + 1;
        }
        Ok(Grid { w, h, cells })
    }

    /// The board width.
    pub fn width(&self) -> (r: usize)
        ensures
            r as int == self.spec_width(),
    {
        self.w
    }

    /// The board height.
    pub fn height(&self) -> (r: usize)
        ensures
            r as int == self.spec_height(),
    {
        self.h
    }

    /// Read the led at (x, y), or [None] for a position off the board.
    pub fn led_at(&self, x: usize, y: usize) -> (r: Option<LedState>)
        requires
            self.wf(),
        ensures
            match r {
                Some(s) => x < self.spec_width() && y < self.spec_height() && s == self.led(
                    x as int,
                    y as int,
                ),
                None => x >= self.spec_width() || y >= self.spec_height(),
            },
    {
        if x < self.w && y < self.h {
            Some(self.get(x, y))
        } else {
            None
        }
    }

    /// Read the led at an in-range position (x, y).
    pub(crate) fn get(&self, x: usize, y: usize) -> (r: LedState)
        requires
            self.wf(),
            x < self.spec_width(),
            y < self.spec_height(),
        ensures
            r == self.led(x as int, y as int),
    {
        let total = self.cells.len();
        proof {
            lemma_grid_cell_index(self.w as int, self.h as int, x as int, y as int);
        }
        let i = y * self.w + x;
        self.cells[i]
    }

    /// How many cells the board holds.
    pub(crate) fn cell_count(&self) -> (r: usize)
        ensures
            r == self.board().len(),
    {
        self.cells.len()
    }

    /// Set the led at an in-range position (x, y).
    pub(crate) fn write_at(&mut self, x: usize, y: usize, s: LedState)
        requires
            old(self).wf(),
            x < old(self).spec_width(),
            y < old(self).spec_height(),
        ensures
            final (self).wf(),
            final (self).spec_width() == old(self).spec_width(),
            final (self).spec_height() == old(self).spec_height(),
            final (self).board() == old(self).board().update(
                y * old(self).spec_width() + x,
                s,
            ),
    {
        let total = self.cells.len();
        proof {
            lemma_grid_cell_index(self.w as int, self.h as int, x as int, y as int);
        }
        let i = y * self.w + x;
        self.cells[i] = s;
    }
}

/// Whether every position a sync command references lies on a w×h board, and
/// a full-board replacement has exactly the board's shape, and a rotation is
/// asked only of a square board.
pub open spec fn sync_dims_ok(w: int, h: int, cmd: SyncType) -> bool {
    match cmd {
        SyncType::Single(s) => s.x < w && s.y < h,
        SyncType::Multi(v) => forall|i: int|
            0 <= i < v@.len() ==> (#[trigger] v@[i]).x < w && v@[i].y < h,
        SyncType::All(b) => b@.len() == h && forall|y: int|
            0 <= y < b@.len() ==> (#[trigger] b@[y])@.len() == w,
        SyncType::Rotate(_) => w == h,
    }
}

/// Whether every led state a sync command supplies keeps the blink invariant.
pub open spec fn sync_blink_ok(cmd: SyncType) -> bool {
    match cmd {
        SyncType::Single(s) => s.state.blink_ok(),
        SyncType::Multi(v) => forall|i: int| 0 <= i < v@.len() ==> (#[trigger] v@[i]).state.blink_ok(),
        SyncType::All(b) => forall|y: int, x: int|
            0 <= y < b@.len() && 0 <= x < b@[y]@.len() ==> (#[trigger] b@[y]@[x]).blink_ok(),
        SyncType::Rotate(_) => true,
    }
}

/// A sync command a w×h display accepts.
pub open spec fn sync_ok(w: int, h: int, cmd: SyncType) -> bool {
    sync_dims_ok(w, h, cmd) && sync_blink_ok(cmd)
}

/// The board after a batch of single-cell updates, applied in order; later
/// entries for the same cell override earlier ones.
pub open spec fn apply_multi(cells: Seq<LedState>, w: int, entries: Seq<Sync>) -> Seq<LedState>
    decreases entries.len(),
{
    if entries.len() == 0 {
        cells
    } else {
        let e = entries.last();
        apply_multi(cells, w, entries.drop_last()).update(e.y * w + e.x, e.state)
    }
}

/// A board given as h rows of w cells, flattened row-major.
pub open spec fn flattened(board: Seq<Vec<LedState>>, w: int, h: int) -> Seq<LedState> {
    Seq::new((w * h) as nat, |i: int| board[i / w]@[i % w])
}

/// A square board rotated 90° clockwise: the cell at (x, y) shows what was at
/// (y, n-1-x).
pub open spec fn rotated_cw(cells: Seq<LedState>, n: int) -> Seq<LedState> {
    Seq::new((n * n) as nat, |i: int| cells[(n - 1 - i % n) * n + i / n])
}

/// A square board rotated 90° counterclockwise: the cell at (x, y) shows what
/// was at (n-1-y, x).
pub open spec fn rotated_ccw(cells: Seq<LedState>, n: int) -> Seq<LedState> {
    Seq::new((n * n) as nat, |i: int| cells[(i % n) * n + (n - 1 - i / n)])
}

/// A square board rotated 180°: the cell at (x, y) shows what was at
/// (n-1-x, n-1-y).
pub open spec fn rotated_180(cells: Seq<LedState>, n: int) -> Seq<LedState> {
    Seq::new((n * n) as nat, |i: int| cells[n * n - 1 - i])
}

/// A square board of side `n`, rotated.
pub open spec fn rotated(cells: Seq<LedState>, n: int, r: Rotation) -> Seq<LedState> {
    match r {
        Rotation::Clockwise => rotated_cw(cells, n),
        Rotation::CounterClockwise => rotated_ccw(cells, n),
        Rotation::OneEighty => rotated_180(cells, n),
    }
}

/// The board a valid sync command produces from `cells`.
pub open spec fn synced(cells: Seq<LedState>, w: int, h: int, cmd: SyncType) -> Seq<LedState> {
    match cmd {
        SyncType::Single(s) => cells.update(s.y * w + s.x, s.state),
        SyncType::Multi(v) => apply_multi(cells, w, v@),
        SyncType::All(b) => flattened(b@, w, h),
        SyncType::Rotate(r) => rotated(cells, w, r),
    }
}

/// Check a sync command against a w×h display: every coordinate in range, a
/// full board of exactly h rows of w cells, rotation only of a square
/// display, and every supplied blink keeping its invariant. A dimension
/// error takes precedence over a blink error; the command is accepted if and
/// only if it is free of both.
#[verifier::loop_isolation(false)]
pub fn validate_sync(w: usize, h: usize, cmd: &SyncType) -> (r: DisplayResult<()>)
    ensures
        r == Ok::<(), DisplayError>(()) <==> sync_ok(w as int, h as int, *cmd),
        r == Err::<(), DisplayError>(DisplayError::InvalidDim) <==> !sync_dims_ok(
            w as int,
            h as int,
            *cmd,
        ),
        r == Err::<(), DisplayError>(DisplayError::BlinkInvariantViolation) <==> (sync_dims_ok(
            w as int,
            h as int,
            *cmd,
        ) && !sync_blink_ok(*cmd)),
{
    match cmd {
        SyncType::Single(s) => {
            if s.x >= w || s.y >= h {
                return Err(DisplayError::InvalidDim);
            }
            if !s.state.check_blink() {
                return Err(DisplayError::BlinkInvariantViolation);
            }
            Ok(())
        },
        SyncType::Multi(v) => {
            let n = v.len();
            let mut i: usize = 0;
            while i < n
                invariant
                    i <= n,
                    n == v@.len(),
                    forall|k: int| 0 <= k < i ==> (#[trigger] v@[k]).x < w && v@[k].y < h,
                decreases n - i,
            {
                if v[i].x >= w || v[i].y >= h {
                    return Err(DisplayError::InvalidDim);
                }
                i = i + 1;
            }
            let mut j: usize = 0;
            while j < n
                invariant
                    j <= n,
                    n == v@.len(),
                    forall|k: int| 0 <= k < n ==> (#[trigger] v@[k]).x < w && v@[k].y < h,
                    forall|k: int| 0 <= k < j ==> (#[trigger] v@[k]).state.blink_ok(),
                decreases n - j,
            {
                if !v[j].state.check_blink() {
                    return Err(DisplayError::BlinkInvariantViolation);
                }
                j = j + 1;
            }
            Ok(())
        },
        SyncType::All(b) => {
            if b.len() != h {
                return Err(DisplayError::InvalidDim);
            }
            let n = b.len();
            let mut y: usize = 0;
            while y < n
                invariant
                    y <= n,
                    n == b@.len(),
                    forall|k: int| 0 <= k < y ==> (#[trigger] b@[k])@.len() == w,
                decreases n - y,
            {
                if b[y].len() != w {
                    return Err(DisplayError::InvalidDim);
                }
                y = y + 1;
            }
            let mut y2: usize = 0;
            while y2 < n
                invariant
                    y2 <= n,
                    n == b@.len(),
                    forall|k: int| 0 <= k < n ==> (#[trigger] b@[k])@.len() == w,
                    forall|k: int, x: int|
                        0 <= k < y2 && 0 <= x < b@[k]@.len() ==> (#[trigger] b@[k]@[x]).blink_ok(),
                decreases n - y2,
            {
                let row_len = b[y2].len();
                let mut x: usize = 0;
                while x < row_len
                    invariant
                        x <= row_len,
                        y2 < n,
                        n == b@.len(),
                        row_len == b@[y2 as int]@.len(),
                        forall|k: int, x2: int|
                            0 <= k < y2 && 0 <= x2 < b@[k]@.len() ==> (#[trigger] b@[k]@[x2]).blink_ok(),
                        forall|x2: int| 0 <= x2 < x ==> (#[trigger] b@[y2 as int]@[x2]).blink_ok(),
                    decreases row_len - x,
                {
                    if !b[y2][x].check_blink() {
                        return Err(DisplayError::BlinkInvariantViolation);
                    }
                    x = x + 1;
                }
                y2 = y2 + 1;
            }
            Ok(())
        },
        SyncType::Rotate(_) => {
            if w == h {
                Ok(())
            } else {
                Err(DisplayError::InvalidDim)
            }
        },
    }
}

impl Grid {
    /// Update the colors of the leds.
    ///
    /// A single update writes one cell; a batch writes its entries in order,
    /// later entries overriding earlier ones; a full-board replacement takes
    /// exactly h rows of w cells; a rotation turns a square board in place.
    /// An invalid command is rejected — [DisplayError::InvalidDim] for an
    /// out-of-range position, a mismatched shape or a non-square rotation,
    /// [DisplayError::BlinkInvariantViolation] for a blink whose on-duration
    /// exceeds its period — and leaves the board untouched.
    pub fn sync(&mut self, cmd: SyncType) -> (r: DisplayResult<()>)
        requires
            old(self).wf(),
        ensures
            final (self).wf(),
            final (self).spec_width() == old(self).spec_width(),
            final (self).spec_height() == old(self).spec_height(),
            sync_ok(old(self).spec_width(), old(self).spec_height(), cmd) ==> r == Ok::<
                (),
                DisplayError,
            >(()) && final (self).board() == synced(
                old(self).board(),
                old(self).spec_width(),
                old(self).spec_height(),
                cmd,
            ),
            !sync_dims_ok(old(self).spec_width(), old(self).spec_height(), cmd) ==> r == Err::<
                (),
                DisplayError,
            >(DisplayError::InvalidDim) && final (self).board() == old(self).board(),
            sync_dims_ok(old(self).spec_width(), old(self).spec_height(), cmd) && !sync_blink_ok(
                cmd,
            ) ==> r == Err::<(), DisplayError>(DisplayError::BlinkInvariantViolation) && final (
            self).board() == old(self).board(),
    {
        match validate_sync(self.w, self.h, &cmd) {
            Ok(()) => {},
            Err(e) => {
                return Err(e);
            },
        }
        match cmd {
            SyncType::Single(s) => {
                self.write_at(s.x, s.y, s.state);
            },
            SyncType::Multi(v) => {
                self.apply_multi_entries(&v);
            },
            SyncType::All(b) => {
                self.apply_all(&b);
            },
            SyncType::Rotate(r) => {
                self.rotate(r);
            },
        }
        Ok(())
    }

    /// Write a batch of single-cell updates in order.
    #[verifier::loop_isolation(false)]
    fn apply_multi_entries(&mut self, v: &Vec<Sync>)
        requires
            old(self).wf(),
            forall|i: int|
                0 <= i < v@.len() ==> (#[trigger] v@[i]).x < old(self).spec_width() && v@[i].y < old(
                    self,
                ).spec_height(),
        ensures
            final (self).wf(),
            final (self).spec_width() == old(self).spec_width(),
            final (self).spec_height() == old(self).spec_height(),
            final (self).board() == apply_multi(old(self).board(), old(self).spec_width(), v@),
    {
        let ghost orig = self.board();
        let ghost w0 = self.spec_width();
        let ghost h0 = self.spec_height();
        let n = v.len();
        let mut i: usize = 0;
        while i < n
            invariant
                i <= n,
                n == v@.len(),
                self.wf(),
                self.spec_width() == w0,
                self.spec_height() == h0,
                forall|k: int| 0 <= k < n ==> (#[trigger] v@[k]).x < w0 && v@[k].y < h0,
                self.board() == apply_multi(orig, w0, v@.take(i as int)),
            decreases n - i,
        {
            let x = v[i].x;
            let y = v[i].y;
            let s = v[i].state;
            self.write_at(x, y, s);
            proof {
                let t = v@.take(i + 1);
                assert(t.drop_last() =~= v@.take(i as int));
                assert(t.last() == v@[i as int]);
            }
            i = i + 1;
        }
        proof {
            assert(v@.take(n as int) =~= v@);
        }
    }

    /// Replace the whole board with h rows of w cells.
    #[verifier::loop_isolation(false)]
    fn apply_all(&mut self, b: &Vec<Vec<LedState>>)
        requires
            old(self).wf(),
            b@.len() == old(self).spec_height(),
            forall|y: int| 0 <= y < b@.len() ==> (#[trigger] b@[y])@.len() == old(self).spec_width(),
        ensures
            final (self).wf(),
            final (self).spec_width() == old(self).spec_width(),
            final (self).spec_height() == old(self).spec_height(),
            final (self).board() == flattened(b@, old(self).spec_width(), old(self).spec_height()),
    {
        let w = self.w;
        let h = self.h;
        let mut out: Vec<LedState> = Vec::new();
        let mut y: usize = 0;
        while y < h
            invariant
                y <= h,
                h == b@.len(),
                forall|k: int| 0 <= k < b@.len() ==> (#[trigger] b@[k])@.len() == w,
                out@.len() == y * w,
                forall|i: int| 0 <= i < out@.len() ==> out@[i] == b@[i / (w as int)]@[i % (w as int)],
                w >= 1,
            decreases h - y,
        {
            let mut x: usize = 0;
            while x < w
                invariant
                    x <= w,
                    y < h,
                    h == b@.len(),
                    forall|k: int| 0 <= k < b@.len() ==> (#[trigger] b@[k])@.len() == w,
                    out@.len() == y * w + x,
                    forall|i: int|
                        0 <= i < out@.len() ==> out@[i] == b@[i / (w as int)]@[i % (w as int)],
                    w >= 1,
                decreases w - x,
            {
                let cell = b[y][x];
                out.push(cell);
                proof {
                    lemma_row_major(x as int, y as int, w as int);
                }
                x = x + 1;
            }
            proof {
                lemma_mul_succ(y as int, w as int);
            }
            y = y + 1;
        }
        self.cells = out;
        proof {
            lemma_mul_succ(h as int, w as int);
            assert(self.board() =~= flattened(b@, self.spec_width(), self.spec_height()));
        }
    }

    /// Rotate the square board in place.
    #[verifier::loop_isolation(false)]
    fn rotate(&mut self, r: Rotation)
        requires
            old(self).wf(),
            old(self).spec_width() == old(self).spec_height(),
        ensures
            final (self).wf(),
            final (self).spec_width() == old(self).spec_width(),
            final (self).spec_height() == old(self).spec_height(),
            final (self).board() == rotated(old(self).board(), old(self).spec_width(), r),
    {
        let n = self.w;
        let total = self.cells.len();
        let ghost orig = self.cells@;
        let mut out: Vec<LedState> = Vec::new();
        let mut y: usize = 0;
        while y < n
            invariant
                y <= n,
                n == self.w,
                self.wf(),
                self.spec_width() == self.spec_height(),
                orig == self.cells@,
                out@.len() == y * n,
                forall|i: int|
                    0 <= i < out@.len() ==> out@[i] == rotation_source(orig, n as int, r, i),
            decreases n - y,
        {
            let mut x: usize = 0;
            while x < n
                invariant
                    x <= n,
                    y < n,
                    n == self.w,
                    self.wf(),
                    self.spec_width() == self.spec_height(),
                    orig == self.cells@,
                    out@.len() == y * n + x,
                    forall|i: int|
                        0 <= i < out@.len() ==> out@[i] == rotation_source(orig, n as int, r, i),
                decreases n - x,
            {
                proof {
                    lemma_grid_cell_index(n as int, n as int, x as int, y as int);
                    lemma_grid_cell_index(n as int, n as int, y as int, (n - 1 - x) as int);
                    lemma_grid_cell_index(n as int, n as int, (n - 1 - y) as int, x as int);
                    lemma_grid_cell_index(n as int, n as int, (n - 1 - x) as int, (n - 1 - y) as int);
                    lemma_row_major(x as int, y as int, n as int);
                    lemma_rot180_index(n as int, x as int, y as int);
                }
                let src: usize = match r {
                    Rotation::Clockwise => (n - 1 - x) * n + y,
                    Rotation::CounterClockwise => x * n + (n - 1 - y),
                    Rotation::OneEighty => (n - 1 - y) * n + (n - 1 - x),
                };
                let cell = self.cells[src];
                out.push(cell);
                x = x + 1;
            }
            proof {
                lemma_mul_succ(y as int, n as int);
            }
            y = y + 1;
        }
        self.cells = out;
        proof {
            assert(self.board() =~= rotated(orig, self.spec_width(), r));
        }
    }
}

/// A flat index in a square board of side `n` decomposes into its column
/// `i % n` and row `i / n`.
proof fn lemma_index_decompose(i: int, n: int)
    requires
        n >= 1,
        0 <= i < n * n,
    ensures
        0 <= i % n < n,
        0 <= i / n < n,
        i == (i / n) * n + i % n,
{
    lemma_fundamental_div_mod(i, n);
    lemma_mod_bound(i, n);
    assert(0 <= i / n && i / n < n) by (nonlinear_arith)
        requires
            n >= 1,
            0 <= i,
            i < n * n,
            i == n * (i / n) + i % n,
            0 <= i % n < n,
    ;
    assert(i == (i / n) * n + i % n) by (nonlinear_arith)
        requires
            i == n * (i / n) + i % n,
    ;
}

/// Rotating a square board 90° clockwise twice shows each cell where a 180°
/// rotation would put it.
pub proof fn lemma_rotate_cw_twice(cells: Seq<LedState>, n: int)
    requires
        n >= 1,
        cells.len() == n * n,
    ensures
        rotated_cw(rotated_cw(cells, n), n) == rotated_180(cells, n),
{
    let g1 = rotated_cw(cells, n);
    let g2 = rotated_cw(g1, n);
    assert forall|i: int| 0 <= i < n * n implies g2[i] == rotated_180(cells, n)[i] by {
        let x = i % n;
        let y = i / n;
        lemma_index_decompose(i, n);
        lemma_grid_cell_index(n, n, y, n - 1 - x);
        lemma_row_major(y, n - 1 - x, n);
        lemma_rot180_index(n, x, y);
        assert(g2[i] == g1[(n - 1 - x) * n + y]);
        assert(g1[(n - 1 - x) * n + y] == cells[(n - 1 - y) * n + (n - 1 - x)]);
    };
    assert(g2 =~= rotated_180(cells, n));
}

/// Rotating a square board by 180° twice returns it to its original state.
pub proof fn lemma_rotate_180_twice(cells: Seq<LedState>, n: int)
    requires
        n >= 1,
        cells.len() == n * n,
    ensures
        rotated_180(rotated_180(cells, n), n) == cells,
{
    let g1 = rotated_180(cells, n);
    let g2 = rotated_180(g1, n);
    assert forall|i: int| 0 <= i < n * n implies g2[i] == cells[i] by {
        assert(g2[i] == g1[n * n - 1 - i]);
    };
    assert(g2 =~= cells);
}

/// Rotating a square board by +90 four times returns it to its original
/// state.
pub proof fn lemma_rotate_cw_four_times(cells: Seq<LedState>, n: int)
    requires
        n >= 1,
        cells.len() == n * n,
    ensures
        rotated_cw(rotated_cw(rotated_cw(rotated_cw(cells, n), n), n), n) == cells,
{
    let d = rotated_cw(rotated_cw(cells, n), n);
    lemma_rotate_cw_twice(cells, n);
    lemma_rotate_cw_twice(d, n);
    lemma_rotate_180_twice(cells, n);
}

/// The source cell a rotation reads for target index `i`.
pub open spec fn rotation_source(cells: Seq<LedState>, n: int, r: Rotation, i: int) -> LedState {
    match r {
        Rotation::Clockwise => cells[(n - 1 - i % n) * n + i / n],
        Rotation::CounterClockwise => cells[(i % n) * n + (n - 1 - i / n)],
        Rotation::OneEighty => cells[n * n - 1 - i],
    }
}

} // verus!
