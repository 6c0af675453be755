//! The render engine: owns the grid and the row/column drivers, and performs
//! one full multiplex pass per invocation under a per-led time budget.

use vstd::prelude::*;

use crate::clock;
use crate::dec::{Dec, DecOutput};
use crate::error::{DisplayError, DisplayResult};
use crate::grid::{sync_blink_ok, sync_dims_ok, sync_ok, synced, Grid};
use crate::interface_components::SyncType;
use crate::led::LedState;
use crate::shift_reg::ShiftReg;
use crate::PinConfig;

verus! {

/// The whole-grid refresh budget, in microseconds: one second.
pub const FULL_SECOND_MICROS: u64 = 1_000_000;

/// The render engine of one display: the row shift register, the column
/// decoder, the grid of led states, and the per-led time budget.
pub struct Display {
    pub(crate) row: ShiftReg,
    pub(crate) column: Dec,
    pub(crate) grid: Grid,
    /// Time per led in microseconds, based on the refresh rate.
    pub(crate) tpl: u64,
    /// The engine's clock origin: blink phases are measured from it.
    pub(crate) origin: std::time::Instant,
}

/// The per-led budget keeps whole-cycle waits within the one-second budget.
#[verifier::rlimit(30)]
proof fn lemma_tpl_bound(budget: int, r: int, w: int, h: int)
    by (nonlinear_arith)
    requires
        r >= 1,
        w >= 1,
        h >= 1,
        budget >= 0,
    ensures
        (budget / (r * (w * h))) * (w * h) <= budget,
        budget / (r * (w * h)) >= 0,
{
}

/// Basic growth facts about the refresh × W × H product.
proof fn lemma_refresh_product(r: int, w: int, h: int)
    by (nonlinear_arith)
    requires
        r >= 1,
        w >= 1,
        h >= 1,
    ensures
        r * w * h == r * (w * h),
        w * h >= 1,
        r * (w * h) >= w * h,
        r * (w * h) >= 1,
{
}

/// The per-led time budget for a refresh rate and grid shape: one second
/// divided over refresh × W × H cell visits, in microseconds, truncated.
///
/// A zero refresh rate, an empty grid, or a product beyond the machine's
/// range is rejected with [DisplayError::InvalidDim].
pub fn time_per_led_micros(refresh_hz: u64, w: usize, h: usize) -> (r: DisplayResult<u64>)
    ensures
        (refresh_hz >= 1 && w >= 1 && h >= 1 && refresh_hz * w * h <= u64::MAX) <==> r is Ok,
        match r {
            Ok(t) => t == FULL_SECOND_MICROS as int / (refresh_hz * w * h),
            Err(e) => e == DisplayError::InvalidDim,
        },
{
    if refresh_hz < 1 || w < 1 || h < 1 {
        return Err(DisplayError::InvalidDim);
    }
    proof {
        lemma_refresh_product(refresh_hz as int, w as int, h as int);
    }
    let wh = match (w as u64).checked_mul(h as u64) {
        Some(p) => p,
        None => {
            return Err(DisplayError::InvalidDim);
        },
    };
    let d = match refresh_hz.checked_mul(wh) {
        Some(p) => p,
        None => {
            return Err(DisplayError::InvalidDim);
        },
    };
    Ok(FULL_SECOND_MICROS / d)
}

/// The bit pattern the first `k` leds of row `y` show when each led is
/// sampled at its own time: for x in order, the bits of the effective color
/// of the led at (x, y) at `times[x]`, lowest bit first.
pub open spec fn row_pattern_upto(
    cells: Seq<LedState>,
    w: int,
    y: int,
    times: Seq<u64>,
    k: int,
) -> Seq<bool>
    decreases k,
{
    if k <= 0 {
        Seq::empty()
    } else {
        row_pattern_upto(cells, w, y, times, k - 1) + cells[y * w + (k - 1)].spec_effective_color(
            times[k - 1],
        ).spec_bit_pattern()
    }
}

/// The bit pattern row `y` of a board of width `w` shows when led x is
/// sampled at `times[x]`.
pub open spec fn row_pattern(cells: Seq<LedState>, w: int, y: int, times: Seq<u64>) -> Seq<bool> {
    row_pattern_upto(cells, w, y, times, w)
}

/// Whether `entry` is row `y` of the board as some pass rendered it: there
/// are per-led sample times at which the row's effective colors spell
/// exactly this pattern.
pub open spec fn is_row_sample(entry: Seq<bool>, cells: Seq<LedState>, w: int, y: int) -> bool {
    exists|times: Seq<u64>| times.len() == w && entry == row_pattern(cells, w, y, times)
}

/// The pattern of a row prefix reads only that prefix's sample times.
proof fn lemma_row_pattern_upto_agrees(
    cells: Seq<LedState>,
    w: int,
    y: int,
    t1: Seq<u64>,
    t2: Seq<u64>,
    k: int,
)
    requires
        forall|i: int| 0 <= i < k ==> t1[i] == t2[i],
    ensures
        row_pattern_upto(cells, w, y, t1, k) == row_pattern_upto(cells, w, y, t2, k),
    decreases k,
{
    if k > 0 {
        lemma_row_pattern_upto_agrees(cells, w, y, t1, t2, k - 1);
    }
}

impl Display {
    /// The board width.
    pub closed spec fn spec_width(self) -> int {
        self.grid.spec_width()
    }

    /// The board height.
    pub closed spec fn spec_height(self) -> int {
        self.grid.spec_height()
    }

    /// The cells of the board, row-major by (y, x).
    pub closed spec fn board(self) -> Seq<LedState> {
        self.grid.board()
    }

    /// The per-led time budget, in microseconds.
    pub closed spec fn spec_tpl(self) -> u64 {
        self.tpl
    }

    /// The decoder line the column selector currently selects.
    pub closed spec fn column_line(self) -> DecOutput {
        self.column.spec_output()
    }

    /// Whether the column selector's latch locks its outputs.
    pub closed spec fn column_latched(self) -> bool {
        self.column.spec_latched()
    }

    /// The bits staged in the row register's input stage.
    pub closed spec fn row_staged(self) -> Seq<bool> {
        self.row.spec_staged()
    }

    /// The pattern the row register's output stage holds.
    pub closed spec fn row_pushed(self) -> Seq<bool> {
        self.row.spec_pushed()
    }

    /// Whether the row register's outputs are enabled.
    pub closed spec fn row_enabled(self) -> bool {
        self.row.spec_enabled()
    }

    /// Every pattern pushed to the row register's output stage, in order.
    pub closed spec fn row_pushes(self) -> Seq<Seq<bool>> {
        self.row.spec_pushes()
    }

    /// Well-formed: the grid is well-formed and the accumulated per-led
    /// budget of one full pass stays within one second.
    pub closed spec fn wf(self) -> bool {
        self.grid.wf() && self.tpl * (self.grid.spec_width() * self.grid.spec_height())
            <= FULL_SECOND_MICROS
    }

    /// The display's board view is its grid's, and well-formedness includes
    /// the grid's.
    pub(crate) proof fn lemma_views(self)
        ensures
            self.board() == self.grid.board(),
            self.spec_width() == self.grid.spec_width(),
            self.spec_height() == self.grid.spec_height(),
            self.wf() ==> self.grid.wf(),
    {
    }

    /// The driver-facing state ignores the grid: a display whose row and
    /// column drivers are unchanged reports the same driver state.
    pub(crate) proof fn lemma_hw_swap_grid(pre: Display, post: Display)
        requires
            post.row == pre.row,
            post.column == pre.column,
        ensures
            post.row_staged() == pre.row_staged(),
            post.row_pushed() == pre.row_pushed(),
            post.row_enabled() == pre.row_enabled(),
            post.row_pushes() == pre.row_pushes(),
            post.column_line() == pre.column_line(),
            post.column_latched() == pre.column_latched(),
    {
    }

    /// A well-formed display whose grid was replaced by another of the same
    /// shape is still well-formed.
    pub(crate) proof fn lemma_wf_swap_grid(pre: Display, post: Display)
        requires
            pre.wf(),
            post.grid.wf(),
            post.grid.spec_width() == pre.grid.spec_width(),
            post.grid.spec_height() == pre.grid.spec_height(),
            post.tpl == pre.tpl,
        ensures
            post.wf(),
    {
    }

    /// Set up a new display instance: a `w` × `h` grid of default leds, the
    /// row and column drivers claimed from the GPIO pins in `pins`, and the
    /// per-led budget computed from the refresh rate.
    ///
    /// Invalid numbers are rejected with [DisplayError::InvalidDim]; a
    /// failure to claim an output line surfaces as [DisplayError::Gpio].
    pub fn init(refresh_hz: u64, w: usize, h: usize, pins: PinConfig) -> (r: DisplayResult<
        Display,
    >)
        ensures
            match r {
                Ok(d) => refresh_hz >= 1 && w >= 1 && h >= 1 && d.wf() && d.spec_width() == w
                    && d.spec_height() == h && d.board().len() == w * h && (forall|i: int|
                    0 <= i < d.board().len() ==> d.board()[i] == LedState::spec_default())
                    && d.spec_tpl() == FULL_SECOND_MICROS as int / (refresh_hz * w * h),
                Err(e) => e == DisplayError::InvalidDim || e is Gpio,
            },
            (refresh_hz < 1 || w < 1 || h < 1 || refresh_hz * w * h > u64::MAX || w * h
                > usize::MAX) <==> r == Err::<Display, DisplayError>(DisplayError::InvalidDim),
    {
        let tpl = match time_per_led_micros(refresh_hz, w, h) {
            Ok(t) => t,
            Err(e) => {
                return Err(e);
            },
        };
        let grid = match Grid::new(w, h) {
            Ok(g) => g,
            Err(e) => {
                return Err(e);
            },
        };
        let row = match ShiftReg::new(
            pins.sr_serin,
            pins.sr_srclk,
            pins.sr_rclk,
            pins.sr_srclr,
            pins.sr_oe,
        ) {
            Ok(sr) => sr,
            Err(e) => {
                return Err(e);
            },
        };
        let column = match Dec::new(pins.dec_a0, pins.dec_a1, pins.dec_a2, pins.dec_le, pins.dec_e1)
        {
            Ok(d) => d,
            Err(e) => {
                return Err(e);
            },
        };
        let origin = clock::instant_now();
        proof {
            lemma_tpl_bound(FULL_SECOND_MICROS as int, refresh_hz as int, w as int, h as int);
            lemma_refresh_product(refresh_hz as int, w as int, h as int);
        }
        Ok(Display { row, column, grid, tpl, origin })
    }

    /// Iterate over the entire display once.
    ///
    /// For each column the row register is cleared and loaded with each
    /// cell's effective color — [crate::LedColor::Off] while a blinking led
    /// sits in the off phase of its period — and after each cell the engine
    /// busy-waits until the time elapsed since `start` reaches the
    /// accumulated budget for that cell, so a late pass catches up rather
    /// than drifting. After a column's row data is loaded, the row output is
    /// disabled, the new column address is latched in, the staged bits are
    /// pushed to the output stage, and the row output is enabled again.
    ///
    /// The board itself is left untouched.
    #[verifier::loop_isolation(false)]
    pub(crate) fn run_once(&mut self, start: &std::time::Instant)
        requires
            old(self).wf(),
        ensures
            final (self).wf(),
            final (self).grid == old(self).grid,
            final (self).tpl == old(self).tpl,
            final (self).origin == old(self).origin,
            final (self).row_enabled(),
            !final (self).column_latched(),
            final (self).column_line().spec_value() == (if old(self).spec_height() - 1 <= 7 {
                old(self).spec_height() - 1
            } else {
                7
            }),
            final (self).row_pushes().len() == old(self).row_pushes().len() + old(
                self,
            ).spec_height(),
            forall|c: int|
                0 <= c < old(self).spec_height() ==> #[trigger] is_row_sample(
                    final (self).row_pushes()[old(self).row_pushes().len() + c],
                    old(self).board(),
                    old(self).spec_width(),
                    c,
                ),
    {
        let w = self.grid.width();
        let h = self.grid.height();
        let total = self.grid.cell_count();
        let ghost board0 = self.grid.board();
        let ghost base: int = self.row.spec_pushes().len() as int;
        let ghost mut all_times: Seq<Seq<u64>> = Seq::empty();
        proof {
            self.grid.lemma_wf();
        }
        let mut y: usize = 0;
        while y < h
            invariant
                y <= h,
                self.grid == old(self).grid,
                self.tpl == old(self).tpl,
                self.origin == old(self).origin,
                self.row.spec_pushes().len() == base + y,
                all_times.len() == y,
                forall|c: int|
                    0 <= c < y ==> (#[trigger] all_times[c]).len() == w
                        && self.row.spec_pushes()[base + c] == row_pattern(
                        board0,
                        w as int,
                        c,
                        all_times[c],
                    ),
                y >= 1 ==> self.row.spec_enabled(),
                y >= 1 ==> !self.column.spec_latched(),
                y >= 1 ==> self.column.spec_output().spec_value() == (if y - 1 <= 7 {
                    y - 1
                } else {
                    7
                }),
            decreases h - y,
        {
            self.row.clear();
            let ghost mut times: Seq<u64> = Seq::empty();
            let mut x: usize = 0;
            while x < w
                invariant
                    x <= w,
                    y < h,
                    self.grid == old(self).grid,
                    self.tpl == old(self).tpl,
                    self.origin == old(self).origin,
                    times.len() == x,
                    self.row.spec_staged() == row_pattern_upto(
                        board0,
                        w as int,
                        y as int,
                        times,
                        x as int,
                    ),
                    self.row.spec_pushes().len() == base + y,
                    all_times.len() == y,
                    forall|c: int|
                        0 <= c < y ==> (#[trigger] all_times[c]).len() == w
                            && self.row.spec_pushes()[base + c] == row_pattern(
                            board0,
                            w as int,
                            c,
                            all_times[c],
                        ),
                    y >= 1 ==> self.row.spec_enabled(),
                    y >= 1 ==> !self.column.spec_latched(),
                    y >= 1 ==> self.column.spec_output().spec_value() == (if y - 1 <= 7 {
                        y - 1
                    } else {
                        7
                    }),
                decreases w - x,
            {
                proof {
                    crate::grid::lemma_grid_cell_index(w as int, h as int, x as int, y as int);
                }
                let led = self.grid.get(x, y);
                let now = clock::micros_since(&self.origin);
                let color = led.effective_color(now);
                self.row.shift_color(&color);
                proof {
                    let t2 = times.push(now);
                    lemma_row_pattern_upto_agrees(board0, w as int, y as int, times, t2, x as int);
                    assert(t2[x as int] == now);
                    assert(board0[y * (w as int) + x] == led);
                    times = t2;
                }
                let cell_index = y * w + x;
                proof {
                    assert(self.tpl * ((cell_index as u64) + 1) <= FULL_SECOND_MICROS)
                        by (nonlinear_arith)
                        requires
                            self.tpl * (w as int * h as int) <= FULL_SECOND_MICROS,
                            0 <= self.tpl,
                            0 <= cell_index,
                            cell_index as int + 1 <= w as int * h as int,
                    ;
                }
                let target = self.tpl * ((cell_index as u64) + 1);
                let elapsed = clock::micros_since(start);
                if target > elapsed {
                    crate::spin_wait(target - elapsed);
                }
                x = x + 1;
            }
            // disable row during switching to prevent unwanted leds from turning on
            self.row.disable();
            // lock column output
            self.column.latch_on();
            // set column
            self.column.set(y);
            // unlock column output
            self.column.latch_off();
            // update register
            self.row.push();
            // enable row
            self.row.enable();
            proof {
                assert(self.row.spec_pushes()[base + y] == row_pattern(
                    board0,
                    w as int,
                    y as int,
                    times,
                ));
                all_times = all_times.push(times);
            }
            y = y + 1;
        }
        proof {
            assert forall|c: int|
                0 <= c < old(self).spec_height() implies #[trigger] is_row_sample(
                self.row.spec_pushes()[old(self).row_pushes().len() + c],
                old(self).board(),
                old(self).spec_width(),
                c,
            ) by {
                let ts = all_times[c];
                assert(ts.len() == old(self).spec_width());
                assert(self.row.spec_pushes()[base + c] == row_pattern(board0, w as int, c, ts));
                assert(base + c == old(self).row_pushes().len() + c);
                assert(row_pattern(old(self).board(), old(self).spec_width(), c, ts)
                    == row_pattern(board0, w as int, c, ts));
            }
        }
    }

    /// Update the colors of the leds; see [Grid::sync] for the command
    /// semantics. The drivers and the time budget are untouched.
    pub(crate) fn sync(&mut self, cmd: SyncType) -> (r: DisplayResult<()>)
        requires
            old(self).wf(),
        ensures
            final (self).wf(),
            final (self).spec_width() == old(self).spec_width(),
            final (self).spec_height() == old(self).spec_height(),
            final (self).tpl == old(self).tpl,
            final (self).origin == old(self).origin,
            final (self).row_pushes() == old(self).row_pushes(),
            final (self).row_pushed() == old(self).row_pushed(),
            final (self).row_enabled() == old(self).row_enabled(),
            final (self).column_line() == old(self).column_line(),
            sync_ok(old(self).spec_width(), old(self).spec_height(), cmd) ==> r == Ok::<
                (),
                DisplayError,
            >(()) && final (self).board() == synced(
                old(self).board(),
                old(self).spec_width(),
                old(self).spec_height(),
                cmd,
            ),
            !sync_dims_ok(old(self).spec_width(), old(self).spec_height(), cmd) ==> r == Err::<
                (),
                DisplayError,
            >(DisplayError::InvalidDim) && final (self).board() == old(self).board(),
            sync_dims_ok(old(self).spec_width(), old(self).spec_height(), cmd) && !sync_blink_ok(
                cmd,
            ) ==> r == Err::<(), DisplayError>(DisplayError::BlinkInvariantViolation) && final (
            self).board() == old(self).board(),
    {
        self.grid.sync(cmd)
    }

    /// Clear the row register and push the cleared contents out, blanking
    /// the currently driven column.
    pub(crate) fn clear_row(&mut self)
        requires
            old(self).wf(),
        ensures
            final (self).wf(),
            final (self).grid == old(self).grid,
            final (self).tpl == old(self).tpl,
            final (self).origin == old(self).origin,
            final (self).row_staged().len() == 0,
            final (self).row_pushed().len() == 0,
            final (self).row_enabled() == old(self).row_enabled(),
            final (self).row_pushes().len() == old(self).row_pushes().len() + 1,
            final (self).row_pushes().last().len() == 0,
            final (self).column_line() == old(self).column_line(),
            final (self).column_latched() == old(self).column_latched(),
    {
        self.row.clear();
        self.row.push();
    }

    /// Leave the hardware in a safe all-off state: disable the row output,
    /// park the column selector at column 0 with the latch open, and clear
    /// the row register's both stages.
    pub(crate) fn shutdown(&mut self)
        requires
            old(self).wf(),
        ensures
            final (self).wf(),
            final (self).grid == old(self).grid,
            final (self).tpl == old(self).tpl,
            final (self).origin == old(self).origin,
            !final (self).row_enabled(),
            final (self).row_staged().len() == 0,
            final (self).row_pushed().len() == 0,
            final (self).column_line() == DecOutput::Y0,
            !final (self).column_latched(),
    {
        self.row.disable();
        self.column.latch_on();
        self.column.set(0);
        self.column.latch_off();
        self.clear_row();
    }
}

} // verus!
