//! The layout engine: an integer model of the side-stack algorithm and the
//! two parameters a running manager updates, the main-area ratio and the
//! number of main clients.
//!
//! A ratio is held in thousandths (see [`crate::geometry::RATIO_UNIT`]);
//! updates move it by [`RATIO_STEP`] and clamp at the unit interval's ends,
//! so stepping past a bound is a no-op rather than an error.

use vstd::prelude::*;
use crate::actions::Change;
use crate::errors::ConfigError;
use crate::geometry::{
    row_region, scaled, spec_row, spec_scaled, spec_with_gap, with_gap, Region, RATIO_UNIT,
};

verus! {

/// By how many thousandths one `More` or `Less` step moves the main ratio.
pub const RATIO_STEP: u32 = 50;

/// Behavioural switches of a layout.
#[derive(Clone, Copy, Debug, PartialEq, Eq, Structural)]
pub struct LayoutConf {
    /// The main column holds the most recently focused clients rather than a
    /// fixed positional set.
    pub follow_focus: bool,
    /// Suppress inter-client gaps entirely, whatever `gap_px` says.
    pub gapless: bool,
    /// Border width drawn around each client, in pixels.
    pub border_px: u32,
    /// Gap left around each client, in pixels.
    pub gap_px: u32,
}

impl Default for LayoutConf {
    /// A plain tiling setup: positional main column, bordered, gapless.
    fn default() -> (r: LayoutConf)
        ensures
            r == (LayoutConf { follow_focus: false, gapless: false, border_px: 2, gap_px: 0 }),
    {
        LayoutConf { follow_focus: false, gapless: false, border_px: 2, gap_px: 0 }
    }
}

/// The ghost image of a layout: its symbol as a character sequence and its
/// parameters.
pub ghost struct LayoutView {
    pub symbol: Seq<char>,
    pub conf: LayoutConf,
    pub max_main: u32,
    pub ratio: u32,
}

/// One layout: a display symbol, behavioural switches, and the two mutable
/// parameters of the side-stack algorithm.
#[derive(Debug)]
pub struct Layout {
    /// Symbol shown for this layout, e.g. in the root window name.
    pub symbol: String,
    /// Behavioural switches.
    pub conf: LayoutConf,
    /// How many clients the main column holds; `0` degenerates to a single
    /// full-width stack.
    pub max_main: u32,
    /// The main column's share of the screen, in thousandths.
    pub ratio: u32,
}

impl View for Layout {
    type V = LayoutView;

    open spec fn view(&self) -> LayoutView {
        LayoutView {
            symbol: self.symbol@,
            conf: self.conf,
            max_main: self.max_main,
            ratio: self.ratio,
        }
    }
}

impl Layout {
    /// The ratio lies in the unit interval.
    pub open spec fn wf(self) -> bool {
        self.ratio <= RATIO_UNIT
    }

    /// Builds a layout; a ratio beyond the unit interval is a configuration
    /// error.
    pub fn new(symbol: String, conf: LayoutConf, max_main: u32, ratio: u32) -> (r: Result<
        Layout,
        ConfigError,
    >)
        ensures
            r is Ok <==> ratio <= RATIO_UNIT,
            r matches Ok(l) ==> l == (Layout { symbol, conf, max_main, ratio }) && l.wf(),
            r matches Err(e) ==> e == ConfigError::InvalidRatio,
    {
        if ratio <= RATIO_UNIT {
            Ok(Layout { symbol, conf, max_main, ratio })
        } else {
            Err(ConfigError::InvalidRatio)
        }
    }

    /// A copy with the same ghost image; layouts are duplicated into each
    /// workspace so that each can mutate its own parameters.
    pub fn duplicate(&self) -> (r: Layout)
        ensures
            r@ == self@,
    {
        Layout {
            symbol: self.symbol.clone(),
            conf: self.conf,
            max_main: self.max_main,
            ratio: self.ratio,
        }
    }

    /// The gap actually applied: none at all for a gapless layout.
    pub open spec fn spec_effective_gap(self) -> u32 {
        if self.conf.gapless {
            0
        } else {
            self.conf.gap_px
        }
    }

    /// One update step of the main-area ratio.
    pub fn update_main_ratio(&mut self, change: Change)
        requires
            old(self).wf(),
        ensures
            final(self).ratio == spec_ratio_step(old(self).ratio as int, change),
            final(self).symbol == old(self).symbol,
            final(self).conf == old(self).conf,
            final(self).max_main == old(self).max_main,
            final(self).wf(),
    {
        match change {
            Change::More => {
                if self.ratio + RATIO_STEP <= RATIO_UNIT {
                    self.ratio = self.ratio + RATIO_STEP;
                } else {
                    self.ratio = RATIO_UNIT;
                }
            },
            Change::Less => {
                if self.ratio >= RATIO_STEP {
                    self.ratio = self.ratio - RATIO_STEP;
                } else {
                    self.ratio = 0;
                }
            },
        }
    }

    /// One update step of the number of main clients.
    pub fn update_max_main(&mut self, change: Change)
        ensures
            final(self).max_main == spec_max_main_step(old(self).max_main as int, change),
            final(self).symbol == old(self).symbol,
            final(self).conf == old(self).conf,
            final(self).ratio == old(self).ratio,
            old(self).wf() ==> final(self).wf(),
    {
        match change {
            Change::More => {
                if self.max_main < u32::MAX {
                    self.max_main = self.max_main + 1;
                }
            },
            Change::Less => {
                if self.max_main > 0 {
                    self.max_main = self.max_main - 1;
                }
            },
        }
    }

    /// The side-stack geometry of this layout for `n` tiled clients on
    /// `screen`.
    pub fn regions(&self, screen: &Region, n: usize) -> (r: Vec<Region>)
        requires
            self.wf(),
            screen.wf(),
        ensures
            r@ == spec_side_stack(
                *screen,
                n as int,
                self.max_main as int,
                self.ratio as int,
                self.spec_effective_gap() as int,
            ),
            r@.len() == n,
            forall|i: int| 0 <= i < n ==> r@[i].wf(),
    {
        let gap = if self.conf.gapless {
            0
        } else {
            self.conf.gap_px
        };
        side_stack_regions(screen, n, self.max_main, self.ratio, gap)
    }
}

/// One `More` step of a ratio: up by `RATIO_STEP`, clamped to `RATIO_UNIT`.
pub open spec fn spec_ratio_more(r: int) -> int {
    if r + RATIO_STEP <= RATIO_UNIT {
        r + RATIO_STEP
    } else {
        RATIO_UNIT as int
    }
}

/// One `Less` step of a ratio: down by `RATIO_STEP`, clamped to zero.
pub open spec fn spec_ratio_less(r: int) -> int {
    if r >= RATIO_STEP {
        r - RATIO_STEP
    } else {
        0
    }
}

/// One ratio update step in either sense.
pub open spec fn spec_ratio_step(r: int, change: Change) -> int {
    match change {
        Change::More => spec_ratio_more(r),
        Change::Less => spec_ratio_less(r),
    }
}

/// One update step of the main-client count: saturating at both ends.
pub open spec fn spec_max_main_step(m: int, change: Change) -> int {
    match change {
        Change::More => if m < u32::MAX {
            m + 1
        } else {
            m
        },
        Change::Less => if m > 0 {
            m - 1
        } else {
            m
        },
    }
}

/// `k` successive `More` steps.
pub open spec fn spec_ratio_more_n(r: int, k: nat) -> int
    decreases k,
{
    if k == 0 {
        r
    } else {
        spec_ratio_more(spec_ratio_more_n(r, (k - 1) as nat))
    }
}

/// `k` successive `Less` steps.
pub open spec fn spec_ratio_less_n(r: int, k: nat) -> int
    decreases k,
{
    if k == 0 {
        r
    } else {
        spec_ratio_less(spec_ratio_less_n(r, (k - 1) as nat))
    }
}

/// As long as the upper bound is not hit, `More` steps add up literally.
proof fn lemma_ratio_more_n_adds(r: int, k: nat)
    requires
        0 <= r,
        r + k * RATIO_STEP <= RATIO_UNIT,
    ensures
        spec_ratio_more_n(r, k) == r + k * RATIO_STEP,
    decreases k,
{
    if k > 0 {
        lemma_ratio_more_n_adds(r, (k - 1) as nat);
    }
}

/// As long as the floor is not hit, `Less` steps subtract literally.
proof fn lemma_ratio_less_n_subtracts(r: int, k: nat)
    requires
        0 <= r,
    ensures
        spec_ratio_less_n(r + k * RATIO_STEP, k) == r,
    decreases k,
{
    if k > 0 {
        lemma_ratio_less_n_subtracts(r + RATIO_STEP, (k - 1) as nat);
    }
}

/// `More` then `Less` the same number of steps restores the original ratio,
/// provided the upper clamp is never hit on the way; clamping is the one
/// exception the unit interval forces.
pub proof fn lemma_ratio_round_trip(r: int, k: nat)
    requires
        0 <= r,
        r + k * RATIO_STEP <= RATIO_UNIT,
    ensures
        spec_ratio_less_n(spec_ratio_more_n(r, k), k) == r,
{
    lemma_ratio_more_n_adds(r, k);
    lemma_ratio_less_n_subtracts(r, k);
}

/// At the top of the interval `More` is idempotent: repeated `More` at a
/// ratio of one stays at one.
pub proof fn lemma_ratio_more_saturates(k: nat)
    ensures
        spec_ratio_more_n(RATIO_UNIT as int, k) == RATIO_UNIT,
    decreases k,
{
    if k > 0 {
        lemma_ratio_more_saturates((k - 1) as nat);
    }
}

/// The side-stack arrangement: the first `min(max_main, n)` clients stack in
/// a main column of `ratio` thousandths of the screen's width, the rest in
/// the remaining column; `max_main == 0`, or all clients fitting the main
/// column, degenerates to one full-width stack.
pub open spec fn spec_side_stack(screen: Region, n: int, max_main: int, ratio: int, gap: int) -> Seq<
    Region,
> {
    let n_main = if max_main < n {
        max_main
    } else {
        n
    };
    if n_main <= 0 || n_main == n {
        Seq::new(n as nat, |i: int| spec_with_gap(spec_row(screen, n, i), gap))
    } else {
        let mw = spec_scaled(screen.w as int, ratio);
        let main_col = Region { x: screen.x, y: screen.y, w: mw as u32, h: screen.h };
        let stack_col = Region {
            x: (screen.x + mw) as u32,
            y: screen.y,
            w: (screen.w - mw) as u32,
            h: screen.h,
        };
        Seq::new(
            n as nat,
            |i: int|
                if i < n_main {
                    spec_with_gap(spec_row(main_col, n_main, i), gap)
                } else {
                    spec_with_gap(spec_row(stack_col, n - n_main, i - n_main), gap)
                },
        )
    }
}

/// Computes the side-stack geometry for `n` clients.
pub fn side_stack_regions(screen: &Region, n: usize, max_main: u32, ratio: u32, gap: u32) -> (r:
    Vec<Region>)
    requires
        screen.wf(),
        ratio <= RATIO_UNIT,
    ensures
        r@ == spec_side_stack(*screen, n as int, max_main as int, ratio as int, gap as int),
        r@.len() == n,
        forall|i: int| 0 <= i < n ==> r@[i].wf(),
{
    let n_main: usize = if (max_main as usize) < n {
        max_main as usize
    } else {
        n
    };
    let mut r: Vec<Region> = Vec::new();
    let ghost goal = spec_side_stack(
        *screen,
        n as int,
        max_main as int,
        ratio as int,
        gap as int,
    );
    if n_main == 0 || n_main == n {
        let mut i: usize = 0;
        while i < n
            invariant
                i <= n,
                n_main == 0 || n_main == n,
                n_main == if max_main < n { max_main as int } else { n as int },
                screen.wf(),
                goal == spec_side_stack(
                    *screen,
                    n as int,
                    max_main as int,
                    ratio as int,
                    gap as int,
                ),
                r@.len() == i,
                forall|j: int| 0 <= j < i ==> r@[j] == goal[j] && (#[trigger] r@[j]).wf(),
            decreases n - i,
        {
            let cell = row_region(screen, n, i);
            let region = with_gap(&cell, gap);
            r.push(region);
            i = i + 1;
        }
        assert(r@ =~= goal);
    } else {
        let mw = scaled(screen.w, ratio);
        let main_col = Region::new(screen.x, screen.y, mw, screen.h);
        let stack_col = Region::new(screen.x + mw, screen.y, screen.w - mw, screen.h);
        let mut i: usize = 0;
        while i < n
            invariant
                i <= n,
                0 < n_main < n,
                n_main == max_main as int,
                screen.wf(),
                main_col.wf(),
                stack_col.wf(),
                main_col == (Region {
                    x: screen.x,
                    y: screen.y,
                    w: spec_scaled(screen.w as int, ratio as int) as u32,
                    h: screen.h,
                }),
                stack_col == (Region {
                    x: (screen.x + spec_scaled(screen.w as int, ratio as int)) as u32,
                    y: screen.y,
                    w: (screen.w - spec_scaled(screen.w as int, ratio as int)) as u32,
                    h: screen.h,
                }),
                goal == spec_side_stack(
                    *screen,
                    n as int,
                    max_main as int,
                    ratio as int,
                    gap as int,
                ),
                r@.len() == i,
                forall|j: int| 0 <= j < i ==> r@[j] == goal[j] && (#[trigger] r@[j]).wf(),
            decreases n - i,
        {
            let cell = if i < n_main {
                row_region(&main_col, n_main, i)
            } else {
                row_region(&stack_col, n - n_main, i - n_main)
            };
            let region = with_gap(&cell, gap);
            r.push(region);
            i = i + 1;
        }
        assert(r@ =~= goal);
    }
    r
}

} // verus!
