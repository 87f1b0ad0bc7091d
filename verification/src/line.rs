//! A single falling streak of characters.
//!
//! Positions advance in thousandths of a row ("milli-rows"), a fixed-point
//! stand-in for fractional rows: `y_milli` is the top (tail) row of the
//! streak scaled by 1000, and `speed_milli` is the fall speed in milli-rows
//! per tick. The streak occupies rows `top_row .. top_row + length`, its
//! brightest cell (the leading edge) at the bottom. A fresh streak starts
//! with its whole span above row 0 and stays alive until even its tail has
//! passed the bottom boundary.

use crate::cell::Cell;
use crate::rng::{alnum_byte, rand_between_u16, rand_seed, sample_alnum};
use vstd::prelude::*;

verus! {

/// One falling line of characters.
#[derive(Clone, Copy, Debug)]
pub struct Line {
    /// Column, fixed for the streak's lifetime.
    pub x: u16,
    /// Top (tail) row of the streak, in milli-rows; negative while the
    /// streak is still entering from above.
    pub y_milli: i64,
    /// Number of character cells in the streak.
    pub length: u16,
    /// Fall speed in milli-rows per tick.
    pub speed_milli: u16,
    /// Seed that fixes the streak's character sequence for its lifetime.
    pub seed: u64,
}

impl Line {
    /// Well-formedness: the ranges the spawner draws from, and the fact
    /// that a streak never sits above its own starting position.
    pub open spec fn wf(self) -> bool {
        &&& 3 <= self.length <= 15
        &&& 500 <= self.speed_milli <= 1500
        &&& -1000 * (self.length as int) <= self.y_milli
    }

    /// The whole-row position of the streak's top cell: `y_milli / 1000`
    /// rounded towards zero.
    pub open spec fn row_top(self) -> int {
        if self.y_milli >= 0 {
            (self.y_milli as int) / 1000
        } else {
            -((-(self.y_milli as int)) / 1000)
        }
    }

    /// First point index (distance from the tail) whose row is on screen.
    pub open spec fn first_point(self) -> int {
        if self.row_top() >= 0 {
            0
        } else {
            -self.row_top()
        }
    }

    /// One past the last point index whose row is above the bottom edge.
    pub open spec fn end_point(self, height: int) -> int {
        if self.length as int <= height - self.row_top() {
            self.length as int
        } else {
            height - self.row_top()
        }
    }

    /// How many of the streak's cells are on screen.
    pub open spec fn visible_count(self, height: int) -> int {
        if self.end_point(height) > self.first_point() {
            self.end_point(height) - self.first_point()
        } else {
            0
        }
    }

    /// Brightness in thousandths at point `p`: a floor of 100 plus a share
    /// that grows linearly from the tail to the leading edge and scales
    /// with the streak's speed — `100 + (p + 1)/length * 700 * speed/1500
    /// * 8/10`, reduced to the integer form below.
    pub open spec fn brightness_spec(self, p: int) -> int {
        100 + ((p + 1) * 28 * (self.speed_milli as int)) / (75 * (self.length as int))
    }

    /// The cell the streak paints at point `p`.
    pub open spec fn cell_at(self, p: int) -> Cell {
        Cell {
            col: self.x,
            row: (self.row_top() + p) as u16,
            glyph: alnum_byte(self.seed, p),
            brightness_milli: self.brightness_spec(p) as u16,
        }
    }

    /// Everything the streak paints on a screen of the given height, from
    /// the topmost visible cell down to the leading edge.
    pub open spec fn render_seq(self, height: int) -> Seq<Cell> {
        Seq::new(
            self.visible_count(height) as nat,
            |i: int| self.cell_at(self.first_point() + i),
        )
    }

    /// The streak one tick later: moved down by its speed (held at the top
    /// of `i64` in the unreachable case that the sum no longer fits).
    pub open spec fn stepped(self) -> Line {
        Line {
            y_milli: if self.y_milli + self.speed_milli <= i64::MAX {
                (self.y_milli + self.speed_milli) as i64
            } else {
                i64::MAX
            },
            ..self
        }
    }

    /// Draw a fresh streak: column uniform in `[0, width)`, length uniform
    /// in `[3, 15]`, speed uniform in `[500, 1500]` milli-rows per tick, a
    /// seed from the full range of `u64`, and the whole span parked just
    /// above row 0.
    pub fn new(rng: &mut rand::rngs::ThreadRng, width: u16) -> (l: Line)
        requires
            width > 0,
        ensures
            l.wf(),
            l.x < width,
            l.y_milli == -1000 * (l.length as int),
    {
        let length = rand_between_u16(rng, 3, 15);
        Line {
            x: rand_between_u16(rng, 0, width - 1),
            y_milli: -((length as i64) * 1000),
            length,
            speed_milli: rand_between_u16(rng, 500, 1500),
            seed: rand_seed(rng),
        }
    }

    /// A streak with chosen parameters, parked at the starting position a
    /// fresh streak gets.
    pub fn from_parts(x: u16, length: u16, speed_milli: u16, seed: u64) -> (l: Line)
        requires
            3 <= length <= 15,
            500 <= speed_milli <= 1500,
        ensures
            l.wf(),
            l.x == x,
            l.length == length,
            l.speed_milli == speed_milli,
            l.seed == seed,
            l.y_milli == -1000 * (length as int),
    {
        Line { x, y_milli: -((length as i64) * 1000), length, speed_milli, seed }
    }

    /// Move down one tick: `y` grows by exactly the speed.
    pub fn advance(&mut self)
        ensures
            *final(self) == old(self).stepped(),
    {
        if self.y_milli <= i64::MAX - self.speed_milli as i64 {
            self.y_milli = self.y_milli + self.speed_milli as i64;
        } else {
            self.y_milli = i64::MAX;
        }
    }

    /// Whether any part of the streak can still reach the screen: its
    /// column is inside the width and its tail has not passed the bottom.
    pub open spec fn in_bounds_spec(self, width: int, height: int) -> bool {
        self.x < width && self.y_milli < height * 1000
    }

    /// Executable form of [`Line::in_bounds_spec`].
    pub fn in_bounds(&self, width: u16, height: u16) -> (r: bool)
        ensures
            r == self.in_bounds_spec(width as int, height as int),
    {
        self.x < width && self.y_milli < (height as i64) * 1000
    }

    /// Executable form of [`Line::row_top`].
    fn top_row(&self) -> (r: i64)
        requires
            self.wf(),
        ensures
            r == self.row_top(),
    {
        if self.y_milli >= 0 {
            ((self.y_milli as u64) / 1000) as i64
        } else {
            -((((-self.y_milli) as u64) / 1000) as i64)
        }
    }

    /// Brightness at point `p`, between the floor of 100 and the maximum
    /// 660 that a full-length point on the fastest streak reaches.
    fn brightness_for(&self, p: u16) -> (b: u16)
        requires
            self.wf(),
            p < self.length,
        ensures
            b == self.brightness_spec(p as int),
            100 <= b <= 660,
    {
        proof {
            self.lemma_brightness_bounds(p as int);
            assert(((p as int) + 1) * 28 * (self.speed_milli as int) <= 672000)
                by (nonlinear_arith)
                requires
                    p < self.length,
                    self.length <= 15,
                    self.speed_milli <= 1500,
            ;
        }
        let num: u64 = (p as u64 + 1) * 28 * (self.speed_milli as u64);
        let den: u64 = 75 * (self.length as u64);
        (100 + num / den) as u16
    }

    /// The brightness formula stays within `[100, 660]` on the points of a
    /// well-formed streak.
    pub proof fn lemma_brightness_bounds(self, p: int)
        requires
            self.wf(),
            0 <= p < self.length,
        ensures
            100 <= self.brightness_spec(p) <= 660,
    {
        let num = (p + 1) * 28 * (self.speed_milli as int);
        let den = 75 * (self.length as int);
        assert(num <= 560 * den) by (nonlinear_arith)
            requires
                0 <= p,
                p + 1 <= self.length as int,
                500 <= self.speed_milli <= 1500,
                num == (p + 1) * 28 * (self.speed_milli as int),
                den == 75 * (self.length as int),
        ;
        assert(num >= 0) by (nonlinear_arith)
            requires
                0 <= p,
                500 <= self.speed_milli,
                num == (p + 1) * 28 * (self.speed_milli as int),
        ;
        vstd::arithmetic::div_mod::lemma_div_is_ordered(num, 560 * den, den);
        vstd::arithmetic::div_mod::lemma_div_multiples_vanish(560, den);
        vstd::arithmetic::div_mod::lemma_div_pos_is_pos(num, den);
    }

    /// Paint the streak: append one cell for every on-screen row it
    /// occupies, from the tail down to the leading edge, with the glyphs
    /// the seed determines and brightness growing towards the edge.
    #[verifier::loop_isolation(false)]
    pub fn draw(&self, cells: &mut Vec<Cell>, height: u16)
        requires
            self.wf(),
        ensures
            final(cells)@ == old(cells)@ + self.render_seq(height as int),
    {
        let glyphs = sample_alnum(self.seed, self.length as usize);
        let top = self.top_row();
        let mut p: u16 = 0;
        while p < self.length
            invariant
                p <= self.length,
                cells@ == old(cells)@ + self.render_prefix(height as int, p as int),
            decreases self.length - p,
        {
            let row = top + p as i64;
            if 0 <= row && row < height as i64 {
                let b = self.brightness_for(p);
                cells.push(
                    Cell {
                        col: self.x,
                        row: row as u16,
                        glyph: glyphs[p as usize],
                        brightness_milli: b,
                    },
                );
                proof {
                    assert(self.render_prefix(height as int, p as int + 1) =~= self
                        .render_prefix(height as int, p as int).push(self.cell_at(p as int)));
                }
            } else {
                proof {
                    assert(self.render_prefix(height as int, p as int + 1) =~= self
                        .render_prefix(height as int, p as int));
                }
            }
            p = p + 1;
        }
        proof {
            assert(self.render_prefix(height as int, self.length as int) =~= self.render_seq(
                height as int,
            ));
        }
    }

    /// The streak after `k` ticks.
    pub open spec fn stepped_k(self, k: nat) -> Line
        decreases k,
    {
        if k == 0 {
            self
        } else {
            self.stepped_k((k - 1) as nat).stepped()
        }
    }

    /// After `k` advances the position is exactly the starting position
    /// plus `k` times the speed, as long as that sum still fits a
    /// milli-row counter.
    pub proof fn lemma_advance_linear(self, k: nat)
        requires
            self.wf(),
            self.y_milli + k * (self.speed_milli as int) <= i64::MAX,
        ensures
            self.stepped_k(k).y_milli == self.y_milli + k * (self.speed_milli as int),
            self.stepped_k(k).x == self.x,
            self.stepped_k(k).length == self.length,
            self.stepped_k(k).speed_milli == self.speed_milli,
            self.stepped_k(k).seed == self.seed,
        decreases k,
    {
        if k == 0 {
            assert(k * (self.speed_milli as int) == 0) by (nonlinear_arith)
                requires
                    k == 0,
            ;
        } else {
            assert(k * (self.speed_milli as int) == (k - 1) * (self.speed_milli as int) + (
            self.speed_milli as int)) by (nonlinear_arith);
            assert((k - 1) * (self.speed_milli as int) >= 0) by (nonlinear_arith)
                requires
                    k >= 1,
                    self.speed_milli >= 0,
            ;
            self.lemma_advance_linear((k - 1) as nat);
        }
    }

    /// A streak still parked at its starting position is in bounds exactly
    /// when its column is: the vertical check cannot fail before the first
    /// advance, whatever the height.
    pub proof fn lemma_fresh_in_bounds(self, width: u16, height: u16)
        requires
            self.wf(),
            self.y_milli == -1000 * (self.length as int),
        ensures
            self.in_bounds_spec(width as int, height as int) <==> self.x < width,
    {
    }

    /// Once even the tail has passed the bottom boundary the streak is out
    /// of bounds and paints nothing.
    pub proof fn lemma_past_bottom(self, width: u16, height: u16)
        requires
            self.wf(),
            self.y_milli >= (height as int) * 1000,
        ensures
            !self.in_bounds_spec(width as int, height as int),
            self.render_seq(height as int) == Seq::<Cell>::empty(),
    {
        vstd::arithmetic::div_mod::lemma_div_is_ordered(
            (height as int) * 1000,
            self.y_milli as int,
            1000,
        );
        vstd::arithmetic::div_mod::lemma_div_multiples_vanish(height as int, 1000);
        assert((height as int) * 1000 / 1000 == height as int);
        assert(self.row_top() >= height as int);
        assert(self.render_seq(height as int) =~= Seq::<Cell>::empty());
    }

    /// Character content is a function of the seed and the distance from
    /// the tail alone: two renders of streaks sharing a seed show the same
    /// glyph at the same point, whatever their positions or the screens.
    pub proof fn lemma_glyphs_deterministic(
        self,
        other: Line,
        h1: u16,
        h2: u16,
        i: int,
        j: int,
    )
        requires
            self.seed == other.seed,
            0 <= i < self.render_seq(h1 as int).len(),
            0 <= j < other.render_seq(h2 as int).len(),
            self.first_point() + i == other.first_point() + j,
        ensures
            self.render_seq(h1 as int)[i].glyph == other.render_seq(h2 as int)[j].glyph,
    {
    }

    /// Brightness never decreases from the tail towards the leading edge.
    pub proof fn lemma_brightness_monotone(self, height: u16, i: int, j: int)
        requires
            self.wf(),
            0 <= i <= j < self.render_seq(height as int).len(),
        ensures
            self.render_seq(height as int)[i].brightness_milli <= self.render_seq(
                height as int,
            )[j].brightness_milli,
    {
        let pi = self.first_point() + i;
        let pj = self.first_point() + j;
        assert(0 <= pi < self.length && 0 <= pj < self.length);
        self.lemma_brightness_bounds(pi);
        self.lemma_brightness_bounds(pj);
        assert((pi + 1) * 28 * (self.speed_milli as int) <= (pj + 1) * 28 * (
        self.speed_milli as int)) by (nonlinear_arith)
            requires
                pi <= pj,
                self.speed_milli >= 0,
        ;
        vstd::arithmetic::div_mod::lemma_div_is_ordered(
            (pi + 1) * 28 * (self.speed_milli as int),
            (pj + 1) * 28 * (self.speed_milli as int),
            75 * (self.length as int),
        );
    }

    /// The cells of the points below `p`: what [`Line::draw`] has appended
    /// after handling points `0 .. p`.
    pub open spec fn render_prefix(self, height: int, p: int) -> Seq<Cell> {
        let lo = self.first_point();
        let hi = if self.end_point(height) <= p {
            self.end_point(height)
        } else {
            p
        };
        Seq::new(if hi > lo { (hi - lo) as nat } else { 0 }, |i: int| self.cell_at(lo + i))
    }
}

} // verus!
