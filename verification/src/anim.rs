//! The sweeping-bar animation: a single bounded counter over display
//! columns.  It advances by exactly one column per cycle and wraps to the
//! left edge when it reaches the display width.  Pure state, no failure
//! mode, no dependence on any other subsystem.

use vstd::prelude::*;
use vstd::arithmetic::div_mod::lemma_fundamental_div_mod;
use vstd::arithmetic::div_mod::lemma_mod_bound;
use vstd::arithmetic::div_mod::lemma_mod_multiples_vanish;
use vstd::arithmetic::div_mod::lemma_mod_self_0;
use vstd::arithmetic::div_mod::lemma_small_mod;

verus! {

/// The column that follows `col` in a sweep across a display `width`
/// pixels wide: one step to the right, wrapping to 0 at the right edge.
pub open spec fn next_column(col: nat, width: nat) -> nat {
    if col + 1 == width {
        0
    } else {
        (col + 1) as nat
    }
}

/// The column reached after `n` advances, starting from column 0.
pub open spec fn column_after(width: nat, n: nat) -> nat
    decreases n,
{
    if n == 0 {
        0
    } else {
        next_column(column_after(width, (n - 1) as nat), width)
    }
}

/// One step of the sweep wraps exactly as the remainder does: from a
/// column below `width`, a step lands on `(col + 1) % width`.
pub proof fn lemma_next_column_is_mod(col: nat, width: nat)
    requires
        col < width,
    ensures
        next_column(col, width) == ((col + 1) as int) % (width as int),
{
    if col + 1 == width {
        lemma_mod_self_0(width as int);
    } else {
        lemma_small_mod((col + 1) as nat, width);
    }
}

/// The sweep law: after `n` advances from column 0 the counter stands at
/// `n % width`.  In particular the first `width` advances return the
/// columns `0, 1, ..., width - 1` in order, and the advance after a full
/// sweep returns column 0 again.
pub proof fn lemma_sweep_wraps(width: nat, n: nat)
    requires
        0 < width,
    ensures
        column_after(width, n) == n % width,
    decreases n,
{
    if n == 0 {
        lemma_small_mod(0, width);
    } else {
        let prev = (n - 1) as nat;
        lemma_sweep_wraps(width, prev);
        lemma_mod_bound(prev as int, width as int);
        lemma_next_column_is_mod(prev % width, width);
        lemma_fundamental_div_mod(prev as int, width as int);
        lemma_mod_multiples_vanish(
            prev as int / width as int,
            (prev % width + 1) as int,
            width as int,
        );
    }
}

/// The animation counter: the bar's current column on a display of a
/// fixed width.
pub struct AnimationState {
    column: usize,
    width: usize,
}

impl AnimationState {
    /// The bar column always lies within the display.
    pub open spec fn wf(&self) -> bool {
        self.col() < self.width()
    }

    /// The current column.
    pub closed spec fn col(&self) -> nat {
        self.column as nat
    }

    /// The display width the counter wraps at.
    pub closed spec fn width(&self) -> nat {
        self.width as nat
    }

    /// A fresh animation starts at the leftmost column.
    pub fn new(width: usize) -> (s: Self)
        requires
            0 < width,
        ensures
            s.wf(),
            s.col() == 0,
            s.width() == width,
    {
        AnimationState { column: 0, width }
    }

    /// Returns the current column, then steps the counter by one,
    /// wrapping to 0 when it reaches the display width.  Deterministic,
    /// pure state transition, no failure mode.
    pub fn advance(&mut self) -> (r: usize)
        requires
            old(self).wf(),
        ensures
            final(self).wf(),
            final(self).width() == old(self).width(),
            r == old(self).col(),
            final(self).col() == next_column(old(self).col(), old(self).width()),
    {
        let current = self.column;
        if self.column + 1 == self.width {
            self.column = 0;
        } else {
            self.column = self.column + 1;
        }
        current
    }

    /// The current column, without advancing.
    pub fn current(&self) -> (r: usize)
        ensures
            r == self.col(),
    {
        self.column
    }
}

} // verus!
