//! The second pass of a layout: the lines of one axis (the columns, or the
//! rows) are stretched or shrunk from their preferred sizes toward the space
//! that is available.

use crate::scalar::{larger, mul_div, sat_add, sat_neg, sat_sub};
use vstd::prelude::*;

verus! {

/// What is left of `available` once each of the first `n` lines has been
/// given its preferred size. A negative result is a lack of space.
pub open spec fn leftover(available: i64, preferred: Seq<i64>, n: int) -> i64
    decreases n,
{
    if n <= 0 {
        available
    } else {
        sat_sub(leftover(available, preferred, n - 1), preferred[n - 1])
    }
}

/// How many of the first `n` lines expand.
pub open spec fn expanding(expands: Seq<bool>, n: int) -> int
    decreases n,
{
    if n <= 0 {
        0
    } else if expands[n - 1] {
        expanding(expands, n - 1) + 1
    } else {
        expanding(expands, n - 1)
    }
}

/// The slack of the first `n` lines together, where the slack of a line is
/// its room to shrink: its preferred size less its least size.
pub open spec fn total_slack(preferred: Seq<i64>, minimum: Seq<i64>, n: int) -> i64
    decreases n,
{
    if n <= 0 {
        0
    } else {
        sat_add(total_slack(preferred, minimum, n - 1), sat_sub(preferred[n - 1], minimum[n - 1]))
    }
}

/// An expanding line after `count` such lines have shared `surplus` evenly.
pub open spec fn grown(preferred: i64, surplus: i64, count: int) -> i64
    recommends
        surplus > 0,
        count > 0,
{
    sat_add(preferred, (surplus as int / count) as i64)
}

/// A line after it has given up its part of `deficit`. The part is to the
/// deficit as the line's slack is to `total`, the slack of all lines. The
/// result is held at zero from below, not at the least size.
pub open spec fn shrunk(preferred: i64, minimum: i64, deficit: i64, total: i64) -> i64
    recommends
        total != 0,
{
    let slack = sat_sub(preferred, minimum);
    let part = mul_div(deficit, slack, total);
    larger(sat_add(minimum, sat_sub(slack, part)), 0)
}

/// The size of line `i` after the lines were fitted to `available`.
///
/// With space to spare, the expanding lines share it evenly and the others
/// keep their preferred size; without an expanding line the space stays
/// unused. With too little space, each line gives up a part of the lack in
/// proportion to its slack; where the lines have no slack in total, nothing
/// can be shrunk and each keeps its preferred size.
pub open spec fn resolved_line(
    available: i64,
    preferred: Seq<i64>,
    minimum: Seq<i64>,
    expands: Seq<bool>,
    i: int,
) -> i64 {
    let n = preferred.len() as int;
    let error = leftover(available, preferred, n);
    if error > 0 {
        if expands[i] {
            grown(preferred[i], error, expanding(expands, n))
        } else {
            preferred[i]
        }
    } else if error < 0 && total_slack(preferred, minimum, n) != 0 {
        shrunk(preferred[i], minimum[i], sat_neg(error), total_slack(preferred, minimum, n))
    } else {
        preferred[i]
    }
}

/// The sizes of all lines after they were fitted to `available`.
pub open spec fn resolved(
    available: i64,
    preferred: Seq<i64>,
    minimum: Seq<i64>,
    expands: Seq<bool>,
) -> Seq<i64> {
    Seq::new(preferred.len(), |i: int| resolved_line(available, preferred, minimum, expands, i))
}

/// The number of expanding lines is between zero and the number of lines,
/// and is not zero where a line expands.
pub proof fn lemma_expanding_bounds(expands: Seq<bool>, n: int, i: int)
    requires
        0 <= n <= expands.len(),
    ensures
        0 <= expanding(expands, n) <= n,
        0 <= i < n && expands[i] ==> expanding(expands, n) > 0,
    decreases n,
{
    if n > 0 {
        lemma_expanding_bounds(expands, n - 1, i);
    }
}

/// A line whose preferred size is not negative does not get a negative
/// size, however little space there is.
pub proof fn lemma_resolved_not_negative(
    available: i64,
    preferred: Seq<i64>,
    minimum: Seq<i64>,
    expands: Seq<bool>,
    i: int,
)
    requires
        preferred.len() == expands.len(),
        0 <= i < preferred.len(),
        0 <= preferred[i],
    ensures
        0 <= resolved_line(available, preferred, minimum, expands, i),
{
    let n = preferred.len() as int;
    let error = leftover(available, preferred, n);
    let count = expanding(expands, n);
    lemma_expanding_bounds(expands, n, i);
    if error > 0 && expands[i] {
        assert(0 <= (error as int) / count <= error) by (nonlinear_arith)
            requires
                error > 0,
                count > 0,
        ;
    }
}

/// Where the preferred sizes fit into the available space, no line ends
/// smaller than it prefers.
pub proof fn lemma_roomy_keeps_preferred(
    available: i64,
    preferred: Seq<i64>,
    minimum: Seq<i64>,
    expands: Seq<bool>,
    i: int,
)
    requires
        preferred.len() == expands.len(),
        0 <= i < preferred.len(),
        leftover(available, preferred, preferred.len() as int) >= 0,
    ensures
        preferred[i] <= resolved_line(available, preferred, minimum, expands, i),
{
    let n = preferred.len() as int;
    let error = leftover(available, preferred, n);
    let count = expanding(expands, n);
    lemma_expanding_bounds(expands, n, i);
    if error > 0 && expands[i] {
        assert(0 <= (error as int) / count <= error) by (nonlinear_arith)
            requires
                error > 0,
                count > 0,
        ;
    }
}

/// Fits the lines of one axis to `available`: replaces each preferred size
/// by the size the line gets.
pub fn distribute(
    available: i64,
    preferred: &mut Vec<i64>,
    minimum: &Vec<i64>,
    expands: &Vec<bool>,
)
    requires
        old(preferred)@.len() == minimum@.len(),
        old(preferred)@.len() == expands@.len(),
    ensures
        final(preferred)@ == resolved(available, old(preferred)@, minimum@, expands@),
{
    let ghost before = preferred@;
    let count: usize = preferred.len();
    let mut error: i64 = available;
    let mut i: usize = 0;
    while i < count
        invariant
            preferred@ == before,
            count == before.len(),
            i <= count,
            error == leftover(available, before, i as int),
        decreases count - i,
    {
        error = sat_sub(error, preferred[i]);
        i = i + 1;
    }
    if error > 0 {
        let mut expansions: usize = 0;
        i = 0;
        while i < count
            invariant
                count == expands@.len(),
                i <= count,
                expansions == expanding(expands@, i as int),
                expansions <= i,
            decreases count - i,
        {
            if expands[i] {
                expansions = expansions + 1;
            }
            i = i + 1;
        }
        if expansions > 0 {
            let wide: i128 = error as i128 / expansions as i128;
            assert(0 <= (error as int) / (expansions as int) <= error) by (nonlinear_arith)
                requires
                    error > 0,
                    expansions > 0,
            ;
            let amount: i64 = wide as i64;
            i = 0;
            while i < count
                invariant
                    count == before.len(),
                    count == expands@.len(),
                    preferred@.len() == count,
                    i <= count,
                    error > 0,
                    expansions == expanding(expands@, count as int),
                    expansions > 0,
                    amount == (error as int) / (expansions as int),
                    error == leftover(available, before, count as int),
                    forall|j: int|
                        0 <= j < i ==> #[trigger] preferred@[j] == resolved_line(
                            available,
                            before,
                            minimum@,
                            expands@,
                            j,
                        ),
                    forall|j: int| i <= j < count ==> #[trigger] preferred@[j] == before[j],
                decreases count - i,
            {
                if expands[i] {
                    let size = sat_add(preferred[i], amount);
                    preferred.set(i, size);
                }
                i = i + 1;
            }
        } else {
            assert forall|j: int| 0 <= j < count implies #[trigger] preferred@[j] == resolved_line(
                available,
                before,
                minimum@,
                expands@,
                j,
            ) by {
                lemma_expanding_bounds(expands@, count as int, j);
            }
        }
    } else if error < 0 {
        let deficit: i64 = sat_neg(error);
        let mut total: i64 = 0;
        i = 0;
        while i < count
            invariant
                preferred@ == before,
                count == before.len(),
                count == minimum@.len(),
                i <= count,
                total == total_slack(before, minimum@, i as int),
            decreases count - i,
        {
            total = sat_add(total, sat_sub(preferred[i], minimum[i]));
            i = i + 1;
        }
        if total != 0 {
            i = 0;
            while i < count
                invariant
                    count == before.len(),
                    count == minimum@.len(),
                    preferred@.len() == count,
                    i <= count,
                    error < 0,
                    deficit == sat_neg(error),
                    total != 0,
                    total == total_slack(before, minimum@, count as int),
                    error == leftover(available, before, count as int),
                    forall|j: int|
                        0 <= j < i ==> #[trigger] preferred@[j] == resolved_line(
                            available,
                            before,
                            minimum@,
                            expands@,
                            j,
                        ),
                    forall|j: int| i <= j < count ==> #[trigger] preferred@[j] == before[j],
                decreases count - i,
            {
                let slack: i64 = sat_sub(preferred[i], minimum[i]);
                let part: i64 = mul_div(deficit, slack, total);
                let size = larger(sat_add(minimum[i], sat_sub(slack, part)), 0);
                preferred.set(i, size);
                i = i + 1;
            }
        }
    }
}

} // verus!
