//! What fitting the lines of one axis achieves: where the sizes are modest
//! enough that no sum reaches the ends of the `i64` range, the lines together
//! take up the available space, short of what rounding leaves over.

use crate::distribute::{expanding, leftover, resolved, resolved_line, total_slack};
use vstd::arithmetic::div_mod::{
    lemma_div_is_ordered, lemma_div_multiples_vanish, lemma_fundamental_div_mod, lemma_mod_bound,
};
use vstd::prelude::*;

verus! {

/// Sizes up to this magnitude add up exactly on up to `LINE_LIMIT` lines.
pub const EXACT_LIMIT: i64 = 0x0100_0000_0000;

/// The most lines for which sizes up to `EXACT_LIMIT` add up exactly.
pub const LINE_LIMIT: usize = 0x0001_0000;

/// The sum of the first `n` sizes.
pub open spec fn sum(sizes: Seq<i64>, n: int) -> int
    decreases n,
{
    if n <= 0 {
        0
    } else {
        sum(sizes, n - 1) + sizes[n - 1]
    }
}

/// Whether every size is at most `EXACT_LIMIT` in magnitude, on at most
/// `LINE_LIMIT` lines.
pub open spec fn modest_sizes(sizes: Seq<i64>) -> bool {
    &&& sizes.len() <= LINE_LIMIT
    &&& forall|i: int| 0 <= i < sizes.len() ==> -EXACT_LIMIT <= #[trigger] sizes[i] <= EXACT_LIMIT
}

/// Whether the lines of an axis and the space for them are modest: the
/// arithmetic on them is exact.
pub open spec fn modest(
    available: i64,
    preferred: Seq<i64>,
    minimum: Seq<i64>,
    expands: Seq<bool>,
) -> bool {
    &&& preferred.len() == minimum.len()
    &&& preferred.len() == expands.len()
    &&& -EXACT_LIMIT <= available <= EXACT_LIMIT
    &&& modest_sizes(preferred)
    &&& modest_sizes(minimum)
}

/// Whether every line has a least size that is not negative and a preferred
/// size that is not smaller.
pub open spec fn ordered(preferred: Seq<i64>, minimum: Seq<i64>) -> bool {
    forall|i: int|
        0 <= i < preferred.len() ==> 0 <= #[trigger] minimum[i] <= #[trigger] preferred[i]
}

/// Modest sizes add up to no more than their number times the limit.
proof fn lemma_sum_bounds(sizes: Seq<i64>, n: int)
    requires
        modest_sizes(sizes),
        0 <= n <= sizes.len(),
    ensures
        -n * EXACT_LIMIT <= sum(sizes, n) <= n * EXACT_LIMIT,
    decreases n,
{
    if n > 0 {
        lemma_sum_bounds(sizes, n - 1);
    }
}

/// On modest lines, what is left of the available space is the space less
/// the sum of the preferred sizes.
proof fn lemma_leftover_exact(available: i64, preferred: Seq<i64>, n: int)
    requires
        -EXACT_LIMIT <= available <= EXACT_LIMIT,
        modest_sizes(preferred),
        0 <= n <= preferred.len(),
    ensures
        leftover(available, preferred, n) == available - sum(preferred, n),
    decreases n,
{
    if n > 0 {
        lemma_leftover_exact(available, preferred, n - 1);
        lemma_sum_bounds(preferred, n - 1);
    }
}

/// On modest lines, the total slack is the sum of the preferred sizes less
/// the sum of the least sizes.
proof fn lemma_total_slack_exact(preferred: Seq<i64>, minimum: Seq<i64>, n: int)
    requires
        preferred.len() == minimum.len(),
        modest_sizes(preferred),
        modest_sizes(minimum),
        0 <= n <= preferred.len(),
    ensures
        total_slack(preferred, minimum, n) == sum(preferred, n) - sum(minimum, n),
    decreases n,
{
    if n > 0 {
        lemma_total_slack_exact(preferred, minimum, n - 1);
        lemma_sum_bounds(preferred, n - 1);
        lemma_sum_bounds(minimum, n - 1);
    }
}

/// With space to spare, the first `k` lines have grown by the even share
/// once for each expanding line among them.
proof fn lemma_grown_sum(
    available: i64,
    preferred: Seq<i64>,
    minimum: Seq<i64>,
    expands: Seq<bool>,
    k: int,
)
    requires
        modest(available, preferred, minimum, expands),
        available - sum(preferred, preferred.len() as int) > 0,
        expanding(expands, expands.len() as int) > 0,
        0 <= k <= preferred.len(),
    ensures
        sum(resolved(available, preferred, minimum, expands), k) == sum(preferred, k) + expanding(
            expands,
            k,
        ) * ((available - sum(preferred, preferred.len() as int)) / expanding(
            expands,
            expands.len() as int,
        )),
    decreases k,
{
    let n = preferred.len() as int;
    let surplus = available - sum(preferred, n);
    let count = expanding(expands, n);
    let amount = surplus / count;
    if k > 0 {
        lemma_grown_sum(available, preferred, minimum, expands, k - 1);
        lemma_leftover_exact(available, preferred, n);
        lemma_sum_bounds(preferred, n);
        assert(0 <= amount <= surplus) by (nonlinear_arith)
            requires
                surplus > 0,
                count > 0,
                amount == surplus / count,
        ;
        let before = expanding(expands, k - 1);
        assert((before + 1) * amount == before * amount + amount) by (nonlinear_arith);
        assert(resolved(available, preferred, minimum, expands)[k - 1] == resolved_line(
            available,
            preferred,
            minimum,
            expands,
            k - 1,
        ));
    }
}

/// Spare space goes to the expanding lines: with space to spare and a line
/// that expands, the lines together take up the available space, less the
/// remainder that cannot be divided evenly among the expanding lines. The
/// lines that do not expand keep their preferred size.
pub proof fn lemma_surplus_is_shared(
    available: i64,
    preferred: Seq<i64>,
    minimum: Seq<i64>,
    expands: Seq<bool>,
)
    requires
        modest(available, preferred, minimum, expands),
        available - sum(preferred, preferred.len() as int) > 0,
        expanding(expands, expands.len() as int) > 0,
    ensures
        ({
            let n = preferred.len() as int;
            let after = resolved(available, preferred, minimum, expands);
            let count = expanding(expands, n);
            &&& sum(after, n) == available - (available - sum(preferred, n)) % count
            &&& available - count < sum(after, n) <= available
            &&& forall|i: int| 0 <= i < n && !expands[i] ==> #[trigger] after[i] == preferred[i]
        }),
{
    let n = preferred.len() as int;
    let surplus = available - sum(preferred, n);
    let count = expanding(expands, n);
    lemma_grown_sum(available, preferred, minimum, expands, n);
    lemma_fundamental_div_mod(surplus, count);
    lemma_mod_bound(surplus, count);
    lemma_leftover_exact(available, preferred, n);
}

/// Without a line that expands, spare space stays unused: every line keeps
/// its preferred size. The same holds where the preferred sizes take up the
/// available space exactly.
pub proof fn lemma_nothing_to_share(
    available: i64,
    preferred: Seq<i64>,
    minimum: Seq<i64>,
    expands: Seq<bool>,
)
    requires
        modest(available, preferred, minimum, expands),
        available - sum(preferred, preferred.len() as int) >= 0,
        expanding(expands, expands.len() as int) == 0 || available == sum(
            preferred,
            preferred.len() as int,
        ),
    ensures
        resolved(available, preferred, minimum, expands) == preferred,
{
    let n = preferred.len() as int;
    lemma_leftover_exact(available, preferred, n);
    assert forall|i: int| 0 <= i < n implies resolved_line(
        available,
        preferred,
        minimum,
        expands,
        i,
    ) == preferred[i] by {
        crate::distribute::lemma_expanding_bounds(expands, n, i);
    }
}

/// The part of a deficit that falls to a line is at most the slack of the
/// line, and times the total slack it misses the deficit times the slack by
/// less than the total slack.
proof fn lemma_part_bounds(deficit: int, slack: int, total: int)
    requires
        0 <= deficit <= total,
        0 < total,
        0 <= slack,
    ensures
        0 <= (deficit * slack) / total <= slack,
        total * ((deficit * slack) / total) <= deficit * slack,
        deficit * slack - (total - 1) <= total * ((deficit * slack) / total),
{
    let product = deficit * slack;
    assert(0 <= product <= total * slack) by (nonlinear_arith)
        requires
            0 <= deficit <= total,
            0 <= slack,
            product == deficit * slack,
    ;
    lemma_fundamental_div_mod(product, total);
    lemma_mod_bound(product, total);
    lemma_div_is_ordered(0, product, total);
    lemma_div_is_ordered(product, total * slack, total);
    lemma_div_multiples_vanish(slack, total);
    assert(0int / total == 0) by (nonlinear_arith)
        requires
            0 < total,
    ;
}

/// With too little space, the first `k` lines have together given up their
/// part of the deficit, short of less than one unit for each line, and each
/// has stayed between its least and its preferred size.
proof fn lemma_shrunk_sum(
    available: i64,
    preferred: Seq<i64>,
    minimum: Seq<i64>,
    expands: Seq<bool>,
    k: int,
)
    requires
        modest(available, preferred, minimum, expands),
        ordered(preferred, minimum),
        sum(minimum, preferred.len() as int) <= available < sum(preferred, preferred.len() as int),
        0 <= k <= preferred.len(),
    ensures
        ({
            let n = preferred.len() as int;
            let after = resolved(available, preferred, minimum, expands);
            let deficit = sum(preferred, n) - available;
            let total = sum(preferred, n) - sum(minimum, n);
            let given = sum(preferred, k) - sum(after, k);
            let slack = sum(preferred, k) - sum(minimum, k);
            &&& 0 <= slack
            &&& total * given <= deficit * slack
            &&& deficit * slack - k * (total - 1) <= total * given
            &&& forall|i: int| 0 <= i < k ==> minimum[i] <= #[trigger] after[i] <= preferred[i]
        }),
    decreases k,
{
    let n = preferred.len() as int;
    let after = resolved(available, preferred, minimum, expands);
    let deficit = sum(preferred, n) - available;
    let total = sum(preferred, n) - sum(minimum, n);
    if k > 0 {
        lemma_shrunk_sum(available, preferred, minimum, expands, k - 1);
        lemma_leftover_exact(available, preferred, n);
        lemma_total_slack_exact(preferred, minimum, n);
        let p = preferred[k - 1];
        let m = minimum[k - 1];
        let s = p - m;
        let part = (deficit * s) / total;
        lemma_part_bounds(deficit, s as int, total);
        let given_before = sum(preferred, k - 1) - sum(after, k - 1);
        let slack_before = sum(preferred, k - 1) - sum(minimum, k - 1);
        assert(total * (given_before + part) == total * given_before + total * part)
            by (nonlinear_arith);
        assert(deficit * (slack_before + s) == deficit * slack_before + deficit * s)
            by (nonlinear_arith);
        assert(k * (total - 1) == (k - 1) * (total - 1) + (total - 1)) by (nonlinear_arith);
    } else {
        assert(total * 0 == 0) by (nonlinear_arith);
    }
}

/// A lack of space is shared in proportion to slack: where every line has a
/// least size between zero and its preferred size, and the least sizes fit
/// into the available space while the preferred sizes do not, every line
/// ends between its least and its preferred size, and the lines together
/// take up the available space, with less than one unit per line over.
pub proof fn lemma_deficit_is_shared(
    available: i64,
    preferred: Seq<i64>,
    minimum: Seq<i64>,
    expands: Seq<bool>,
)
    requires
        modest(available, preferred, minimum, expands),
        ordered(preferred, minimum),
        sum(minimum, preferred.len() as int) <= available < sum(preferred, preferred.len() as int),
    ensures
        ({
            let n = preferred.len() as int;
            let after = resolved(available, preferred, minimum, expands);
            &&& available <= sum(after, n) < available + n
            &&& forall|i: int| 0 <= i < n ==> minimum[i] <= #[trigger] after[i] <= preferred[i]
        }),
{
    let n = preferred.len() as int;
    let after = resolved(available, preferred, minimum, expands);
    let deficit = sum(preferred, n) - available;
    let total = sum(preferred, n) - sum(minimum, n);
    let given = sum(preferred, n) - sum(after, n);
    lemma_shrunk_sum(available, preferred, minimum, expands, n);
    assert(given <= deficit) by (nonlinear_arith)
        requires
            total * given <= deficit * total,
            total > 0,
    ;
    assert(given > deficit - n) by (nonlinear_arith)
        requires
            deficit * total - n * (total - 1) <= total * given,
            total > 0,
            n > 0,
    ;
}

} // verus!
