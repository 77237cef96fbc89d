//! Progress accounting: a running count out of a total, normalized to an
//! integer percentage in `[0, 100]`.

use vstd::arithmetic::div_mod::{
    lemma_div_by_multiple, lemma_div_is_ordered, lemma_div_pos_is_pos,
};
use vstd::prelude::*;

verus! {

/// The percentage that `current` out of `total` amounts to, rounded down;
/// a total of zero reports `0`.
pub open spec fn percent_of(current: int, total: int) -> int {
    if total == 0 {
        0
    } else {
        current * 100 / total
    }
}

/// A percentage of a count within its total lies in `[0, 100]`.
pub proof fn lemma_percent_bounds(current: int, total: int)
    requires
        0 <= current <= total,
    ensures
        0 <= percent_of(current, total) <= 100,
{
    if total != 0 {
        lemma_div_pos_is_pos(current * 100, total);
        lemma_div_is_ordered(current * 100, total * 100, total);
        lemma_div_by_multiple(100, total);
        assert(total * 100 == 100 * total) by (nonlinear_arith);
        assert(current * 100 <= total * 100) by (nonlinear_arith)
            requires
                current <= total,
        ;
    }
}

/// Progress never falls back: a later count reports at least the
/// percentage of an earlier one.
pub proof fn lemma_percent_monotone(earlier: int, later: int, total: int)
    requires
        0 <= earlier <= later <= total,
    ensures
        percent_of(earlier, total) <= percent_of(later, total),
{
    if total != 0 {
        assert(earlier * 100 <= later * 100) by (nonlinear_arith)
            requires
                earlier <= later,
        ;
        lemma_div_is_ordered(earlier * 100, later * 100, total);
    }
}

/// A finished batch reports exactly `100`.
pub proof fn lemma_percent_complete(total: int)
    requires
        total > 0,
    ensures
        percent_of(total, total) == 100,
{
    lemma_div_by_multiple(100, total);
    assert(total * 100 == 100 * total) by (nonlinear_arith);
}

/// Convert a running count out of a total into an integer percentage.
pub fn progress_percent(current: usize, total: usize) -> (r: i32)
    requires
        current <= total,
    ensures
        r == percent_of(current as int, total as int),
        0 <= r <= 100,
{
    proof {
        lemma_percent_bounds(current as int, total as int);
    }
    if total == 0 {
        0
    } else {
        let p: u128 = (current as u128) * 100 / (total as u128);
        p as i32
    }
}

/// The full stream of percentages that a batch of `total` items emits:
/// exactly one notification per item, each the percentage reached after
/// that item, never decreasing, and ending at `100`.
pub fn progress_sequence(total: usize) -> (r: Vec<i32>)
    ensures
        r@.len() == total,
        forall|i: int| 0 <= i < total ==> r@[i] == percent_of(i + 1, total as int),
        forall|i: int, j: int| 0 <= i <= j < total ==> r@[i] <= r@[j],
        total > 0 ==> r@[total - 1] == 100,
{
    proof {
        assert forall|i: int, j: int|
            #![trigger percent_of(i + 1, total as int), percent_of(j + 1, total as int)]
            0 <= i <= j < total implies percent_of(i + 1, total as int) <= percent_of(
            j + 1,
            total as int,
        ) by {
            lemma_percent_monotone(i + 1, j + 1, total as int);
        }
        if total > 0 {
            lemma_percent_complete(total as int);
        }
    }
    let mut out: Vec<i32> = Vec::new();
    let mut done: usize = 0;
    while done < total
        invariant
            done <= total,
            out@.len() == done,
            forall|i: int| 0 <= i < done ==> out@[i] == percent_of(i + 1, total as int),
        decreases total - done,
    {
        done = done + 1;
        let p = progress_percent(done, total);
        out.push(p);
    }
    out
}

} // verus!
