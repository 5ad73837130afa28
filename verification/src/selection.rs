//! The selection-cursor index arithmetic: move-next and move-previous
//! with and without wraparound, and the laws of repeated movement.

use vstd::prelude::*;

verus! {

/// The index after one move-next over a list of `n` items.
pub open spec fn next_index_spec(i: int, n: int, wrap: bool) -> int {
    if wrap {
        if n == 0 {
            i
        } else if i + 1 >= n {
            0
        } else {
            i + 1
        }
    } else {
        if i + 1 < n {
            i + 1
        } else {
            i
        }
    }
}

/// The index after one move-previous over a list of `n` items.
pub open spec fn prev_index_spec(i: int, n: int, wrap: bool) -> int {
    if wrap {
        if n == 0 {
            i
        } else if i == 0 {
            n - 1
        } else {
            i - 1
        }
    } else {
        if i > 0 {
            i - 1
        } else {
            i
        }
    }
}

/// The index after `k` repeated move-next steps.
pub open spec fn iter_next(i: int, n: int, wrap: bool, k: nat) -> int
    decreases k,
{
    if k == 0 {
        i
    } else {
        next_index_spec(iter_next(i, n, wrap, (k - 1) as nat), n, wrap)
    }
}

proof fn lemma_iter_next_wrap_closed(i: int, n: int, k: nat)
    requires
        n > 0,
        0 <= i < n,
        k <= n,
    ensures
        iter_next(i, n, true, k) == if i + k < n {
            i + k
        } else {
            i + k - n
        },
    decreases k,
{
    if k > 0 {
        lemma_iter_next_wrap_closed(i, n, (k - 1) as nat);
    }
}

/// Wrap invariant, wrapping case: over a non-empty list, exactly `n`
/// move-next steps with wrap enabled return the cursor to its starting
/// index.
pub proof fn lemma_wrap_cycle(i: int, n: int)
    requires
        n > 0,
        0 <= i < n,
    ensures
        iter_next(i, n, true, n as nat) == i,
{
    lemma_iter_next_wrap_closed(i, n, n as nat);
}

proof fn lemma_iter_next_nowrap_closed(i: int, n: int, k: nat)
    requires
        n > 0,
        0 <= i < n,
    ensures
        iter_next(i, n, false, k) == if i + k < n {
            i + k
        } else {
            n - 1
        },
    decreases k,
{
    if k > 0 {
        lemma_iter_next_nowrap_closed(i, n, (k - 1) as nat);
    }
}

/// Wrap invariant, non-wrapping case: with wrap disabled the cursor
/// stops at the last index `n - 1`, and any further move-next steps are
/// no-ops.
pub proof fn lemma_nowrap_stops_at_end(i: int, n: int, k: nat)
    requires
        n > 0,
        0 <= i < n,
        k >= n - 1 - i,
    ensures
        iter_next(i, n, false, k) == n - 1,
        next_index_spec(n - 1, n, false) == n - 1,
{
    lemma_iter_next_nowrap_closed(i, n, k);
}

/// A move-next step from a valid index lands on a valid index.
pub proof fn lemma_next_index_in_range(i: int, n: int, wrap: bool)
    requires
        n > 0,
        0 <= i < n,
    ensures
        0 <= next_index_spec(i, n, wrap) < n,
{
}

/// A move-previous step from a valid index lands on a valid index.
pub proof fn lemma_prev_index_in_range(i: int, n: int, wrap: bool)
    requires
        n > 0,
        0 <= i < n,
    ensures
        0 <= prev_index_spec(i, n, wrap) < n,
{
}

} // verus!
