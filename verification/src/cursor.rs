//! A selection that moves round a list of fixed length.

use vstd::prelude::*;
use vstd::arithmetic::div_mod::{lemma_mod_self_0, lemma_small_mod};

verus! {

/// The index after `i` in a list of `n` items; after the last comes the first.
pub open spec fn spec_next(i: int, n: int) -> int {
    (i + 1) % n
}

/// The index before `i` in a list of `n` items; before the first comes the last.
pub open spec fn spec_previous(i: int, n: int) -> int {
    if i == 0 {
        n - 1
    } else {
        i - 1
    }
}

/// `spec_next` applied `k` times.
pub open spec fn next_times(i: int, n: int, k: nat) -> int
    decreases k,
{
    if k == 0 {
        i
    } else {
        spec_next(next_times(i, n, (k - 1) as nat), n)
    }
}

/// `spec_previous` applied `k` times.
pub open spec fn previous_times(i: int, n: int, k: nat) -> int
    decreases k,
{
    if k == 0 {
        i
    } else {
        spec_previous(previous_times(i, n, (k - 1) as nat), n)
    }
}

/// Moving forward keeps the index inside the list.
pub proof fn next_stays_inside(i: int, n: int)
    requires
        0 <= i < n,
    ensures
        0 <= spec_next(i, n) < n,
        i + 1 < n ==> spec_next(i, n) == i + 1,
        i + 1 == n ==> spec_next(i, n) == 0,
{
    if i + 1 < n {
        lemma_small_mod((i + 1) as nat, n as nat);
    } else {
        lemma_mod_self_0(n);
    }
}

/// Moving backward keeps the index inside the list.
pub proof fn previous_stays_inside(i: int, n: int)
    requires
        0 <= i < n,
    ensures
        0 <= spec_previous(i, n) < n,
{
}

/// Moving backward undoes moving forward, and moving forward undoes moving backward.
pub proof fn next_and_previous_cancel(i: int, n: int)
    requires
        0 <= i < n,
    ensures
        spec_previous(spec_next(i, n), n) == i,
        spec_next(spec_previous(i, n), n) == i,
{
    next_stays_inside(i, n);
    if i == 0 {
        next_stays_inside(n - 1, n);
    } else {
        next_stays_inside(i - 1, n);
    }
}

proof fn next_times_inside(i: int, n: int, k: nat)
    requires
        0 <= i < n,
    ensures
        0 <= next_times(i, n, k) < n,
        k <= n - i - 1 ==> next_times(i, n, k) == i + k,
        n - i <= k <= n ==> next_times(i, n, k) == i + k - n,
    decreases k,
{
    if k > 0 {
        next_times_inside(i, n, (k - 1) as nat);
        next_stays_inside(next_times(i, n, (k - 1) as nat), n);
    }
}

proof fn previous_times_inside(i: int, n: int, k: nat)
    requires
        0 <= i < n,
    ensures
        0 <= previous_times(i, n, k) < n,
        k <= i ==> previous_times(i, n, k) == i - k,
        i < k <= n ==> previous_times(i, n, k) == i - k + n,
    decreases k,
{
    if k > 0 {
        previous_times_inside(i, n, (k - 1) as nat);
    }
}

/// In a list of `n` items the selection is always a valid index, however often it
/// moves, and `n` moves in one direction bring it back to where it began.
pub proof fn selection_is_cyclic(i: int, n: int, k: nat)
    requires
        0 <= i < n,
    ensures
        0 <= next_times(i, n, k) < n,
        0 <= previous_times(i, n, k) < n,
        next_times(i, n, n as nat) == i,
        previous_times(i, n, n as nat) == i,
{
    next_times_inside(i, n, k);
    previous_times_inside(i, n, k);
    next_times_inside(i, n, n as nat);
    previous_times_inside(i, n, n as nat);
}

} // verus!
