//! Arithmetic of counters that start over at a period.

use vstd::prelude::*;
use vstd::arithmetic::div_mod::{
    lemma_add_mod_noop,
    lemma_mod_bound,
    lemma_mod_self_0,
    lemma_small_mod,
};

verus! {

/// Counting up by one moves a remainder up by one, or back to zero from the
/// last place before the divisor.
pub proof fn lemma_successor_mod(n: int, k: int)
    requires
        0 <= n,
        1 <= k,
    ensures
        0 <= n % k < k,
        (n + 1) % k == if n % k + 1 < k {
            n % k + 1
        } else {
            0
        },
{
    lemma_mod_bound(n, k);
    lemma_add_mod_noop(n, 1, k);
    if k > 1 {
        lemma_small_mod(1, k as nat);
    } else {
        lemma_mod_self_0(1);
    }
    if n % k + 1 < k {
        lemma_small_mod((n % k + 1) as nat, k as nat);
    } else {
        lemma_mod_self_0(k);
    }
    lemma_small_mod(0, k as nat);
}

} // verus!
