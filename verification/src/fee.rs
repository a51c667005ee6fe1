//! Fee estimator: a pure function from an asset count and the platform
//! configuration to the native-currency amount that must be escrowed.

use vstd::prelude::*;
use vstd::arithmetic::div_mod::lemma_div_is_ordered;
use vstd::arithmetic::mul::lemma_mul_inequality;

verus! {

/// The fee for distributing `num_assets` assets: the number of required
/// batches, `ceil(num_assets / max_batch_size)`, times the fee per batch.
pub open spec fn spec_fee(num_assets: nat, max_batch_size: nat, fee_per_batch: nat) -> nat
    recommends
        max_batch_size > 0,
{
    ((num_assets + max_batch_size - 1) / max_batch_size as int) as nat * fee_per_batch
}

/// Computes the required fee from the platform parameters.
pub fn compute_fee(max_batch_size: u64, fee_per_batch: u128, num_assets: u64) -> (r: u128)
    requires
        max_batch_size > 0,
        spec_fee(num_assets as nat, max_batch_size as nat, fee_per_batch as nat) <= u128::MAX,
    ensures
        r as nat == spec_fee(num_assets as nat, max_batch_size as nat, fee_per_batch as nat),
{
    let max = max_batch_size as u128;
    let batches = (num_assets as u128 + max - 1) / max;
    proof {
        assert(batches as nat * fee_per_batch as nat == spec_fee(
            num_assets as nat,
            max_batch_size as nat,
            fee_per_batch as nat,
        ));
    }
    batches * fee_per_batch
}

/// The fee is monotonically non-decreasing in the asset count.
pub proof fn lemma_fee_monotonic(n1: nat, n2: nat, max_batch_size: nat, fee_per_batch: nat)
    requires
        max_batch_size > 0,
        n1 <= n2,
    ensures
        spec_fee(n1, max_batch_size, fee_per_batch) <= spec_fee(n2, max_batch_size, fee_per_batch),
{
    let m = max_batch_size as int;
    let f = fee_per_batch as int;
    lemma_div_is_ordered(n1 + m - 1, n2 + m - 1, m);
    lemma_mul_inequality((n1 + m - 1) / m, (n2 + m - 1) / m, f);
}

} // verus!
