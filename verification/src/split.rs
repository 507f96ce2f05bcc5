//! One payment split into equal donations.

use vstd::prelude::*;
use crate::amount::{Amount, managed_quotient};
use crate::error::DonationError;

verus! {

/// The most donations that one payment can be split into.
pub const MAX_BATCH: u64 = 100;

/// What each donation of a batch gets: the payment divided by their number,
/// rounded down. What the division leaves is given up.
pub open spec fn share(total: nat, count: u64) -> Result<nat, DonationError> {
    if count == 0 || count > MAX_BATCH {
        Err(DonationError::InvalidBatchSize)
    } else if total / (count as nat) == 0 {
        Err(DonationError::PaymentTooSmall)
    } else {
        Ok(total / (count as nat))
    }
}

/// An amount, or why there is none, as a number.
pub open spec fn share_model(result: Result<Amount, DonationError>) -> Result<nat, DonationError> {
    match result {
        Ok(amount) => Ok(amount@),
        Err(error) => Err(error),
    }
}

/// The equal share of each of `count` donations in a payment. A batch holds
/// one to a hundred donations, and every one of them must get something. The
/// shares never add up to more than the payment, and what they leave of it is
/// less than one unit for each donation.
pub fn split_payment(total: &Amount, count: u64) -> (result: Result<Amount, DonationError>)
    ensures
        share_model(result) == share(total@, count),
        result matches Ok(each) ==> {
            &&& 1 <= count <= MAX_BATCH
            &&& each@ > 0
            &&& each@ * count <= total@
            &&& total@ - each@ * count < count
        },
{
    if count == 0 || count > MAX_BATCH {
        return Err(DonationError::InvalidBatchSize);
    }
    proof {
        use_type_invariant(total);
        assert(total@ / (count as nat) <= total@) by (nonlinear_arith)
            requires
                count > 0,
        ;
    }
    let each = managed_quotient(total, &Amount::from_u64(count));
    if each.is_zero() {
        return Err(DonationError::PaymentTooSmall);
    }
    proof {
        lemma_share_exact(total@, count);
    }
    Ok(each)
}

/// Where a payment can be split, the shares never exceed it, each is more than
/// nothing, and they leave less than one unit for each share.
pub proof fn lemma_share_exact(total: nat, count: u64)
    requires
        share(total, count) is Ok,
    ensures
        share(total, count)->Ok_0 > 0,
        share(total, count)->Ok_0 * count <= total,
        total - share(total, count)->Ok_0 * count < count,
{
    let each = total / (count as nat);
    vstd::arithmetic::div_mod::lemma_fundamental_div_mod(total as int, count as int);
    vstd::arithmetic::div_mod::lemma_mod_bound(total as int, count as int);
    assert(each * count == count * each) by (nonlinear_arith);
}

} // verus!
