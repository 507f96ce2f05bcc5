//! Running totals over all donors.

use vstd::prelude::*;
use crate::amount::{amount_limit, Amount, managed_sum};
use crate::factory::PhilanthrifyFactory;

verus! {

/// The totals of the whole network.
#[derive(Debug)]
pub struct GlobalStats {
    pub total_donations_amount: Amount,
    pub total_donations_count: u64,
    pub total_unique_donors: u64,
    pub total_nfts_minted: u64,
}

/// The totals as numbers.
pub struct StatsModel {
    pub total_donations_amount: nat,
    pub total_donations_count: nat,
    pub total_unique_donors: nat,
    pub total_nfts_minted: nat,
}

impl View for GlobalStats {
    type V = StatsModel;

    open spec fn view(&self) -> StatsModel {
        StatsModel {
            total_donations_amount: self.total_donations_amount@,
            total_donations_count: self.total_donations_count as nat,
            total_unique_donors: self.total_unique_donors as nat,
            total_nfts_minted: self.total_nfts_minted as nat,
        }
    }
}

impl Clone for GlobalStats {
    fn clone(&self) -> (copy: Self)
        ensures
            copy@ == self@,
    {
        GlobalStats {
            total_donations_amount: self.total_donations_amount.clone(),
            total_donations_count: self.total_donations_count,
            total_unique_donors: self.total_unique_donors,
            total_nfts_minted: self.total_nfts_minted,
        }
    }
}

impl StatsModel {
    /// The totals before any donation.
    pub open spec fn empty() -> StatsModel {
        StatsModel {
            total_donations_amount: 0,
            total_donations_count: 0,
            total_unique_donors: 0,
            total_nfts_minted: 0,
        }
    }

    /// The totals after one more donation.
    pub open spec fn after(self, amount: nat, was_new_donor: bool, minted_new: bool) -> StatsModel {
        StatsModel {
            total_donations_amount: self.total_donations_amount + amount,
            total_donations_count: self.total_donations_count + 1,
            total_unique_donors: self.total_unique_donors + if was_new_donor {
                1nat
            } else {
                0nat
            },
            total_nfts_minted: self.total_nfts_minted + if minted_new {
                1nat
            } else {
                0nat
            },
        }
    }
}

impl GlobalStats {
    /// The totals before any donation.
    pub fn new() -> (stats: Self)
        ensures
            stats@ == StatsModel::empty(),
    {
        GlobalStats {
            total_donations_amount: Amount::zero(),
            total_donations_count: 0,
            total_unique_donors: 0,
            total_nfts_minted: 0,
        }
    }
}

impl PhilanthrifyFactory {
    /// Counts one donation into the totals: its amount, the donation itself,
    /// its donor if new, its badge if newly minted. The new total must be below
    /// the limit of amounts, and the counts below those of their counters.
    pub fn update_global_stats(
        stats: &mut GlobalStats,
        donation_amount: &Amount,
        was_new_donor: bool,
        minted_new_nft: bool,
    )
        requires
            old(stats).total_donations_amount@ + donation_amount@ < amount_limit(),
            old(stats).total_donations_count < u64::MAX,
            was_new_donor ==> old(stats).total_unique_donors < u64::MAX,
            minted_new_nft ==> old(stats).total_nfts_minted < u64::MAX,
        ensures
            final(stats)@ == old(stats)@.after(donation_amount@, was_new_donor, minted_new_nft),
    {
        stats.total_donations_amount = managed_sum(&stats.total_donations_amount, donation_amount);
        stats.total_donations_count = stats.total_donations_count + 1;
        if minted_new_nft {
            stats.total_nfts_minted = stats.total_nfts_minted + 1;
        }
        if was_new_donor {
            stats.total_unique_donors = stats.total_unique_donors + 1;
        }
    }
}

} // verus!
