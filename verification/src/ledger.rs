//! A donor's summary profile and the records of their donations.

use vstd::prelude::*;
use vstd::string::StringSliceAdditionalSpecFns;
use crate::amount::{amount_limit, Amount, managed_exceeds, managed_sum};
use crate::bytes::{bytes_equal, copy_bytes};
use crate::factory::PhilanthrifyFactory;

verus! {

/// The summary of all that one donor has given.
#[derive(Debug)]
pub struct DonorProfile {
    pub total_donated: Amount,
    pub donation_count: u64,
    pub first_donation_timestamp: u64,
    pub last_donation_timestamp: u64,
    pub highest_single_donation: Amount,
    pub favorite_charity: Vec<u8>,
    pub favorite_project: Vec<u8>,
}

/// One donation, as it is kept for good.
#[derive(Debug)]
pub struct DonationRecord {
    pub amount: Amount,
    pub timestamp: u64,
    pub entity_name: Vec<u8>,
    pub entity_type: Vec<u8>,
    pub nft_nonce: u64,
}

/// A profile as numbers and byte strings.
pub struct ProfileModel {
    pub total_donated: nat,
    pub donation_count: nat,
    pub first_donation_timestamp: u64,
    pub last_donation_timestamp: u64,
    pub highest_single_donation: nat,
    pub favorite_charity: Seq<u8>,
    pub favorite_project: Seq<u8>,
}

/// A record as numbers and byte strings.
pub struct RecordModel {
    pub amount: nat,
    pub timestamp: u64,
    pub entity_name: Seq<u8>,
    pub entity_type: Seq<u8>,
    pub nft_nonce: nat,
}

/// The entity type of a charity. Every other type counts as a project.
pub open spec fn charity_type() -> Seq<u8> {
    "charity".spec_bytes()
}

impl ProfileModel {
    /// The profile of someone who has not given yet, made at `timestamp`.
    pub open spec fn fresh(timestamp: u64) -> ProfileModel {
        ProfileModel {
            total_donated: 0,
            donation_count: 0,
            first_donation_timestamp: timestamp,
            last_donation_timestamp: timestamp,
            highest_single_donation: 0,
            favorite_charity: Seq::empty(),
            favorite_project: Seq::empty(),
        }
    }

    /// The profile after one more donation. The favorite of the entity's type
    /// becomes the entity last given to.
    pub open spec fn after(
        self,
        amount: nat,
        entity_name: Seq<u8>,
        entity_type: Seq<u8>,
        timestamp: u64,
    ) -> ProfileModel {
        ProfileModel {
            total_donated: self.total_donated + amount,
            donation_count: self.donation_count + 1,
            first_donation_timestamp: self.first_donation_timestamp,
            last_donation_timestamp: timestamp,
            highest_single_donation: if amount > self.highest_single_donation {
                amount
            } else {
                self.highest_single_donation
            },
            favorite_charity: if entity_type == charity_type() {
                entity_name
            } else {
                self.favorite_charity
            },
            favorite_project: if entity_type == charity_type() {
                self.favorite_project
            } else {
                entity_name
            },
        }
    }
}

impl View for DonorProfile {
    type V = ProfileModel;

    open spec fn view(&self) -> ProfileModel {
        ProfileModel {
            total_donated: self.total_donated@,
            donation_count: self.donation_count as nat,
            first_donation_timestamp: self.first_donation_timestamp,
            last_donation_timestamp: self.last_donation_timestamp,
            highest_single_donation: self.highest_single_donation@,
            favorite_charity: self.favorite_charity@,
            favorite_project: self.favorite_project@,
        }
    }
}

impl View for DonationRecord {
    type V = RecordModel;

    open spec fn view(&self) -> RecordModel {
        RecordModel {
            amount: self.amount@,
            timestamp: self.timestamp,
            entity_name: self.entity_name@,
            entity_type: self.entity_type@,
            nft_nonce: self.nft_nonce as nat,
        }
    }
}

impl DeepView for DonationRecord {
    type V = RecordModel;

    open spec fn deep_view(&self) -> RecordModel {
        self@
    }
}

impl Clone for DonorProfile {
    fn clone(&self) -> (copy: Self)
        ensures
            copy@ == self@,
    {
        DonorProfile {
            total_donated: self.total_donated.clone(),
            donation_count: self.donation_count,
            first_donation_timestamp: self.first_donation_timestamp,
            last_donation_timestamp: self.last_donation_timestamp,
            highest_single_donation: self.highest_single_donation.clone(),
            favorite_charity: self.favorite_charity.clone(),
            favorite_project: self.favorite_project.clone(),
        }
    }
}

impl Clone for DonationRecord {
    fn clone(&self) -> (copy: Self)
        ensures
            copy@ == self@,
    {
        DonationRecord {
            amount: self.amount.clone(),
            timestamp: self.timestamp,
            entity_name: self.entity_name.clone(),
            entity_type: self.entity_type.clone(),
            nft_nonce: self.nft_nonce,
        }
    }
}

impl DonorProfile {
    /// The profile of someone who has not given yet.
    pub fn new(current_timestamp: u64) -> (profile: Self)
        ensures
            profile@ == ProfileModel::fresh(current_timestamp),
    {
        DonorProfile {
            total_donated: Amount::zero(),
            donation_count: 0,
            first_donation_timestamp: current_timestamp,
            last_donation_timestamp: current_timestamp,
            highest_single_donation: Amount::zero(),
            favorite_charity: Vec::new(),
            favorite_project: Vec::new(),
        }
    }
}

impl PhilanthrifyFactory {
    /// Counts one donation into a profile. The total and the count grow, the
    /// highest single donation moves only when strictly exceeded, and the first
    /// timestamp never changes. The new total must be below the limit of
    /// amounts, and the count below that of its counter.
    pub fn update_donor_profile(
        profile: &mut DonorProfile,
        amount: &Amount,
        entity_name: &[u8],
        entity_type: &[u8],
        current_timestamp: u64,
    )
        requires
            amount@ > 0,
            old(profile).donation_count < u64::MAX,
            old(profile).total_donated@ + amount@ < amount_limit(),
        ensures
            final(profile)@ == old(profile)@.after(
                amount@,
                entity_name@,
                entity_type@,
                current_timestamp,
            ),
            final(profile)@.donation_count > old(profile)@.donation_count,
            final(profile)@.total_donated > old(profile)@.total_donated,
            final(profile)@.highest_single_donation >= old(profile)@.highest_single_donation,
            final(profile)@.first_donation_timestamp == old(profile)@.first_donation_timestamp,
    {
        profile.total_donated = managed_sum(&profile.total_donated, amount);
        profile.donation_count = profile.donation_count + 1;
        if managed_exceeds(amount, &profile.highest_single_donation) {
            profile.highest_single_donation = amount.clone();
        }
        profile.last_donation_timestamp = current_timestamp;
        if bytes_equal(entity_type, "charity".as_bytes()) {
            profile.favorite_charity = copy_bytes(entity_name);
        } else {
            profile.favorite_project = copy_bytes(entity_name);
        }
    }
}

} // verus!
