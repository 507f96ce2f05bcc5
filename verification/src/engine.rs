//! One donation, from the request to what is kept of it: the donor's badge,
//! their profile, the record for their ledger and the totals.

use vstd::prelude::*;
use crate::address::Address;
use crate::amount::{amount_limit, Amount};
use crate::bytes::copy_bytes;
use crate::collection::{collection_configured, is_collection_configured};
use crate::error::DonationError;
use crate::factory::PhilanthrifyFactory;
use crate::ledger::{DonationRecord, DonorProfile, ProfileModel};
use crate::model::{attributed, EventModel, OutcomeModel};
use crate::registry::name_model;
use crate::request::MintRequest;
use crate::stats::GlobalStats;

verus! {

/// What is made known of a donation that was accepted.
#[derive(Debug)]
pub enum DonationEvent {
    /// A badge was issued to the donor.
    BadgeMinted { donor: Address, entity_name: Vec<u8>, badge_id: u64 },
    /// The donation was recorded.
    DonationRecorded { donor: Address, amount: Amount, entity_name: Vec<u8> },
}

/// What the factory answers to a donation that it accepted.
#[derive(Debug)]
pub struct DonationOutcome {
    /// The donor's badge.
    pub badge_id: u64,
    /// Whether the badge is to be issued now.
    pub minted_new: bool,
    /// The name to issue the badge under. A badge that exists keeps its name.
    pub badge_name: Option<Vec<u8>>,
    /// The attributes to write to the badge.
    pub attributes: Vec<u8>,
    /// The donor's profile after the donation.
    pub profile_snapshot: DonorProfile,
    /// The totals after the donation.
    pub stats_snapshot: GlobalStats,
    /// What is to be made known of the donation, in this order.
    pub events: Vec<DonationEvent>,
}

/// A donation that was accepted: the answer to it, and the record to append to
/// the donor's ledger.
#[derive(Debug)]
pub struct Attribution {
    pub outcome: DonationOutcome,
    pub record: DonationRecord,
}

impl DeepView for DonationEvent {
    type V = EventModel;

    open spec fn deep_view(&self) -> EventModel {
        match *self {
            DonationEvent::BadgeMinted { donor, entity_name, badge_id } => EventModel::BadgeMinted {
                donor: donor@,
                entity_name: entity_name@,
                badge_id: badge_id as nat,
            },
            DonationEvent::DonationRecorded {
                donor,
                amount,
                entity_name,
            } => EventModel::DonationRecorded {
                donor: donor@,
                amount: amount@,
                entity_name: entity_name@,
            },
        }
    }
}

impl View for DonationOutcome {
    type V = OutcomeModel;

    open spec fn view(&self) -> OutcomeModel {
        OutcomeModel {
            badge_id: self.badge_id as nat,
            minted_new: self.minted_new,
            badge_name: name_model(self.badge_name),
            attributes: self.attributes@,
            profile_snapshot: self.profile_snapshot@,
            stats_snapshot: self.stats_snapshot@,
            events: self.events.deep_view(),
        }
    }
}

/// A profile as numbers and byte strings, where there is one.
pub open spec fn profile_model(profile: Option<DonorProfile>) -> Option<ProfileModel> {
    match profile {
        Some(known) => Some(known@),
        None => None,
    }
}

/// A badge as a number, where there is one.
pub open spec fn badge_model(badge: Option<u64>) -> Option<nat> {
    match badge {
        Some(number) => Some(number as nat),
        None => None,
    }
}

impl PhilanthrifyFactory {
    /// Attributes one donation to its donor, of whom the profile and the badge
    /// are given, where they have any. A donation of nothing is turned away,
    /// and so is any donation while `nft_collection` names no collection.
    /// Nothing is changed: what is to be kept comes back. The new totals must
    /// be below the limit of amounts, and the counts below those of their
    /// counters.
    pub fn attribute_donation(
        nft_collection: &[u8],
        known_profile: Option<DonorProfile>,
        existing_badge: Option<u64>,
        nft_nonce: u64,
        statistics: &GlobalStats,
        request: &MintRequest,
        current_timestamp: u64,
    ) -> (result: Result<Attribution, DonationError>)
        requires
            statistics.total_donations_amount@ + request@.amount < amount_limit(),
            statistics.total_donations_count < u64::MAX,
            known_profile matches Some(known) ==> known.donation_count < u64::MAX
                && known.total_donated@ + request@.amount < amount_limit(),
            known_profile is None ==> statistics.total_unique_donors < u64::MAX,
            existing_badge is None ==> nft_nonce < u64::MAX && statistics.total_nfts_minted
                < u64::MAX,
        ensures
            match result {
                Ok(attribution) => {
                    let donation = request@.at(current_timestamp);
                    &&& request@.amount > 0
                    &&& collection_configured(nft_collection@)
                    &&& attribution.outcome@ == attributed(
                        profile_model(known_profile),
                        badge_model(existing_badge),
                        nft_nonce as nat,
                        statistics@,
                        donation,
                    )
                    &&& attribution.record@ == donation.record(attribution.outcome.badge_id as nat)
                },
                Err(error) => if request@.amount == 0 {
                    error == DonationError::ZeroAmount
                } else {
                    !collection_configured(nft_collection@) && error
                        == DonationError::CollectionNotConfigured
                },
            },
    {
        if request.amount.is_zero() {
            return Err(DonationError::ZeroAmount);
        }
        if !is_collection_configured(nft_collection) {
            return Err(DonationError::CollectionNotConfigured);
        }
        let was_new_donor = known_profile.is_none();
        let mut profile = match known_profile {
            Some(known) => known,
            None => DonorProfile::new(current_timestamp),
        };
        let decision = Self::mint_or_update(
            existing_badge,
            nft_nonce,
            request.entity_name.as_slice(),
            request.entity_type.as_slice(),
            &request.amount,
            request.tags.as_slice(),
        );
        Self::update_donor_profile(
            &mut profile,
            &request.amount,
            request.entity_name.as_slice(),
            request.entity_type.as_slice(),
            current_timestamp,
        );
        let record = DonationRecord {
            amount: request.amount.clone(),
            timestamp: current_timestamp,
            entity_name: copy_bytes(request.entity_name.as_slice()),
            entity_type: copy_bytes(request.entity_type.as_slice()),
            nft_nonce: decision.badge_id,
        };
        let mut totals = statistics.clone();
        Self::update_global_stats(&mut totals, &request.amount, was_new_donor, decision.minted_new);
        let mut events: Vec<DonationEvent> = Vec::new();
        if decision.minted_new {
            events.push(
                DonationEvent::BadgeMinted {
                    donor: request.donor,
                    entity_name: copy_bytes(request.entity_name.as_slice()),
                    badge_id: decision.badge_id,
                },
            );
        }
        events.push(
            DonationEvent::DonationRecorded {
                donor: request.donor,
                amount: request.amount.clone(),
                entity_name: copy_bytes(request.entity_name.as_slice()),
            },
        );
        assert(events.deep_view() =~= request@.at(current_timestamp).events(
            decision.badge_id as nat,
            decision.minted_new,
        ));
        Ok(
            Attribution {
                outcome: DonationOutcome {
                    badge_id: decision.badge_id,
                    minted_new: decision.minted_new,
                    badge_name: decision.badge_name,
                    attributes: decision.attributes,
                    profile_snapshot: profile,
                    stats_snapshot: totals,
                    events,
                },
                record,
            },
        )
    }
}

} // verus!
