//! The factory as a mathematical state machine: what a donation does to the
//! accounts, the badge counter and the totals.

use vstd::prelude::*;
use crate::attributes::{attributes_text, badge_name_text};
use crate::ledger::{ProfileModel, RecordModel};
use crate::stats::StatsModel;

verus! {

/// One donation as it reaches the factory.
pub struct Donation {
    pub donor: Seq<u8>,
    pub amount: nat,
    pub entity_name: Seq<u8>,
    pub entity_type: Seq<u8>,
    pub tags: Seq<Seq<u8>>,
    pub timestamp: u64,
}

/// What the factory keeps for one donor.
pub struct AccountModel {
    pub donor: Seq<u8>,
    pub profile: ProfileModel,
    pub donations: Seq<RecordModel>,
    pub badge: nat,
}

/// The state of the factory.
pub struct FactoryModel {
    pub global_admin: Seq<u8>,
    pub nft_collection: Seq<u8>,
    pub accounts: Seq<AccountModel>,
    pub nft_nonce: nat,
    pub statistics: StatsModel,
}

/// What is made known of a donation that was accepted.
pub enum EventModel {
    BadgeMinted { donor: Seq<u8>, entity_name: Seq<u8>, badge_id: nat },
    DonationRecorded { donor: Seq<u8>, amount: nat, entity_name: Seq<u8> },
}

/// What the factory answers to a donation that it accepted.
pub struct OutcomeModel {
    pub badge_id: nat,
    pub minted_new: bool,
    pub badge_name: Option<Seq<u8>>,
    pub attributes: Seq<u8>,
    pub profile_snapshot: ProfileModel,
    pub stats_snapshot: StatsModel,
    pub events: Seq<EventModel>,
}

impl Donation {
    /// What is made known of this donation under the given badge: that the
    /// badge was minted, where it was, and then that the donation was recorded.
    pub open spec fn events(self, badge: nat, minted_new: bool) -> Seq<EventModel> {
        let recorded = EventModel::DonationRecorded {
            donor: self.donor,
            amount: self.amount,
            entity_name: self.entity_name,
        };
        if minted_new {
            seq![
                EventModel::BadgeMinted {
                    donor: self.donor,
                    entity_name: self.entity_name,
                    badge_id: badge,
                },
                recorded,
            ]
        } else {
            seq![recorded]
        }
    }

    /// The record that is kept of this donation under the given badge.
    pub open spec fn record(self, badge: nat) -> RecordModel {
        RecordModel {
            amount: self.amount,
            timestamp: self.timestamp,
            entity_name: self.entity_name,
            entity_type: self.entity_type,
            nft_nonce: badge,
        }
    }
}

/// The profile that sums up a donor's records, the first of them made at
/// `first_timestamp`.
pub open spec fn summary(first_timestamp: u64, donations: Seq<RecordModel>) -> ProfileModel
    decreases donations.len(),
{
    if donations.len() == 0 {
        ProfileModel::fresh(first_timestamp)
    } else {
        summary(first_timestamp, donations.drop_last()).after(
            donations.last().amount,
            donations.last().entity_name,
            donations.last().entity_type,
            donations.last().timestamp,
        )
    }
}

/// What a donation comes to for a donor of whom the profile and the badge are
/// given, where they have any: the badge they have or the next after
/// `nft_nonce`, the metadata of the badge, the profile with the donation
/// counted in, and the totals with it counted in.
pub open spec fn attributed(
    known_profile: Option<ProfileModel>,
    existing_badge: Option<nat>,
    nft_nonce: nat,
    statistics: StatsModel,
    donation: Donation,
) -> OutcomeModel {
    let badge = match existing_badge {
        Some(badge) => badge,
        None => nft_nonce + 1,
    };
    let earlier = match known_profile {
        Some(known) => known,
        None => ProfileModel::fresh(donation.timestamp),
    };
    OutcomeModel {
        badge_id: badge,
        minted_new: existing_badge is None,
        badge_name: if existing_badge is None {
            Some(badge_name_text(badge, donation.entity_name, donation.amount))
        } else {
            None
        },
        attributes: attributes_text(
            donation.entity_name,
            donation.entity_type,
            donation.amount,
            badge,
            donation.tags,
        ),
        profile_snapshot: earlier.after(
            donation.amount,
            donation.entity_name,
            donation.entity_type,
            donation.timestamp,
        ),
        stats_snapshot: statistics.after(
            donation.amount,
            known_profile is None,
            existing_badge is None,
        ),
        events: donation.events(badge, existing_badge is None),
    }
}

impl AccountModel {
    /// The account of a donor who gives for the first time and gets `badge`.
    pub open spec fn opened(donation: Donation, badge: nat) -> AccountModel {
        AccountModel {
            donor: donation.donor,
            profile: ProfileModel::fresh(donation.timestamp).after(
                donation.amount,
                donation.entity_name,
                donation.entity_type,
                donation.timestamp,
            ),
            donations: seq![donation.record(badge)],
            badge,
        }
    }

    /// The account after its donor has given once more. The badge stays.
    pub open spec fn after(self, donation: Donation) -> AccountModel {
        AccountModel {
            donor: self.donor,
            profile: self.profile.after(
                donation.amount,
                donation.entity_name,
                donation.entity_type,
                donation.timestamp,
            ),
            donations: self.donations.push(donation.record(self.badge)),
            badge: self.badge,
        }
    }

    /// The profile sums up the records, and every record names the badge.
    pub open spec fn sound(self) -> bool {
        &&& self.donations.len() > 0
        &&& self.profile == summary(self.donations[0].timestamp, self.donations)
        &&& self.profile.donation_count == self.donations.len()
        &&& forall|j: int|
            0 <= j < self.donations.len() ==> (#[trigger] self.donations[j]).nft_nonce
                == self.badge
    }
}

impl FactoryModel {
    /// The factory before any donation.
    pub open spec fn fresh(global_admin: Seq<u8>) -> FactoryModel {
        FactoryModel {
            global_admin,
            nft_collection: Seq::empty(),
            accounts: Seq::empty(),
            nft_nonce: 0,
            statistics: StatsModel::empty(),
        }
    }

    /// Whether the donor has given before.
    pub open spec fn knows(self, donor: Seq<u8>) -> bool {
        exists|i: int| 0 <= i < self.accounts.len() && (#[trigger] self.accounts[i]).donor == donor
    }

    /// Where the account of a known donor stands.
    pub open spec fn slot(self, donor: Seq<u8>) -> int {
        choose|i: int| 0 <= i < self.accounts.len() && (#[trigger] self.accounts[i]).donor == donor
    }

    /// The badge of a donor, if they have one.
    pub open spec fn badge_of(self, donor: Seq<u8>) -> Option<nat> {
        if self.knows(donor) {
            Some(self.accounts[self.slot(donor)].badge)
        } else {
            None
        }
    }

    /// The profile of a donor, if they have given.
    pub open spec fn profile_of(self, donor: Seq<u8>) -> Option<ProfileModel> {
        if self.knows(donor) {
            Some(self.accounts[self.slot(donor)].profile)
        } else {
            None
        }
    }

    /// The records of a donor's donations, oldest first.
    pub open spec fn donations_of(self, donor: Seq<u8>) -> Seq<RecordModel> {
        if self.knows(donor) {
            self.accounts[self.slot(donor)].donations
        } else {
            Seq::empty()
        }
    }

    /// The factory after it has accepted a donation.
    pub open spec fn after(self, donation: Donation) -> FactoryModel {
        if self.knows(donation.donor) {
            let i = self.slot(donation.donor);
            FactoryModel {
                accounts: self.accounts.update(i, self.accounts[i].after(donation)),
                statistics: self.statistics.after(donation.amount, false, false),
                ..self
            }
        } else {
            FactoryModel {
                accounts: self.accounts.push(AccountModel::opened(donation, self.nft_nonce + 1)),
                nft_nonce: self.nft_nonce + 1,
                statistics: self.statistics.after(donation.amount, true, true),
                ..self
            }
        }
    }

    /// What the factory answers when it accepts a donation.
    pub open spec fn outcome(self, donation: Donation) -> OutcomeModel {
        attributed(
            self.profile_of(donation.donor),
            self.badge_of(donation.donor),
            self.nft_nonce,
            self.statistics,
            donation,
        )
    }

    /// What holds of the factory at all times: no donor has two accounts, the
    /// badges are numbered in the order in which the accounts were opened, the
    /// counter stands at the last of them, each donor and each badge has been
    /// counted once, and no donor has given more, or more often, than all
    /// donors together.
    #[verifier::opaque]
    pub open spec fn sound(self) -> bool {
        &&& forall|i: int, j: int|
            0 <= i < j < self.accounts.len() ==> (#[trigger] self.accounts[i]).donor
                != (#[trigger] self.accounts[j]).donor
        &&& forall|i: int|
            0 <= i < self.accounts.len() ==> (#[trigger] self.accounts[i]).badge == i + 1
        &&& forall|i: int| 0 <= i < self.accounts.len() ==> (#[trigger] self.accounts[i]).sound()
        &&& forall|i: int|
            0 <= i < self.accounts.len() ==> (#[trigger] self.accounts[i]).profile.donation_count
                <= self.statistics.total_donations_count
        &&& forall|i: int|
            0 <= i < self.accounts.len() ==> (#[trigger] self.accounts[i]).profile.total_donated
                <= self.statistics.total_donations_amount
        &&& self.nft_nonce == self.accounts.len()
        &&& self.statistics.total_unique_donors == self.accounts.len()
        &&& self.statistics.total_nfts_minted == self.accounts.len()
        &&& self.accounts.len() <= self.statistics.total_donations_count
    }

    /// Whether two factories hold the same accounts, counter and totals.
    pub open spec fn same_ledger(self, other: FactoryModel) -> bool {
        &&& self.accounts == other.accounts
        &&& self.nft_nonce == other.nft_nonce
        &&& self.statistics == other.statistics
    }

    /// The factory after it has accepted the given donations, one after the
    /// other.
    pub open spec fn after_all(self, donations: Seq<Donation>) -> FactoryModel
        decreases donations.len(),
    {
        if donations.len() == 0 {
            self
        } else {
            self.after_all(donations.drop_last()).after(donations.last())
        }
    }
}

impl FactoryModel {
    /// The factory before any donation is sound.
    pub proof fn lemma_fresh_sound(global_admin: Seq<u8>)
        ensures
            FactoryModel::fresh(global_admin).sound(),
    {
        reveal(FactoryModel::sound);
    }

    /// Which collection is set has no part in soundness.
    pub proof fn lemma_collection_sound(self, nft_collection: Seq<u8>)
        requires
            self.sound(),
        ensures
            (FactoryModel { nft_collection, ..self }).sound(),
    {
        reveal(FactoryModel::sound);
    }

    /// In a sound factory the account that holds a donor is the only one that
    /// does. Its badge is its place in the order of the accounts, and its donor
    /// has given at least once.
    pub proof fn lemma_known(self, donor: Seq<u8>, i: int)
        requires
            self.sound(),
            0 <= i < self.accounts.len(),
            self.accounts[i].donor == donor,
        ensures
            self.knows(donor),
            self.slot(donor) == i,
            self.accounts[i].badge == i + 1,
            self.accounts[i].badge <= self.nft_nonce,
            0 < self.accounts[i].profile.donation_count <= self.statistics.total_donations_count,
            self.accounts[i].profile.total_donated <= self.statistics.total_donations_amount,
    {
        reveal(FactoryModel::sound);
        let k = self.slot(donor);
        assert(self.accounts[k].donor == donor);
        if k < i {
            assert(self.accounts[k].donor != self.accounts[i].donor);
        } else if i < k {
            assert(self.accounts[i].donor != self.accounts[k].donor);
        }
        assert(self.accounts[i].sound());
    }

    /// In a sound factory the counter of badges stands at the number of
    /// donors, and there are no more donors than donations.
    pub proof fn lemma_counters(self)
        requires
            self.sound(),
        ensures
            self.nft_nonce == self.accounts.len(),
            self.statistics.total_unique_donors == self.accounts.len(),
            self.statistics.total_nfts_minted == self.accounts.len(),
            self.nft_nonce <= self.statistics.total_donations_count,
    {
        reveal(FactoryModel::sound);
    }

    /// What a donation does to the accounts, the counter and the totals does
    /// not depend on anything else.
    pub proof fn lemma_after_same_ledger(self, other: FactoryModel, donation: Donation)
        requires
            self.same_ledger(other),
        ensures
            self.after(donation).same_ledger(other.after(donation)),
    {
        assert(self.knows(donation.donor) == other.knows(donation.donor));
        assert(self.slot(donation.donor) == other.slot(donation.donor));
    }

    /// A donation leaves a sound factory sound.
    pub proof fn lemma_after_sound(self, donation: Donation)
        requires
            self.sound(),
        ensures
            self.after(donation).sound(),
    {
        reveal(FactoryModel::sound);
        let later = self.after(donation);
        if self.knows(donation.donor) {
            let i = self.slot(donation.donor);
            let account = self.accounts[i];
            let changed = account.after(donation);
            assert(changed.donations.drop_last() =~= account.donations);
            assert(changed.sound());
            assert forall|k: int| 0 <= k < later.accounts.len() implies (#[trigger] later.accounts[k]).sound() by {
                if k != i {
                    assert(later.accounts[k] == self.accounts[k]);
                }
            }
        } else {
            let opened = AccountModel::opened(donation, self.nft_nonce + 1);
            assert(opened.donations.drop_last() =~= Seq::<RecordModel>::empty());
            assert(opened.profile == summary(donation.timestamp, opened.donations)) by {
                reveal_with_fuel(summary, 2);
            }
            assert(opened.sound());
            assert forall|k: int| 0 <= k < later.accounts.len() implies (#[trigger] later.accounts[k]).sound() by {
                if k < self.accounts.len() {
                    assert(later.accounts[k] == self.accounts[k]);
                }
            }
            assert forall|a: int, b: int| 0 <= a < b < later.accounts.len() implies (#[trigger] later.accounts[a]).donor
                != (#[trigger] later.accounts[b]).donor by {
                if b == self.accounts.len() {
                    assert(self.accounts[a].donor != donation.donor);
                }
            }
        }
    }
}

} // verus!
