//! The factory: every donor's account, the badge counter and the running
//! totals of the whole network.

use vstd::prelude::*;
use crate::address::Address;
use crate::amount::{amount_limit, Amount};
use crate::bytes::copy_bytes;
use crate::collection::collection_configured;
use crate::engine::{Attribution, DonationOutcome};
use crate::error::DonationError;
use crate::ledger::{DonationRecord, DonorProfile, ProfileModel, RecordModel};
use crate::model::{AccountModel, Donation, FactoryModel};
use crate::request::MintRequest;
use crate::stats::GlobalStats;

verus! {

/// What the factory keeps for one donor.
struct DonorAccount {
    donor: Address,
    profile: DonorProfile,
    donations: Vec<DonationRecord>,
    badge: u64,
}

/// The state of the factory. Accounts stand in the order in which their
/// donors first gave.
pub struct PhilanthrifyFactory {
    global_admin: Address,
    nft_collection: Vec<u8>,
    accounts: Vec<DonorAccount>,
    nft_nonce: u64,
    statistics: GlobalStats,
    accepted: Ghost<Seq<Donation>>,
}

impl View for DonorAccount {
    type V = AccountModel;

    closed spec fn view(&self) -> AccountModel {
        AccountModel {
            donor: self.donor@,
            profile: self.profile@,
            donations: self.donations.deep_view(),
            badge: self.badge as nat,
        }
    }
}

impl View for PhilanthrifyFactory {
    type V = FactoryModel;

    closed spec fn view(&self) -> FactoryModel {
        FactoryModel {
            global_admin: self.global_admin@,
            nft_collection: self.nft_collection@,
            accounts: Seq::new(self.accounts@.len(), |i: int| self.accounts@[i]@),
            nft_nonce: self.nft_nonce as nat,
            statistics: self.statistics@,
        }
    }
}

/// The donation that the arguments of `mint_nft` describe.
pub open spec fn donation_of(
    donor_address: Address,
    donation_amount: Amount,
    entity_name: Seq<u8>,
    entity_type: Seq<u8>,
    custom_tags: Seq<Seq<u8>>,
    current_timestamp: u64,
) -> Donation {
    Donation {
        donor: donor_address@,
        amount: donation_amount@,
        entity_name,
        entity_type,
        tags: custom_tags,
        timestamp: current_timestamp,
    }
}

impl PhilanthrifyFactory {
    /// The donations that the factory has accepted, oldest first.
    pub closed spec fn donations(&self) -> Seq<Donation> {
        self.accepted@
    }

    /// What holds of a factory at all times: it is sound, and its accounts,
    /// counter and totals are what the accepted donations made of them.
    pub open spec fn wf(&self) -> bool {
        &&& self@.sound()
        &&& self@.same_ledger(
            FactoryModel::fresh(self@.global_admin).after_all(self.donations()),
        )
    }

    /// A factory without donors, badges or collection.
    pub fn init(global_admin: Address) -> (factory: Self)
        ensures
            factory@ == FactoryModel::fresh(global_admin@),
            factory.donations() == Seq::<Donation>::empty(),
            factory.wf(),
    {
        let factory = PhilanthrifyFactory {
            global_admin,
            nft_collection: Vec::new(),
            accounts: Vec::new(),
            nft_nonce: 0,
            statistics: GlobalStats::new(),
            accepted: Ghost(Seq::empty()),
        };
        proof {
            assert(factory@.accounts =~= Seq::empty());
            FactoryModel::lemma_fresh_sound(global_admin@);
        }
        factory
    }

    /// Names the collection in which badges are issued.
    pub fn set_global_nft_collection(&mut self, nft_token_id: &[u8])
        ensures
            final(self)@ == (FactoryModel { nft_collection: nft_token_id@, ..old(self)@ }),
            final(self).donations() == old(self).donations(),
            old(self).wf() ==> final(self).wf(),
    {
        proof {
            if self.wf() {
                self@.lemma_collection_sound(nft_token_id@);
            }
        }
        self.nft_collection = copy_bytes(nft_token_id);
    }

    /// Where the account of a donor stands, if they have one.
    fn find(&self, donor: &Address) -> (slot: Option<usize>)
        ensures
            match slot {
                Some(i) => i < self.accounts@.len() && self.accounts@[i as int].donor@ == donor@,
                None => forall|k: int|
                    0 <= k < self.accounts@.len() ==> (#[trigger] self.accounts@[k]).donor@
                        != donor@,
            },
    {
        let mut i: usize = 0;
        while i < self.accounts.len()
            invariant
                i <= self.accounts@.len(),
                forall|k: int| 0 <= k < i ==> (#[trigger] self.accounts@[k]).donor@ != donor@,
            decreases self.accounts@.len() - i,
        {
            if self.accounts[i].donor.same(donor) {
                return Some(i);
            }
            i += 1;
        }
        None
    }

    /// An account that `find` has found is the one that the model speaks of.
    proof fn lemma_found(&self, donor: Seq<u8>, i: int)
        requires
            self.wf(),
            0 <= i < self.accounts@.len(),
            self.accounts@[i].donor@ == donor,
        ensures
            self@.knows(donor),
            self@.slot(donor) == i,
            self@.accounts[i] == self.accounts@[i]@,
            self.accounts@[i].badge == i + 1,
            self.accounts@[i].badge <= self@.nft_nonce,
            0 < self.accounts@[i].profile.donation_count
                <= self@.statistics.total_donations_count,
            self.accounts@[i].profile.total_donated@ <= self@.statistics.total_donations_amount,
    {
        self@.lemma_known(donor, i);
    }

    /// A donor whom `find` has not found is unknown to the model.
    proof fn lemma_not_found(&self, donor: Seq<u8>)
        requires
            forall|k: int|
                0 <= k < self.accounts@.len() ==> (#[trigger] self.accounts@[k]).donor@ != donor,
        ensures
            !self@.knows(donor),
    {
        if self@.knows(donor) {
            let k = self@.slot(donor);
            assert(self.accounts@[k].donor@ == donor);
        }
    }

    /// The donor's profile, or the profile of someone who has not given yet,
    /// made at `current_timestamp`.
    pub fn get_or_create_donor_profile(&self, donor: &Address, current_timestamp: u64) -> (profile:
        DonorProfile)
        requires
            self.wf(),
        ensures
            profile@ == match self@.profile_of(donor@) {
                Some(known) => known,
                None => ProfileModel::fresh(current_timestamp),
            },
    {
        match self.find(donor) {
            Some(i) => {
                proof {
                    self.lemma_found(donor@, i as int);
                }
                self.accounts[i].profile.clone()
            },
            None => {
                proof {
                    self.lemma_not_found(donor@);
                }
                DonorProfile::new(current_timestamp)
            },
        }
    }

    /// Records a donation: the donor's profile and ledger, their badge, and
    /// the totals. A donation of nothing is turned away, and so is any
    /// donation while no collection is configured; neither changes anything.
    /// The new total of all donations must be below the limit of amounts, and
    /// their number below that of its counter.
    pub fn mint_nft(
        &mut self,
        donor_address: &Address,
        donation_amount: &Amount,
        entity_name: &[u8],
        entity_type: &[u8],
        custom_tags: &[Vec<u8>],
        current_timestamp: u64,
    ) -> (result: Result<DonationOutcome, DonationError>)
        requires
            old(self).wf(),
            old(self)@.statistics.total_donations_count < u64::MAX,
            old(self)@.statistics.total_donations_amount + donation_amount@ < amount_limit(),
        ensures
            final(self).wf(),
            match result {
                Ok(outcome) => {
                    let donation = donation_of(
                        *donor_address,
                        *donation_amount,
                        entity_name@,
                        entity_type@,
                        custom_tags.deep_view(),
                        current_timestamp,
                    );
                    &&& donation_amount@ > 0
                    &&& collection_configured(old(self)@.nft_collection)
                    &&& final(self)@ == old(self)@.after(donation)
                    &&& final(self).donations() == old(self).donations().push(donation)
                    &&& outcome@ == old(self)@.outcome(donation)
                    &&& outcome.minted_new == old(self)@.badge_of(donor_address@).is_none()
                    &&& old(self)@.badge_of(donor_address@) matches Some(badge)
                        ==> outcome.badge_id == badge
                    &&& final(self)@.badge_of(donor_address@) == Some(outcome.badge_id as nat)
                    &&& final(self)@.profile_of(donor_address@) == Some(
                        outcome.profile_snapshot@,
                    )
                    &&& forall|other: Seq<u8>|
                        other != donor_address@ ==> {
                            &&& #[trigger] final(self)@.badge_of(other) == old(self)@.badge_of(
                                other,
                            )
                            &&& final(self)@.profile_of(other) == old(self)@.profile_of(other)
                            &&& final(self)@.donations_of(other) == old(self)@.donations_of(
                                other,
                            )
                        }
                },
                Err(error) => {
                    &&& final(self)@ == old(self)@
                    &&& final(self).donations() == old(self).donations()
                    &&& donation_amount@ == 0 ==> error == DonationError::ZeroAmount
                    &&& donation_amount@ > 0 ==> error == DonationError::CollectionNotConfigured
                        && !collection_configured(old(self)@.nft_collection)
                },
            },
    {
        let ghost before = self@;
        let ghost donation = donation_of(
            *donor_address,
            *donation_amount,
            entity_name@,
            entity_type@,
            custom_tags.deep_view(),
            current_timestamp,
        );
        let request = MintRequest::new(
            donor_address,
            donation_amount,
            entity_name,
            entity_type,
            custom_tags,
        );
        let slot = self.find(donor_address);
        proof {
            self@.lemma_counters();
            match slot {
                Some(i) => self.lemma_found(donor_address@, i as int),
                None => self.lemma_not_found(donor_address@),
            }
        }
        let (known_profile, existing_badge) = match slot {
            Some(i) => (Some(self.accounts[i].profile.clone()), Some(self.accounts[i].badge)),
            None => (None, None),
        };
        let attribution = Self::attribute_donation(
            self.nft_collection.as_slice(),
            known_profile,
            existing_badge,
            self.nft_nonce,
            &self.statistics,
            &request,
            current_timestamp,
        );
        let Attribution { outcome, record } = match attribution {
            Ok(accepted) => accepted,
            Err(error) => {
                return Err(error);
            },
        };
        assert(request@.at(current_timestamp) == donation);
        assert(outcome@ == before.outcome(donation));
        match slot {
            Some(i) => {
                let ghost old_accounts = self.accounts@;
                let ghost old_records = self.accounts@[i as int].donations.deep_view();
                self.accounts[i].donations.push(record);
                self.accounts[i].profile = outcome.profile_snapshot.clone();
                proof {
                    assert(self.accounts@[i as int].donations.deep_view() =~= old_records.push(
                        record@,
                    ));
                    assert(self.accounts@[i as int]@ == before.accounts[i as int].after(donation));
                    assert forall|k: int| 0 <= k < self.accounts@.len() && k != i implies (#[trigger] self.accounts@[k])
                        == old_accounts[k] by {}
                    assert(self@.accounts =~= before.accounts.update(
                        i as int,
                        before.accounts[i as int].after(donation),
                    ));
                }
            },
            None => {
                let mut donations: Vec<DonationRecord> = Vec::new();
                donations.push(record);
                assert(donations.deep_view() =~= seq![record@]);
                self.accounts.push(
                    DonorAccount {
                        donor: *donor_address,
                        profile: outcome.profile_snapshot.clone(),
                        donations,
                        badge: outcome.badge_id,
                    },
                );
                self.nft_nonce = outcome.badge_id;
                proof {
                    assert(self.accounts@.last()@ == AccountModel::opened(
                        donation,
                        before.nft_nonce + 1,
                    ));
                    assert(self@.accounts =~= before.accounts.push(
                        AccountModel::opened(donation, before.nft_nonce + 1),
                    ));
                }
            },
        }
        self.statistics = outcome.stats_snapshot.clone();
        let ghost earlier = self.accepted@;
        self.accepted = Ghost(earlier.push(donation));
        proof {
            assert(self@ == before.after(donation));
            before.lemma_after_sound(donation);
            before.lemma_outcome_is_current(donation);
            assert forall|other: Seq<u8>| other != donor_address@ implies {
                &&& #[trigger] self@.badge_of(other) == before.badge_of(other)
                &&& self@.profile_of(other) == before.profile_of(other)
                &&& self@.donations_of(other) == before.donations_of(other)
            } by {
                before.lemma_others_untouched(donation, other);
            }
            let start = FactoryModel::fresh(before.global_admin);
            assert(earlier.push(donation).drop_last() =~= earlier);
            before.lemma_after_same_ledger(start.after_all(earlier), donation);
        }
        Ok(outcome)
    }

    /// The donor's profile, if they have given.
    pub fn get_donor_profile(&self, donor: &Address) -> (profile: Option<DonorProfile>)
        requires
            self.wf(),
        ensures
            match profile {
                Some(known) => self@.profile_of(donor@) == Some(known@),
                None => self@.profile_of(donor@).is_none(),
            },
    {
        match self.find(donor) {
            Some(i) => {
                proof {
                    self.lemma_found(donor@, i as int);
                }
                Some(self.accounts[i].profile.clone())
            },
            None => {
                proof {
                    self.lemma_not_found(donor@);
                }
                None
            },
        }
    }

    /// The records of the donor's donations, oldest first.
    pub fn get_donor_donations(&self, donor: &Address) -> (records: Vec<DonationRecord>)
        requires
            self.wf(),
        ensures
            records.deep_view() == self@.donations_of(donor@),
    {
        let mut records: Vec<DonationRecord> = Vec::new();
        match self.find(donor) {
            Some(i) => {
                proof {
                    self.lemma_found(donor@, i as int);
                }
                let kept = &self.accounts[i].donations;
                let mut j: usize = 0;
                while j < kept.len()
                    invariant
                        j <= kept@.len(),
                        records@.len() == j,
                        forall|k: int| 0 <= k < j ==> (#[trigger] records@[k])@ == kept@[k]@,
                    decreases kept@.len() - j,
                {
                    records.push(kept[j].clone());
                    j += 1;
                }
                assert(records.deep_view() =~= kept.deep_view());
            },
            None => {
                proof {
                    self.lemma_not_found(donor@);
                }
                assert(records.deep_view() =~= Seq::<RecordModel>::empty());
            },
        }
        records
    }

    /// The donor's badges: none, or the one.
    pub fn get_donor_nfts(&self, donor: &Address) -> (badges: Vec<u64>)
        requires
            self.wf(),
        ensures
            badges@.len() <= 1,
            match self@.badge_of(donor@) {
                Some(badge) => badges@ == seq![badge as u64],
                None => badges@ == Seq::<u64>::empty(),
            },
    {
        let mut badges: Vec<u64> = Vec::new();
        match self.find(donor) {
            Some(i) => {
                proof {
                    self.lemma_found(donor@, i as int);
                }
                badges.push(self.accounts[i].badge);
                assert(badges@ =~= seq![self.accounts@[i as int].badge]);
            },
            None => {
                proof {
                    self.lemma_not_found(donor@);
                }
            },
        }
        badges
    }

    /// Who administers the factory.
    pub fn global_admin_address(&self) -> (admin: Address)
        ensures
            admin@ == self@.global_admin,
    {
        self.global_admin
    }

    /// The identifier that was set for the collection of badges; empty where
    /// none was.
    pub fn global_nft_collection(&self) -> (id: Vec<u8>)
        ensures
            id@ == self@.nft_collection,
    {
        self.nft_collection.clone()
    }

    /// The counter of badges: the number of the badge issued last.
    pub fn get_nft_nonce(&self) -> (nonce: u64)
        ensures
            nonce == self@.nft_nonce,
    {
        self.nft_nonce
    }

    /// The totals of the whole network.
    pub fn get_global_statistics(&self) -> (stats: GlobalStats)
        ensures
            stats@ == self@.statistics,
    {
        self.statistics.clone()
    }
}

} // verus!
