//! What holds of the factory whatever donations it is given.

use vstd::prelude::*;
use crate::factory::PhilanthrifyFactory;
use crate::ledger::{ProfileModel, RecordModel};
use crate::model::{summary, AccountModel, Donation, EventModel, FactoryModel};

verus! {

/// The sum of the amounts of the given donations.
pub open spec fn total_given(donations: Seq<Donation>) -> nat
    decreases donations.len(),
{
    if donations.len() == 0 {
        0
    } else {
        total_given(donations.drop_last()) + donations.last().amount
    }
}

/// The donors of the given donations, each taken once.
pub open spec fn donors_of(donations: Seq<Donation>) -> Set<Seq<u8>> {
    donations.map_values(|donation: Donation| donation.donor).to_set()
}

/// The sum of the amounts of the given records.
pub open spec fn recorded_total(records: Seq<RecordModel>) -> nat
    decreases records.len(),
{
    if records.len() == 0 {
        0
    } else {
        recorded_total(records.drop_last()) + records.last().amount
    }
}

/// The highest of the amounts of the given records; zero where there are none.
pub open spec fn recorded_highest(records: Seq<RecordModel>) -> nat
    decreases records.len(),
{
    if records.len() == 0 {
        0
    } else if records.last().amount > recorded_highest(records.drop_last()) {
        records.last().amount
    } else {
        recorded_highest(records.drop_last())
    }
}

/// What the summary of a donor's records adds up to: their number, the sum of
/// their amounts, the highest of them, the timestamp it was begun with and the
/// timestamp of the last record.
pub proof fn lemma_summary(first_timestamp: u64, records: Seq<RecordModel>)
    ensures
        summary(first_timestamp, records).donation_count == records.len(),
        summary(first_timestamp, records).total_donated == recorded_total(records),
        summary(first_timestamp, records).highest_single_donation == recorded_highest(records),
        summary(first_timestamp, records).first_donation_timestamp == first_timestamp,
        summary(first_timestamp, records).last_donation_timestamp == if records.len() == 0 {
            first_timestamp
        } else {
            records.last().timestamp
        },
    decreases records.len(),
{
    if records.len() > 0 {
        lemma_summary(first_timestamp, records.drop_last());
    }
}

/// A donation takes nothing from a profile, whatever its amount: the count
/// grows by one, the total by the amount, the highest single donation becomes
/// the amount where the amount strictly exceeds it and stays where it does
/// not, and the first timestamp stays.
pub proof fn lemma_profile_after(
    profile: ProfileModel,
    amount: nat,
    entity_name: Seq<u8>,
    entity_type: Seq<u8>,
    timestamp: u64,
)
    ensures
        ({
            let later = profile.after(amount, entity_name, entity_type, timestamp);
            &&& later.donation_count == profile.donation_count + 1
            &&& later.total_donated == profile.total_donated + amount
            &&& later.highest_single_donation == if amount > profile.highest_single_donation {
                amount
            } else {
                profile.highest_single_donation
            }
            &&& later.last_donation_timestamp == timestamp
            &&& not_less(later, profile)
        }),
{
}

/// Whether a profile shows at least as much as another: in the number of
/// donations, in their total and in the highest of them.
pub open spec fn not_less(later: ProfileModel, earlier: ProfileModel) -> bool {
    &&& later.donation_count >= earlier.donation_count
    &&& later.total_donated >= earlier.total_donated
    &&& later.highest_single_donation >= earlier.highest_single_donation
    &&& later.first_donation_timestamp == earlier.first_donation_timestamp
}

impl FactoryModel {
    /// The donors that have an account, in the order of the accounts.
    pub open spec fn donor_names(self) -> Seq<Seq<u8>> {
        self.accounts.map_values(|account: AccountModel| account.donor)
    }

    /// In a sound factory there are as many accounts as there are donors.
    pub proof fn lemma_one_account_each(self)
        requires
            self.sound(),
        ensures
            self.donor_names().to_set().finite(),
            self.donor_names().to_set().len() == self.accounts.len(),
            forall|donor: Seq<u8>| self.knows(donor) <==> self.donor_names().to_set().contains(donor),
    {
        reveal(FactoryModel::sound);
        let names = self.donor_names();
        assert forall|i: int, j: int| 0 <= i < names.len() && 0 <= j < names.len() && i != j implies names[i]
            != names[j] by {
            if i < j {
                assert(self.accounts[i].donor != self.accounts[j].donor);
            } else {
                assert(self.accounts[j].donor != self.accounts[i].donor);
            }
        }
        names.unique_seq_to_set();
        vstd::seq_lib::seq_to_set_is_finite(names);
        assert forall|donor: Seq<u8>| self.knows(donor) <==> names.to_set().contains(donor) by {
            if self.knows(donor) {
                let i = self.slot(donor);
                assert(names[i] == donor);
            }
            if names.to_set().contains(donor) {
                let i = choose|i: int| 0 <= i < names.len() && names[i] == donor;
                assert(self.accounts[i].donor == donor);
            }
        }
    }

    /// A donor who has a badge keeps it, whoever gives next: no donation takes
    /// a badge away or puts another in its place.
    pub proof fn lemma_badge_kept(self, donation: Donation, donor: Seq<u8>)
        requires
            self.sound(),
            self.knows(donor),
        ensures
            self.after(donation).knows(donor),
            self.after(donation).badge_of(donor) == self.badge_of(donor),
            self.after(donation).slot(donor) == self.slot(donor),
    {
        let later = self.after(donation);
        let i = self.slot(donor);
        self.lemma_after_sound(donation);
        assert(later.accounts[i].donor == donor);
        later.lemma_known(donor, i);
        self.lemma_known(donor, i);
    }

    /// A donation opens no account but its donor's: whoever else had none has
    /// none after it.
    pub proof fn lemma_stranger_stays_unknown(self, donation: Donation, donor: Seq<u8>)
        requires
            self.sound(),
            !self.knows(donor),
            donor != donation.donor,
        ensures
            !self.after(donation).knows(donor),
    {
        let later = self.after(donation);
        if later.knows(donor) {
            let i = later.slot(donor);
            if self.knows(donation.donor) {
                assert(self.accounts[i].donor == donor);
            } else if i < self.accounts.len() {
                assert(self.accounts[i].donor == donor);
            }
        }
    }

    /// A donation changes nothing for anyone but its donor: everyone else has
    /// the badge, the profile and the ledger they had, or none as before.
    pub proof fn lemma_others_untouched(self, donation: Donation, donor: Seq<u8>)
        requires
            self.sound(),
            donor != donation.donor,
        ensures
            self.after(donation).knows(donor) == self.knows(donor),
            self.after(donation).badge_of(donor) == self.badge_of(donor),
            self.after(donation).profile_of(donor) == self.profile_of(donor),
            self.after(donation).donations_of(donor) == self.donations_of(donor),
    {
        if self.knows(donor) {
            self.lemma_badge_kept(donation, donor);
            self.lemma_profile_grows(donation, donor);
            self.lemma_ledger_appended(donation, donor);
        } else {
            self.lemma_stranger_stays_unknown(donation, donor);
        }
    }

    /// In a sound factory the profile of a donor sums up their records: it
    /// counts them, adds up their amounts, holds the highest of them, and has
    /// the timestamps of the first and of the last. Every record names the
    /// donor's badge.
    pub proof fn lemma_profile_sums_up(self, donor: Seq<u8>)
        requires
            self.sound(),
            self.knows(donor),
        ensures
            ({
                let records = self.donations_of(donor);
                let profile = self.profile_of(donor)->Some_0;
                &&& records.len() > 0
                &&& profile == summary(records[0].timestamp, records)
                &&& profile.donation_count == records.len()
                &&& profile.total_donated == recorded_total(records)
                &&& profile.highest_single_donation == recorded_highest(records)
                &&& profile.first_donation_timestamp == records[0].timestamp
                &&& profile.last_donation_timestamp == records.last().timestamp
                &&& forall|j: int|
                    0 <= j < records.len() ==> Some((#[trigger] records[j]).nft_nonce)
                        == self.badge_of(donor)
            }),
    {
        reveal(FactoryModel::sound);
        let account = self.accounts[self.slot(donor)];
        assert(account.sound());
        lemma_summary(account.donations[0].timestamp, account.donations);
    }

    /// A donor who gives for the first time gets the next badge of the
    /// counter, and the donation is answered as one that minted.
    pub proof fn lemma_badge_minted(self, donation: Donation)
        requires
            self.sound(),
            !self.knows(donation.donor),
        ensures
            self.outcome(donation).minted_new,
            self.outcome(donation).badge_id == self.nft_nonce + 1,
            self.after(donation).badge_of(donation.donor) == Some(self.nft_nonce + 1),
            self.after(donation).nft_nonce == self.nft_nonce + 1,
    {
        let later = self.after(donation);
        self.lemma_after_sound(donation);
        let i = self.accounts.len() as int;
        assert(later.accounts[i].donor == donation.donor);
        later.lemma_known(donation.donor, i);
    }

    /// A donor who gives again is answered with the badge they have, as one
    /// whose badge was updated, and the counter of badges stays.
    pub proof fn lemma_badge_updated(self, donation: Donation)
        requires
            self.sound(),
            self.knows(donation.donor),
        ensures
            !self.outcome(donation).minted_new,
            Some(self.outcome(donation).badge_id) == self.badge_of(donation.donor),
            self.outcome(donation).badge_name is None,
            self.outcome(donation).events == seq![
                EventModel::DonationRecorded {
                    donor: donation.donor,
                    amount: donation.amount,
                    entity_name: donation.entity_name,
                },
            ],
            self.after(donation).badge_of(donation.donor) == self.badge_of(donation.donor),
            self.after(donation).nft_nonce == self.nft_nonce,
            self.after(donation).statistics.total_nfts_minted
                == self.statistics.total_nfts_minted,
            self.after(donation).statistics.total_unique_donors
                == self.statistics.total_unique_donors,
            Some(self.after(donation).donations_of(donation.donor).last().nft_nonce)
                == self.badge_of(donation.donor),
    {
        self.lemma_badge_kept(donation, donation.donor);
        self.lemma_ledger_appended(donation, donation.donor);
    }

    /// Of two donations by one donor, with nothing else in between, the second
    /// is answered with the badge of the first and mints nothing.
    pub proof fn lemma_same_badge_again(self, first: Donation, second: Donation)
        requires
            self.sound(),
            first.donor == second.donor,
        ensures
            self.after(first).outcome(second).badge_id == self.outcome(first).badge_id,
            !self.after(first).outcome(second).minted_new,
            self.after(first).outcome(second).badge_name is None,
            self.after(first).after(second).nft_nonce == self.after(first).nft_nonce,
            self.after(first).after(second).statistics.total_nfts_minted == self.after(
                first,
            ).statistics.total_nfts_minted,
            self.after(first).after(second).donations_of(second.donor).last().nft_nonce
                == self.outcome(first).badge_id,
    {
        let middle = self.after(first);
        self.lemma_after_sound(first);
        if self.knows(first.donor) {
            self.lemma_badge_updated(first);
        } else {
            self.lemma_badge_minted(first);
        }
        middle.lemma_badge_updated(second);
    }

    /// Through any donations a donor keeps the badge they have.
    pub proof fn lemma_badge_permanent(self, donations: Seq<Donation>, donor: Seq<u8>)
        requires
            self.sound(),
            self.knows(donor),
        ensures
            self.after_all(donations).sound(),
            self.after_all(donations).knows(donor),
            self.after_all(donations).badge_of(donor) == self.badge_of(donor),
        decreases donations.len(),
    {
        if donations.len() > 0 {
            self.lemma_badge_permanent(donations.drop_last(), donor);
            let middle = self.after_all(donations.drop_last());
            middle.lemma_after_sound(donations.last());
            middle.lemma_badge_kept(donations.last(), donor);
        }
    }

    /// No two donors share a badge.
    pub proof fn lemma_badges_differ(self, one: Seq<u8>, other: Seq<u8>)
        requires
            self.sound(),
            self.knows(one),
            self.knows(other),
            one != other,
        ensures
            self.badge_of(one) != self.badge_of(other),
    {
        self.lemma_known(one, self.slot(one));
        self.lemma_known(other, self.slot(other));
    }

    /// A donation takes nothing from any profile: the donor's own grows, and
    /// every other stays as it is.
    pub proof fn lemma_profile_grows(self, donation: Donation, donor: Seq<u8>)
        requires
            self.sound(),
            self.knows(donor),
        ensures
            self.after(donation).knows(donor),
            not_less(
                self.after(donation).profile_of(donor)->Some_0,
                self.profile_of(donor)->Some_0,
            ),
            donor != donation.donor ==> self.after(donation).profile_of(donor) == self.profile_of(
                donor,
            ),
    {
        self.lemma_badge_kept(donation, donor);
        if self.knows(donation.donor) {
            self.lemma_known(donation.donor, self.slot(donation.donor));
        }
    }

    /// Through any donations the profile of a donor shows no less than before.
    pub proof fn lemma_profile_never_shrinks(self, donations: Seq<Donation>, donor: Seq<u8>)
        requires
            self.sound(),
            self.knows(donor),
        ensures
            self.after_all(donations).knows(donor),
            not_less(
                self.after_all(donations).profile_of(donor)->Some_0,
                self.profile_of(donor)->Some_0,
            ),
        decreases donations.len(),
    {
        if donations.len() > 0 {
            self.lemma_profile_never_shrinks(donations.drop_last(), donor);
            self.lemma_badge_permanent(donations.drop_last(), donor);
            let middle = self.after_all(donations.drop_last());
            middle.lemma_profile_grows(donations.last(), donor);
        }
    }

    /// The ledger of a donor only grows at its end: a donation of theirs is
    /// appended to it, and no donation changes or removes what it holds.
    pub proof fn lemma_ledger_appended(self, donation: Donation, donor: Seq<u8>)
        requires
            self.sound(),
            self.knows(donor),
        ensures
            self.after(donation).donations_of(donor) == if donor == donation.donor {
                self.donations_of(donor).push(
                    donation.record(self.badge_of(donor)->Some_0),
                )
            } else {
                self.donations_of(donor)
            },
    {
        self.lemma_badge_kept(donation, donor);
        if self.knows(donation.donor) {
            self.lemma_known(donation.donor, self.slot(donation.donor));
        }
    }

    /// Through any donations the ledger of a donor keeps what it holds, in the
    /// same places.
    pub proof fn lemma_ledger_kept(self, donations: Seq<Donation>, donor: Seq<u8>)
        requires
            self.sound(),
            self.knows(donor),
        ensures
            self.donations_of(donor).is_prefix_of(self.after_all(donations).donations_of(donor)),
        decreases donations.len(),
    {
        if donations.len() > 0 {
            self.lemma_ledger_kept(donations.drop_last(), donor);
            self.lemma_badge_permanent(donations.drop_last(), donor);
            let middle = self.after_all(donations.drop_last());
            middle.lemma_ledger_appended(donations.last(), donor);
        }
    }

    /// The profile that a donation is answered with is the donor's profile
    /// after it, and the totals are the totals after it.
    pub proof fn lemma_outcome_is_current(self, donation: Donation)
        requires
            self.sound(),
        ensures
            self.after(donation).profile_of(donation.donor) == Some(
                self.outcome(donation).profile_snapshot,
            ),
            self.after(donation).badge_of(donation.donor) == Some(self.outcome(donation).badge_id),
            self.after(donation).statistics == self.outcome(donation).stats_snapshot,
    {
        let later = self.after(donation);
        self.lemma_after_sound(donation);
        if self.knows(donation.donor) {
            let i = self.slot(donation.donor);
            self.lemma_known(donation.donor, i);
            assert(later.accounts[i].donor == donation.donor);
            later.lemma_known(donation.donor, i);
        } else {
            let i = self.accounts.len() as int;
            assert(later.accounts[i].donor == donation.donor);
            later.lemma_known(donation.donor, i);
        }
    }

    /// After any donations to a new factory, the totals count each donation
    /// once, add up every amount in full, and count each donor and each badge
    /// once, however often the donor gave.
    pub proof fn lemma_totals(global_admin: Seq<u8>, donations: Seq<Donation>)
        ensures
            ({
                let end = FactoryModel::fresh(global_admin).after_all(donations);
                &&& end.sound()
                &&& end.statistics.total_donations_count == donations.len()
                &&& end.statistics.total_donations_amount == total_given(donations)
                &&& end.statistics.total_unique_donors == donors_of(donations).len()
                &&& end.statistics.total_nfts_minted == donors_of(donations).len()
                &&& end.donor_names().to_set() == donors_of(donations)
            }),
        decreases donations.len(),
    {
        let start = FactoryModel::fresh(global_admin);
        let end = start.after_all(donations);
        if donations.len() == 0 {
            FactoryModel::lemma_fresh_sound(global_admin);
            assert(end.donor_names() =~= Seq::<Seq<u8>>::empty());
            assert(donations.map_values(|donation: Donation| donation.donor) =~= Seq::<
                Seq<u8>,
            >::empty());
            assert(donors_of(donations) =~= Set::<Seq<u8>>::empty());
            assert(end.donor_names().to_set() =~= Set::<Seq<u8>>::empty());
        } else {
            let earlier = donations.drop_last();
            let last = donations.last();
            FactoryModel::lemma_totals(global_admin, earlier);
            let middle = start.after_all(earlier);
            middle.lemma_after_sound(last);
            middle.lemma_one_account_each();
            end.lemma_one_account_each();
            end.lemma_counters();
            let names = donations.map_values(|donation: Donation| donation.donor);
            let earlier_names = earlier.map_values(|donation: Donation| donation.donor);
            assert(names =~= earlier_names.push(last.donor));
            assert(names.to_set() =~= earlier_names.to_set().insert(last.donor)) by {
                assert forall|donor: Seq<u8>| names.to_set().contains(donor) implies earlier_names.to_set().insert(
                    last.donor,
                ).contains(donor) by {
                    let i = choose|i: int| 0 <= i < names.len() && names[i] == donor;
                    if i < earlier_names.len() {
                        assert(earlier_names[i] == donor);
                    }
                }
                assert forall|donor: Seq<u8>|
                    earlier_names.to_set().insert(last.donor).contains(
                        donor,
                    ) implies names.to_set().contains(donor) by {
                    if donor == last.donor {
                        assert(names[names.len() - 1] == donor);
                    } else {
                        let i = choose|i: int|
                            0 <= i < earlier_names.len() && earlier_names[i] == donor;
                        assert(names[i] == donor);
                    }
                }
            }
            assert(end.donor_names().to_set() =~= middle.donor_names().to_set().insert(last.donor))
                by {
                assert forall|donor: Seq<u8>|
                    end.donor_names().to_set().contains(donor)
                        <==> middle.donor_names().to_set().insert(last.donor).contains(donor) by {
                    if middle.knows(donor) {
                        middle.lemma_badge_kept(last, donor);
                    }
                    if donor == last.donor {
                        middle.lemma_outcome_is_current(last);
                    }
                    if end.knows(donor) && donor != last.donor {
                        let i = end.slot(donor);
                        if middle.knows(last.donor) {
                            assert(middle.accounts[i].donor == donor);
                        } else {
                            assert(i < middle.accounts.len());
                            assert(middle.accounts[i].donor == donor);
                        }
                    }
                }
            }
        }
    }
}

impl PhilanthrifyFactory {
    /// At all times the donors that the factory knows are those whose
    /// donations it has accepted, and they are those who hold a badge.
    pub proof fn lemma_donors_are_those_who_gave(&self, donor: Seq<u8>)
        requires
            self.wf(),
        ensures
            self@.knows(donor) <==> donors_of(self.donations()).contains(donor),
            self@.badge_of(donor) is Some <==> donors_of(self.donations()).contains(donor),
            self@.profile_of(donor) is Some <==> donors_of(self.donations()).contains(donor),
    {
        let replayed = FactoryModel::fresh(self@.global_admin).after_all(self.donations());
        FactoryModel::lemma_totals(self@.global_admin, self.donations());
        replayed.lemma_one_account_each();
        assert(self@.knows(donor) == replayed.knows(donor));
    }

    /// At all times the totals of a factory count each accepted donation once,
    /// add up every amount in full, and count each donor and each badge once.
    pub proof fn lemma_statistics_consistent(&self)
        requires
            self.wf(),
        ensures
            self@.statistics.total_donations_count == self.donations().len(),
            self@.statistics.total_donations_amount == total_given(self.donations()),
            self@.statistics.total_unique_donors == donors_of(self.donations()).len(),
            self@.statistics.total_nfts_minted == donors_of(self.donations()).len(),
            self@.nft_nonce == donors_of(self.donations()).len(),
    {
        FactoryModel::lemma_totals(self@.global_admin, self.donations());
        self@.lemma_counters();
    }
}

} // verus!
