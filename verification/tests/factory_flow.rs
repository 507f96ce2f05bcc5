use philanthrify::address::Address;
use philanthrify::amount::Amount;
use philanthrify::engine::DonationEvent;
use philanthrify::error::DonationError;
use philanthrify::factory::PhilanthrifyFactory;
use philanthrify::format::amount_to_decimal;
use philanthrify::ledger::DonorProfile;
use philanthrify::request::MintRequest;
use philanthrify::stats::GlobalStats;

const TWO: u128 = 2_000_000_000_000_000_000;
const HALF: u128 = 500_000_000_000_000_000;

fn number(amount: &Amount) -> String {
    String::from_utf8(amount_to_decimal(amount)).unwrap()
}

fn ready() -> PhilanthrifyFactory {
    let mut factory = PhilanthrifyFactory::init(Address::new([9u8; 32]));
    factory.set_global_nft_collection(b"PHILXY-a1b2c3");
    factory
}

fn donor(id: u8) -> Address {
    Address::new([id; 32])
}

#[test]
fn a_new_factory_is_empty() {
    let factory = PhilanthrifyFactory::init(donor(9));
    assert_eq!(factory.get_nft_nonce(), 0);
    let stats = factory.get_global_statistics();
    assert!(stats.total_donations_amount.is_zero());
    assert_eq!(stats.total_donations_count, 0);
    assert_eq!(stats.total_unique_donors, 0);
    assert_eq!(stats.total_nfts_minted, 0);
    assert!(factory.get_donor_profile(&donor(1)).is_none());
    assert!(factory.get_donor_donations(&donor(1)).is_empty());
    assert!(factory.get_donor_nfts(&donor(1)).is_empty());
}

#[test]
fn first_and_second_donation_of_one_donor() {
    let mut factory = ready();
    let d = donor(1);

    let first = factory
        .mint_nft(&d, &Amount::from_u128(TWO), b"Red Cross", b"charity", &[b"education".to_vec()], 100)
        .unwrap();
    assert!(first.minted_new);
    assert_eq!(first.badge_id, 1);
    assert_eq!(
        first.badge_name,
        Some(b"PHILXY #1 \xe2\x80\xa2 Red Cross \xe2\x80\xa2 2 EGLD".to_vec())
    );
    assert_eq!(
        String::from_utf8(first.attributes).unwrap(),
        "[{\"trait_type\":\"Tag\",\"value\":\"education\"},\
         {\"trait_type\":\"Charity\",\"value\":\"Red Cross\"},\
         {\"trait_type\":\"Type\",\"value\":\"charity\"},\
         {\"trait_type\":\"Amount\",\"value\":\"2 EGLD\"},\
         {\"trait_type\":\"NFT_ID\",\"value\":\"1\"}]"
    );
    assert_eq!(first.profile_snapshot.donation_count, 1);
    assert_eq!(first.profile_snapshot.favorite_charity, b"Red Cross".to_vec());
    assert_eq!(number(&first.profile_snapshot.total_donated), "2000000000000000000");
    assert_eq!(first.profile_snapshot.first_donation_timestamp, 100);
    assert_eq!(first.profile_snapshot.last_donation_timestamp, 100);
    assert_eq!(first.stats_snapshot.total_donations_count, 1);
    assert_eq!(first.stats_snapshot.total_unique_donors, 1);
    assert_eq!(first.stats_snapshot.total_nfts_minted, 1);

    let second = factory
        .mint_nft(&d, &Amount::from_u128(HALF), b"Clean Water", b"project", &[], 200)
        .unwrap();
    assert!(!second.minted_new);
    assert_eq!(second.badge_id, 1);
    assert_eq!(second.badge_name, None);
    assert_eq!(
        String::from_utf8(second.attributes).unwrap(),
        "[{\"trait_type\":\"Charity\",\"value\":\"Clean Water\"},\
         {\"trait_type\":\"Type\",\"value\":\"project\"},\
         {\"trait_type\":\"Amount\",\"value\":\"0.5 EGLD\"},\
         {\"trait_type\":\"NFT_ID\",\"value\":\"1\"}]"
    );
    let profile = second.profile_snapshot;
    assert_eq!(number(&profile.total_donated), "2500000000000000000");
    assert_eq!(number(&profile.highest_single_donation), "2000000000000000000");
    assert_eq!(profile.donation_count, 2);
    assert_eq!(profile.favorite_charity, b"Red Cross".to_vec());
    assert_eq!(profile.favorite_project, b"Clean Water".to_vec());
    assert_eq!(profile.first_donation_timestamp, 100);
    assert_eq!(profile.last_donation_timestamp, 200);
    assert_eq!(second.stats_snapshot.total_donations_count, 2);
    assert_eq!(second.stats_snapshot.total_unique_donors, 1);
    assert_eq!(second.stats_snapshot.total_nfts_minted, 1);
    assert_eq!(number(&second.stats_snapshot.total_donations_amount), "2500000000000000000");

    assert_eq!(factory.get_nft_nonce(), 1);
    assert_eq!(factory.get_donor_nfts(&d), vec![1u64]);
    let stored = factory.get_donor_profile(&d).unwrap();
    assert_eq!(stored.donation_count, 2);
    assert_eq!(number(&stored.total_donated), "2500000000000000000");
    let records = factory.get_donor_donations(&d);
    assert_eq!(records.len(), 2);
    assert_eq!(number(&records[0].amount), "2000000000000000000");
    assert_eq!(records[0].timestamp, 100);
    assert_eq!(records[0].entity_name, b"Red Cross".to_vec());
    assert_eq!(records[0].entity_type, b"charity".to_vec());
    assert_eq!(records[0].nft_nonce, 1);
    assert_eq!(number(&records[1].amount), "500000000000000000");
    assert_eq!(records[1].timestamp, 200);
    assert_eq!(records[1].entity_name, b"Clean Water".to_vec());
    assert_eq!(records[1].entity_type, b"project".to_vec());
    assert_eq!(records[1].nft_nonce, 1);
}

#[test]
fn a_donation_of_nothing_is_refused() {
    let mut factory = ready();
    let error = factory.mint_nft(&donor(1), &Amount::zero(), b"A", b"charity", &[], 1).unwrap_err();
    assert_eq!(error, DonationError::ZeroAmount);
    assert_eq!(factory.get_nft_nonce(), 0);
    assert_eq!(factory.get_global_statistics().total_donations_count, 0);
    assert!(factory.get_donor_profile(&donor(1)).is_none());
}

#[test]
fn nothing_is_recorded_without_a_collection() {
    let mut factory = PhilanthrifyFactory::init(donor(9));
    let error =
        factory.mint_nft(&donor(1), &Amount::from_u64(5), b"A", b"charity", &[], 1).unwrap_err();
    assert_eq!(error, DonationError::CollectionNotConfigured);
    factory.set_global_nft_collection(b"not a collection");
    let error =
        factory.mint_nft(&donor(1), &Amount::from_u64(5), b"A", b"charity", &[], 1).unwrap_err();
    assert_eq!(error, DonationError::CollectionNotConfigured);
    assert_eq!(factory.get_nft_nonce(), 0);
    assert_eq!(factory.get_global_statistics().total_donations_count, 0);
    assert!(factory.get_donor_profile(&donor(1)).is_none());
    assert!(factory.get_donor_donations(&donor(1)).is_empty());
    factory.set_global_nft_collection(b"PHILXY-a1b2c3");
    assert!(factory.mint_nft(&donor(1), &Amount::from_u64(5), b"A", b"charity", &[], 1).is_ok());
}

#[test]
fn nothing_sent_comes_before_the_missing_collection() {
    let mut factory = PhilanthrifyFactory::init(donor(9));
    let error = factory.mint_nft(&donor(1), &Amount::zero(), b"A", b"charity", &[], 1).unwrap_err();
    assert_eq!(error, DonationError::ZeroAmount);
}

#[test]
fn badges_are_numbered_in_the_order_of_first_donations() {
    let mut factory = ready();
    let mut expected = Vec::new();
    for (step, id) in [1u8, 2, 1, 3, 2, 2, 4, 1].iter().enumerate() {
        let outcome = factory
            .mint_nft(&donor(*id), &Amount::from_u64(10), b"A", b"charity", &[], step as u64)
            .unwrap();
        expected.push((outcome.badge_id, outcome.minted_new));
    }
    assert_eq!(
        expected,
        vec![
            (1, true),
            (2, true),
            (1, false),
            (3, true),
            (2, false),
            (2, false),
            (4, true),
            (1, false)
        ]
    );
    assert_eq!(factory.get_nft_nonce(), 4);
    for id in 1u8..=4 {
        assert_eq!(factory.get_donor_nfts(&donor(id)), vec![id as u64]);
    }
    assert!(factory.get_donor_nfts(&donor(5)).is_empty());
}

#[test]
fn totals_match_the_donations() {
    let mut factory = ready();
    let gifts: [(u8, u64); 7] = [(1, 5), (2, 7), (1, 11), (3, 13), (3, 17), (1, 19), (2, 23)];
    let mut sum: u64 = 0;
    for (step, (id, amount)) in gifts.iter().enumerate() {
        factory
            .mint_nft(&donor(*id), &Amount::from_u64(*amount), b"A", b"project", &[], step as u64)
            .unwrap();
        sum += amount;
        let stats = factory.get_global_statistics();
        assert_eq!(stats.total_donations_count, step as u64 + 1);
        assert_eq!(number(&stats.total_donations_amount), sum.to_string());
    }
    let stats = factory.get_global_statistics();
    assert_eq!(stats.total_donations_count, 7);
    assert_eq!(stats.total_unique_donors, 3);
    assert_eq!(stats.total_nfts_minted, 3);
    assert_eq!(number(&stats.total_donations_amount), "95");
    assert_eq!(factory.get_donor_profile(&donor(1)).unwrap().donation_count, 3);
    assert_eq!(number(&factory.get_donor_profile(&donor(1)).unwrap().total_donated), "35");
    assert_eq!(factory.get_donor_donations(&donor(3)).len(), 2);
}

#[test]
fn the_profile_of_an_unknown_donor_starts_now() {
    let mut factory = ready();
    let fresh = factory.get_or_create_donor_profile(&donor(1), 500);
    assert_eq!(fresh.donation_count, 0);
    assert_eq!(fresh.first_donation_timestamp, 500);
    assert_eq!(fresh.last_donation_timestamp, 500);
    factory.mint_nft(&donor(1), &Amount::from_u64(3), b"A", b"charity", &[], 600).unwrap();
    let known = factory.get_or_create_donor_profile(&donor(1), 700);
    assert_eq!(known.donation_count, 1);
    assert_eq!(known.first_donation_timestamp, 600);
    assert_eq!(known.last_donation_timestamp, 600);
}

#[test]
fn profiles_only_grow() {
    let mut factory = ready();
    let d = donor(1);
    let mut count = 0;
    let mut total: u64 = 0;
    let mut highest: u64 = 0;
    for (step, amount) in [5u64, 3, 9, 9, 1, 20, 2].iter().enumerate() {
        factory.mint_nft(&donor(2), &Amount::from_u64(1000), b"B", b"charity", &[], 0).unwrap();
        factory.mint_nft(&d, &Amount::from_u64(*amount), b"A", b"charity", &[], step as u64).unwrap();
        let profile = factory.get_donor_profile(&d).unwrap();
        assert!(profile.donation_count > count);
        count = profile.donation_count;
        total += amount;
        highest = highest.max(*amount);
        assert_eq!(number(&profile.total_donated), total.to_string());
        assert_eq!(number(&profile.highest_single_donation), highest.to_string());
    }
}

#[test]
fn a_donation_is_attributed_without_a_factory() {
    let request = MintRequest::new(
        &donor(1),
        &Amount::from_u128(TWO),
        b"Red Cross",
        b"charity",
        &[b"education".to_vec()],
    );
    let stats = GlobalStats::new();
    let first = PhilanthrifyFactory::attribute_donation(
        b"PHILXY-a1b2c3",
        None,
        None,
        0,
        &stats,
        &request,
        100,
    )
    .unwrap();
    assert!(first.outcome.minted_new);
    assert_eq!(first.outcome.badge_id, 1);
    assert_eq!(first.outcome.profile_snapshot.donation_count, 1);
    assert_eq!(first.outcome.stats_snapshot.total_unique_donors, 1);
    assert_eq!(first.outcome.stats_snapshot.total_nfts_minted, 1);
    assert_eq!(first.record.nft_nonce, 1);
    assert_eq!(first.record.timestamp, 100);
    assert_eq!(first.record.entity_name, b"Red Cross".to_vec());
    assert_eq!(first.record.entity_type, b"charity".to_vec());
    assert_eq!(number(&first.record.amount), "2000000000000000000");

    let known: DonorProfile = first.outcome.profile_snapshot.clone();
    let again = PhilanthrifyFactory::attribute_donation(
        b"PHILXY-a1b2c3",
        Some(known),
        Some(first.outcome.badge_id),
        1,
        &first.outcome.stats_snapshot,
        &request,
        200,
    )
    .unwrap();
    assert!(!again.outcome.minted_new);
    assert_eq!(again.outcome.badge_id, 1);
    assert_eq!(again.outcome.badge_name, None);
    assert_eq!(again.outcome.profile_snapshot.donation_count, 2);
    assert_eq!(again.outcome.profile_snapshot.first_donation_timestamp, 100);
    assert_eq!(again.outcome.profile_snapshot.last_donation_timestamp, 200);
    assert_eq!(again.outcome.stats_snapshot.total_donations_count, 2);
    assert_eq!(again.outcome.stats_snapshot.total_unique_donors, 1);
    assert_eq!(again.outcome.stats_snapshot.total_nfts_minted, 1);
    assert_eq!(number(&again.outcome.stats_snapshot.total_donations_amount), "4000000000000000000");

    let refused = PhilanthrifyFactory::attribute_donation(b"", None, None, 0, &stats, &request, 1);
    assert_eq!(refused.unwrap_err(), DonationError::CollectionNotConfigured);
    let nothing = MintRequest::new(&donor(1), &Amount::zero(), b"A", b"charity", &[]);
    let refused =
        PhilanthrifyFactory::attribute_donation(b"", None, None, 0, &stats, &nothing, 1);
    assert_eq!(refused.unwrap_err(), DonationError::ZeroAmount);
}

#[test]
fn a_first_donation_tells_of_the_badge_and_of_the_donation() {
    let mut factory = ready();
    let outcome = factory
        .mint_nft(&donor(1), &Amount::from_u64(42), b"Red Cross", b"charity", &[], 1)
        .unwrap();
    assert_eq!(outcome.events.len(), 2);
    match &outcome.events[0] {
        DonationEvent::BadgeMinted { donor: who, entity_name, badge_id } => {
            assert_eq!(*who, donor(1));
            assert_eq!(entity_name, &b"Red Cross".to_vec());
            assert_eq!(*badge_id, 1);
        }
        other => panic!("unexpected event {:?}", other),
    }
    match &outcome.events[1] {
        DonationEvent::DonationRecorded { donor: who, amount, entity_name } => {
            assert_eq!(*who, donor(1));
            assert_eq!(number(amount), "42");
            assert_eq!(entity_name, &b"Red Cross".to_vec());
        }
        other => panic!("unexpected event {:?}", other),
    }
}

#[test]
fn a_later_donation_tells_of_the_donation_only() {
    let mut factory = ready();
    factory.mint_nft(&donor(1), &Amount::from_u64(42), b"Red Cross", b"charity", &[], 1).unwrap();
    let outcome = factory
        .mint_nft(&donor(1), &Amount::from_u64(8), b"Clean Water", b"project", &[], 2)
        .unwrap();
    assert_eq!(outcome.events.len(), 1);
    match &outcome.events[0] {
        DonationEvent::DonationRecorded { donor: who, amount, entity_name } => {
            assert_eq!(*who, donor(1));
            assert_eq!(number(amount), "8");
            assert_eq!(entity_name, &b"Clean Water".to_vec());
        }
        other => panic!("unexpected event {:?}", other),
    }
}

#[test]
fn a_factory_remembers_its_admin_and_collection() {
    let mut factory = PhilanthrifyFactory::init(donor(9));
    assert_eq!(factory.global_admin_address(), donor(9));
    assert!(factory.global_nft_collection().is_empty());
    factory.set_global_nft_collection(b"PHILXY-a1b2c3");
    assert_eq!(factory.global_nft_collection(), b"PHILXY-a1b2c3".to_vec());
    factory.mint_nft(&donor(1), &Amount::from_u64(1), b"A", b"charity", &[], 1).unwrap();
    factory.set_global_nft_collection(b"OTHER-000000");
    assert_eq!(factory.global_nft_collection(), b"OTHER-000000".to_vec());
    assert_eq!(factory.get_nft_nonce(), 1);
    assert_eq!(factory.get_donor_nfts(&donor(1)), vec![1u64]);
}
