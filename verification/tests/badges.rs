use philanthrify::amount::Amount;
use philanthrify::collection::is_collection_configured;
use philanthrify::factory::PhilanthrifyFactory;

#[test]
fn a_donor_without_a_badge_gets_the_next_number() {
    let decision = PhilanthrifyFactory::mint_or_update(
        None,
        4,
        b"Red Cross",
        b"charity",
        &Amount::from_u128(2_000_000_000_000_000_000),
        &[b"education".to_vec()],
    );
    assert!(decision.minted_new);
    assert_eq!(decision.badge_id, 5);
    assert_eq!(
        decision.badge_name,
        Some(b"PHILXY #5 \xe2\x80\xa2 Red Cross \xe2\x80\xa2 2 EGLD".to_vec())
    );
    assert_eq!(
        String::from_utf8(decision.attributes).unwrap(),
        "[{\"trait_type\":\"Tag\",\"value\":\"education\"},\
         {\"trait_type\":\"Charity\",\"value\":\"Red Cross\"},\
         {\"trait_type\":\"Type\",\"value\":\"charity\"},\
         {\"trait_type\":\"Amount\",\"value\":\"2 EGLD\"},\
         {\"trait_type\":\"NFT_ID\",\"value\":\"5\"}]"
    );
}

#[test]
fn a_donor_with_a_badge_keeps_it() {
    let decision = PhilanthrifyFactory::mint_or_update(
        Some(3),
        9,
        b"Clean Water",
        b"project",
        &Amount::from_u128(500_000_000_000_000_000),
        &[],
    );
    assert!(!decision.minted_new);
    assert_eq!(decision.badge_id, 3);
    assert_eq!(decision.badge_name, None);
    assert_eq!(
        String::from_utf8(decision.attributes).unwrap(),
        "[{\"trait_type\":\"Charity\",\"value\":\"Clean Water\"},\
         {\"trait_type\":\"Type\",\"value\":\"project\"},\
         {\"trait_type\":\"Amount\",\"value\":\"0.5 EGLD\"},\
         {\"trait_type\":\"NFT_ID\",\"value\":\"3\"}]"
    );
}

#[test]
fn the_first_badge_is_number_one() {
    let decision =
        PhilanthrifyFactory::mint_or_update(None, 0, b"A", b"charity", &Amount::from_u64(1), &[]);
    assert_eq!(decision.badge_id, 1);
}

#[test]
fn well_formed_collections_are_configured() {
    assert!(is_collection_configured(b"PHILXY-a1b2c3"));
    assert!(is_collection_configured(b"ABC-123456"));
    assert!(is_collection_configured(b"ABCDEFGHIJ-abcdef"));
    assert!(is_collection_configured(b"A1B2C3-000000"));
}

#[test]
fn malformed_collections_are_not_configured() {
    assert!(!is_collection_configured(b""));
    assert!(!is_collection_configured(b"PHILXY"));
    assert!(!is_collection_configured(b"AB-123456"));
    assert!(!is_collection_configured(b"ABCDEFGHIJK-abcdef"));
    assert!(!is_collection_configured(b"philxy-a1b2c3"));
    assert!(!is_collection_configured(b"PHILXY-A1B2C3"));
    assert!(!is_collection_configured(b"PHILXY_a1b2c3"));
    assert!(!is_collection_configured(b"PHILXY-a1b2c"));
    assert!(!is_collection_configured(b"PHILXY-a1b2c3d"));
    assert!(!is_collection_configured(b"PHI XY-a1b2c3"));
}

#[test]
fn the_native_currency_names_no_collection() {
    assert!(!is_collection_configured(b"EGLD-000000"));
    assert!(is_collection_configured(b"EGLD-000001"));
    assert!(is_collection_configured(b"EGLDX-000000"));
}

#[test]
fn an_identifier_longer_than_any_well_formed_one_is_not_configured() {
    assert!(is_collection_configured(b"ABCDEFGHIJ-abcdef"));
    assert!(!is_collection_configured(b"ABCDEFGHIJK-abcdef"));
    assert!(!is_collection_configured(b"ABCDEFGHIJ-abcdefg"));
    let mut long = b"PHILXY-a1b2c3".to_vec();
    long.extend_from_slice(&[b'0'; 5000]);
    assert!(!is_collection_configured(&long));
    let mut spaced = b"PHILXY-a1b2c3".to_vec();
    spaced.extend_from_slice(&[0u8; 70000]);
    assert!(!is_collection_configured(&spaced));
}
