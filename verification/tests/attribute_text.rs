use philanthrify::amount::Amount;
use philanthrify::attributes::retain_tags;
use philanthrify::factory::PhilanthrifyFactory;

fn tags(list: &[&str]) -> Vec<Vec<u8>> {
    list.iter().map(|tag| tag.as_bytes().to_vec()).collect()
}

fn encode(name: &str, kind: &str, amount: u128, badge: u64, list: &[&str]) -> String {
    String::from_utf8(PhilanthrifyFactory::create_nft_attributes(
        name.as_bytes(),
        kind.as_bytes(),
        &Amount::from_u128(amount),
        badge,
        &tags(list),
    ))
    .unwrap()
}

#[test]
fn four_fixed_traits_without_tags() {
    assert_eq!(
        encode("Red Cross", "charity", 2_000_000_000_000_000_000, 1, &[]),
        "[{\"trait_type\":\"Charity\",\"value\":\"Red Cross\"},\
         {\"trait_type\":\"Type\",\"value\":\"charity\"},\
         {\"trait_type\":\"Amount\",\"value\":\"2 EGLD\"},\
         {\"trait_type\":\"NFT_ID\",\"value\":\"1\"}]"
    );
}

#[test]
fn tags_come_first_in_their_order() {
    assert_eq!(
        encode("Clean Water", "project", 500_000_000_000_000_000, 42, &["education", "health"]),
        "[{\"trait_type\":\"Tag\",\"value\":\"education\"},\
         {\"trait_type\":\"Tag\",\"value\":\"health\"},\
         {\"trait_type\":\"Charity\",\"value\":\"Clean Water\"},\
         {\"trait_type\":\"Type\",\"value\":\"project\"},\
         {\"trait_type\":\"Amount\",\"value\":\"0.5 EGLD\"},\
         {\"trait_type\":\"NFT_ID\",\"value\":\"42\"}]"
    );
}

#[test]
fn empty_tags_are_dropped() {
    assert_eq!(
        encode("A", "charity", 1, 7, &["", "x", "", "y", ""]),
        encode("A", "charity", 1, 7, &["x", "y"])
    );
    assert_eq!(encode("A", "charity", 1, 7, &["", ""]), encode("A", "charity", 1, 7, &[]));
}

#[test]
fn only_the_first_ten_tags_are_written() {
    let many = ["t1", "t2", "t3", "t4", "t5", "t6", "t7", "t8", "t9", "t10", "t11", "t12"];
    let ten = ["t1", "t2", "t3", "t4", "t5", "t6", "t7", "t8", "t9", "t10"];
    let text = encode("A", "charity", 1, 7, &many);
    assert_eq!(text, encode("A", "charity", 1, 7, &ten));
    assert!(text.contains("\"value\":\"t10\""));
    assert!(!text.contains("\"value\":\"t11\""));
    assert_eq!(text.matches("\"trait_type\":\"Tag\"").count(), 10);
}

#[test]
fn empty_tags_do_not_count_toward_the_ten() {
    let mixed = ["", "t1", "t2", "", "t3", "t4", "t5", "", "t6", "t7", "t8", "t9", "", "t10", "t11"];
    let ten = ["t1", "t2", "t3", "t4", "t5", "t6", "t7", "t8", "t9", "t10"];
    assert_eq!(retain_tags(&tags(&mixed)), tags(&ten));
    assert_eq!(encode("A", "charity", 1, 7, &mixed), encode("A", "charity", 1, 7, &ten));
}

#[test]
fn retained_tags_keep_their_order() {
    assert_eq!(retain_tags(&tags(&["b", "a", "", "c"])), tags(&["b", "a", "c"]));
    assert_eq!(retain_tags(&tags(&[])), tags(&[]));
    assert_eq!(retain_tags(&tags(&["", "", ""])), tags(&[]));
}

#[test]
fn equal_inputs_give_equal_bytes() {
    let first = encode("Red Cross", "charity", 1_234_500_000_000_000_000, 9, &["a", "", "b"]);
    let second = encode("Red Cross", "charity", 1_234_500_000_000_000_000, 9, &["a", "", "b"]);
    assert_eq!(first, second);
    assert!(first.contains("{\"trait_type\":\"Amount\",\"value\":\"1.23 EGLD\"}"));
}

#[test]
fn badge_name_lists_number_entity_and_amount() {
    let name = PhilanthrifyFactory::badge_name(
        1,
        b"Red Cross",
        &Amount::from_u128(2_000_000_000_000_000_000),
    );
    assert_eq!(String::from_utf8(name).unwrap(), "PHILXY #1 \u{2022} Red Cross \u{2022} 2 EGLD");
    let name = PhilanthrifyFactory::badge_name(
        120,
        b"Clean Water",
        &Amount::from_u128(1_500_000_000_000_000_000),
    );
    assert_eq!(
        name,
        b"PHILXY #120 \xe2\x80\xa2 Clean Water \xe2\x80\xa2 1.5 EGLD".to_vec()
    );
}
