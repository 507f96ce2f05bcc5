//! Badge metadata: the attribute list and the badge name, built from the
//! donation they describe. Equal inputs give equal bytes.

use vstd::prelude::*;
use vstd::string::StringSliceAdditionalSpecFns;
use crate::amount::Amount;
use crate::bytes::{append_bytes, copy_bytes};
use crate::factory::PhilanthrifyFactory;
use crate::format::{decimal_digits, egld_text};

verus! {

/// How many tags a badge carries at most.
pub const MAX_TAGS: usize = 10;

/// The tags that are not empty, in their order.
pub open spec fn named_tags(tags: Seq<Seq<u8>>) -> Seq<Seq<u8>> {
    tags.filter(|tag: Seq<u8>| tag.len() > 0)
}

/// The tags that a badge carries: the first ten that are not empty.
pub open spec fn retained_tags(tags: Seq<Seq<u8>>) -> Seq<Seq<u8>> {
    if named_tags(tags).len() <= MAX_TAGS {
        named_tags(tags)
    } else {
        named_tags(tags).take(MAX_TAGS as int)
    }
}

/// One trait object of the attribute list.
pub open spec fn trait_text(kind: Seq<u8>, value: Seq<u8>) -> Seq<u8> {
    "{\"trait_type\":\"".spec_bytes() + kind + "\",\"value\":\"".spec_bytes() + value
        + "\"}".spec_bytes()
}

/// The trait objects of the given tags, each followed by a comma.
pub open spec fn tag_traits(tags: Seq<Seq<u8>>) -> Seq<u8>
    decreases tags.len(),
{
    if tags.len() == 0 {
        Seq::empty()
    } else {
        tag_traits(tags.drop_last()) + trait_text("Tag".spec_bytes(), tags.last())
            + ",".spec_bytes()
    }
}

/// The attribute list of a badge: the retained tags, then the entity's name,
/// its type, the amount in whole units and the number of the badge.
pub open spec fn attributes_text(
    entity_name: Seq<u8>,
    entity_type: Seq<u8>,
    amount: nat,
    badge: nat,
    tags: Seq<Seq<u8>>,
) -> Seq<u8> {
    "[".spec_bytes() + tag_traits(retained_tags(tags)) + trait_text(
        "Charity".spec_bytes(),
        entity_name,
    ) + ",".spec_bytes() + trait_text("Type".spec_bytes(), entity_type) + ",".spec_bytes()
        + trait_text("Amount".spec_bytes(), egld_text(amount) + " EGLD".spec_bytes())
        + ",".spec_bytes() + trait_text("NFT_ID".spec_bytes(), decimal_digits(badge))
        + "]".spec_bytes()
}

/// The name under which a badge is issued.
pub open spec fn badge_name_text(badge: nat, entity_name: Seq<u8>, amount: nat) -> Seq<u8> {
    "PHILXY #".spec_bytes() + decimal_digits(badge) + " \u{2022} ".spec_bytes()
        + entity_name + " \u{2022} ".spec_bytes() + egld_text(amount) + " EGLD".spec_bytes()
}

/// A badge carries at most ten tags, none of them empty: the first of the
/// tags that are not empty, in the order in which they were given.
pub proof fn lemma_retained_tags(tags: Seq<Seq<u8>>)
    ensures
        retained_tags(tags).len() <= MAX_TAGS,
        retained_tags(tags).len() <= named_tags(tags).len() <= tags.len(),
        named_tags(tags).len() <= MAX_TAGS ==> retained_tags(tags) == named_tags(tags),
        forall|k: int|
            0 <= k < retained_tags(tags).len() ==> {
                &&& (#[trigger] retained_tags(tags)[k]).len() > 0
                &&& retained_tags(tags)[k] == named_tags(tags)[k]
                &&& tags.contains(retained_tags(tags)[k])
            },
{
    tags.lemma_filter_len(|tag: Seq<u8>| tag.len() > 0);
    assert forall|k: int| 0 <= k < retained_tags(tags).len() implies {
        &&& (#[trigger] retained_tags(tags)[k]).len() > 0
        &&& retained_tags(tags)[k] == named_tags(tags)[k]
        &&& tags.contains(retained_tags(tags)[k])
    } by {
        assert(k < named_tags(tags).len());
        tags.lemma_filter_pred(|tag: Seq<u8>| tag.len() > 0, k);
        assert(named_tags(tags).contains(named_tags(tags)[k]));
        tags.lemma_filter_contains_rev(|tag: Seq<u8>| tag.len() > 0, named_tags(tags)[k]);
    }
}

/// The first ten tags that are not empty, in their order.
pub fn retain_tags(custom_tags: &[Vec<u8>]) -> (kept: Vec<Vec<u8>>)
    ensures
        kept.deep_view() == retained_tags(custom_tags.deep_view()),
        kept.len() <= MAX_TAGS,
{
    let ghost tags = custom_tags.deep_view();
    let mut kept: Vec<Vec<u8>> = Vec::new();
    let mut i: usize = 0;
    assert(tags.take(0) =~= Seq::empty());
    assert(named_tags(tags.take(0)) =~= Seq::empty()) by {
        reveal(Seq::filter);
    }
    assert(kept.deep_view() =~= retained_tags(tags.take(0)));
    while i < custom_tags.len()
        invariant
            i <= custom_tags@.len(),
            tags == custom_tags.deep_view(),
            kept.deep_view() == retained_tags(tags.take(i as int)),
            kept.len() <= MAX_TAGS,
        decreases custom_tags@.len() - i,
    {
        let ghost before = kept.deep_view();
        let ghost seen = tags.take(i as int);
        proof {
            assert(tags.take(i + 1) =~= seen.push(tags[i as int]));
            seen.lemma_filter_push(tags[i as int], |tag: Seq<u8>| tag.len() > 0);
        }
        if custom_tags[i].len() > 0 && kept.len() < MAX_TAGS {
            kept.push(copy_bytes(custom_tags[i].as_slice()));
            assert(kept.deep_view() =~= before.push(tags[i as int]));
            assert(kept.deep_view() =~= retained_tags(tags.take(i + 1)));
        } else {
            assert(kept.deep_view() =~= retained_tags(tags.take(i + 1)));
        }
        i += 1;
    }
    assert(tags.take(i as int) =~= tags);
    kept
}

/// Appends one trait object.
fn append_trait(buffer: &mut Vec<u8>, kind: &[u8], value: &[u8])
    ensures
        final(buffer)@ == old(buffer)@ + trait_text(kind@, value@),
{
    let ghost before = buffer@;
    append_bytes(buffer, "{\"trait_type\":\"".as_bytes());
    append_bytes(buffer, kind);
    append_bytes(buffer, "\",\"value\":\"".as_bytes());
    append_bytes(buffer, value);
    append_bytes(buffer, "\"}".as_bytes());
    assert(buffer@ =~= before + trait_text(kind@, value@));
}

impl PhilanthrifyFactory {
    /// The attribute list of a badge. Of the tags only the first ten that are
    /// not empty are written; the four fixed traits always follow them.
    pub fn create_nft_attributes(
        entity_name: &[u8],
        entity_type: &[u8],
        donation_amount: &Amount,
        nft_nonce: u64,
        user_tags: &[Vec<u8>],
    ) -> (attributes: Vec<u8>)
        ensures
            attributes@ == attributes_text(
                entity_name@,
                entity_type@,
                donation_amount@,
                nft_nonce as nat,
                user_tags.deep_view(),
            ),
    {
        let kept = retain_tags(user_tags);
        let ghost tags = kept.deep_view();
        let mut attributes: Vec<u8> = Vec::new();
        append_bytes(&mut attributes, "[".as_bytes());
        let mut i: usize = 0;
        assert(tags.take(0) =~= Seq::empty());
        assert(attributes@ =~= "[".spec_bytes() + tag_traits(tags.take(0)));
        while i < kept.len()
            invariant
                i <= kept@.len(),
                tags == kept.deep_view(),
                attributes@ == "[".spec_bytes() + tag_traits(tags.take(i as int)),
            decreases kept@.len() - i,
        {
            let ghost before = attributes@;
            append_trait(&mut attributes, "Tag".as_bytes(), kept[i].as_slice());
            append_bytes(&mut attributes, ",".as_bytes());
            proof {
                let seen = tags.take(i + 1);
                assert(seen.drop_last() =~= tags.take(i as int));
                assert(seen.last() == kept@[i as int]@);
                assert(attributes@ =~= "[".spec_bytes() + tag_traits(seen));
            }
            i += 1;
        }
        assert(tags.take(i as int) =~= tags);
        append_trait(&mut attributes, "Charity".as_bytes(), entity_name);
        append_bytes(&mut attributes, ",".as_bytes());
        append_trait(&mut attributes, "Type".as_bytes(), entity_type);
        append_bytes(&mut attributes, ",".as_bytes());
        let mut amount_text = Self::biguint_to_egld_string(donation_amount);
        append_bytes(&mut amount_text, " EGLD".as_bytes());
        append_trait(&mut attributes, "Amount".as_bytes(), amount_text.as_slice());
        append_bytes(&mut attributes, ",".as_bytes());
        let number = Self::u64_to_buffer(nft_nonce);
        append_trait(&mut attributes, "NFT_ID".as_bytes(), number.as_slice());
        append_bytes(&mut attributes, "]".as_bytes());
        assert(attributes@ =~= attributes_text(
            entity_name@,
            entity_type@,
            donation_amount@,
            nft_nonce as nat,
            user_tags.deep_view(),
        ));
        attributes
    }

    /// The name under which a badge is issued: the collection's ticker, the
    /// number of the badge, the entity and the amount in whole units.
    pub fn badge_name(nft_nonce: u64, entity_name: &[u8], donation_amount: &Amount) -> (name: Vec<u8>)
        ensures
            name@ == badge_name_text(nft_nonce as nat, entity_name@, donation_amount@),
    {
        let mut name: Vec<u8> = Vec::new();
        append_bytes(&mut name, "PHILXY #".as_bytes());
        let number = Self::u64_to_buffer(nft_nonce);
        append_bytes(&mut name, number.as_slice());
        append_bytes(&mut name, " \u{2022} ".as_bytes());
        append_bytes(&mut name, entity_name);
        append_bytes(&mut name, " \u{2022} ".as_bytes());
        let amount_text = Self::biguint_to_egld_string(donation_amount);
        append_bytes(&mut name, amount_text.as_slice());
        append_bytes(&mut name, " EGLD".as_bytes());
        assert(name@ =~= badge_name_text(nft_nonce as nat, entity_name@, donation_amount@));
        name
    }
}

} // verus!
