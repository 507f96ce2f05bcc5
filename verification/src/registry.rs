//! One badge per donor: whether a donation mints the donor's badge or
//! rewrites the one they hold.

use vstd::prelude::*;
use crate::amount::Amount;
use crate::attributes::{attributes_text, badge_name_text};
use crate::factory::PhilanthrifyFactory;

verus! {

/// Every badge is issued in one unit.
pub const BADGE_QUANTITY: u64 = 1;

/// The royalties of a badge, in hundredths of a percent.
pub const BADGE_ROYALTIES: u64 = 500;

/// What is to be done about the donor's badge.
#[derive(Debug)]
pub struct BadgeDecision {
    /// The donor's badge, old or new.
    pub badge_id: u64,
    /// Whether the badge is to be issued now.
    pub minted_new: bool,
    /// The name to issue the badge under. A badge that exists keeps its name.
    pub badge_name: Option<Vec<u8>>,
    /// The attributes to write to the badge.
    pub attributes: Vec<u8>,
}

/// The name of a badge as a byte string, where there is one.
pub open spec fn name_model(name: Option<Vec<u8>>) -> Option<Seq<u8>> {
    match name {
        Some(bytes) => Some(bytes@),
        None => None,
    }
}

impl PhilanthrifyFactory {
    /// Decides about the donor's badge. A donor without a badge gets the next
    /// number after `nft_nonce`, under a name of its own; a donor with a badge
    /// keeps it, and only its attributes are written again.
    pub fn mint_or_update(
        existing_badge: Option<u64>,
        nft_nonce: u64,
        entity_name: &[u8],
        entity_type: &[u8],
        donation_amount: &Amount,
        custom_tags: &[Vec<u8>],
    ) -> (decision: BadgeDecision)
        requires
            existing_badge is None ==> nft_nonce < u64::MAX,
        ensures
            decision.minted_new == (existing_badge is None),
            decision.badge_id == match existing_badge {
                Some(badge) => badge,
                None => (nft_nonce + 1) as u64,
            },
            name_model(decision.badge_name) == match existing_badge {
                Some(badge) => None,
                None => Some(
                    badge_name_text((nft_nonce + 1) as nat, entity_name@, donation_amount@),
                ),
            },
            decision.attributes@ == attributes_text(
                entity_name@,
                entity_type@,
                donation_amount@,
                decision.badge_id as nat,
                custom_tags.deep_view(),
            ),
    {
        match existing_badge {
            Some(badge) => {
                let attributes = Self::create_nft_attributes(
                    entity_name,
                    entity_type,
                    donation_amount,
                    badge,
                    custom_tags,
                );
                BadgeDecision { badge_id: badge, minted_new: false, badge_name: None, attributes }
            },
            None => {
                let badge: u64 = nft_nonce + 1;
                let name = Self::badge_name(badge, entity_name, donation_amount);
                let attributes = Self::create_nft_attributes(
                    entity_name,
                    entity_type,
                    donation_amount,
                    badge,
                    custom_tags,
                );
                BadgeDecision {
                    badge_id: badge,
                    minted_new: true,
                    badge_name: Some(name),
                    attributes,
                }
            },
        }
    }
}

} // verus!
