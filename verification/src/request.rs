//! What an entity asks of the factory, and of a project, when it is given a
//! payment.

use vstd::prelude::*;
use crate::address::Address;
use crate::amount::Amount;
use crate::bytes::copy_bytes;
use crate::error::DonationError;
use crate::model::Donation;
use crate::split::share;

verus! {

/// A donation to be recorded by the factory.
#[derive(Debug)]
pub struct MintRequest {
    pub donor: Address,
    pub amount: Amount,
    pub entity_name: Vec<u8>,
    pub entity_type: Vec<u8>,
    pub tags: Vec<Vec<u8>>,
}

/// A payment to be passed on to a project, as a donation to it.
#[derive(Debug)]
pub struct Transfer {
    pub project: Address,
    pub amount: Amount,
}

/// A request as numbers and byte strings.
pub struct RequestModel {
    pub donor: Seq<u8>,
    pub amount: nat,
    pub entity_name: Seq<u8>,
    pub entity_type: Seq<u8>,
    pub tags: Seq<Seq<u8>>,
}

/// A transfer as numbers and byte strings.
pub struct TransferModel {
    pub project: Seq<u8>,
    pub amount: nat,
}

impl View for MintRequest {
    type V = RequestModel;

    open spec fn view(&self) -> RequestModel {
        RequestModel {
            donor: self.donor@,
            amount: self.amount@,
            entity_name: self.entity_name@,
            entity_type: self.entity_type@,
            tags: self.tags.deep_view(),
        }
    }
}

impl View for Transfer {
    type V = TransferModel;

    open spec fn view(&self) -> TransferModel {
        TransferModel { project: self.project@, amount: self.amount@ }
    }
}

impl RequestModel {
    /// The donation that the request becomes when it reaches the factory at
    /// `timestamp`.
    pub open spec fn at(self, timestamp: u64) -> Donation {
        Donation {
            donor: self.donor,
            amount: self.amount,
            entity_name: self.entity_name,
            entity_type: self.entity_type,
            tags: self.tags,
            timestamp,
        }
    }
}

/// What each donation of a batch gets. A payment of nothing is turned away
/// before the size of the batch is looked at.
pub open spec fn batch_share(total: nat, count: u64) -> Result<nat, DonationError> {
    if total == 0 {
        Err(DonationError::ZeroAmount)
    } else {
        share(total, count)
    }
}

/// What each transfer of a batch carries. The recipient is looked at after the
/// size of the batch and before the share.
pub open spec fn forward_share(total: nat, count: u64, project: Seq<u8>) -> Result<
    nat,
    DonationError,
> {
    if total == 0 {
        Err(DonationError::ZeroAmount)
    } else if share(total, count) == Err::<nat, DonationError>(DonationError::InvalidBatchSize) {
        Err(DonationError::InvalidBatchSize)
    } else if is_nobody(project) {
        Err(DonationError::InvalidRecipient)
    } else {
        share(total, count)
    }
}

/// Whether the address is the one of all zeros.
pub open spec fn is_nobody(address: Seq<u8>) -> bool {
    forall|k: int| 0 <= k < 32 ==> address[k] == 0
}

/// An owned copy of a list of tags.
pub fn copy_tags(tags: &[Vec<u8>]) -> (copy: Vec<Vec<u8>>)
    ensures
        copy.deep_view() == tags.deep_view(),
{
    let mut copy: Vec<Vec<u8>> = Vec::new();
    let mut i: usize = 0;
    while i < tags.len()
        invariant
            i <= tags@.len(),
            copy@.len() == i,
            forall|k: int| 0 <= k < i ==> (#[trigger] copy@[k])@ == tags@[k]@,
        decreases tags@.len() - i,
    {
        copy.push(copy_bytes(tags[i].as_slice()));
        i += 1;
    }
    assert(copy.deep_view() =~= tags.deep_view());
    copy
}

impl MintRequest {
    /// The request to record a donation of `amount` by `donor` to the entity.
    pub fn new(
        donor: &Address,
        amount: &Amount,
        entity_name: &[u8],
        entity_type: &[u8],
        tags: &[Vec<u8>],
    ) -> (request: Self)
        ensures
            request@ == (RequestModel {
                donor: donor@,
                amount: amount@,
                entity_name: entity_name@,
                entity_type: entity_type@,
                tags: tags.deep_view(),
            }),
    {
        MintRequest {
            donor: *donor,
            amount: amount.clone(),
            entity_name: copy_bytes(entity_name),
            entity_type: copy_bytes(entity_type),
            tags: copy_tags(tags),
        }
    }
}

} // verus!
