//! A charity: it takes payments, and asks the factory to record them as
//! donations to itself, or passes them on to one of its projects.

use vstd::prelude::*;
use vstd::string::StringSliceAdditionalSpecFns;
use crate::address::Address;
use crate::amount::Amount;
use crate::bytes::copy_bytes;
use crate::error::DonationError;
use crate::ledger::charity_type;
use crate::request::{
    batch_share, forward_share, is_nobody, MintRequest, RequestModel, Transfer, TransferModel,
};
use crate::split::{split_payment, MAX_BATCH};

verus! {

/// A charity.
pub struct PhilanthrifyCharity {
    charity_name: Vec<u8>,
    factory_address: Address,
    owner: Address,
    project_template: Address,
}

/// A charity as byte strings.
pub struct CharityModel {
    pub charity_name: Seq<u8>,
    pub factory_address: Seq<u8>,
    pub owner: Seq<u8>,
    pub project_template: Seq<u8>,
}

impl View for PhilanthrifyCharity {
    type V = CharityModel;

    closed spec fn view(&self) -> CharityModel {
        CharityModel {
            charity_name: self.charity_name@,
            factory_address: self.factory_address@,
            owner: self.owner@,
            project_template: self.project_template@,
        }
    }
}

impl PhilanthrifyCharity {
    /// A charity of the given name, under the given factory and owner.
    pub fn init(
        charity_name: &[u8],
        factory_address: Address,
        owner_address: Address,
        project_template: Address,
    ) -> (charity: Self)
        ensures
            charity@ == (CharityModel {
                charity_name: charity_name@,
                factory_address: factory_address@,
                owner: owner_address@,
                project_template: project_template@,
            }),
    {
        PhilanthrifyCharity {
            charity_name: copy_bytes(charity_name),
            factory_address,
            owner: owner_address,
            project_template,
        }
    }

    /// The name under which donations to the charity are recorded.
    pub fn charity_name(&self) -> (name: Vec<u8>)
        ensures
            name@ == self@.charity_name,
    {
        self.charity_name.clone()
    }

    /// Who owns the charity.
    pub fn owner(&self) -> (owner: Address)
        ensures
            owner@ == self@.owner,
    {
        self.owner
    }

    /// The factory that records the charity's donations.
    pub fn factory_address(&self) -> (factory: Address)
        ensures
            factory@ == self@.factory_address,
    {
        self.factory_address
    }

    /// The template that the charity's projects are made from.
    pub fn project_template(&self) -> (template: Address)
        ensures
            template@ == self@.project_template,
    {
        self.project_template
    }

    /// The request that a payment to the charity makes of the factory: to
    /// record it as the caller's donation to this charity. A payment of
    /// nothing makes none.
    pub fn donate_to_charity(&self, caller: &Address, payment: &Amount, custom_tags: &[Vec<u8>]) -> (result:
        Result<MintRequest, DonationError>)
        ensures
            match result {
                Ok(request) => payment@ > 0 && request@ == (RequestModel {
                    donor: caller@,
                    amount: payment@,
                    entity_name: self@.charity_name,
                    entity_type: charity_type(),
                    tags: custom_tags.deep_view(),
                }),
                Err(error) => payment@ == 0 && error == DonationError::ZeroAmount,
            },
    {
        if payment.is_zero() {
            return Err(DonationError::ZeroAmount);
        }
        Ok(
            MintRequest::new(
                caller,
                payment,
                self.charity_name.as_slice(),
                "charity".as_bytes(),
                custom_tags,
            ),
        )
    }

    /// The request that each of `num_donations` equal donations out of one
    /// payment makes of the factory. It is to be made `num_donations` times.
    pub fn batch_donate_to_charity(
        &self,
        caller: &Address,
        total_payment: &Amount,
        num_donations: u64,
        custom_tags: &[Vec<u8>],
    ) -> (result: Result<MintRequest, DonationError>)
        ensures
            match result {
                Ok(request) => batch_share(total_payment@, num_donations) == Ok::<
                    nat,
                    DonationError,
                >(request@.amount) && request@ == (RequestModel {
                    donor: caller@,
                    amount: request@.amount,
                    entity_name: self@.charity_name,
                    entity_type: charity_type(),
                    tags: custom_tags.deep_view(),
                }),
                Err(error) => batch_share(total_payment@, num_donations) == Err::<
                    nat,
                    DonationError,
                >(error),
            },
    {
        if total_payment.is_zero() {
            return Err(DonationError::ZeroAmount);
        }
        match split_payment(total_payment, num_donations) {
            Ok(each) => Ok(
                MintRequest::new(
                    caller,
                    &each,
                    self.charity_name.as_slice(),
                    "charity".as_bytes(),
                    custom_tags,
                ),
            ),
            Err(error) => Err(error),
        }
    }

    /// The transfer by which a payment is passed on to a project. Nothing is
    /// passed on to the address of all zeros.
    pub fn forward_donation_to_project(&self, payment: &Amount, project_address: &Address) -> (result:
        Result<Transfer, DonationError>)
        ensures
            match result {
                Ok(transfer) => {
                    &&& payment@ > 0
                    &&& !is_nobody(project_address@)
                    &&& transfer@ == (TransferModel {
                        project: project_address@,
                        amount: payment@,
                    })
                },
                Err(error) => if payment@ == 0 {
                    error == DonationError::ZeroAmount
                } else {
                    is_nobody(project_address@) && error == DonationError::InvalidRecipient
                },
            },
    {
        if payment.is_zero() {
            return Err(DonationError::ZeroAmount);
        }
        if project_address.is_zero() {
            return Err(DonationError::InvalidRecipient);
        }
        Ok(Transfer { project: *project_address, amount: payment.clone() })
    }

    /// The transfer by which each of `num_donations` equal parts of a payment
    /// is passed on to a project. It is to be made `num_donations` times.
    pub fn batch_forward_donation_to_project(
        &self,
        total_payment: &Amount,
        project_address: &Address,
        num_donations: u64,
    ) -> (result: Result<Transfer, DonationError>)
        ensures
            match result {
                Ok(transfer) => forward_share(total_payment@, num_donations, project_address@)
                    == Ok::<nat, DonationError>(transfer@.amount) && transfer@.project
                    == project_address@,
                Err(error) => forward_share(total_payment@, num_donations, project_address@)
                    == Err::<nat, DonationError>(error),
            },
    {
        if total_payment.is_zero() {
            return Err(DonationError::ZeroAmount);
        }
        if num_donations == 0 || num_donations > MAX_BATCH {
            return Err(DonationError::InvalidBatchSize);
        }
        if project_address.is_zero() {
            return Err(DonationError::InvalidRecipient);
        }
        match split_payment(total_payment, num_donations) {
            Ok(each) => Ok(Transfer { project: *project_address, amount: each }),
            Err(error) => Err(error),
        }
    }
}

} // verus!
