//! A project of a charity: it takes payments, and asks the factory to record
//! them as donations to itself.

use vstd::prelude::*;
use vstd::string::StringSliceAdditionalSpecFns;
use crate::address::Address;
use crate::amount::Amount;
use crate::bytes::copy_bytes;
use crate::error::DonationError;
use crate::request::{batch_share, MintRequest, RequestModel};
use crate::split::split_payment;

verus! {

/// A project. It is owned by the charity that it belongs to.
pub struct PhilanthrifyProject {
    project_name: Vec<u8>,
    charity_address: Address,
    factory_address: Address,
    global_admin: Address,
    owner: Address,
}

/// A project as byte strings.
pub struct ProjectModel {
    pub project_name: Seq<u8>,
    pub charity_address: Seq<u8>,
    pub factory_address: Seq<u8>,
    pub global_admin: Seq<u8>,
    pub owner: Seq<u8>,
}

/// The entity type of a project.
pub open spec fn project_type() -> Seq<u8> {
    "project".spec_bytes()
}

impl View for PhilanthrifyProject {
    type V = ProjectModel;

    closed spec fn view(&self) -> ProjectModel {
        ProjectModel {
            project_name: self.project_name@,
            charity_address: self.charity_address@,
            factory_address: self.factory_address@,
            global_admin: self.global_admin@,
            owner: self.owner@,
        }
    }
}

impl PhilanthrifyProject {
    /// A project of the given name, owned by the given charity.
    pub fn init(
        project_name: &[u8],
        charity_address: Address,
        factory_address: Address,
        global_admin: Address,
    ) -> (project: Self)
        ensures
            project@ == (ProjectModel {
                project_name: project_name@,
                charity_address: charity_address@,
                factory_address: factory_address@,
                global_admin: global_admin@,
                owner: charity_address@,
            }),
    {
        PhilanthrifyProject {
            project_name: copy_bytes(project_name),
            charity_address,
            factory_address,
            global_admin,
            owner: charity_address,
        }
    }

    /// The name under which donations to the project are recorded.
    pub fn project_name(&self) -> (name: Vec<u8>)
        ensures
            name@ == self@.project_name,
    {
        self.project_name.clone()
    }

    /// The charity that the project belongs to.
    pub fn charity_address(&self) -> (charity: Address)
        ensures
            charity@ == self@.charity_address,
    {
        self.charity_address
    }

    /// The factory that records the project's donations.
    pub fn factory_address(&self) -> (factory: Address)
        ensures
            factory@ == self@.factory_address,
    {
        self.factory_address
    }

    /// Who administers the network.
    pub fn global_admin(&self) -> (admin: Address)
        ensures
            admin@ == self@.global_admin,
    {
        self.global_admin
    }

    /// Who owns the project: the charity it was made for.
    pub fn owner(&self) -> (owner: Address)
        ensures
            owner@ == self@.owner,
    {
        self.owner
    }

    /// The request that a payment to the project makes of the factory: to
    /// record it as the caller's donation to this project. A payment of
    /// nothing makes none.
    pub fn donate_to_project(&self, caller: &Address, payment: &Amount, custom_tags: &[Vec<u8>]) -> (result:
        Result<MintRequest, DonationError>)
        ensures
            match result {
                Ok(request) => payment@ > 0 && request@ == (RequestModel {
                    donor: caller@,
                    amount: payment@,
                    entity_name: self@.project_name,
                    entity_type: project_type(),
                    tags: custom_tags.deep_view(),
                }),
                Err(error) => payment@ == 0 && error == DonationError::ZeroAmount,
            },
    {
        if payment.is_zero() {
            return Err(DonationError::ZeroAmount);
        }
        Ok(
            MintRequest::new(
                caller,
                payment,
                self.project_name.as_slice(),
                "project".as_bytes(),
                custom_tags,
            ),
        )
    }

    /// The request that each of `num_donations` equal donations out of one
    /// payment makes of the factory. It is to be made `num_donations` times.
    pub fn batch_donate_to_project(
        &self,
        caller: &Address,
        total_payment: &Amount,
        num_donations: u64,
        custom_tags: &[Vec<u8>],
    ) -> (result: Result<MintRequest, DonationError>)
        ensures
            match result {
                Ok(request) => batch_share(total_payment@, num_donations) == Ok::<
                    nat,
                    DonationError,
                >(request@.amount) && request@ == (RequestModel {
                    donor: caller@,
                    amount: request@.amount,
                    entity_name: self@.project_name,
                    entity_type: project_type(),
                    tags: custom_tags.deep_view(),
                }),
                Err(error) => batch_share(total_payment@, num_donations) == Err::<
                    nat,
                    DonationError,
                >(error),
            },
    {
        if total_payment.is_zero() {
            return Err(DonationError::ZeroAmount);
        }
        match split_payment(total_payment, num_donations) {
            Ok(each) => Ok(
                MintRequest::new(
                    caller,
                    &each,
                    self.project_name.as_slice(),
                    "project".as_bytes(),
                    custom_tags,
                ),
            ),
            Err(error) => Err(error),
        }
    }
}

} // verus!
