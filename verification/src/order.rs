//! The order data model and the admission validator: the business-rule gate
//! a candidate order must pass before funds are checked and an id is minted.

use vstd::prelude::*;

use crate::asset::{Asset, AssetDescriptor};
use crate::errors::CreateError;

verus! {

/// One recurring purchase instruction held in a user's order set.
#[derive(PartialEq, Eq, Debug)]
pub struct Order {
    /// Unique within the owning user's order set, never reused.
    pub id: u64,
    /// The asset being spent, with the total committed amount.
    pub initial_asset: Asset,
    /// The asset being bought; differs from `initial_asset`'s descriptor.
    pub target_asset: AssetDescriptor,
    /// Seconds between purchases.
    pub interval: u64,
    /// Timestamp of the last executed purchase, or the caller-supplied
    /// first-eligible timestamp at creation (0 when none was supplied).
    pub last_purchase: u64,
    /// Amount of `initial_asset` spent per purchase; positive, and divides
    /// the committed amount evenly.
    pub dca_amount: u128,
}

/// A candidate order as the caller describes it, before admission.
#[derive(PartialEq, Eq, Debug)]
pub struct CreateDcaOrder {
    pub initial_asset: Asset,
    pub target_asset: AssetDescriptor,
    pub interval: u64,
    pub dca_amount: u128,
    pub first_purchase: Option<u64>,
}

/// Some order in the set is already funded by `descriptor`.
pub open spec fn has_source(orders: Seq<Order>, descriptor: AssetDescriptor) -> bool {
    exists|i: int| 0 <= i < orders.len() && orders[i].initial_asset.info.same(descriptor)
}

/// No two orders in the set are funded by the same source asset — one
/// active strategy per funding asset per user.
pub open spec fn sources_unique(orders: Seq<Order>) -> bool {
    forall|i: int, j: int|
        0 <= i < j < orders.len() ==> !orders[i].initial_asset.info.same(
            orders[j].initial_asset.info,
        )
}

/// A well-formed admitted order: purchases are positive, no larger than the
/// whole deposit, consume it exactly, and buy a different asset than they
/// spend.
pub open spec fn order_well_formed(order: Order) -> bool {
    &&& 0 < order.dca_amount
    &&& order.dca_amount <= order.initial_asset.amount
    &&& order.initial_asset.amount % order.dca_amount == 0
    &&& !order.initial_asset.info.same(order.target_asset)
}

/// The admission gate, rules in order, first failing rule wins: no existing
/// order funded by the same source asset; source and target must differ; one
/// purchase cannot exceed the whole deposit; the deposit must be spent in
/// whole purchases (a zero per-purchase amount counts as indivisible).
pub open spec fn admission(orders: Seq<Order>, candidate: CreateDcaOrder) -> Result<
    (),
    CreateError,
> {
    if has_source(orders, candidate.initial_asset.info) {
        Err(CreateError::AlreadyExists)
    } else if candidate.initial_asset.info.same(candidate.target_asset) {
        Err(CreateError::InvalidPair)
    } else if candidate.dca_amount > candidate.initial_asset.amount {
        Err(CreateError::DepositTooSmall)
    } else if candidate.dca_amount == 0 || candidate.initial_asset.amount % candidate.dca_amount
        != 0 {
        Err(CreateError::IndivisibleDeposit)
    } else {
        Ok(())
    }
}

/// Decides whether some order in `orders` is already funded by `descriptor`.
pub fn contains_source(orders: &Vec<Order>, descriptor: &AssetDescriptor) -> (r: bool)
    ensures
        r == has_source(orders@, *descriptor),
{
    let mut i: usize = 0;
    while i < orders.len()
        invariant
            0 <= i <= orders@.len(),
            forall|j: int|
                0 <= j < i ==> !orders@[j].initial_asset.info.same(*descriptor),
        decreases orders@.len() - i,
    {
        if orders[i].initial_asset.info.is_same(descriptor) {
            return true;
        }
        i = i + 1;
    }
    false
}

/// Runs the admission gate over the user's current orders, returning the
/// first rule violation, or nothing when the candidate may proceed to the
/// balance proof.
pub fn validate_order(orders: &Vec<Order>, candidate: &CreateDcaOrder) -> (r: Result<
    (),
    CreateError,
>)
    ensures
        r == admission(orders@, *candidate),
{
    if contains_source(orders, &candidate.initial_asset.info) {
        return Err(CreateError::AlreadyExists);
    }
    if candidate.initial_asset.info.is_same(&candidate.target_asset) {
        return Err(CreateError::InvalidPair);
    }
    if candidate.dca_amount > candidate.initial_asset.amount {
        return Err(CreateError::DepositTooSmall);
    }
    if candidate.dca_amount == 0 || candidate.initial_asset.amount % candidate.dca_amount != 0 {
        return Err(CreateError::IndivisibleDeposit);
    }
    Ok(())
}

} // verus!
