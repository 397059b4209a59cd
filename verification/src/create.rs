//! Order creation: the whole admission pipeline — rule gate, balance proof,
//! id allocation, append — computed as one all-or-nothing step over the
//! user's state. On any rejection the state handed in is left untouched, so
//! the host never observes a partial write.

use vstd::prelude::*;

use crate::asset::{Asset, AssetDescriptor};
use crate::config::UserConfig;
use crate::deposit::{deposit_ok, check_deposit, DepositProof};
use crate::errors::CreateError;
use crate::laws::{
    creation_invariant, lemma_creation_maintains_invariant, lemma_creation_preserves_uniqueness,
};
use crate::order::{
    admission, order_well_formed, sources_unique, validate_order, CreateDcaOrder, Order,
};

verus! {

/// Acknowledgment of a successful creation: the facts the host emits as
/// human-readable attributes, plus the minted identifier.
#[derive(PartialEq, Eq, Debug)]
pub struct CreationAck {
    pub id: u64,
    pub initial_asset: Asset,
    pub target_asset: AssetDescriptor,
    pub interval: u64,
    pub dca_amount: u128,
}

impl CreationAck {
    /// The action name emitted alongside the acknowledgment's facts.
    pub fn action(&self) -> (r: &'static str)
        ensures
            r@ == "create_dca_order"@,
    {
        "create_dca_order"
    }
}

/// The order a successful creation appends: the candidate's fields under the
/// minted id, with the last-purchase time defaulting to 0 when the caller
/// supplied none.
pub open spec fn admitted_order(candidate: CreateDcaOrder, id: u64) -> Order {
    Order {
        id,
        initial_asset: candidate.initial_asset,
        target_asset: candidate.target_asset,
        interval: candidate.interval,
        last_purchase: match candidate.first_purchase {
            Some(t) => t,
            None => 0,
        },
        dca_amount: candidate.dca_amount,
    }
}

/// The acknowledgment a successful creation returns.
pub open spec fn creation_ack(candidate: CreateDcaOrder, id: u64) -> CreationAck {
    CreationAck {
        id,
        initial_asset: candidate.initial_asset,
        target_asset: candidate.target_asset,
        interval: candidate.interval,
        dca_amount: candidate.dca_amount,
    }
}

/// The decision of a whole creation attempt: the first failing step's error
/// — admission rules in their order, then the balance proof, then the id
/// counter — or nothing when the order is admitted.
pub open spec fn creation_outcome(
    orders: Seq<Order>,
    config: UserConfig,
    evidence: DepositProof,
    candidate: CreateDcaOrder,
) -> Result<(), CreateError> {
    if admission(orders, candidate) is Err {
        admission(orders, candidate)
    } else if !deposit_ok(candidate.initial_asset, evidence) {
        Err(CreateError::InvalidDeposit)
    } else if !config.can_allocate() {
        Err(CreateError::CounterOverflow)
    } else {
        Ok(())
    }
}

/// Creates a new DCA order for one user: `target_asset` will be purchased
/// with `dca_amount` of `initial_asset` every `interval` seconds.
///
/// `orders` and `config` are the user's current persisted state, loaded by
/// the host; `evidence` is the host's proof of the declared funds. On
/// success the admitted order is appended (prior orders kept in place), the
/// id counter advances by exactly one, and the minted id is one more than
/// the counter's previous value. On any rejection both `orders` and `config`
/// are exactly as they were, and the error names the first rule that failed.
pub fn create_dca_order(
    orders: &mut Vec<Order>,
    config: &mut UserConfig,
    evidence: &DepositProof,
    order_info: CreateDcaOrder,
) -> (r: Result<CreationAck, CreateError>)
    ensures
        r is Ok <==> creation_outcome(old(orders)@, *old(config), *evidence, order_info) is Ok,
        r is Err ==> {
            &&& final(orders)@ == old(orders)@
            &&& *final(config) == *old(config)
            &&& Err::<(), CreateError>(r->Err_0) == creation_outcome(
                old(orders)@,
                *old(config),
                *evidence,
                order_info,
            )
        },
        r is Ok ==> {
            &&& r->Ok_0 == creation_ack(order_info, r->Ok_0.id)
            &&& r->Ok_0.id == old(config).last_id + 1
            &&& *final(config) == (UserConfig { last_id: r->Ok_0.id })
            &&& final(orders)@ == old(orders)@.push(admitted_order(order_info, r->Ok_0.id))
            &&& order_well_formed(admitted_order(order_info, r->Ok_0.id))
            &&& (sources_unique(old(orders)@) ==> sources_unique(final(orders)@))
            &&& (creation_invariant(old(orders)@, *old(config))
                ==> creation_invariant(final(orders)@, *final(config)))
        },
{
    if let Err(e) = validate_order(orders, &order_info) {
        return Err(e);
    }
    if let Err(e) = check_deposit(&order_info.initial_asset, evidence) {
        return Err(e);
    }
    let (id, new_config) = match config.allocate_id() {
        Ok(minted) => minted,
        Err(e) => {
            return Err(e);
        },
    };
    let last_purchase: u64 = match order_info.first_purchase {
        Some(t) => t,
        None => 0,
    };
    let order = Order {
        id,
        initial_asset: order_info.initial_asset.clone(),
        target_asset: order_info.target_asset.clone(),
        interval: order_info.interval,
        last_purchase,
        dca_amount: order_info.dca_amount,
    };
    proof {
        if sources_unique(orders@) {
            lemma_creation_preserves_uniqueness(orders@, order_info, id);
        }
        if creation_invariant(orders@, *config) {
            lemma_creation_maintains_invariant(
                orders@,
                *config,
                *evidence,
                order_info,
            );
        }
    }
    orders.push(order);
    *config = new_config;
    Ok(
        CreationAck {
            id,
            initial_asset: order_info.initial_asset,
            target_asset: order_info.target_asset,
            interval: order_info.interval,
            dca_amount: order_info.dca_amount,
        },
    )
}

} // verus!
