//! The laws of the creation engine, stated and proved over the
//! specification-level model that the executable contracts use.

use vstd::prelude::*;

use crate::asset::Asset;
use crate::config::UserConfig;
use crate::create::{admitted_order, creation_outcome};
use crate::deposit::{deposit_ok, DepositProof};
use crate::order::{admission, order_well_formed, sources_unique, CreateDcaOrder, Order};

verus! {

/// The per-user state invariant that creation maintains: the counter equals
/// the number of orders held, the order at position `i` carries id `i + 1` —
/// so identifiers are consecutive starting at 1 — no two orders share a
/// funding source, and every stored order is well formed.
pub open spec fn creation_invariant(orders: Seq<Order>, config: UserConfig) -> bool {
    &&& config.last_id == orders.len()
    &&& (forall|i: int| 0 <= i < orders.len() ==> orders[i].id == i + 1)
    &&& sources_unique(orders)
    &&& (forall|i: int| 0 <= i < orders.len() ==> order_well_formed(orders[i]))
}

/// Law: a fresh user — no orders, no identifier issued — satisfies the
/// creation invariant, the base case of every creation history.
pub proof fn lemma_fresh_user_invariant(config: UserConfig)
    requires
        config.last_id == 0,
    ensures
        creation_invariant(Seq::<Order>::empty(), config),
{
}

/// Law: a successful creation maintains the creation invariant, so over any
/// sequence of successful creations by one user the assigned identifiers are
/// exactly 1, 2, 3, … in order, no two resulting orders share a source
/// asset, and every resulting order is well formed.
pub proof fn lemma_creation_maintains_invariant(
    orders: Seq<Order>,
    config: UserConfig,
    evidence: DepositProof,
    candidate: CreateDcaOrder,
)
    requires
        creation_invariant(orders, config),
        creation_outcome(orders, config, evidence, candidate) is Ok,
    ensures
        creation_invariant(
            orders.push(admitted_order(candidate, (config.last_id + 1) as u64)),
            UserConfig { last_id: (config.last_id + 1) as u64 },
        ),
{
    let id = (config.last_id + 1) as u64;
    let appended = orders.push(admitted_order(candidate, id));
    lemma_creation_preserves_uniqueness(orders, candidate, id);
    lemma_admitted_order_well_formed(orders, candidate, id);
    assert forall|i: int| 0 <= i < appended.len() implies appended[i].id == i + 1 by {
        if i < orders.len() {
            assert(appended[i] == orders[i]);
        }
    }
    assert forall|i: int| 0 <= i < appended.len() implies order_well_formed(appended[i]) by {
        if i < orders.len() {
            assert(appended[i] == orders[i]);
        }
    }
}

/// Law (uniqueness): a creation that passes admission preserves source
/// uniqueness, so no sequence of successful creations by one user ever
/// yields two orders funded by the same source asset.
pub proof fn lemma_creation_preserves_uniqueness(
    orders: Seq<Order>,
    candidate: CreateDcaOrder,
    id: u64,
)
    requires
        sources_unique(orders),
        admission(orders, candidate) is Ok,
    ensures
        sources_unique(orders.push(admitted_order(candidate, id))),
{
    let appended = orders.push(admitted_order(candidate, id));
    assert forall|i: int, j: int|
        0 <= i < j < appended.len() implies !appended[i].initial_asset.info.same(
        appended[j].initial_asset.info,
    ) by {
        if j == orders.len() {
            assert(!orders[i].initial_asset.info.same(candidate.initial_asset.info));
        }
    }
}

/// Law (id monotonicity, base): a fresh user's config — no identifier issued
/// yet — mints 1 as its first identifier.
pub proof fn lemma_ids_start_at_one(config: UserConfig)
    requires
        config.last_id == 0,
    ensures
        config.next_id() == 1,
{
}

/// Law (id monotonicity, step): the config a successful creation leaves
/// behind mints exactly one more than the config it was given, so successive
/// successful creations receive consecutive identifiers.
pub proof fn lemma_ids_consecutive(before: UserConfig, after: UserConfig)
    requires
        after.last_id == before.next_id(),
    ensures
        after.next_id() == before.next_id() + 1,
{
}

/// Law (divisibility invariant): every order that passes admission is well
/// formed — its per-purchase amount is positive and divides the committed
/// amount evenly.
pub proof fn lemma_admitted_order_well_formed(
    orders: Seq<Order>,
    candidate: CreateDcaOrder,
    id: u64,
)
    requires
        admission(orders, candidate) is Ok,
    ensures
        order_well_formed(admitted_order(candidate, id)),
{
}

/// Law (exact allowance): a token-funded candidate's deposit evidence is
/// accepted iff the granted allowance equals the declared amount exactly —
/// an allowance one unit higher or lower is rejected.
pub proof fn lemma_exact_allowance(asset: Asset, allowance: u128)
    requires
        asset.info is Token,
    ensures
        deposit_ok(asset, DepositProof::Token { allowance }) <==> allowance == asset.amount,
{
}

} // verus!
