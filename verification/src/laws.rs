//! The ledger's global laws, proved once and for all from the operations'
//! contracts: each lemma quantifies over arbitrary ledger states related by
//! the transition predicates the operations ensure.

use vstd::prelude::*;

use crate::ledger::contributed;
use crate::ledger::matched;
use crate::ledger::order_created;
use crate::ledger::DextrStorage;
use crate::types::spec_classify;
use crate::types::spec_direction_for;
use crate::types::spec_other_asset;
use crate::types::AccountId;
use crate::types::Asset;
use crate::types::Balance;
use crate::types::LiquidityOutcome;
use crate::types::MatchError;
use crate::types::OrderCreated;
use crate::types::OrderMatched;

verus! {

/// In a well-formed ledger the order book is gapless: an order exists under
/// an id exactly when the id lies between 1 and the number of orders ever
/// created, and every stored order carries the id it is filed under.
pub proof fn lemma_order_ids_sequential(s: DextrStorage)
    requires
        s.wf(),
    ensures
        forall|id: u128| (#[trigger] s.spec_order(id)) is Some <==> 1 <= id <= s.order_count(),
        forall|id: u128| (#[trigger] s.spec_order(id)) matches Some(o) ==> o.id == id,
{
}

/// Order ids grow by exactly one per creation, starting at 1: whatever
/// operations run between two creations, as long as they leave the order
/// count alone (every operation but `create_order` does), the second
/// creation's id is one past the first's, and the first ledger's orders all
/// have smaller ids.
pub proof fn lemma_order_ids_increase_by_one(
    s0: DextrStorage,
    s1: DextrStorage,
    s1b: DextrStorage,
    s2: DextrStorage,
    t1: AccountId,
    a1: Balance,
    h1: u64,
    c1: AccountId,
    ev1: OrderCreated,
    t2: AccountId,
    a2: Balance,
    h2: u64,
    c2: AccountId,
    ev2: OrderCreated,
)
    requires
        s0.order_count() + 2 <= u128::MAX,
        order_created(s0, s1, t1, a1, h1, c1, ev1),
        s1b.order_count() == s1.order_count(),
        order_created(s1b, s2, t2, a2, h2, c2, ev2),
    ensures
        ev1.id == s0.order_count() + 1,
        ev2.id == ev1.id + 1,
{
}

/// Contributing twice for the same (provider, asset) pair merges into one
/// position: the second contribution reports an increase under the id the
/// first contribution reported, the position's amount is the initial amount
/// plus both contributions, and the provider's balance of the asset has paid
/// for exactly both contributions.
pub proof fn lemma_contribute_twice(
    s0: DextrStorage,
    s1: DextrStorage,
    s2: DextrStorage,
    token: AccountId,
    asset: Asset,
    a1: Balance,
    a2: Balance,
    caller: AccountId,
    out1: LiquidityOutcome,
    out2: LiquidityOutcome,
)
    requires
        spec_classify(token) == Some(asset),
        contributed(s0, s1, token, a1, caller, out1),
        contributed(s1, s2, token, a2, caller, out2),
        s0.position_amount(caller, asset) + a1 + a2 <= u128::MAX,
    ensures
        out2 is Increased,
        out2.spec_position_id() == out1.spec_position_id(),
        s2.spec_liquidity(caller, asset) matches Some(l) && l.id == out1.spec_position_id()
            && l.amount == s0.position_amount(caller, asset) + a1 + a2,
        s2.spec_balance(asset, caller) == s0.spec_balance(asset, caller) - a1 - a2,
{
}

/// A settlement moves value, it never creates or destroys it: the provider's
/// output-asset position drops by exactly the settled output and the
/// input-asset position grows by exactly the order's amount; for each asset,
/// the total across the seller's balance and the provider's position is
/// unchanged; and the settled output is the order's amount times the rate
/// that was used. The clamping hypotheses rule out the deliberate
/// saturation at the largest representable value.
pub proof fn lemma_match_conserves_value(
    s0: DextrStorage,
    s1: DextrStorage,
    order_id: u128,
    lp: AccountId,
    caller: AccountId,
    ev: OrderMatched,
    asset_in: Asset,
)
    requires
        matched(s0, s1, order_id, lp, caller, ev),
        spec_classify(ev.token_in) == Some(asset_in),
        s0.position_amount(lp, asset_in) + ev.amount_in <= u128::MAX,
        s0.spec_balance(spec_other_asset(asset_in), ev.seller) + ev.amount_out <= u128::MAX,
        ev.amount_in * ev.price_used <= u128::MAX,
    ensures
        s1.position_amount(lp, spec_other_asset(asset_in)) == s0.position_amount(
            lp,
            spec_other_asset(asset_in),
        ) - ev.amount_out,
        s1.position_amount(lp, asset_in) == s0.position_amount(lp, asset_in) + ev.amount_in,
        s1.spec_balance(asset_in, ev.seller) == s0.spec_balance(asset_in, ev.seller)
            - ev.amount_in,
        s1.spec_balance(spec_other_asset(asset_in), ev.seller) == s0.spec_balance(
            spec_other_asset(asset_in),
            ev.seller,
        ) + ev.amount_out,
        s1.spec_balance(asset_in, ev.seller) + s1.position_amount(lp, asset_in) == s0.spec_balance(
            asset_in,
            ev.seller,
        ) + s0.position_amount(lp, asset_in),
        s1.spec_balance(spec_other_asset(asset_in), ev.seller) + s1.position_amount(
            lp,
            spec_other_asset(asset_in),
        ) == s0.spec_balance(spec_other_asset(asset_in), ev.seller) + s0.position_amount(
            lp,
            spec_other_asset(asset_in),
        ),
        ev.amount_out == ev.amount_in * ev.price_used,
{
}

/// An order settles at most once: immediately after a settlement, any second
/// match attempt on the same id is refused — with `OrderClosed` when the
/// operator asks, whoever the named provider is.
pub proof fn lemma_matched_order_cannot_rematch(
    s0: DextrStorage,
    s1: DextrStorage,
    order_id: u128,
    lp: AccountId,
    caller: AccountId,
    ev: OrderMatched,
    lp2: AccountId,
    caller2: AccountId,
)
    requires
        matched(s0, s1, order_id, lp, caller, ev),
    ensures
        s1.spec_match_check(order_id, lp2, caller2) is Err,
        caller2 == s1.admin ==> s1.spec_match_check(order_id, lp2, caller2) == Err::<
            OrderMatched,
            MatchError,
        >(MatchError::OrderClosed),
{
}

/// Only the operator can match: any other caller is turned away with
/// `NotAuthorized`, whatever the order, the provider, the balances and the
/// rates look like.
pub proof fn lemma_match_requires_operator(
    s: DextrStorage,
    order_id: u128,
    lp: AccountId,
    caller: AccountId,
)
    requires
        caller != s.admin,
    ensures
        s.spec_match_check(order_id, lp, caller) == Err::<OrderMatched, MatchError>(
            MatchError::NotAuthorized,
        ),
{
}

/// An unconfigured rate blocks matching: when the directional rate an open,
/// recognized, positive-amount order needs is still zero, the operator's
/// match attempt is refused with `OracleUnset` for that direction, whatever
/// balances or liquidity the parties hold.
pub proof fn lemma_unset_oracle_blocks_match(
    s: DextrStorage,
    order_id: u128,
    lp: AccountId,
    asset_in: Asset,
)
    requires
        s.spec_order(order_id) matches Some(ord) && ord.status && ord.amount > 0 && spec_classify(
            ord.token,
        ) == Some(asset_in),
        s.spec_rate(spec_direction_for(asset_in)) == 0,
    ensures
        s.spec_match_check(order_id, lp, s.admin) == Err::<OrderMatched, MatchError>(
            MatchError::OracleUnset(spec_direction_for(asset_in)),
        ),
{
}

} // verus!
