//! The ledger instance: balance accounting, the order book, the liquidity
//! registry, the price oracle, and the operator-driven settlement engine.
//!
//! Every public operation takes the caller identity as an explicit argument
//! and mutates the instance atomically: it either applies all of its effects
//! and returns the notification payload, or returns an error having changed
//! nothing.

use vstd::prelude::*;

use crate::math::sat_add;
use crate::math::sat_mul;
use crate::math::saturating_add_u128;
use crate::math::saturating_mul_u128;
use crate::types::address_of;
use crate::types::classify;
use crate::types::direction_for;
use crate::types::other_asset;
use crate::types::spec_address_of;
use crate::types::spec_classify;
use crate::types::spec_direction_for;
use crate::types::spec_other_asset;
use crate::types::AccountId;
use crate::types::Asset;
use crate::types::Balance;
use crate::types::Liquidity;
use crate::types::LiquidityCreated;
use crate::types::LiquidityError;
use crate::types::LiquidityIncreased;
use crate::types::LiquidityOutcome;
use crate::types::MatchError;
use crate::types::Order;
use crate::types::OrderCreated;
use crate::types::OrderMatched;
use crate::types::RateDirection;
use std::collections::HashMap;

verus! {

broadcast use vstd::std_specs::hash::group_hash_axioms;

/// The quantity `owner` holds in a per-asset balance map, with absent
/// entries reading as zero.
pub open spec fn bal_in(m: Map<u128, u128>, owner: AccountId) -> u128 {
    if m.contains_key(owner.value) {
        m[owner.value]
    } else {
        0
    }
}

/// The two ledgers hold the same order book.
pub open spec fn same_orders(a: DextrStorage, b: DextrStorage) -> bool {
    &&& b.order_count() == a.order_count()
    &&& forall|i: u128| #[trigger] b.spec_order(i) == a.spec_order(i)
}

/// The two ledgers hold the same balances for both assets.
pub open spec fn same_balances(a: DextrStorage, b: DextrStorage) -> bool {
    forall|x: Asset, o: AccountId| #[trigger] b.spec_balance(x, o) == a.spec_balance(x, o)
}

/// The two ledgers hold the same liquidity registry, counter included.
pub open spec fn same_liquidity(a: DextrStorage, b: DextrStorage) -> bool {
    &&& b.total_liquidity_groups == a.total_liquidity_groups
    &&& forall|p: AccountId, x: Asset| #[trigger] b.spec_liquidity(p, x) == a.spec_liquidity(p, x)
}

/// The two ledgers hold the same oracle rates.
pub open spec fn same_oracle(a: DextrStorage, b: DextrStorage) -> bool {
    a.oracle_usdc_per_weth == b.oracle_usdc_per_weth && a.oracle_weth_per_usdc
        == b.oracle_weth_per_usdc
}

/// What one `create_order` call does: `ev` reports the freshly assigned id,
/// which is one past the previous order count; the new order is stored open
/// under that id; everything else is untouched.
pub open spec fn order_created(
    pre: DextrStorage,
    post: DextrStorage,
    token: AccountId,
    amount: Balance,
    lpsettler_id: u64,
    caller: AccountId,
    ev: OrderCreated,
) -> bool {
    &&& ev == (OrderCreated {
        id: (pre.order_count() + 1) as u128,
        creator: caller,
        token,
        amount,
        lpsettler_id,
    })
    &&& post.order_count() == pre.order_count() + 1
    &&& post.spec_order(ev.id) == Some(
        Order { id: ev.id, token, creator: caller, amount, lpsettler_id, status: true },
    )
    &&& forall|i: u128| i != ev.id ==> #[trigger] post.spec_order(i) == pre.spec_order(i)
    &&& same_balances(pre, post)
    &&& same_liquidity(pre, post)
    &&& same_oracle(pre, post)
    &&& post.admin == pre.admin
}

/// What one mint does: the caller's balance of `asset` becomes the old
/// balance plus `amount`, clamped at the maximum; nothing else moves.
pub open spec fn minted(
    pre: DextrStorage,
    post: DextrStorage,
    asset: Asset,
    amount: Balance,
    caller: AccountId,
    new_balance: Balance,
) -> bool {
    &&& new_balance == sat_add(pre.spec_balance(asset, caller), amount)
    &&& post.spec_balance(asset, caller) == new_balance
    &&& forall|a: Asset, o: AccountId|
        !(a == asset && o == caller) ==> #[trigger] post.spec_balance(a, o) == pre.spec_balance(
            a,
            o,
        )
    &&& same_orders(pre, post)
    &&& same_liquidity(pre, post)
    &&& same_oracle(pre, post)
    &&& post.admin == pre.admin
}

/// The first precondition a liquidity contribution violates, if any:
/// a zero amount, an unrecognized token, or a balance below the amount,
/// checked in that order.
pub open spec fn contribute_error(
    s: DextrStorage,
    token: AccountId,
    amount: Balance,
    caller: AccountId,
) -> Option<LiquidityError> {
    if amount == 0 {
        Some(LiquidityError::InvalidAmount)
    } else {
        match spec_classify(token) {
            None => Some(LiquidityError::UnknownAsset),
            Some(asset) => if s.spec_balance(asset, caller) < amount {
                Some(LiquidityError::InsufficientFunds)
            } else {
                None
            },
        }
    }
}

/// What one successful `create_liquidity` call does: the caller's balance of
/// the asset drops by exactly `amount`; the contribution merges into the
/// existing position (same id, amounts summed with clamping) or lands in a
/// fresh position under the next id from the shared counter; `out` reports
/// which happened; nothing else moves.
pub open spec fn contributed(
    pre: DextrStorage,
    post: DextrStorage,
    token: AccountId,
    amount: Balance,
    caller: AccountId,
    out: LiquidityOutcome,
) -> bool {
    spec_classify(token) matches Some(asset) && {
        &&& post.spec_balance(asset, caller) == pre.spec_balance(asset, caller) - amount
        &&& forall|a: Asset, o: AccountId|
            !(a == asset && o == caller) ==> #[trigger] post.spec_balance(a, o)
                == pre.spec_balance(a, o)
        &&& match pre.spec_liquidity(caller, asset) {
            Some(l) => {
                &&& out == LiquidityOutcome::Increased(
                    LiquidityIncreased {
                        id: l.id,
                        provider: caller,
                        token,
                        delta: amount,
                        new_amount: sat_add(l.amount, amount),
                    },
                )
                &&& post.spec_liquidity(caller, asset) == Some(
                    Liquidity { id: l.id, token, creator: caller, amount: sat_add(l.amount, amount) },
                )
                &&& post.total_liquidity_groups == pre.total_liquidity_groups
            },
            None => {
                &&& out == LiquidityOutcome::Created(
                    LiquidityCreated {
                        id: sat_add(pre.total_liquidity_groups, 1),
                        provider: caller,
                        token,
                        amount,
                    },
                )
                &&& post.spec_liquidity(caller, asset) == Some(
                    Liquidity {
                        id: sat_add(pre.total_liquidity_groups, 1),
                        token,
                        creator: caller,
                        amount,
                    },
                )
                &&& post.total_liquidity_groups == sat_add(pre.total_liquidity_groups, 1)
            },
        }
        &&& forall|p: AccountId, a: Asset|
            !(p == caller && a == asset) ==> #[trigger] post.spec_liquidity(p, a)
                == pre.spec_liquidity(p, a)
        &&& same_orders(pre, post)
        &&& same_oracle(pre, post)
        &&& post.admin == pre.admin
    }
}

/// What one successful `admin_match_order` call does, given that
/// `spec_match_check` accepted it with payload `ev`: the order is closed in
/// place; the seller pays `amount_in` of the input asset and receives
/// `amount_out` of the output asset (clamped); the provider's output-asset
/// position drops by exactly `amount_out` and the input-asset position grows
/// by `amount_in` (clamped); nothing else moves.
pub open spec fn matched(
    pre: DextrStorage,
    post: DextrStorage,
    order_id: u128,
    lp: AccountId,
    caller: AccountId,
    ev: OrderMatched,
) -> bool {
    &&& pre.spec_match_check(order_id, lp, caller) == Ok::<OrderMatched, MatchError>(ev)
    &&& pre.spec_order(order_id) matches Some(ord) && post.spec_order(order_id) == Some(
        Order { status: false, ..ord },
    )
    &&& post.order_count() == pre.order_count()
    &&& forall|i: u128| i != order_id ==> #[trigger] post.spec_order(i) == pre.spec_order(i)
    &&& spec_classify(ev.token_in) matches Some(asset_in) && {
        let asset_out = spec_other_asset(asset_in);
        &&& post.spec_balance(asset_in, ev.seller) == pre.spec_balance(asset_in, ev.seller)
            - ev.amount_in
        &&& post.spec_balance(asset_out, ev.seller) == sat_add(
            pre.spec_balance(asset_out, ev.seller),
            ev.amount_out,
        )
        &&& forall|a: Asset, o: AccountId|
            o != ev.seller ==> #[trigger] post.spec_balance(a, o) == pre.spec_balance(a, o)
        &&& pre.spec_liquidity(lp, asset_out) matches Some(lo) && post.spec_liquidity(
            lp,
            asset_out,
        ) == Some(Liquidity { amount: (lo.amount - ev.amount_out) as u128, ..lo })
        &&& pre.spec_liquidity(lp, asset_in) matches Some(li) && post.spec_liquidity(lp, asset_in)
            == Some(Liquidity { amount: sat_add(li.amount, ev.amount_in), ..li })
        &&& forall|p: AccountId, a: Asset|
            p != lp ==> #[trigger] post.spec_liquidity(p, a) == pre.spec_liquidity(p, a)
    }
    &&& post.total_liquidity_groups == pre.total_liquidity_groups
    &&& same_oracle(pre, post)
    &&& post.admin == pre.admin
}

/// What one successful oracle update does: the rate for `dir` becomes `p`
/// (overwritten unconditionally, zero included) and nothing else moves.
pub open spec fn rate_set(
    pre: DextrStorage,
    post: DextrStorage,
    dir: RateDirection,
    p: Balance,
) -> bool {
    &&& post.spec_rate(dir) == p
    &&& post.spec_rate(spec_other_direction(dir)) == pre.spec_rate(spec_other_direction(dir))
    &&& same_orders(pre, post)
    &&& same_balances(pre, post)
    &&& same_liquidity(pre, post)
    &&& post.admin == pre.admin
}

/// The oracle direction that is not `dir`.
pub open spec fn spec_other_direction(dir: RateDirection) -> RateDirection {
    match dir {
        RateDirection::UsdcPerWeth => RateDirection::WethPerUsdc,
        RateDirection::WethPerUsdc => RateDirection::UsdcPerWeth,
    }
}

/// One settlement ledger instance.
pub struct DextrStorage {
    /// The operator allowed to set rates and match orders.
    pub admin: AccountId,
    /// All orders ever created; the order with id `i + 1` sits at index `i`.
    pub orders: Vec<Order>,
    /// Liquidity positions in USDC, keyed by the provider's identity.
    pub liq_usdc: HashMap<u128, Liquidity>,
    /// Liquidity positions in WETH, keyed by the provider's identity.
    pub liq_weth: HashMap<u128, Liquidity>,
    /// The shared counter the next fresh position id is drawn from.
    pub total_liquidity_groups: u128,
    /// USDC balances, keyed by the owner's identity.
    pub usdc_balances: HashMap<u128, u128>,
    /// WETH balances, keyed by the owner's identity.
    pub weth_balances: HashMap<u128, u128>,
    /// Units of USDC received per unit of WETH; zero means unconfigured.
    pub oracle_usdc_per_weth: Balance,
    /// Units of WETH received per unit of USDC; zero means unconfigured.
    pub oracle_weth_per_usdc: Balance,
}

impl DextrStorage {
    /// Well-formedness: order ids are exactly their position in the book
    /// plus one, and each liquidity position is filed under its own
    /// provider and asset.
    pub open spec fn wf(self) -> bool {
        &&& forall|i: int|
            0 <= i < self.orders@.len() ==> (#[trigger] self.orders@[i]).id == i + 1
        &&& forall|k: u128| #[trigger]
            self.liq_usdc@.contains_key(k) ==> self.liq_usdc@[k].creator.value == k
                && self.liq_usdc@[k].token == spec_address_of(Asset::Usdc)
        &&& forall|k: u128| #[trigger]
            self.liq_weth@.contains_key(k) ==> self.liq_weth@[k].creator.value == k
                && self.liq_weth@[k].token == spec_address_of(Asset::Weth)
    }

    /// How many orders have ever been created.
    pub open spec fn order_count(self) -> nat {
        self.orders@.len()
    }

    /// The order stored under `id`, if any.
    pub open spec fn spec_order(self, id: u128) -> Option<Order> {
        if 1 <= id && id <= self.orders@.len() {
            Some(self.orders@[id as int - 1])
        } else {
            None
        }
    }

    /// `owner`'s balance of `asset`; absent entries read as zero.
    pub open spec fn spec_balance(self, asset: Asset, owner: AccountId) -> u128 {
        match asset {
            Asset::Usdc => bal_in(self.usdc_balances@, owner),
            Asset::Weth => bal_in(self.weth_balances@, owner),
        }
    }

    /// The liquidity position for `(provider, asset)`, if any.
    pub open spec fn spec_liquidity(self, provider: AccountId, asset: Asset) -> Option<Liquidity> {
        match asset {
            Asset::Usdc => if self.liq_usdc@.contains_key(provider.value) {
                Some(self.liq_usdc@[provider.value])
            } else {
                None
            },
            Asset::Weth => if self.liq_weth@.contains_key(provider.value) {
                Some(self.liq_weth@[provider.value])
            } else {
                None
            },
        }
    }

    /// The amount held in the position for `(provider, asset)`, zero when
    /// none exists.
    pub open spec fn position_amount(self, provider: AccountId, asset: Asset) -> u128 {
        match self.spec_liquidity(provider, asset) {
            Some(l) => l.amount,
            None => 0,
        }
    }

    /// The configured rate for `dir`; zero means unconfigured.
    pub open spec fn spec_rate(self, dir: RateDirection) -> Balance {
        match dir {
            RateDirection::UsdcPerWeth => self.oracle_usdc_per_weth,
            RateDirection::WethPerUsdc => self.oracle_weth_per_usdc,
        }
    }

    /// The settlement engine's decision on a match attempt, in the order the
    /// preconditions are checked: the payload of the settlement if every
    /// check passes, else the first failure. The decision reads the ledger
    /// and changes nothing.
    pub open spec fn spec_match_check(
        self,
        order_id: u128,
        lp: AccountId,
        caller: AccountId,
    ) -> Result<OrderMatched, MatchError> {
        if caller != self.admin {
            Err(MatchError::NotAuthorized)
        } else {
            match self.spec_order(order_id) {
                None => Err(MatchError::NotFound),
                Some(ord) => if !ord.status {
                    Err(MatchError::OrderClosed)
                } else if ord.amount == 0 {
                    Err(MatchError::InvalidAmount)
                } else {
                    match spec_classify(ord.token) {
                        None => Err(MatchError::UnknownAsset),
                        Some(asset_in) => {
                            let asset_out = spec_other_asset(asset_in);
                            let dir = spec_direction_for(asset_in);
                            let price = self.spec_rate(dir);
                            if price == 0 {
                                Err(MatchError::OracleUnset(dir))
                            } else {
                                let amount_out = sat_mul(ord.amount, price);
                                if self.spec_balance(asset_in, ord.creator) < ord.amount {
                                    Err(MatchError::InsufficientFunds)
                                } else {
                                    match self.spec_liquidity(lp, asset_out) {
                                        None => Err(MatchError::NotFound),
                                        Some(lp_out) => if lp_out.amount < amount_out {
                                            Err(MatchError::InsufficientLiquidity)
                                        } else if self.spec_liquidity(lp, asset_in) is None {
                                            Err(MatchError::NotFound)
                                        } else {
                                            Ok(
                                                OrderMatched {
                                                    order_id,
                                                    lp,
                                                    seller: ord.creator,
                                                    token_in: ord.token,
                                                    token_out: spec_address_of(asset_out),
                                                    amount_in: ord.amount,
                                                    amount_out,
                                                    price_used: price,
                                                },
                                            )
                                        },
                                    }
                                }
                            }
                        },
                    }
                },
            }
        }
    }

    /// A fresh ledger under operator `admin`: no orders, no balances, no
    /// liquidity, both oracle rates unconfigured.
    pub fn new(admin: AccountId) -> (r: DextrStorage)
        ensures
            r.wf(),
            r.admin == admin,
            r.order_count() == 0,
            r.total_liquidity_groups == 0,
            forall|a: Asset, o: AccountId| #[trigger] r.spec_balance(a, o) == 0,
            forall|p: AccountId, a: Asset| #[trigger] r.spec_liquidity(p, a) is None,
            forall|d: RateDirection| #[trigger] r.spec_rate(d) == 0,
    {
        DextrStorage {
            admin,
            orders: Vec::new(),
            liq_usdc: HashMap::new(),
            liq_weth: HashMap::new(),
            total_liquidity_groups: 0,
            usdc_balances: HashMap::new(),
            weth_balances: HashMap::new(),
            oracle_usdc_per_weth: 0,
            oracle_weth_per_usdc: 0,
        }
    }

    /// `owner`'s balance of `asset`, zero when no entry exists.
    fn balance_of(&self, asset: Asset, owner: AccountId) -> (r: Balance)
        ensures
            r == self.spec_balance(asset, owner),
    {
        let m = match asset {
            Asset::Usdc => &self.usdc_balances,
            Asset::Weth => &self.weth_balances,
        };
        match m.get(&owner.value) {
            Some(v) => *v,
            None => 0,
        }
    }

    /// Overwrite `owner`'s balance of `asset`, leaving every other entry of
    /// the ledger unchanged.
    fn set_balance(&mut self, asset: Asset, owner: AccountId, v: Balance)
        ensures
            final(self).spec_balance(asset, owner) == v,
            forall|a: Asset, o: AccountId|
                !(a == asset && o == owner) ==> #[trigger] final(self).spec_balance(a, o)
                    == old(self).spec_balance(a, o),
            forall|p: AccountId, a: Asset| #[trigger]
                final(self).spec_liquidity(p, a) == old(self).spec_liquidity(p, a),
            forall|i: u128| #[trigger]
                final(self).spec_order(i) == old(self).spec_order(i),
            final(self).admin == old(self).admin,
            final(self).orders@ == old(self).orders@,
            final(self).liq_usdc@ == old(self).liq_usdc@,
            final(self).liq_weth@ == old(self).liq_weth@,
            final(self).total_liquidity_groups == old(self).total_liquidity_groups,
            final(self).oracle_usdc_per_weth == old(self).oracle_usdc_per_weth,
            final(self).oracle_weth_per_usdc == old(self).oracle_weth_per_usdc,
    {
        match asset {
            Asset::Usdc => {
                self.usdc_balances.insert(owner.value, v);
            },
            Asset::Weth => {
                self.weth_balances.insert(owner.value, v);
            },
        }
    }

    /// The liquidity position for `(provider, asset)`, if one exists.
    fn liquidity_of(&self, provider: AccountId, asset: Asset) -> (r: Option<Liquidity>)
        ensures
            r == self.spec_liquidity(provider, asset),
    {
        let m = match asset {
            Asset::Usdc => &self.liq_usdc,
            Asset::Weth => &self.liq_weth,
        };
        match m.get(&provider.value) {
            Some(l) => Some(*l),
            None => None,
        }
    }

    /// Overwrite the position for `(provider, asset)`, leaving every other
    /// entry of the ledger unchanged. The stored value must be filed
    /// consistently: under its own provider and the asset's address.
    fn set_liquidity(&mut self, provider: AccountId, asset: Asset, l: Liquidity)
        requires
            l.creator == provider,
            l.token == spec_address_of(asset),
        ensures
            final(self).spec_liquidity(provider, asset) == Some(l),
            forall|p: AccountId, a: Asset|
                !(p == provider && a == asset) ==> #[trigger] final(self).spec_liquidity(p, a)
                    == old(self).spec_liquidity(p, a),
            forall|a: Asset, o: AccountId| #[trigger]
                final(self).spec_balance(a, o) == old(self).spec_balance(a, o),
            forall|i: u128| #[trigger]
                final(self).spec_order(i) == old(self).spec_order(i),
            final(self).admin == old(self).admin,
            final(self).orders@ == old(self).orders@,
            final(self).usdc_balances@ == old(self).usdc_balances@,
            final(self).weth_balances@ == old(self).weth_balances@,
            final(self).total_liquidity_groups == old(self).total_liquidity_groups,
            final(self).oracle_usdc_per_weth == old(self).oracle_usdc_per_weth,
            final(self).oracle_weth_per_usdc == old(self).oracle_weth_per_usdc,
            old(self).wf() ==> final(self).wf(),
    {
        match asset {
            Asset::Usdc => {
                self.liq_usdc.insert(provider.value, l);
            },
            Asset::Weth => {
                self.liq_weth.insert(provider.value, l);
            },
        }
    }

    /// Store a new resting sell order for `caller` and report its payload.
    /// No validation happens here: zero amounts and unrecognized tokens are
    /// stored as given and simply can never be matched.
    pub fn create_order(
        &mut self,
        token: AccountId,
        amount: Balance,
        lpsettler_id: u64,
        caller: AccountId,
    ) -> (ev: OrderCreated)
        requires
            old(self).wf(),
        ensures
            final(self).wf(),
            order_created(*old(self), *final(self), token, amount, lpsettler_id, caller, ev),
    {
        let id: u128 = (self.orders.len() as u128) + 1;
        let order = Order { id, token, creator: caller, amount, lpsettler_id, status: true };
        self.orders.push(order);
        OrderCreated { id, creator: caller, token, amount, lpsettler_id }
    }

    /// Pure lookup of the order stored under `id`.
    pub fn get_order(&self, id: u128) -> (r: Option<Order>)
        ensures
            r == self.spec_order(id),
    {
        if 1 <= id && id <= self.orders.len() as u128 {
            Some(self.orders[(id - 1) as usize])
        } else {
            None
        }
    }

    /// Unconditionally credit `amount` of `asset` to `caller` (a simulated
    /// faucet), clamping at the maximum, and report the new balance.
    fn mint(&mut self, asset: Asset, amount: Balance, caller: AccountId) -> (r: Balance)
        requires
            old(self).wf(),
        ensures
            final(self).wf(),
            minted(*old(self), *final(self), asset, amount, caller, r),
    {
        let cur = self.balance_of(asset, caller);
        let new_balance = saturating_add_u128(cur, amount);
        self.set_balance(asset, caller, new_balance);
        new_balance
    }

    /// Credit `caller` with `amount` freshly minted USDC.
    pub fn mint_usdc(&mut self, amount: Balance, caller: AccountId) -> (r: Balance)
        requires
            old(self).wf(),
        ensures
            final(self).wf(),
            minted(*old(self), *final(self), Asset::Usdc, amount, caller, r),
    {
        self.mint(Asset::Usdc, amount, caller)
    }

    /// The configured rate for `dir`.
    fn rate_of(&self, dir: RateDirection) -> (r: Balance)
        ensures
            r == self.spec_rate(dir),
    {
        match dir {
            RateDirection::UsdcPerWeth => self.oracle_usdc_per_weth,
            RateDirection::WethPerUsdc => self.oracle_weth_per_usdc,
        }
    }

    /// Flip the stored order's `open` flag to false, leaving every other
    /// entry of the ledger unchanged.
    fn close_order(&mut self, order_id: u128)
        requires
            old(self).wf(),
            old(self).spec_order(order_id) is Some,
        ensures
            final(self).wf(),
            final(self).spec_order(order_id) matches Some(ord) && Some(ord) == (match old(
                self,
            ).spec_order(order_id) {
                Some(o) => Some(Order { status: false, ..o }),
                None => None,
            }),
            final(self).order_count() == old(self).order_count(),
            forall|i: u128|
                i != order_id ==> #[trigger] final(self).spec_order(i) == old(self).spec_order(i),
            forall|a: Asset, o: AccountId| #[trigger]
                final(self).spec_balance(a, o) == old(self).spec_balance(a, o),
            forall|p: AccountId, a: Asset| #[trigger]
                final(self).spec_liquidity(p, a) == old(self).spec_liquidity(p, a),
            final(self).admin == old(self).admin,
            final(self).total_liquidity_groups == old(self).total_liquidity_groups,
            final(self).oracle_usdc_per_weth == old(self).oracle_usdc_per_weth,
            final(self).oracle_weth_per_usdc == old(self).oracle_weth_per_usdc,
    {
        let n = self.orders.len();
        assert(order_id - 1 < n);
        let idx: usize = (order_id - 1) as usize;
        let ord = self.orders[idx];
        self.orders[idx] = Order { status: false, ..ord };
    }

    /// Settle the open order `order_id` against `lp`'s liquidity at the
    /// configured rate. Only the operator may call this. Either every
    /// precondition of the settlement holds and the four-way adjustment is
    /// applied atomically together with the order closure, or the first
    /// failed precondition is reported and nothing changes.
    pub fn admin_match_order(
        &mut self,
        order_id: u128,
        lp: AccountId,
        caller: AccountId,
    ) -> (r: Result<OrderMatched, MatchError>)
        requires
            old(self).wf(),
        ensures
            final(self).wf(),
            r == old(self).spec_match_check(order_id, lp, caller),
            r matches Ok(ev) ==> matched(*old(self), *final(self), order_id, lp, caller, ev),
            r is Err ==> *final(self) == *old(self),
    {
        if caller != self.admin {
            return Err(MatchError::NotAuthorized);
        }
        let ord = match self.get_order(order_id) {
            None => return Err(MatchError::NotFound),
            Some(o) => o,
        };
        if !ord.status {
            return Err(MatchError::OrderClosed);
        }
        if ord.amount == 0 {
            return Err(MatchError::InvalidAmount);
        }
        let asset_in = match classify(ord.token) {
            None => return Err(MatchError::UnknownAsset),
            Some(a) => a,
        };
        let asset_out = other_asset(asset_in);
        let dir = direction_for(asset_in);
        let price = self.rate_of(dir);
        if price == 0 {
            return Err(MatchError::OracleUnset(dir));
        }
        let amount_out = saturating_mul_u128(ord.amount, price);
        let seller = ord.creator;
        let seller_in_bal = self.balance_of(asset_in, seller);
        if seller_in_bal < ord.amount {
            return Err(MatchError::InsufficientFunds);
        }
        let lp_out = match self.liquidity_of(lp, asset_out) {
            None => return Err(MatchError::NotFound),
            Some(l) => l,
        };
        if lp_out.amount < amount_out {
            return Err(MatchError::InsufficientLiquidity);
        }
        let lp_in = match self.liquidity_of(lp, asset_in) {
            None => return Err(MatchError::NotFound),
            Some(l) => l,
        };

        self.set_balance(asset_in, seller, seller_in_bal - ord.amount);
        let seller_out_bal = self.balance_of(asset_out, seller);
        self.set_balance(asset_out, seller, saturating_add_u128(seller_out_bal, amount_out));
        self.set_liquidity(
            lp,
            asset_out,
            Liquidity { amount: lp_out.amount - amount_out, ..lp_out },
        );
        self.set_liquidity(
            lp,
            asset_in,
            Liquidity { amount: saturating_add_u128(lp_in.amount, ord.amount), ..lp_in },
        );
        self.close_order(order_id);

        Ok(
            OrderMatched {
                order_id,
                lp,
                seller,
                token_in: ord.token,
                token_out: address_of(asset_out),
                amount_in: ord.amount,
                amount_out,
                price_used: price,
            },
        )
    }

    /// Contribute `amount` of the asset addressed by `token` into `caller`'s
    /// liquidity pool. The amount is debited from `caller`'s balance first;
    /// the contribution then merges into the existing position for
    /// `(caller, asset)` or creates a fresh one under the next shared id.
    /// Fails, changing nothing, on a zero amount, an unrecognized token, or
    /// an insufficient balance.
    pub fn create_liquidity(
        &mut self,
        token: AccountId,
        amount: Balance,
        caller: AccountId,
    ) -> (r: Result<LiquidityOutcome, LiquidityError>)
        requires
            old(self).wf(),
        ensures
            final(self).wf(),
            match r {
                Ok(out) => contribute_error(*old(self), token, amount, caller) is None
                    && contributed(*old(self), *final(self), token, amount, caller, out),
                Err(e) => Some(e) == contribute_error(*old(self), token, amount, caller)
                    && *final(self) == *old(self),
            },
    {
        if amount == 0 {
            return Err(LiquidityError::InvalidAmount);
        }
        let asset = match classify(token) {
            None => return Err(LiquidityError::UnknownAsset),
            Some(a) => a,
        };
        let bal = self.balance_of(asset, caller);
        if bal < amount {
            return Err(LiquidityError::InsufficientFunds);
        }
        self.set_balance(asset, caller, bal - amount);
        let ghost mid = *self;
        let out = match self.liquidity_of(caller, asset) {
            Some(l) => {
                let new_amount = saturating_add_u128(l.amount, amount);
                self.set_liquidity(
                    caller,
                    asset,
                    Liquidity { id: l.id, token, creator: caller, amount: new_amount },
                );
                LiquidityOutcome::Increased(
                    LiquidityIncreased {
                        id: l.id,
                        provider: caller,
                        token,
                        delta: amount,
                        new_amount,
                    },
                )
            },
            None => {
                let id = saturating_add_u128(self.total_liquidity_groups, 1);
                self.total_liquidity_groups = id;
                self.set_liquidity(
                    caller,
                    asset,
                    Liquidity { id, token, creator: caller, amount },
                );
                LiquidityOutcome::Created(LiquidityCreated { id, provider: caller, token, amount })
            },
        };
        proof {
            assert forall|a: Asset, o: AccountId| !(a == asset && o == caller) implies self
                .spec_balance(a, o) == old(self).spec_balance(a, o) by {
                assert(self.spec_balance(a, o) == mid.spec_balance(a, o));
                assert(mid.spec_balance(a, o) == old(self).spec_balance(a, o));
            }
        }
        Ok(out)
    }

    /// Credit `caller` with `amount` freshly minted WETH.
    pub fn mint_weth(&mut self, amount: Balance, caller: AccountId) -> (r: Balance)
        requires
            old(self).wf(),
        ensures
            final(self).wf(),
            minted(*old(self), *final(self), Asset::Weth, amount, caller, r),
    {
        self.mint(Asset::Weth, amount, caller)
    }

    /// Pure lookup of the liquidity position for `(provider, token)`;
    /// unrecognized tokens never hold a position.
    pub fn get_liquidity(&self, provider: AccountId, token: AccountId) -> (r: Option<Liquidity>)
        ensures
            r == (match spec_classify(token) {
                Some(a) => self.spec_liquidity(provider, a),
                None => None,
            }),
    {
        match classify(token) {
            Some(a) => self.liquidity_of(provider, a),
            None => None,
        }
    }

    /// `caller`'s own liquidity position for `token`, if any.
    pub fn my_liquidity(&self, token: AccountId, caller: AccountId) -> (r: Option<Liquidity>)
        ensures
            r == (match spec_classify(token) {
                Some(a) => self.spec_liquidity(caller, a),
                None => None,
            }),
    {
        self.get_liquidity(caller, token)
    }

    /// The identities under which the two recognized assets are addressed.
    pub fn token_addresses(&self) -> (r: (AccountId, AccountId))
        ensures
            r.0 == spec_address_of(Asset::Usdc),
            r.1 == spec_address_of(Asset::Weth),
    {
        (address_of(Asset::Usdc), address_of(Asset::Weth))
    }

    /// `caller`'s balance of the asset addressed by `token`; an unrecognized
    /// token reads as zero.
    pub fn my_balance(&self, token: AccountId, caller: AccountId) -> (r: Balance)
        ensures
            r == (match spec_classify(token) {
                Some(a) => self.spec_balance(a, caller),
                None => 0,
            }),
    {
        match classify(token) {
            Some(a) => self.balance_of(a, caller),
            None => 0,
        }
    }

    /// Overwrite the rate for `dir` with `p`, zero included. Operator-only:
    /// any other caller is turned away with `NotAuthorized`, changing nothing.
    fn set_rate(&mut self, dir: RateDirection, p: Balance, caller: AccountId) -> (r: Result<
        (),
        MatchError,
    >)
        requires
            old(self).wf(),
        ensures
            final(self).wf(),
            caller == old(self).admin ==> r is Ok && rate_set(*old(self), *final(self), dir, p),
            caller != old(self).admin ==> r == Err::<(), MatchError>(MatchError::NotAuthorized)
                && *final(self) == *old(self),
    {
        if caller != self.admin {
            return Err(MatchError::NotAuthorized);
        }
        match dir {
            RateDirection::UsdcPerWeth => {
                self.oracle_usdc_per_weth = p;
            },
            RateDirection::WethPerUsdc => {
                self.oracle_weth_per_usdc = p;
            },
        }
        Ok(())
    }

    /// Operator-only: set the rate of USDC received per unit of WETH.
    pub fn set_oracle_usdc_per_weth(&mut self, p: Balance, caller: AccountId) -> (r: Result<
        (),
        MatchError,
    >)
        requires
            old(self).wf(),
        ensures
            final(self).wf(),
            caller == old(self).admin ==> r is Ok && rate_set(
                *old(self),
                *final(self),
                RateDirection::UsdcPerWeth,
                p,
            ),
            caller != old(self).admin ==> r == Err::<(), MatchError>(MatchError::NotAuthorized)
                && *final(self) == *old(self),
    {
        self.set_rate(RateDirection::UsdcPerWeth, p, caller)
    }

    /// Operator-only: set the rate of WETH received per unit of USDC.
    pub fn set_oracle_weth_per_usdc(&mut self, p: Balance, caller: AccountId) -> (r: Result<
        (),
        MatchError,
    >)
        requires
            old(self).wf(),
        ensures
            final(self).wf(),
            caller == old(self).admin ==> r is Ok && rate_set(
                *old(self),
                *final(self),
                RateDirection::WethPerUsdc,
                p,
            ),
            caller != old(self).admin ==> r == Err::<(), MatchError>(MatchError::NotAuthorized)
                && *final(self) == *old(self),
    {
        self.set_rate(RateDirection::WethPerUsdc, p, caller)
    }

    /// The configured rate of USDC received per unit of WETH; zero while
    /// unconfigured.
    pub fn get_oracle_usdc_per_weth(&self) -> (r: Balance)
        ensures
            r == self.spec_rate(RateDirection::UsdcPerWeth),
    {
        self.oracle_usdc_per_weth
    }

    /// The configured rate of WETH received per unit of USDC; zero while
    /// unconfigured.
    pub fn get_oracle_weth_per_usdc(&self) -> (r: Balance)
        ensures
            r == self.spec_rate(RateDirection::WethPerUsdc),
    {
        self.oracle_weth_per_usdc
    }
}

} // verus!
