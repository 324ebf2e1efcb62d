//! The ledger's vocabulary: account identities, the closed set of recognized
//! assets, orders, liquidity positions, error taxonomies, and the notification
//! payloads that successful operations hand back to the host for emission.

use vstd::prelude::*;

verus! {

/// An unsigned quantity of one asset.
pub type Balance = u128;

/// An opaque account identity, supplied by the host with every call.
#[derive(Clone, Copy, PartialEq, Eq, Structural, Debug)]
pub struct AccountId {
    pub value: u128,
}

/// The identifier under which the first recognized asset is addressed.
pub const USDC_ADDRESS: u128 = 0x55;

/// The identifier under which the second recognized asset is addressed.
pub const WETH_ADDRESS: u128 = 0x57;

/// One of the exactly two recognized fungible assets.
#[derive(Clone, Copy, PartialEq, Eq, Structural, Debug)]
pub enum Asset {
    Usdc,
    Weth,
}

/// A directional exchange rate slot of the price oracle.
#[derive(Clone, Copy, PartialEq, Eq, Structural, Debug)]
pub enum RateDirection {
    /// Units of USDC received per unit of WETH sold.
    UsdcPerWeth,
    /// Units of WETH received per unit of USDC sold.
    WethPerUsdc,
}

/// The identity under which `asset` is addressed.
pub open spec fn spec_address_of(asset: Asset) -> AccountId {
    match asset {
        Asset::Usdc => AccountId { value: USDC_ADDRESS },
        Asset::Weth => AccountId { value: WETH_ADDRESS },
    }
}

/// Total validation of a token identity against the closed set of
/// recognized assets.
pub open spec fn spec_classify(token: AccountId) -> Option<Asset> {
    if token == spec_address_of(Asset::Usdc) {
        Some(Asset::Usdc)
    } else if token == spec_address_of(Asset::Weth) {
        Some(Asset::Weth)
    } else {
        None
    }
}

/// The recognized asset that is not `asset`.
pub open spec fn spec_other_asset(asset: Asset) -> Asset {
    match asset {
        Asset::Usdc => Asset::Weth,
        Asset::Weth => Asset::Usdc,
    }
}

/// The oracle direction that prices a sale of `asset_in` into the other asset.
pub open spec fn spec_direction_for(asset_in: Asset) -> RateDirection {
    match asset_in {
        Asset::Weth => RateDirection::UsdcPerWeth,
        Asset::Usdc => RateDirection::WethPerUsdc,
    }
}

pub fn address_of(asset: Asset) -> (r: AccountId)
    ensures
        r == spec_address_of(asset),
{
    match asset {
        Asset::Usdc => AccountId { value: USDC_ADDRESS },
        Asset::Weth => AccountId { value: WETH_ADDRESS },
    }
}

pub fn classify(token: AccountId) -> (r: Option<Asset>)
    ensures
        r == spec_classify(token),
{
    if token.value == USDC_ADDRESS {
        Some(Asset::Usdc)
    } else if token.value == WETH_ADDRESS {
        Some(Asset::Weth)
    } else {
        None
    }
}

pub fn other_asset(asset: Asset) -> (r: Asset)
    ensures
        r == spec_other_asset(asset),
{
    match asset {
        Asset::Usdc => Asset::Weth,
        Asset::Weth => Asset::Usdc,
    }
}

pub fn direction_for(asset_in: Asset) -> (r: RateDirection)
    ensures
        r == spec_direction_for(asset_in),
{
    match asset_in {
        Asset::Weth => RateDirection::UsdcPerWeth,
        Asset::Usdc => RateDirection::WethPerUsdc,
    }
}

/// A resting sell order: `creator` offers `amount` units of `token`.
/// `lpsettler_id` is an opaque routing hint the core never validates.
/// `status` is true while the order is open.
#[derive(Clone, Copy, PartialEq, Eq, Structural, Debug)]
pub struct Order {
    pub id: u128,
    pub token: AccountId,
    pub creator: AccountId,
    pub amount: Balance,
    pub lpsettler_id: u64,
    pub status: bool,
}

/// A provider's reserve of one asset, available to settle matched orders.
#[derive(Clone, Copy, PartialEq, Eq, Structural, Debug)]
pub struct Liquidity {
    pub id: u128,
    pub token: AccountId,
    pub creator: AccountId,
    pub amount: Balance,
}

/// Notification payload of a successful order creation.
#[derive(Clone, Copy, PartialEq, Eq, Structural, Debug)]
pub struct OrderCreated {
    pub id: u128,
    pub creator: AccountId,
    pub token: AccountId,
    pub amount: Balance,
    pub lpsettler_id: u64,
}

/// Notification payload of a first liquidity contribution for a
/// (provider, asset) pair.
#[derive(Clone, Copy, PartialEq, Eq, Structural, Debug)]
pub struct LiquidityCreated {
    pub id: u128,
    pub provider: AccountId,
    pub token: AccountId,
    pub amount: Balance,
}

/// Notification payload of a repeat liquidity contribution merged into an
/// existing position.
#[derive(Clone, Copy, PartialEq, Eq, Structural, Debug)]
pub struct LiquidityIncreased {
    pub id: u128,
    pub provider: AccountId,
    pub token: AccountId,
    pub delta: Balance,
    pub new_amount: Balance,
}

/// Notification payload of a successful match settlement.
#[derive(Clone, Copy, PartialEq, Eq, Structural, Debug)]
pub struct OrderMatched {
    pub order_id: u128,
    pub lp: AccountId,
    pub seller: AccountId,
    pub token_in: AccountId,
    pub token_out: AccountId,
    pub amount_in: Balance,
    pub amount_out: Balance,
    pub price_used: Balance,
}

/// Why a liquidity contribution was rejected.
#[derive(Clone, Copy, PartialEq, Eq, Structural, Debug)]
pub enum LiquidityError {
    /// The contributed amount was zero.
    InvalidAmount,
    /// The named token is not one of the two recognized assets.
    UnknownAsset,
    /// The provider's balance of the asset is below the contributed amount.
    InsufficientFunds,
}

/// Why a match attempt or an oracle update was rejected.
#[derive(Clone, Copy, PartialEq, Eq, Structural, Debug)]
pub enum MatchError {
    /// The caller is not the designated operator.
    NotAuthorized,
    /// The order, or a required liquidity position, does not exist.
    NotFound,
    /// The order was already matched.
    OrderClosed,
    /// The order's amount is zero, so it can never settle.
    InvalidAmount,
    /// The order's token is not one of the two recognized assets.
    UnknownAsset,
    /// The directional rate needed for this match is still zero.
    OracleUnset(RateDirection),
    /// The seller's balance of the input asset is below the order amount.
    InsufficientFunds,
    /// The provider's output-asset position is below the computed output.
    InsufficientLiquidity,
}

/// How a liquidity contribution landed: a fresh position, or a merge into
/// the existing position for the same (provider, asset) pair.
#[derive(Clone, Copy, PartialEq, Eq, Structural, Debug)]
pub enum LiquidityOutcome {
    Created(LiquidityCreated),
    Increased(LiquidityIncreased),
}

impl LiquidityOutcome {
    /// The identifier of the position the contribution landed in.
    pub open spec fn spec_position_id(self) -> u128 {
        match self {
            LiquidityOutcome::Created(c) => c.id,
            LiquidityOutcome::Increased(i) => i.id,
        }
    }

    /// The identifier of the position the contribution landed in.
    pub fn position_id(&self) -> (r: u128)
        ensures
            r == self.spec_position_id(),
    {
        match self {
            LiquidityOutcome::Created(c) => c.id,
            LiquidityOutcome::Increased(i) => i.id,
        }
    }
}

} // verus!
