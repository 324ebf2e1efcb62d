//! An over-the-counter settlement ledger: two fungible assets, user balances,
//! resting sell orders, per-provider liquidity pools, and an operator-driven
//! matching engine settling orders at operator-set directional exchange rates.
//!
//! The hosting environment (caller identity, event delivery, persistence) is
//! out of scope: every operation takes the caller as an explicit argument and
//! returns the notification payload it would emit, so a host can wire the
//! ledger to any transport.

pub mod laws;
pub mod ledger;
pub mod math;
pub mod types;

pub use crate::ledger::DextrStorage;
pub use crate::types::AccountId;
pub use crate::types::Asset;
pub use crate::types::Balance;
pub use crate::types::Liquidity;
pub use crate::types::LiquidityCreated;
pub use crate::types::LiquidityError;
pub use crate::types::LiquidityIncreased;
pub use crate::types::LiquidityOutcome;
pub use crate::types::MatchError;
pub use crate::types::Order;
pub use crate::types::OrderCreated;
pub use crate::types::OrderMatched;
pub use crate::types::RateDirection;
