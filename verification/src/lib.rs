//! Pricing and release accounting for a token sale.
//!
//! The library computes amounts and commits accounting state; it never moves
//! funds. A caller asks for a price or a claimable amount, moves the funds
//! itself, and stores the state that the library hands back.
//!
//! - [`math`]: checked arithmetic on 128-bit values.
//! - [`curve`]: the bonding curve, its four pricing formulas and its reserves.
//! - [`vesting`]: schedules that release a fixed entitlement over time or by
//!   milestones.
//! - [`stream`]: a release at a constant rate per interval.
//! - [`launch`]: trades against a curve, with the bounds that a trader states.
//! - [`pool`]: a simpler pool that prices by supply and reserve.
//! - [`vault`]: time locks and all-at-once grants.
//! - [`identity`]: the handles of owners and callers.
//! - [`error`]: the failures.

pub mod curve;
pub mod error;
pub mod identity;
pub mod launch;
pub mod math;
pub mod pool;
pub mod stream;
pub mod vault;
pub mod vesting;
