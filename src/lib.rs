//! Reward and yield engine of a token economy: staking accrual with tiered
//! early-exit penalties, spin-to-yield payouts with stacked modifiers, and the
//! four-way rewards-pool allocator.
//!
//! Every operation is a decision over plain values: the caller supplies the
//! current time, the relevant vault balances and the weak random draw, and
//! performs the token transfers that a successful call hands back.

pub mod address;
pub mod formula;
pub mod rewards_pool;
pub mod spin;
pub mod spin_seed;
pub mod staking;

