//! Verified core of the dropit chain: the distribution, treasury and author-reward-destination
//! pallets, the author-reward inherent primitives and the runtime's fee routing.

pub mod support;
pub mod ledger;
pub mod accounts;
pub mod perbill;
pub mod distribution;
pub mod crowdfund_accounting;
pub mod inherent;
pub mod author_reward_dest;
pub mod treasury;
pub mod fees;

