//! Verified core of a task-execution marketplace protocol.
//!
//! A buyer funds an escrow record priced by a service listing ("skill"), a
//! staked executor commits a result digest, and after an optimistic challenge
//! window the held value is split between the protocol treasury, the listing
//! author and the executor. Misbehaving executors can be challenged and have
//! half of their staked collateral slashed.
//!
//! The crate proves the escrow state machine legal, the three-way fee split
//! exact and conserving, the reputation bookkeeping bounded, and every
//! operation atomic: on any error the touched records are unchanged.

pub mod ids;
pub mod agent;
pub mod skill;
pub mod escrow;
pub mod staking;
pub mod table;
pub mod registry;
