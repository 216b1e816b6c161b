//! The staking and slashing vault: collateral that activates an agent,
//! released on demand and partly forfeited when a challenge against the
//! agent succeeds.

use vstd::prelude::*;
use crate::agent::{AgentIdentity, MAX_SLASH_COUNT, MIN_STAKE_AMOUNT, SLASH_PERCENTAGE};

verus! {

/// Reputation lost on every slash.
pub const SLASH_REPUTATION_PENALTY: u16 = 1000;

/// Errors of the staking operations.
#[derive(Clone, Copy, PartialEq, Eq, Structural, Debug)]
pub enum StakingError {
    /// The stake is below the activation minimum.
    InsufficientStake,
    /// More was requested back than is staked.
    InsufficientBalance,
    /// The staked amount would overflow.
    Overflow,
    /// The agent has been slashed too often and may not stake again.
    AgentBanned,
}

/// Half of the stake, rounded down: what one slash forfeits.
pub open spec fn spec_slash_amount(a: AgentIdentity) -> int {
    a.staked_amount * (SLASH_PERCENTAGE as int) / 100
}

/// The agent record after a successful stake.
pub open spec fn agent_after_stake(a: AgentIdentity, amount: u64) -> AgentIdentity {
    AgentIdentity {
        staked_amount: (a.staked_amount + amount) as u64,
        is_active: true,
        ..a
    }
}

/// The agent record after a successful unstake: the agent is deactivated
/// when the remaining stake falls below the minimum.
pub open spec fn agent_after_unstake(a: AgentIdentity, amount: u64) -> AgentIdentity {
    AgentIdentity {
        staked_amount: (a.staked_amount - amount) as u64,
        is_active: if a.staked_amount - amount < MIN_STAKE_AMOUNT {
            false
        } else {
            a.is_active
        },
        ..a
    }
}

/// The agent record after a slash: half the stake forfeited, the slash
/// counted (saturating), the reputation reduced (saturating at zero), and
/// the agent deactivated when underfunded or banned.
pub open spec fn agent_after_slash(a: AgentIdentity) -> AgentIdentity {
    let new_staked = (a.staked_amount - spec_slash_amount(a)) as u64;
    let new_count = if a.slashed_count == u8::MAX {
        u8::MAX
    } else {
        (a.slashed_count + 1) as u8
    };
    let new_rep = if a.reputation_score >= SLASH_REPUTATION_PENALTY {
        (a.reputation_score - SLASH_REPUTATION_PENALTY) as u16
    } else {
        0u16
    };
    AgentIdentity {
        staked_amount: new_staked,
        slashed_count: new_count,
        reputation_score: new_rep,
        is_active: if new_staked < MIN_STAKE_AMOUNT || new_count >= MAX_SLASH_COUNT {
            false
        } else {
            a.is_active
        },
        ..a
    }
}

/// Adds collateral to the agent's vault and activates the agent. Fails,
/// changing nothing, when the amount is below the activation minimum, the
/// agent is banned after too many slashes, or the vault would overflow.
pub fn stake_agent(agent: &mut AgentIdentity, amount: u64) -> (r: Result<(), StakingError>)
    requires
        old(agent).wf(),
    ensures
        final(agent).wf(),
        match r {
            Ok(()) => {
                &&& amount >= MIN_STAKE_AMOUNT
                &&& old(agent).slashed_count < MAX_SLASH_COUNT
                &&& old(agent).staked_amount + amount <= u64::MAX
                &&& *final(agent) == agent_after_stake(*old(agent), amount)
            },
            Err(StakingError::InsufficientStake) => {
                &&& amount < MIN_STAKE_AMOUNT
                &&& *final(agent) == *old(agent)
            },
            Err(StakingError::AgentBanned) => {
                &&& amount >= MIN_STAKE_AMOUNT
                &&& old(agent).slashed_count >= MAX_SLASH_COUNT
                &&& *final(agent) == *old(agent)
            },
            Err(StakingError::Overflow) => {
                &&& amount >= MIN_STAKE_AMOUNT
                &&& old(agent).slashed_count < MAX_SLASH_COUNT
                &&& old(agent).staked_amount + amount > u64::MAX
                &&& *final(agent) == *old(agent)
            },
            Err(_) => false,
        },
{
    if amount < MIN_STAKE_AMOUNT {
        return Err(StakingError::InsufficientStake);
    }
    if !(agent.slashed_count < MAX_SLASH_COUNT) {
        return Err(StakingError::AgentBanned);
    }
    let new_staked = match agent.staked_amount.checked_add(amount) {
        Some(v) => v,
        None => {
            return Err(StakingError::Overflow);
        },
    };
    agent.staked_amount = new_staked;
    agent.is_active = true;
    Ok(())
}

/// Releases collateral back to the agent's owner. Fails, changing nothing,
/// when more is requested than is staked; deactivates the agent when the
/// remaining stake falls below the activation minimum.
pub fn unstake_agent(agent: &mut AgentIdentity, amount: u64) -> (r: Result<(), StakingError>)
    requires
        old(agent).wf(),
    ensures
        final(agent).wf(),
        match r {
            Ok(()) => {
                &&& amount <= old(agent).staked_amount
                &&& *final(agent) == agent_after_unstake(*old(agent), amount)
            },
            Err(e) => {
                &&& e == StakingError::InsufficientBalance
                &&& amount > old(agent).staked_amount
                &&& *final(agent) == *old(agent)
            },
        },
{
    if !(agent.staked_amount >= amount) {
        return Err(StakingError::InsufficientBalance);
    }
    let remaining = agent.staked_amount - amount;
    agent.staked_amount = remaining;
    if remaining < MIN_STAKE_AMOUNT {
        agent.is_active = false;
    }
    Ok(())
}

/// Slashes the agent after a lost challenge: forfeits half the stake,
/// counts the slash, lowers the reputation, and deactivates the agent when
/// its stake falls below the minimum or the slash limit is reached. Never
/// fails; returns the forfeited amount, half of which the caller pays to
/// the challenger as a bounty while the rest leaves circulation.
pub fn slash_agent(agent: &mut AgentIdentity) -> (r: u64)
    requires
        old(agent).wf(),
    ensures
        final(agent).wf(),
        r == spec_slash_amount(*old(agent)),
        r <= old(agent).staked_amount,
        *final(agent) == agent_after_slash(*old(agent)),
{
    let slash_amount = agent.calculate_slash_amount();
    agent.staked_amount = agent.staked_amount - slash_amount;
    agent.slashed_count = agent.slashed_count.saturating_add(1);
    agent.reputation_score = agent.reputation_score.saturating_sub(SLASH_REPUTATION_PENALTY);
    if agent.staked_amount < MIN_STAKE_AMOUNT || agent.slashed_count >= MAX_SLASH_COUNT {
        agent.is_active = false;
    }
    slash_amount
}

} // verus!
