//! Identity and reputation registry: one record per participant ("agent"),
//! holding its tier, earnings, reputation score and staking state.

use vstd::prelude::*;
use crate::ids::AccountId;

verus! {

/// Reputation score given to a freshly registered agent.
pub const DEFAULT_REPUTATION: u16 = 5000;
/// Upper bound of the reputation range.
pub const MAX_REPUTATION: u16 = 10000;
/// Lower bound of the reputation range.
pub const MIN_REPUTATION: u16 = 0;

/// Smallest stake that activates an agent (0.1 unit in the ledger's smallest
/// denomination).
pub const MIN_STAKE_AMOUNT: u64 = 100_000_000;
/// Share of the stake forfeited by one slash, in percent.
pub const SLASH_PERCENTAGE: u8 = 50;
/// Number of slashes after which an agent is banned from staking.
pub const MAX_SLASH_COUNT: u8 = 3;

/// Earnings needed to move from tier 0 to tier 1 (1 unit).
pub const TIER_1_EARNINGS_THRESHOLD: u64 = 1_000_000_000;
/// Earnings needed to move from tier 1 to tier 2 (10 units).
pub const TIER_2_EARNINGS_THRESHOLD: u64 = 10_000_000_000;
/// Reputation needed, besides the earnings, to move from tier 1 to tier 2.
pub const TIER_2_REPUTATION_THRESHOLD: u16 = 8000;

/// Errors of the identity and reputation operations.
#[derive(Clone, Copy, PartialEq, Eq, Structural, Debug)]
pub enum AgentError {
    /// No tier upgrade threshold is met.
    UpgradeConditionNotMet,
    /// The signer is not the protocol authority.
    UnauthorizedAuthority,
}

/// One participant's identity record.
#[derive(Clone, Copy, PartialEq, Eq, Structural, Debug)]
pub struct AgentIdentity {
    /// Wallet that owns the record.
    pub owner: AccountId,
    /// Trust tier: 0, 1 or 2; never decreases.
    pub tier: u8,
    /// Accumulated executor payouts.
    pub total_earnings: u64,
    /// Number of settled tasks executed.
    pub total_tasks: u64,
    /// Reputation score, always within `[MIN_REPUTATION, MAX_REPUTATION]`.
    pub reputation_score: u16,
    /// Creation timestamp, supplied by the environment.
    pub created_at: i64,
    /// Collateral currently held in the agent's vault.
    pub staked_amount: u64,
    /// How many times the agent has been slashed.
    pub slashed_count: u8,
    /// Whether the agent may accept orders; set by staking, cleared when the
    /// stake falls below the minimum or the slash limit is reached.
    pub is_active: bool,
}

impl AgentIdentity {
    /// Record invariant: the reputation stays in range, the tier is one of
    /// the three levels, and an active agent is sufficiently staked and not
    /// banned.
    pub open spec fn wf(self) -> bool {
        &&& self.reputation_score <= MAX_REPUTATION
        &&& self.tier <= 2
        &&& self.is_active ==> self.staked_amount >= MIN_STAKE_AMOUNT
            && self.slashed_count < MAX_SLASH_COUNT
    }

    /// The record a first registration creates.
    pub open spec fn fresh(owner: AccountId, now: i64) -> AgentIdentity {
        AgentIdentity {
            owner,
            tier: 0,
            total_earnings: 0,
            total_tasks: 0,
            reputation_score: DEFAULT_REPUTATION,
            created_at: now,
            staked_amount: 0,
            slashed_count: 0,
            is_active: false,
        }
    }

    /// Tier 0 agents reach tier 1 on the first earnings threshold.
    pub open spec fn spec_can_upgrade_to_tier_1(self) -> bool {
        self.tier == 0 && self.total_earnings >= TIER_1_EARNINGS_THRESHOLD
    }

    /// Tier 1 agents reach tier 2 on the second earnings threshold combined
    /// with a high reputation.
    pub open spec fn spec_can_upgrade_to_tier_2(self) -> bool {
        &&& self.tier == 1
        &&& self.total_earnings >= TIER_2_EARNINGS_THRESHOLD
        &&& self.reputation_score >= TIER_2_REPUTATION_THRESHOLD
    }

    /// An agent may accept orders while active, sufficiently staked and not
    /// banned.
    pub open spec fn spec_can_accept_order(self) -> bool {
        &&& self.is_active
        &&& self.staked_amount >= MIN_STAKE_AMOUNT
        &&& self.slashed_count < MAX_SLASH_COUNT
    }

    /// Checks the tier 0 to 1 upgrade condition.
    pub fn can_upgrade_to_tier_1(&self) -> (r: bool)
        ensures
            r == self.spec_can_upgrade_to_tier_1(),
    {
        self.tier == 0 && self.total_earnings >= TIER_1_EARNINGS_THRESHOLD
    }

    /// Checks the tier 1 to 2 upgrade condition.
    pub fn can_upgrade_to_tier_2(&self) -> (r: bool)
        ensures
            r == self.spec_can_upgrade_to_tier_2(),
    {
        self.tier == 1 && self.total_earnings >= TIER_2_EARNINGS_THRESHOLD
            && self.reputation_score >= TIER_2_REPUTATION_THRESHOLD
    }

    /// Checks whether the agent may accept orders.
    pub fn can_accept_order(&self) -> (r: bool)
        ensures
            r == self.spec_can_accept_order(),
    {
        self.is_active && self.staked_amount >= MIN_STAKE_AMOUNT
            && self.slashed_count < MAX_SLASH_COUNT
    }

    /// What one slash forfeits: the staked amount scaled by the slash
    /// percentage, rounded down — exactly half the stake.
    pub fn calculate_slash_amount(&self) -> (r: u64)
        ensures
            r == self.staked_amount * (SLASH_PERCENTAGE as int) / 100,
            r <= self.staked_amount,
    {
        proof {
            let s = self.staked_amount as int;
            let q = s / 2;
            let m = s % 2;
            vstd::arithmetic::div_mod::lemma_fundamental_div_mod(s, 2);
            vstd::arithmetic::div_mod::lemma_div_pos_is_pos(s, 2);
            assert(s * 50 == 100 * q + 50 * m) by (nonlinear_arith)
                requires
                    s == 2 * q + m,
            ;
            vstd::arithmetic::div_mod::lemma_div_multiples_vanish_fancy(q, 50 * m, 100);
        }
        self.staked_amount / 2
    }
}

/// The agent record after a tier upgrade: one level up, everything else
/// untouched.
pub open spec fn agent_after_upgrade(a: AgentIdentity) -> AgentIdentity {
    AgentIdentity {
        tier: if a.spec_can_upgrade_to_tier_1() {
            1u8
        } else {
            2u8
        },
        ..a
    }
}

/// The agent record after a reputation adjustment.
pub open spec fn agent_after_adjust(a: AgentIdentity, delta: i16) -> AgentIdentity {
    AgentIdentity {
        reputation_score: adjusted_reputation(a.reputation_score as int, delta as int) as u16,
        ..a
    }
}

/// Creates the identity record of a newly registered agent: tier 0, default
/// reputation, nothing earned and nothing staked.
pub fn create_agent(owner: AccountId, now: i64) -> (a: AgentIdentity)
    ensures
        a == AgentIdentity::fresh(owner, now),
        a.wf(),
{
    AgentIdentity {
        owner,
        tier: 0,
        total_earnings: 0,
        total_tasks: 0,
        reputation_score: DEFAULT_REPUTATION,
        created_at: now,
        staked_amount: 0,
        slashed_count: 0,
        is_active: false,
    }
}

/// Moves the agent one tier up when a threshold allows it: tier 0 to 1 on
/// earnings alone, tier 1 to 2 on earnings and reputation. Fails, changing
/// nothing, when neither condition is met. The tier never decreases.
pub fn upgrade_tier(agent: &mut AgentIdentity) -> (r: Result<(), AgentError>)
    requires
        old(agent).wf(),
    ensures
        final(agent).wf(),
        match r {
            Ok(()) => {
                &&& old(agent).spec_can_upgrade_to_tier_1()
                    || old(agent).spec_can_upgrade_to_tier_2()
                &&& *final(agent) == agent_after_upgrade(*old(agent))
                &&& final(agent).tier > old(agent).tier
            },
            Err(e) => {
                &&& e == AgentError::UpgradeConditionNotMet
                &&& !old(agent).spec_can_upgrade_to_tier_1()
                &&& !old(agent).spec_can_upgrade_to_tier_2()
                &&& *final(agent) == *old(agent)
            },
        },
{
    if agent.can_upgrade_to_tier_1() {
        agent.tier = 1;
        Ok(())
    } else if agent.can_upgrade_to_tier_2() {
        agent.tier = 2;
        Ok(())
    } else {
        Err(AgentError::UpgradeConditionNotMet)
    }
}

/// A reputation adjustment saturates at both ends of the range: the new
/// score is the old one plus the delta, clamped to
/// `[MIN_REPUTATION, MAX_REPUTATION]`.
pub open spec fn adjusted_reputation(rep: int, delta: int) -> int {
    if rep + delta < MIN_REPUTATION as int {
        MIN_REPUTATION as int
    } else if rep + delta > MAX_REPUTATION as int {
        MAX_REPUTATION as int
    } else {
        rep + delta
    }
}

/// Adjusts the agent's reputation score by `delta`, saturating at the range
/// bounds; the adjustment itself never fails. Authorization — only the
/// protocol authority may adjust scores — is enforced where the caller is
/// identified, in [`crate::registry::Protocol::update_reputation`].
pub fn update_reputation(agent: &mut AgentIdentity, delta: i16)
    requires
        old(agent).wf(),
    ensures
        final(agent).wf(),
        final(agent).reputation_score
            == adjusted_reputation(old(agent).reputation_score as int, delta as int),
        *final(agent) == agent_after_adjust(*old(agent), delta),
{
    if delta >= 0 {
        let addition: u16 = delta as u16;
        let bumped: u16 = agent.reputation_score.saturating_add(addition);
        agent.reputation_score = if bumped > MAX_REPUTATION {
            MAX_REPUTATION
        } else {
            bumped
        };
    } else {
        let subtraction: u16 = (-(delta as i32)) as u16;
        agent.reputation_score = agent.reputation_score.saturating_sub(subtraction);
    }
}

/// The reputation score after replaying a whole sequence of adjustments.
pub open spec fn replay_reputation(rep: int, deltas: Seq<int>) -> int
    decreases deltas.len(),
{
    if deltas.len() == 0 {
        rep
    } else {
        replay_reputation(adjusted_reputation(rep, deltas[0]), deltas.drop_first())
    }
}

/// Reputation bounds law: starting from any score within the range, every
/// sequence of saturating adjustments keeps the score within
/// `[MIN_REPUTATION, MAX_REPUTATION]` — at the end, and, since every prefix
/// is such a sequence, at every intermediate step as well.
pub proof fn lemma_reputation_bounds(rep: int, deltas: Seq<int>)
    requires
        MIN_REPUTATION as int <= rep <= MAX_REPUTATION as int,
    ensures
        MIN_REPUTATION as int <= replay_reputation(rep, deltas) <= MAX_REPUTATION as int,
    decreases deltas.len(),
{
    if deltas.len() > 0 {
        lemma_reputation_bounds(adjusted_reputation(rep, deltas[0]), deltas.drop_first());
    }
}

} // verus!
