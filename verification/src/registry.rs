//! The protocol state: the configuration set at bootstrap together with the
//! keyed stores of agents, listings and escrows. Every operation is keyed —
//! records are addressed by owner, by author and name hash, or by buyer,
//! listing and nonce — and applies atomically: on any error the whole state
//! is as it was.

use vstd::prelude::*;
use crate::ids::{AccountId, Digest, Evidence};
use crate::agent::{
    agent_after_adjust, agent_after_upgrade, AgentError, AgentIdentity,
};
use crate::skill::{SkillAccount, SkillError, SkillKey};
use crate::escrow::{
    EscrowAccount, EscrowError, EscrowKey, EscrowStatus, ProtocolConfig, Settlement,
    DEFAULT_EXPIRY_DURATION, DEFAULT_FEE_BASIS_POINTS,
};
use crate::staking::{
    agent_after_slash, agent_after_stake, agent_after_unstake, spec_slash_amount, StakingError,
};
use crate::table::{
    find_index, keys_unique, lemma_push_row, lemma_record_at, lemma_remove_row,
    lemma_update_row, record_of, set_at, Keyed,
};

verus! {

impl Keyed for AgentIdentity {
    type Key = AccountId;

    open spec fn key(&self) -> AccountId {
        self.owner
    }

    fn has_key(&self, k: &AccountId) -> (r: bool) {
        self.owner == *k
    }
}

impl Keyed for SkillAccount {
    type Key = SkillKey;

    open spec fn key(&self) -> SkillKey {
        self.spec_key()
    }

    fn has_key(&self, k: &SkillKey) -> (r: bool) {
        self.authority == k.authority && self.name_hash == k.name_hash
    }
}

impl Keyed for EscrowAccount {
    type Key = EscrowKey;

    open spec fn key(&self) -> EscrowKey {
        self.spec_key()
    }

    fn has_key(&self, k: &EscrowKey) -> (r: bool) {
        self.buyer == k.buyer && self.skill == k.skill && self.nonce == k.nonce
    }
}

/// Errors of the keyed protocol operations: either the addressed record is
/// missing or duplicated, or a component refused the operation.
#[derive(Clone, Copy, PartialEq, Eq, Structural, Debug)]
pub enum ProtocolError {
    /// The addressed record does not exist.
    NotFound,
    /// A record under the same key already exists.
    AlreadyExists,
    /// An identity or reputation operation failed.
    Agent(AgentError),
    /// A listing operation failed.
    Skill(SkillError),
    /// An escrow operation failed.
    Escrow(EscrowError),
    /// A staking operation failed.
    Staking(StakingError),
}

/// What a challenge resolution decided and which transfers it owes.
#[derive(Clone, Copy, PartialEq, Eq, Structural, Debug)]
pub enum Resolution {
    /// The executor prevailed: the escrow is back to `Completed` and no
    /// value moves.
    ExecutorWins,
    /// The challenger prevailed: the buyer is owed the held amount back,
    /// the executor's stake is slashed, and half of the forfeited amount is
    /// owed to the challenger as a bounty — the other half leaves
    /// circulation.
    ChallengerWins {
        /// The buyer to refund.
        buyer: AccountId,
        /// The full held amount, owed back to the buyer.
        refund_amount: u64,
        /// The challenger to pay the bounty to.
        challenger: AccountId,
        /// Half of the forfeited stake, rounded down.
        challenger_bounty: u64,
        /// The whole forfeited stake.
        slash_amount: u64,
    },
}

/// The whole protocol state.
pub struct Protocol {
    /// Parameters set at bootstrap.
    pub config: ProtocolConfig,
    /// One identity record per registered owner.
    pub agents: Vec<AgentIdentity>,
    /// One listing per author and name hash.
    pub skills: Vec<SkillAccount>,
    /// One escrow per buyer, listing and nonce.
    pub escrows: Vec<EscrowAccount>,
}

impl Protocol {
    /// State invariant: every store is keyed uniquely and every record
    /// satisfies its own invariant.
    pub open spec fn wf(self) -> bool {
        &&& keys_unique(self.agents@)
        &&& keys_unique(self.skills@)
        &&& keys_unique(self.escrows@)
        &&& forall|i: int| 0 <= i < self.agents@.len() ==> (#[trigger] self.agents@[i]).wf()
        &&& forall|i: int| 0 <= i < self.skills@.len() ==> (#[trigger] self.skills@[i]).wf()
        &&& forall|i: int| 0 <= i < self.escrows@.len() ==> (#[trigger] self.escrows@[i]).wf()
    }

    /// The agent record registered for `owner`, if any.
    pub open spec fn spec_agent(self, owner: AccountId) -> Option<AgentIdentity> {
        record_of(self.agents@, owner)
    }

    /// The listing registered under `key`, if any.
    pub open spec fn spec_skill(self, key: SkillKey) -> Option<SkillAccount> {
        record_of(self.skills@, key)
    }

    /// The escrow record addressed by `key`, if any.
    pub open spec fn spec_escrow(self, key: EscrowKey) -> Option<EscrowAccount> {
        record_of(self.escrows@, key)
    }
}

/// The one-time bootstrap: fixes the administrator, the fee rate — a zero
/// rate falls back to the default — and the treasury, with every store
/// empty.
pub fn init_protocol_config(
    authority: AccountId,
    fee_basis_points: u16,
    treasury: AccountId,
) -> (p: Protocol)
    ensures
        p.wf(),
        p.config == (ProtocolConfig {
            authority,
            fee_basis_points: if fee_basis_points > 0 {
                fee_basis_points
            } else {
                DEFAULT_FEE_BASIS_POINTS
            },
            treasury,
        }),
        p.agents@.len() == 0,
        p.skills@.len() == 0,
        p.escrows@.len() == 0,
{
    let rate = if fee_basis_points > 0 {
        fee_basis_points
    } else {
        DEFAULT_FEE_BASIS_POINTS
    };
    Protocol {
        config: ProtocolConfig { authority, fee_basis_points: rate, treasury },
        agents: Vec::new(),
        skills: Vec::new(),
        escrows: Vec::new(),
    }
}

impl Protocol {
    /// Registers a fresh agent identity for `owner`: tier 0, default
    /// reputation, nothing earned and nothing staked. Fails, changing
    /// nothing, when `owner` already has a record.
    pub fn create_agent(&mut self, owner: AccountId, now: i64) -> (r: Result<(), ProtocolError>)
        requires
            old(self).wf(),
        ensures
            final(self).wf(),
            final(self).config == old(self).config,
            final(self).skills@ == old(self).skills@,
            final(self).escrows@ == old(self).escrows@,
            match r {
                Ok(()) => {
                    &&& old(self).spec_agent(owner) is None
                    &&& final(self).spec_agent(owner) == Some(AgentIdentity::fresh(owner, now))
                    &&& forall|o: AccountId|
                        o != owner ==> final(self).spec_agent(o) == old(self).spec_agent(o)
                },
                Err(e) => {
                    &&& e == ProtocolError::AlreadyExists
                    &&& old(self).spec_agent(owner) is Some
                    &&& final(self).agents@ == old(self).agents@
                },
            },
    {
        match find_index(&self.agents, &owner) {
            Some(_) => Err(ProtocolError::AlreadyExists),
            None => {
                let a = crate::agent::create_agent(owner, now);
                let ghost pre = self.agents@;
                self.agents.push(a);
                proof {
                    lemma_push_row(pre, self.agents@, a);
                }
                Ok(())
            },
        }
    }

    /// Moves the signer's own agent one tier up when a threshold allows it;
    /// the record is the signer's because records are keyed by owner.
    /// Fails, changing nothing, when the signer has no record or no
    /// condition is met.
    pub fn upgrade_tier(&mut self, owner: AccountId) -> (r: Result<(), ProtocolError>)
        requires
            old(self).wf(),
        ensures
            final(self).wf(),
            final(self).config == old(self).config,
            final(self).skills@ == old(self).skills@,
            final(self).escrows@ == old(self).escrows@,
            match r {
                Ok(()) => {
                    &&& old(self).spec_agent(owner) matches Some(a)
                    &&& (a.spec_can_upgrade_to_tier_1() || a.spec_can_upgrade_to_tier_2())
                    &&& final(self).spec_agent(owner) == Some(agent_after_upgrade(a))
                    &&& forall|o: AccountId|
                        o != owner ==> final(self).spec_agent(o) == old(self).spec_agent(o)
                },
                Err(ProtocolError::NotFound) => {
                    &&& old(self).spec_agent(owner) is None
                    &&& final(self).agents@ == old(self).agents@
                },
                Err(ProtocolError::Agent(e)) => {
                    &&& e == AgentError::UpgradeConditionNotMet
                    &&& old(self).spec_agent(owner) matches Some(a)
                    &&& !a.spec_can_upgrade_to_tier_1()
                    &&& !a.spec_can_upgrade_to_tier_2()
                    &&& final(self).agents@ == old(self).agents@
                },
                Err(_) => false,
            },
    {
        let idx = match find_index(&self.agents, &owner) {
            Some(i) => i,
            None => {
                return Err(ProtocolError::NotFound);
            },
        };
        proof {
            lemma_record_at(self.agents@, idx as int);
        }
        let mut a = self.agents[idx];
        match crate::agent::upgrade_tier(&mut a) {
            Ok(()) => {
                let ghost pre = self.agents@;
                set_at(&mut self.agents, idx, a);
                proof {
                    lemma_update_row(pre, self.agents@, idx as int);
                }
                Ok(())
            },
            Err(e) => Err(ProtocolError::Agent(e)),
        }
    }

    /// Adjusts an agent's reputation score by `delta`, saturating at the
    /// range bounds. Only the protocol authority may; anyone else is
    /// refused before anything is looked up.
    pub fn update_reputation(
        &mut self,
        authority: AccountId,
        owner: AccountId,
        delta: i16,
    ) -> (r: Result<(), ProtocolError>)
        requires
            old(self).wf(),
        ensures
            final(self).wf(),
            final(self).config == old(self).config,
            final(self).skills@ == old(self).skills@,
            final(self).escrows@ == old(self).escrows@,
            match r {
                Ok(()) => {
                    &&& authority == old(self).config.authority
                    &&& old(self).spec_agent(owner) matches Some(a)
                    &&& final(self).spec_agent(owner) == Some(agent_after_adjust(a, delta))
                    &&& forall|o: AccountId|
                        o != owner ==> final(self).spec_agent(o) == old(self).spec_agent(o)
                },
                Err(ProtocolError::Agent(e)) => {
                    &&& e == AgentError::UnauthorizedAuthority
                    &&& authority != old(self).config.authority
                    &&& final(self).agents@ == old(self).agents@
                },
                Err(ProtocolError::NotFound) => {
                    &&& authority == old(self).config.authority
                    &&& old(self).spec_agent(owner) is None
                    &&& final(self).agents@ == old(self).agents@
                },
                Err(_) => false,
            },
    {
        if !(authority == self.config.authority) {
            return Err(ProtocolError::Agent(AgentError::UnauthorizedAuthority));
        }
        let idx = match find_index(&self.agents, &owner) {
            Some(i) => i,
            None => {
                return Err(ProtocolError::NotFound);
            },
        };
        proof {
            lemma_record_at(self.agents@, idx as int);
        }
        let mut a = self.agents[idx];
        crate::agent::update_reputation(&mut a, delta);
        let ghost pre = self.agents@;
        set_at(&mut self.agents, idx, a);
        proof {
            lemma_update_row(pre, self.agents@, idx as int);
        }
        Ok(())
    }

    /// Registers a fresh listing for the signing author under its name
    /// hash. Fails, changing nothing, when the author already has a listing
    /// under that name hash.
    pub fn register_skill(
        &mut self,
        authority: AccountId,
        name_hash: Digest,
        content_hash: Digest,
        price_lamports: u64,
        now: i64,
    ) -> (r: Result<(), ProtocolError>)
        requires
            old(self).wf(),
        ensures
            final(self).wf(),
            final(self).config == old(self).config,
            final(self).agents@ == old(self).agents@,
            final(self).escrows@ == old(self).escrows@,
            match r {
                Ok(()) => {
                    &&& old(self).spec_skill(SkillKey { authority, name_hash }) is None
                    &&& final(self).spec_skill(SkillKey { authority, name_hash }) == Some(
                        SkillAccount::fresh(authority, name_hash, content_hash, price_lamports, now),
                    )
                    &&& forall|k: SkillKey|
                        k != (SkillKey { authority, name_hash }) ==> final(self).spec_skill(k)
                            == old(self).spec_skill(k)
                },
                Err(e) => {
                    &&& e == ProtocolError::AlreadyExists
                    &&& old(self).spec_skill(SkillKey { authority, name_hash }) is Some
                    &&& final(self).skills@ == old(self).skills@
                },
            },
    {
        let key = SkillKey { authority, name_hash };
        match find_index(&self.skills, &key) {
            Some(_) => Err(ProtocolError::AlreadyExists),
            None => {
                let s = crate::skill::register_skill(
                    authority,
                    name_hash,
                    content_hash,
                    price_lamports,
                    now,
                );
                let ghost pre = self.skills@;
                self.skills.push(s);
                proof {
                    lemma_push_row(pre, self.skills@, s);
                }
                Ok(())
            },
        }
    }

    /// Replaces the content hash and price of the signing author's listing
    /// and bumps its version. Fails, changing nothing, when the listing is
    /// missing, deprecated or at its last version.
    pub fn update_skill(
        &mut self,
        authority: AccountId,
        name_hash: Digest,
        new_content_hash: Digest,
        new_price: u64,
    ) -> (r: Result<(), ProtocolError>)
        requires
            old(self).wf(),
        ensures
            final(self).wf(),
            final(self).config == old(self).config,
            final(self).agents@ == old(self).agents@,
            final(self).escrows@ == old(self).escrows@,
            match r {
                Ok(()) => {
                    &&& old(self).spec_skill(SkillKey { authority, name_hash }) matches Some(s)
                    &&& !s.is_deprecated
                    &&& s.version < u8::MAX
                    &&& final(self).spec_skill(SkillKey { authority, name_hash }) == Some(
                        SkillAccount {
                            content_hash: new_content_hash,
                            price_lamports: new_price,
                            version: (s.version + 1) as u8,
                            ..s
                        },
                    )
                    &&& forall|k: SkillKey|
                        k != (SkillKey { authority, name_hash }) ==> final(self).spec_skill(k)
                            == old(self).spec_skill(k)
                },
                Err(ProtocolError::NotFound) => {
                    &&& old(self).spec_skill(SkillKey { authority, name_hash }) is None
                    &&& final(self).skills@ == old(self).skills@
                },
                Err(ProtocolError::Skill(e)) => {
                    &&& old(self).spec_skill(SkillKey { authority, name_hash }) matches Some(s)
                    &&& (e == SkillError::SkillDeprecated && s.is_deprecated || e
                        == SkillError::VersionOverflow && !s.is_deprecated && s.version == u8::MAX)
                    &&& final(self).skills@ == old(self).skills@
                },
                Err(_) => false,
            },
    {
        let key = SkillKey { authority, name_hash };
        let idx = match find_index(&self.skills, &key) {
            Some(i) => i,
            None => {
                return Err(ProtocolError::NotFound);
            },
        };
        proof {
            lemma_record_at(self.skills@, idx as int);
        }
        let mut s = self.skills[idx];
        match crate::skill::update_skill(&mut s, new_content_hash, new_price) {
            Ok(()) => {
                let ghost pre = self.skills@;
                set_at(&mut self.skills, idx, s);
                proof {
                    lemma_update_row(pre, self.skills@, idx as int);
                }
                Ok(())
            },
            Err(e) => Err(ProtocolError::Skill(e)),
        }
    }

    /// Takes the signing author's listing down; escrows already funded
    /// against it still settle, but no new escrow can be created. Fails,
    /// changing nothing, when the listing is missing or already down.
    pub fn deprecate_skill(&mut self, authority: AccountId, name_hash: Digest) -> (r: Result<
        (),
        ProtocolError,
    >)
        requires
            old(self).wf(),
        ensures
            final(self).wf(),
            final(self).config == old(self).config,
            final(self).agents@ == old(self).agents@,
            final(self).escrows@ == old(self).escrows@,
            match r {
                Ok(()) => {
                    &&& old(self).spec_skill(SkillKey { authority, name_hash }) matches Some(s)
                    &&& !s.is_deprecated
                    &&& final(self).spec_skill(SkillKey { authority, name_hash }) == Some(
                        SkillAccount { is_deprecated: true, ..s },
                    )
                    &&& forall|k: SkillKey|
                        k != (SkillKey { authority, name_hash }) ==> final(self).spec_skill(k)
                            == old(self).spec_skill(k)
                },
                Err(ProtocolError::NotFound) => {
                    &&& old(self).spec_skill(SkillKey { authority, name_hash }) is None
                    &&& final(self).skills@ == old(self).skills@
                },
                Err(ProtocolError::Skill(e)) => {
                    &&& e == SkillError::SkillAlreadyDeprecated
                    &&& old(self).spec_skill(SkillKey { authority, name_hash }) matches Some(s)
                    &&& s.is_deprecated
                    &&& final(self).skills@ == old(self).skills@
                },
                Err(_) => false,
            },
    {
        let key = SkillKey { authority, name_hash };
        let idx = match find_index(&self.skills, &key) {
            Some(i) => i,
            None => {
                return Err(ProtocolError::NotFound);
            },
        };
        proof {
            lemma_record_at(self.skills@, idx as int);
        }
        let mut s = self.skills[idx];
        match crate::skill::deprecate_skill(&mut s) {
            Ok(()) => {
                let ghost pre = self.skills@;
                set_at(&mut self.skills, idx, s);
                proof {
                    lemma_update_row(pre, self.skills@, idx as int);
                }
                Ok(())
            },
            Err(e) => Err(ProtocolError::Skill(e)),
        }
    }

    /// Adds collateral to the signer's own vault and activates the agent;
    /// the owner funds the vault with the amount out of band. Fails,
    /// changing nothing, when the signer has no record or the staking
    /// guards refuse.
    pub fn stake_agent(&mut self, owner: AccountId, amount: u64) -> (r: Result<(), ProtocolError>)
        requires
            old(self).wf(),
        ensures
            final(self).wf(),
            final(self).config == old(self).config,
            final(self).skills@ == old(self).skills@,
            final(self).escrows@ == old(self).escrows@,
            match r {
                Ok(()) => {
                    &&& old(self).spec_agent(owner) matches Some(a)
                    &&& amount >= crate::agent::MIN_STAKE_AMOUNT
                    &&& a.slashed_count < crate::agent::MAX_SLASH_COUNT
                    &&& a.staked_amount + amount <= u64::MAX
                    &&& final(self).spec_agent(owner) == Some(agent_after_stake(a, amount))
                    &&& forall|o: AccountId|
                        o != owner ==> final(self).spec_agent(o) == old(self).spec_agent(o)
                },
                Err(ProtocolError::NotFound) => {
                    &&& old(self).spec_agent(owner) is None
                    &&& final(self).agents@ == old(self).agents@
                },
                Err(ProtocolError::Staking(e)) => {
                    &&& old(self).spec_agent(owner) matches Some(a)
                    &&& (e == StakingError::InsufficientStake && amount
                        < crate::agent::MIN_STAKE_AMOUNT || e == StakingError::AgentBanned
                        && amount >= crate::agent::MIN_STAKE_AMOUNT && a.slashed_count
                        >= crate::agent::MAX_SLASH_COUNT || e == StakingError::Overflow && amount
                        >= crate::agent::MIN_STAKE_AMOUNT && a.slashed_count
                        < crate::agent::MAX_SLASH_COUNT && a.staked_amount + amount > u64::MAX)
                    &&& final(self).agents@ == old(self).agents@
                },
                Err(_) => false,
            },
    {
        let idx = match find_index(&self.agents, &owner) {
            Some(i) => i,
            None => {
                return Err(ProtocolError::NotFound);
            },
        };
        proof {
            lemma_record_at(self.agents@, idx as int);
        }
        let mut a = self.agents[idx];
        match crate::staking::stake_agent(&mut a, amount) {
            Ok(()) => {
                let ghost pre = self.agents@;
                set_at(&mut self.agents, idx, a);
                proof {
                    lemma_update_row(pre, self.agents@, idx as int);
                }
                Ok(())
            },
            Err(e) => Err(ProtocolError::Staking(e)),
        }
    }

    /// Releases collateral from the signer's own vault back to the owner —
    /// the returned amount is what the vault pays out — deactivating the
    /// agent when the remaining stake falls below the minimum. Fails,
    /// changing nothing, when the signer has no record or asks for more
    /// than is staked.
    pub fn unstake_agent(&mut self, owner: AccountId, amount: u64) -> (r: Result<
        u64,
        ProtocolError,
    >)
        requires
            old(self).wf(),
        ensures
            final(self).wf(),
            final(self).config == old(self).config,
            final(self).skills@ == old(self).skills@,
            final(self).escrows@ == old(self).escrows@,
            match r {
                Ok(released) => {
                    &&& old(self).spec_agent(owner) matches Some(a)
                    &&& amount <= a.staked_amount
                    &&& released == amount
                    &&& final(self).spec_agent(owner) == Some(agent_after_unstake(a, amount))
                    &&& forall|o: AccountId|
                        o != owner ==> final(self).spec_agent(o) == old(self).spec_agent(o)
                },
                Err(ProtocolError::NotFound) => {
                    &&& old(self).spec_agent(owner) is None
                    &&& final(self).agents@ == old(self).agents@
                },
                Err(ProtocolError::Staking(e)) => {
                    &&& e == StakingError::InsufficientBalance
                    &&& old(self).spec_agent(owner) matches Some(a)
                    &&& amount > a.staked_amount
                    &&& final(self).agents@ == old(self).agents@
                },
                Err(_) => false,
            },
    {
        let idx = match find_index(&self.agents, &owner) {
            Some(i) => i,
            None => {
                return Err(ProtocolError::NotFound);
            },
        };
        proof {
            lemma_record_at(self.agents@, idx as int);
        }
        let mut a = self.agents[idx];
        match crate::staking::unstake_agent(&mut a, amount) {
            Ok(()) => {
                let ghost pre = self.agents@;
                set_at(&mut self.agents, idx, a);
                proof {
                    lemma_update_row(pre, self.agents@, idx as int);
                }
                Ok(amount)
            },
            Err(e) => Err(ProtocolError::Staking(e)),
        }
    }

    /// Funds an escrow against a listing: the held amount is the listing's
    /// price, which the buyer pays into custody out of band — the returned
    /// amount is what the buyer owes. Fails, changing nothing, when the
    /// listing is missing, the same buyer, listing and nonce already have
    /// an escrow, the listing is deprecated, or its price is zero.
    pub fn create_escrow(
        &mut self,
        buyer: AccountId,
        skill: SkillKey,
        nonce: u64,
        now: i64,
    ) -> (r: Result<u64, ProtocolError>)
        requires
            old(self).wf(),
            now <= i64::MAX - DEFAULT_EXPIRY_DURATION,
        ensures
            final(self).wf(),
            final(self).config == old(self).config,
            final(self).agents@ == old(self).agents@,
            final(self).skills@ == old(self).skills@,
            match r {
                Ok(amount) => {
                    &&& old(self).spec_skill(skill) matches Some(s)
                    &&& old(self).spec_escrow(EscrowKey { buyer, skill, nonce }) is None
                    &&& !s.is_deprecated
                    &&& s.price_lamports > 0
                    &&& amount == s.price_lamports
                    &&& final(self).spec_escrow(EscrowKey { buyer, skill, nonce }) == Some(
                        EscrowAccount::fresh(buyer, skill, s.price_lamports, nonce, now),
                    )
                    &&& forall|k: EscrowKey|
                        k != (EscrowKey { buyer, skill, nonce }) ==> final(self).spec_escrow(k)
                            == old(self).spec_escrow(k)
                },
                Err(ProtocolError::NotFound) => {
                    &&& old(self).spec_skill(skill) is None
                    &&& final(self).escrows@ == old(self).escrows@
                },
                Err(ProtocolError::AlreadyExists) => {
                    &&& old(self).spec_skill(skill) is Some
                    &&& old(self).spec_escrow(EscrowKey { buyer, skill, nonce }) is Some
                    &&& final(self).escrows@ == old(self).escrows@
                },
                Err(ProtocolError::Escrow(e)) => {
                    &&& old(self).spec_skill(skill) matches Some(s)
                    &&& old(self).spec_escrow(EscrowKey { buyer, skill, nonce }) is None
                    &&& (e == EscrowError::SkillDeprecated && s.is_deprecated || e
                        == EscrowError::InvalidPrice && !s.is_deprecated && s.price_lamports == 0)
                    &&& final(self).escrows@ == old(self).escrows@
                },
                Err(_) => false,
            },
    {
        let skill_idx = match find_index(&self.skills, &skill) {
            Some(i) => i,
            None => {
                return Err(ProtocolError::NotFound);
            },
        };
        proof {
            lemma_record_at(self.skills@, skill_idx as int);
        }
        let key = EscrowKey { buyer, skill, nonce };
        match find_index(&self.escrows, &key) {
            Some(_) => {
                return Err(ProtocolError::AlreadyExists);
            },
            None => {},
        }
        let s = self.skills[skill_idx];
        if s.is_deprecated {
            return Err(ProtocolError::Escrow(EscrowError::SkillDeprecated));
        }
        if s.price_lamports == 0 {
            return Err(ProtocolError::Escrow(EscrowError::InvalidPrice));
        }
        let amount = s.price_lamports;
        let e = EscrowAccount {
            buyer,
            skill,
            executor: None,
            amount,
            status: EscrowStatus::Pending,
            created_at: now,
            expires_at: now + DEFAULT_EXPIRY_DURATION,
            nonce,
            result_hash: None,
            challenger: None,
            challenge_slot: None,
        };
        let ghost pre = self.escrows@;
        self.escrows.push(e);
        proof {
            lemma_push_row(pre, self.escrows@, e);
        }
        Ok(amount)
    }

    /// Records the executor's result digest on the addressed escrow and
    /// opens the challenge window at `now_slot`. Fails, changing nothing,
    /// when the escrow is missing or not awaiting a result.
    pub fn commit_result(
        &mut self,
        executor: AccountId,
        key: EscrowKey,
        result_hash: Digest,
        now_slot: u64,
    ) -> (r: Result<(), ProtocolError>)
        requires
            old(self).wf(),
        ensures
            final(self).wf(),
            final(self).config == old(self).config,
            final(self).agents@ == old(self).agents@,
            final(self).skills@ == old(self).skills@,
            match r {
                Ok(()) => {
                    &&& old(self).spec_escrow(key) matches Some(e)
                    &&& (e.status == EscrowStatus::Pending || e.status == EscrowStatus::InProgress)
                    &&& final(self).spec_escrow(key) == Some(
                        EscrowAccount {
                            executor: Some(executor),
                            status: EscrowStatus::Completed,
                            result_hash: Some(result_hash),
                            challenge_slot: Some(now_slot),
                            ..e
                        },
                    )
                    &&& forall|k: EscrowKey|
                        k != key ==> final(self).spec_escrow(k) == old(self).spec_escrow(k)
                },
                Err(ProtocolError::NotFound) => {
                    &&& old(self).spec_escrow(key) is None
                    &&& final(self).escrows@ == old(self).escrows@
                },
                Err(ProtocolError::Escrow(e)) => {
                    &&& e == EscrowError::InvalidEscrowStatus
                    &&& old(self).spec_escrow(key) matches Some(rec)
                    &&& rec.status != EscrowStatus::Pending && rec.status != EscrowStatus::InProgress
                    &&& final(self).escrows@ == old(self).escrows@
                },
                Err(_) => false,
            },
    {
        let idx = match find_index(&self.escrows, &key) {
            Some(i) => i,
            None => {
                return Err(ProtocolError::NotFound);
            },
        };
        proof {
            lemma_record_at(self.escrows@, idx as int);
        }
        let mut e = self.escrows[idx];
        match crate::escrow::commit_result(&mut e, executor, result_hash, now_slot) {
            Ok(()) => {
                let ghost pre = self.escrows@;
                set_at(&mut self.escrows, idx, e);
                proof {
                    lemma_update_row(pre, self.escrows@, idx as int);
                }
                Ok(())
            },
            Err(err) => Err(ProtocolError::Escrow(err)),
        }
    }

    /// Opens a challenge against the addressed escrow's committed result,
    /// legal only while `now_slot` lies within the challenge window. Fails,
    /// changing nothing, when the escrow is missing, is not `Completed`,
    /// has no window open, or the window has elapsed.
    pub fn challenge(
        &mut self,
        challenger: AccountId,
        key: EscrowKey,
        evidence: Evidence,
        now_slot: u64,
    ) -> (r: Result<(), ProtocolError>)
        requires
            old(self).wf(),
        ensures
            final(self).wf(),
            final(self).config == old(self).config,
            final(self).agents@ == old(self).agents@,
            final(self).skills@ == old(self).skills@,
            match r {
                Ok(()) => {
                    &&& old(self).spec_escrow(key) matches Some(e)
                    &&& e.status == EscrowStatus::Completed
                    &&& e.challenge_slot matches Some(cs)
                    &&& crate::escrow::within_challenge_window(cs, now_slot)
                    &&& final(self).spec_escrow(key) == Some(
                        EscrowAccount {
                            challenger: Some(challenger),
                            status: EscrowStatus::Challenged,
                            ..e
                        },
                    )
                    &&& forall|k: EscrowKey|
                        k != key ==> final(self).spec_escrow(k) == old(self).spec_escrow(k)
                },
                Err(ProtocolError::NotFound) => {
                    &&& old(self).spec_escrow(key) is None
                    &&& final(self).escrows@ == old(self).escrows@
                },
                Err(ProtocolError::Escrow(EscrowError::InvalidEscrowStatus)) => {
                    &&& old(self).spec_escrow(key) matches Some(e)
                    &&& e.status != EscrowStatus::Completed
                    &&& final(self).escrows@ == old(self).escrows@
                },
                Err(ProtocolError::Escrow(EscrowError::NoChallengeSlot)) => {
                    &&& old(self).spec_escrow(key) matches Some(e)
                    &&& e.status == EscrowStatus::Completed
                    &&& e.challenge_slot is None
                    &&& final(self).escrows@ == old(self).escrows@
                },
                Err(ProtocolError::Escrow(EscrowError::ChallengeWindowExpired)) => {
                    &&& old(self).spec_escrow(key) matches Some(e)
                    &&& e.status == EscrowStatus::Completed
                    &&& e.challenge_slot matches Some(cs)
                    &&& !crate::escrow::within_challenge_window(cs, now_slot)
                    &&& final(self).escrows@ == old(self).escrows@
                },
                Err(_) => false,
            },
    {
        let idx = match find_index(&self.escrows, &key) {
            Some(i) => i,
            None => {
                return Err(ProtocolError::NotFound);
            },
        };
        proof {
            lemma_record_at(self.escrows@, idx as int);
        }
        let mut e = self.escrows[idx];
        match crate::escrow::challenge(&mut e, challenger, evidence, now_slot) {
            Ok(()) => {
                let ghost pre = self.escrows@;
                set_at(&mut self.escrows, idx, e);
                proof {
                    lemma_update_row(pre, self.escrows@, idx as int);
                }
                Ok(())
            },
            Err(err) => Err(ProtocolError::Escrow(err)),
        }
    }

    /// Cancels the signing buyer's pending escrow: the record is removed
    /// and the full held amount — the returned value — is owed back to the
    /// buyer. This is the only operation that destroys a record. Fails,
    /// changing nothing, when the escrow is missing or not `Pending`.
    pub fn cancel_escrow(&mut self, buyer: AccountId, skill: SkillKey, nonce: u64) -> (r: Result<
        u64,
        ProtocolError,
    >)
        requires
            old(self).wf(),
        ensures
            final(self).wf(),
            final(self).config == old(self).config,
            final(self).agents@ == old(self).agents@,
            final(self).skills@ == old(self).skills@,
            match r {
                Ok(refund) => {
                    &&& old(self).spec_escrow(EscrowKey { buyer, skill, nonce }) matches Some(e)
                    &&& e.status == EscrowStatus::Pending
                    &&& refund == e.amount
                    &&& final(self).spec_escrow(EscrowKey { buyer, skill, nonce }) is None
                    &&& forall|k: EscrowKey|
                        k != (EscrowKey { buyer, skill, nonce }) ==> final(self).spec_escrow(k)
                            == old(self).spec_escrow(k)
                },
                Err(ProtocolError::NotFound) => {
                    &&& old(self).spec_escrow(EscrowKey { buyer, skill, nonce }) is None
                    &&& final(self).escrows@ == old(self).escrows@
                },
                Err(ProtocolError::Escrow(e)) => {
                    &&& e == EscrowError::CannotCancelNonPending
                    &&& old(self).spec_escrow(EscrowKey { buyer, skill, nonce }) matches Some(rec)
                    &&& rec.status != EscrowStatus::Pending
                    &&& final(self).escrows@ == old(self).escrows@
                },
                Err(_) => false,
            },
    {
        let key = EscrowKey { buyer, skill, nonce };
        let idx = match find_index(&self.escrows, &key) {
            Some(i) => i,
            None => {
                return Err(ProtocolError::NotFound);
            },
        };
        proof {
            lemma_record_at(self.escrows@, idx as int);
        }
        let e = self.escrows[idx];
        match crate::escrow::cancel_escrow(&e) {
            Ok(refund) => {
                let ghost pre = self.escrows@;
                self.escrows.remove(idx);
                proof {
                    lemma_remove_row(pre, self.escrows@, idx as int);
                    pre.remove_ensures(idx as int);
                }
                Ok(refund)
            },
            Err(err) => Err(ProtocolError::Escrow(err)),
        }
    }

    /// Settles the signing buyer's escrow: splits the held amount between
    /// the treasury, the listing author and the executor — the returned
    /// settlement is what custody pays out — and books the payout on the
    /// executor's record and the royalty on the listing. Fails, changing
    /// nothing, when the escrow, its listing or the executor's record is
    /// missing, the escrow is not awaiting settlement, or an overflow
    /// aborts the split.
    pub fn complete_escrow(
        &mut self,
        buyer: AccountId,
        skill: SkillKey,
        nonce: u64,
        executor_owner: AccountId,
    ) -> (r: Result<Settlement, ProtocolError>)
        requires
            old(self).wf(),
        ensures
            final(self).wf(),
            final(self).config == old(self).config,
            match r {
                Ok(st) => {
                    &&& old(self).spec_escrow(EscrowKey { buyer, skill, nonce }) matches Some(e)
                    &&& (e.status == EscrowStatus::Pending || e.status == EscrowStatus::InProgress)
                    &&& old(self).spec_skill(skill) matches Some(s)
                    &&& old(self).spec_agent(executor_owner) matches Some(a)
                    &&& crate::escrow::settlement_fits(
                        e.amount as int,
                        old(self).config.fee_basis_points as int,
                        s,
                        a,
                    )
                    &&& st.protocol_fee == crate::escrow::spec_protocol_fee(
                        e.amount as int,
                        old(self).config.fee_basis_points as int,
                    )
                    &&& st.royalty == crate::escrow::spec_royalty(e.amount as int)
                    &&& st.executor_payout == crate::escrow::spec_executor_payout(
                        e.amount as int,
                        old(self).config.fee_basis_points as int,
                    )
                    &&& st.protocol_fee + st.royalty + st.executor_payout == e.amount
                    &&& final(self).spec_escrow(EscrowKey { buyer, skill, nonce }) == Some(
                        EscrowAccount {
                            status: EscrowStatus::Completed,
                            executor: Some(executor_owner),
                            ..e
                        },
                    )
                    &&& final(self).spec_skill(skill) == Some(
                        SkillAccount {
                            total_calls: (s.total_calls + 1) as u64,
                            total_revenue: (s.total_revenue + st.royalty) as u64,
                            ..s
                        },
                    )
                    &&& final(self).spec_agent(executor_owner) == Some(
                        AgentIdentity {
                            total_earnings: (a.total_earnings + st.executor_payout) as u64,
                            total_tasks: (a.total_tasks + 1) as u64,
                            ..a
                        },
                    )
                    &&& forall|k: EscrowKey|
                        k != (EscrowKey { buyer, skill, nonce }) ==> final(self).spec_escrow(k)
                            == old(self).spec_escrow(k)
                    &&& forall|k: SkillKey|
                        k != skill ==> final(self).spec_skill(k) == old(self).spec_skill(k)
                    &&& forall|o: AccountId|
                        o != executor_owner ==> final(self).spec_agent(o) == old(self).spec_agent(o)
                },
                Err(ProtocolError::NotFound) => {
                    &&& {
                        ||| old(self).spec_escrow(EscrowKey { buyer, skill, nonce }) is None
                        ||| (old(self).spec_escrow(EscrowKey { buyer, skill, nonce }) matches Some(
                            e,
                        ) && (e.status == EscrowStatus::Pending || e.status
                            == EscrowStatus::InProgress) && (old(self).spec_skill(skill) is None
                            || old(self).spec_agent(executor_owner) is None))
                    }
                    &&& final(self).escrows@ == old(self).escrows@
                    &&& final(self).skills@ == old(self).skills@
                    &&& final(self).agents@ == old(self).agents@
                },
                Err(ProtocolError::Escrow(EscrowError::InvalidEscrowStatus)) => {
                    &&& old(self).spec_escrow(EscrowKey { buyer, skill, nonce }) matches Some(e)
                    &&& e.status != EscrowStatus::Pending && e.status != EscrowStatus::InProgress
                    &&& final(self).escrows@ == old(self).escrows@
                    &&& final(self).skills@ == old(self).skills@
                    &&& final(self).agents@ == old(self).agents@
                },
                Err(ProtocolError::Escrow(EscrowError::Overflow)) => {
                    &&& old(self).spec_escrow(EscrowKey { buyer, skill, nonce }) matches Some(e)
                    &&& (e.status == EscrowStatus::Pending || e.status == EscrowStatus::InProgress)
                    &&& old(self).spec_skill(skill) matches Some(s)
                    &&& old(self).spec_agent(executor_owner) matches Some(a)
                    &&& !crate::escrow::settlement_fits(
                        e.amount as int,
                        old(self).config.fee_basis_points as int,
                        s,
                        a,
                    )
                    &&& final(self).escrows@ == old(self).escrows@
                    &&& final(self).skills@ == old(self).skills@
                    &&& final(self).agents@ == old(self).agents@
                },
                Err(_) => false,
            },
    {
        let key = EscrowKey { buyer, skill, nonce };
        let e_idx = match find_index(&self.escrows, &key) {
            Some(i) => i,
            None => {
                return Err(ProtocolError::NotFound);
            },
        };
        proof {
            lemma_record_at(self.escrows@, e_idx as int);
        }
        let mut e = self.escrows[e_idx];
        if !(e.status == EscrowStatus::Pending || e.status == EscrowStatus::InProgress) {
            return Err(ProtocolError::Escrow(EscrowError::InvalidEscrowStatus));
        }
        let s_idx = match find_index(&self.skills, &skill) {
            Some(i) => i,
            None => {
                return Err(ProtocolError::NotFound);
            },
        };
        proof {
            lemma_record_at(self.skills@, s_idx as int);
        }
        let a_idx = match find_index(&self.agents, &executor_owner) {
            Some(i) => i,
            None => {
                return Err(ProtocolError::NotFound);
            },
        };
        proof {
            lemma_record_at(self.agents@, a_idx as int);
        }
        let mut s = self.skills[s_idx];
        let mut a = self.agents[a_idx];
        let treasury = self.config.treasury;
        let author_wallet = s.authority;
        let executor_wallet = a.owner;
        match crate::escrow::complete_escrow(
            &mut e,
            &mut s,
            &mut a,
            &self.config,
            treasury,
            author_wallet,
            executor_wallet,
        ) {
            Ok(st) => {
                let ghost pre_e = self.escrows@;
                set_at(&mut self.escrows, e_idx, e);
                proof {
                    lemma_update_row(pre_e, self.escrows@, e_idx as int);
                }
                let ghost pre_s = self.skills@;
                set_at(&mut self.skills, s_idx, s);
                proof {
                    lemma_update_row(pre_s, self.skills@, s_idx as int);
                }
                let ghost pre_a = self.agents@;
                set_at(&mut self.agents, a_idx, a);
                proof {
                    lemma_update_row(pre_a, self.agents@, a_idx as int);
                }
                Ok(st)
            },
            Err(err) => Err(ProtocolError::Escrow(err)),
        }
    }

    /// Resolves an open challenge on the addressed escrow; only the
    /// protocol authority may. A loss reverts the escrow to `Completed`
    /// and moves no value. A win moves it to `Slashed`, slashes the
    /// executor's stake, and names the transfers custody owes: the full
    /// held amount back to the buyer and half of the forfeited stake to
    /// the challenger, the other half leaving circulation. Fails, changing
    /// nothing, when the escrow is missing, not `Challenged`, the signer
    /// is not the authority, or — on a win — the executor has no agent
    /// record to slash.
    pub fn resolve_challenge(
        &mut self,
        authority: AccountId,
        key: EscrowKey,
        challenger_wins: bool,
    ) -> (r: Result<Resolution, ProtocolError>)
        requires
            old(self).wf(),
        ensures
            final(self).wf(),
            final(self).config == old(self).config,
            final(self).skills@ == old(self).skills@,
            match r {
                Ok(Resolution::ExecutorWins) => {
                    &&& !challenger_wins
                    &&& authority == old(self).config.authority
                    &&& old(self).spec_escrow(key) matches Some(e)
                    &&& e.status == EscrowStatus::Challenged
                    &&& final(self).spec_escrow(key) == Some(
                        EscrowAccount { status: EscrowStatus::Completed, ..e },
                    )
                    &&& forall|k: EscrowKey|
                        k != key ==> final(self).spec_escrow(k) == old(self).spec_escrow(k)
                    &&& final(self).agents@ == old(self).agents@
                },
                Ok(Resolution::ChallengerWins {
                    buyer,
                    refund_amount,
                    challenger,
                    challenger_bounty,
                    slash_amount,
                }) => {
                    &&& challenger_wins
                    &&& authority == old(self).config.authority
                    &&& old(self).spec_escrow(key) matches Some(e)
                    &&& e.status == EscrowStatus::Challenged
                    &&& e.executor matches Some(ex)
                    &&& e.challenger == Some(challenger)
                    &&& buyer == e.buyer
                    &&& refund_amount == e.amount
                    &&& old(self).spec_agent(ex) matches Some(a)
                    &&& slash_amount == spec_slash_amount(a)
                    &&& challenger_bounty == slash_amount as int / 2
                    &&& final(self).spec_escrow(key) == Some(
                        EscrowAccount { status: EscrowStatus::Slashed, ..e },
                    )
                    &&& final(self).spec_agent(ex) == Some(agent_after_slash(a))
                    &&& forall|k: EscrowKey|
                        k != key ==> final(self).spec_escrow(k) == old(self).spec_escrow(k)
                    &&& forall|o: AccountId|
                        o != ex ==> final(self).spec_agent(o) == old(self).spec_agent(o)
                },
                Err(ProtocolError::NotFound) => {
                    &&& {
                        ||| old(self).spec_escrow(key) is None
                        ||| {
                            &&& challenger_wins
                            &&& old(self).spec_escrow(key) matches Some(e)
                            &&& e.status == EscrowStatus::Challenged
                            &&& authority == old(self).config.authority
                            &&& e.executor matches Some(ex)
                            &&& old(self).spec_agent(ex) is None
                        }
                    }
                    &&& final(self).escrows@ == old(self).escrows@
                    &&& final(self).agents@ == old(self).agents@
                },
                Err(ProtocolError::Escrow(EscrowError::InvalidEscrowStatus)) => {
                    &&& old(self).spec_escrow(key) matches Some(e)
                    &&& e.status != EscrowStatus::Challenged
                    &&& final(self).escrows@ == old(self).escrows@
                    &&& final(self).agents@ == old(self).agents@
                },
                Err(ProtocolError::Escrow(EscrowError::Unauthorized)) => {
                    &&& old(self).spec_escrow(key) matches Some(e)
                    &&& e.status == EscrowStatus::Challenged
                    &&& authority != old(self).config.authority
                    &&& final(self).escrows@ == old(self).escrows@
                    &&& final(self).agents@ == old(self).agents@
                },
                Err(_) => false,
            },
    {
        let e_idx = match find_index(&self.escrows, &key) {
            Some(i) => i,
            None => {
                return Err(ProtocolError::NotFound);
            },
        };
        proof {
            lemma_record_at(self.escrows@, e_idx as int);
        }
        let mut e = self.escrows[e_idx];
        match crate::escrow::resolve_challenge(&mut e, authority, &self.config, challenger_wins) {
            Err(err) => Err(ProtocolError::Escrow(err)),
            Ok(()) => {
                if challenger_wins {
                    let ex_owner = match e.executor {
                        Some(x) => x,
                        None => {
                            proof {
                                assert(false);
                            }
                            return Err(ProtocolError::NotFound);
                        },
                    };
                    let chall = match e.challenger {
                        Some(c) => c,
                        None => {
                            proof {
                                assert(false);
                            }
                            return Err(ProtocolError::NotFound);
                        },
                    };
                    let a_idx = match find_index(&self.agents, &ex_owner) {
                        Some(i) => i,
                        None => {
                            return Err(ProtocolError::NotFound);
                        },
                    };
                    proof {
                        lemma_record_at(self.agents@, a_idx as int);
                    }
                    let mut a = self.agents[a_idx];
                    let slash_amount = crate::staking::slash_agent(&mut a);
                    let challenger_bounty = slash_amount / 2;
                    let ghost pre_e = self.escrows@;
                    set_at(&mut self.escrows, e_idx, e);
                    proof {
                        lemma_update_row(pre_e, self.escrows@, e_idx as int);
                    }
                    let ghost pre_a = self.agents@;
                    set_at(&mut self.agents, a_idx, a);
                    proof {
                        lemma_update_row(pre_a, self.agents@, a_idx as int);
                    }
                    Ok(
                        Resolution::ChallengerWins {
                            buyer: e.buyer,
                            refund_amount: e.amount,
                            challenger: chall,
                            challenger_bounty,
                            slash_amount,
                        },
                    )
                } else {
                    let ghost pre = self.escrows@;
                    set_at(&mut self.escrows, e_idx, e);
                    proof {
                        lemma_update_row(pre, self.escrows@, e_idx as int);
                    }
                    Ok(Resolution::ExecutorWins)
                }
            },
        }
    }
}

} // verus!
