//! The escrow custody engine: a buyer's payment is held in a uniquely keyed
//! record that walks a fixed state machine — funded, result committed,
//! optionally challenged, then settled, slashed or cancelled — and is paid
//! out through an exact three-way split.

use vstd::prelude::*;
use vstd::arithmetic::div_mod::lemma_fundamental_div_mod;
use vstd::arithmetic::mul::lemma_mul_inequality;
use vstd::arithmetic::mul::lemma_mul_is_distributive_add;
use crate::ids::{AccountId, Digest, Evidence};
use crate::skill::{SkillAccount, SkillKey};
use crate::agent::AgentIdentity;

verus! {

/// Fee rate used when the bootstrap passes a zero rate (5%).
pub const DEFAULT_FEE_BASIS_POINTS: u16 = 500;
/// Denominator of all basis-point rates: 10000 = 100%.
pub const BASIS_POINTS_DIVISOR: u64 = 10000;
/// Fixed royalty rate paid to the listing author (10%).
pub const ROYALTY_BASIS_POINTS: u64 = 1000;
/// Length of the optimistic challenge window, in logical time units.
pub const CHALLENGE_WINDOW_SLOTS: u64 = 100;
/// How long after creation an escrow is marked as expiring (7 days in
/// seconds). Only recorded; no automatic transition acts on it.
pub const DEFAULT_EXPIRY_DURATION: i64 = 7 * 24 * 60 * 60;

/// Errors of the escrow engine.
#[derive(Clone, Copy, PartialEq, Eq, Structural, Debug)]
pub enum EscrowError {
    /// The listing is deprecated and accepts no new escrow.
    SkillDeprecated,
    /// The listing's price is zero.
    InvalidPrice,
    /// The escrow's status does not admit the requested operation.
    InvalidEscrowStatus,
    /// The listing handed in is not the one the escrow was created against.
    SkillMismatch,
    /// The treasury handed in is not the configured one.
    InvalidTreasury,
    /// The author wallet handed in is not the listing's author.
    InvalidSkillAuthority,
    /// The executor wallet handed in is not the executor's.
    ExecutorMismatch,
    /// Only a pending escrow can be cancelled.
    CannotCancelNonPending,
    /// A fee computation or an accumulator update would overflow.
    Overflow,
    /// The challenge window has elapsed.
    ChallengeWindowExpired,
    /// No result has been committed, so no challenge window is open.
    NoChallengeSlot,
    /// The signer is not the protocol authority.
    Unauthorized,
}

/// Lifecycle state of an escrow record.
#[derive(Clone, Copy, PartialEq, Eq, Structural, Debug)]
pub enum EscrowStatus {
    /// Funded, no result yet.
    Pending,
    /// Work underway. No operation enters this state in the current
    /// protocol; every guard treats it exactly as `Pending`.
    InProgress,
    /// A result is committed or the escrow is settled.
    Completed,
    /// Cancelled from `Pending`; the record is reclaimed.
    Cancelled,
    /// A challenge is open and awaits resolution.
    Challenged,
    /// Reserved for a future multi-party adjudication; never entered.
    Disputed,
    /// A challenge succeeded and the executor was slashed.
    Slashed,
}

/// The protocol parameters: set once at bootstrap, read-only afterwards.
#[derive(Clone, Copy, PartialEq, Eq, Structural, Debug)]
pub struct ProtocolConfig {
    /// The administrator: adjusts reputations and resolves challenges.
    pub authority: AccountId,
    /// Protocol fee rate in basis points.
    pub fee_basis_points: u16,
    /// Wallet the protocol fee is paid to.
    pub treasury: AccountId,
}

/// The key an escrow record is addressed by: buyer, listing and a
/// caller-chosen nonce, so one buyer can hold several concurrent escrows
/// against the same listing.
#[derive(Clone, Copy, PartialEq, Eq, Structural, Debug)]
pub struct EscrowKey {
    /// The buyer who funded the escrow.
    pub buyer: AccountId,
    /// The listing the escrow was created against.
    pub skill: SkillKey,
    /// Caller-chosen disambiguator.
    pub nonce: u64,
}

/// One escrow record, holding a buyer's payment until settlement.
#[derive(Clone, Copy, PartialEq, Eq, Structural, Debug)]
pub struct EscrowAccount {
    /// The buyer who funded the escrow.
    pub buyer: AccountId,
    /// The listing the escrow was created against.
    pub skill: SkillKey,
    /// The executor, recorded at commitment or settlement.
    pub executor: Option<AccountId>,
    /// The held amount; set once at funding, never changed.
    pub amount: u64,
    /// Lifecycle state.
    pub status: EscrowStatus,
    /// Creation timestamp, supplied by the environment.
    pub created_at: i64,
    /// Expiry timestamp, `created_at + DEFAULT_EXPIRY_DURATION`.
    pub expires_at: i64,
    /// Caller-chosen disambiguator, part of the key.
    pub nonce: u64,
    /// The result digest the executor committed.
    pub result_hash: Option<Digest>,
    /// Who challenged the committed result.
    pub challenger: Option<AccountId>,
    /// Logical time at which the result was committed; the challenge window
    /// starts here.
    pub challenge_slot: Option<u64>,
}

impl EscrowAccount {
    /// The key the record is addressed by.
    pub open spec fn spec_key(self) -> EscrowKey {
        EscrowKey { buyer: self.buyer, skill: self.skill, nonce: self.nonce }
    }

    /// Record invariant: the optional fields are empty until the states
    /// that fill them are reached, and a challenged escrow knows its
    /// executor, challenger and window start.
    pub open spec fn wf(self) -> bool {
        &&& (self.status == EscrowStatus::Pending || self.status == EscrowStatus::InProgress)
            ==> self.executor is None && self.result_hash is None && self.challenger is None
                && self.challenge_slot is None
        &&& self.challenge_slot is Some ==> self.executor is Some && self.result_hash is Some
        &&& self.status == EscrowStatus::Challenged
            ==> self.challenge_slot is Some && self.challenger is Some
    }

    /// The record funding creates: pending, with every optional field
    /// empty.
    pub open spec fn fresh(
        buyer: AccountId,
        skill: SkillKey,
        amount: u64,
        nonce: u64,
        now: i64,
    ) -> EscrowAccount {
        EscrowAccount {
            buyer,
            skill,
            executor: None,
            amount,
            status: EscrowStatus::Pending,
            created_at: now,
            expires_at: (now + DEFAULT_EXPIRY_DURATION) as i64,
            nonce,
            result_hash: None,
            challenger: None,
            challenge_slot: None,
        }
    }
}

/// The legal edges of the escrow state machine. Every operation either
/// leaves the status alone or moves it along one of these edges; nothing
/// else is reachable.
pub open spec fn transition_allowed(from: EscrowStatus, to: EscrowStatus) -> bool {
    // commit_result or complete_escrow
    ||| (from == EscrowStatus::Pending || from == EscrowStatus::InProgress)
        && to == EscrowStatus::Completed
    // cancel_escrow; the record is then reclaimed
    ||| from == EscrowStatus::Pending && to == EscrowStatus::Cancelled
    // challenge within the window
    ||| from == EscrowStatus::Completed && to == EscrowStatus::Challenged
    // resolve_challenge, for the challenger
    ||| from == EscrowStatus::Challenged && to == EscrowStatus::Slashed
    // resolve_challenge, for the executor
    ||| from == EscrowStatus::Challenged && to == EscrowStatus::Completed
}

/// The three legs of a settlement. The amounts alone are recorded here; the
/// payees are fixed by the configuration (treasury), the listing (author)
/// and the escrow (executor).
#[derive(Clone, Copy, PartialEq, Eq, Structural, Debug)]
pub struct Settlement {
    /// Protocol fee, paid to the treasury.
    pub protocol_fee: u64,
    /// Royalty, paid to the listing author.
    pub royalty: u64,
    /// Remainder, paid to the executor.
    pub executor_payout: u64,
}

/// Protocol fee of a settlement: the amount scaled by the fee rate, rounded
/// down.
pub open spec fn spec_protocol_fee(amount: int, fee_basis_points: int) -> int {
    amount * fee_basis_points / (BASIS_POINTS_DIVISOR as int)
}

/// Royalty of a settlement: a fixed tenth of the amount, rounded down.
pub open spec fn spec_royalty(amount: int) -> int {
    amount * (ROYALTY_BASIS_POINTS as int) / (BASIS_POINTS_DIVISOR as int)
}

/// Executor payout of a settlement: whatever the two rounded-down legs
/// leave, so the rounding remainder accrues to the executor by
/// construction.
pub open spec fn spec_executor_payout(amount: int, fee_basis_points: int) -> int {
    amount - spec_protocol_fee(amount, fee_basis_points) - spec_royalty(amount)
}

/// Whether the split of `amount` at `fee_basis_points` stays within 64-bit
/// checked arithmetic: neither scaling overflows and the two fee legs fit
/// inside the amount.
pub open spec fn settlement_computable(amount: int, fee_basis_points: int) -> bool {
    &&& amount * fee_basis_points <= u64::MAX
    &&& amount * (ROYALTY_BASIS_POINTS as int) <= u64::MAX
    &&& spec_protocol_fee(amount, fee_basis_points) + spec_royalty(amount) <= amount
}

/// Fund conservation law: however a settlement is split, the three legs
/// add up to the held amount exactly — the executor payout is defined by
/// subtraction, never rounded on its own.
pub proof fn lemma_fund_conservation(amount: u64, fee_basis_points: u16)
    ensures
        spec_protocol_fee(amount as int, fee_basis_points as int) + spec_royalty(amount as int)
            + spec_executor_payout(amount as int, fee_basis_points as int) == amount as int,
{
}

/// At any fee rate that, together with the royalty, stays within 100%, the
/// two rounded-down fee legs fit inside the amount, so the executor payout
/// is never negative and checked settlement cannot fail on the final
/// subtraction.
pub proof fn lemma_split_within_amount(amount: u64, fee_basis_points: u16)
    requires
        fee_basis_points + ROYALTY_BASIS_POINTS <= BASIS_POINTS_DIVISOR,
    ensures
        spec_protocol_fee(amount as int, fee_basis_points as int) + spec_royalty(amount as int)
            <= amount as int,
        spec_executor_payout(amount as int, fee_basis_points as int) >= 0,
{
    let a = amount as int;
    let f = fee_basis_points as int;
    let ry = ROYALTY_BASIS_POINTS as int;
    let d = BASIS_POINTS_DIVISOR as int;
    let x = a * f;
    let y = a * ry;
    assert(x >= 0 && y >= 0) by (nonlinear_arith)
        requires
            a >= 0,
            f >= 0,
            ry >= 0,
            x == a * f,
            y == a * ry,
    ;
    lemma_fundamental_div_mod(x, d);
    lemma_fundamental_div_mod(y, d);
    lemma_mul_is_distributive_add(a, f, ry);
    lemma_mul_inequality(f + ry, d, a);
    // d * (x / d) + d * (y / d) <= x + y == a * (f + ry) <= a * d
    assert(d * (x / d) + d * (y / d) <= d * a) by (nonlinear_arith)
        requires
            d * (x / d) == x - x % d,
            d * (y / d) == y - y % d,
            0 <= x % d,
            0 <= y % d,
            x + y == a * (f + ry),
            (f + ry) * a <= d * a,
    ;
    assert(x / d + y / d <= a) by (nonlinear_arith)
        requires
            d * (x / d) + d * (y / d) <= d * a,
            d > 0,
    ;
}

/// Splits `amount` three ways at the given fee rate: the protocol fee and
/// the royalty are scaled down with floor division and the executor takes
/// the exact remainder. Fails — computing nothing — whenever a scaling
/// overflows 64 bits or the two fee legs exceed the amount.
pub fn compute_settlement(amount: u64, fee_basis_points: u16) -> (r: Result<
    Settlement,
    EscrowError,
>)
    ensures
        match r {
            Ok(s) => {
                &&& settlement_computable(amount as int, fee_basis_points as int)
                &&& s.protocol_fee == spec_protocol_fee(amount as int, fee_basis_points as int)
                &&& s.royalty == spec_royalty(amount as int)
                &&& s.executor_payout == spec_executor_payout(
                    amount as int,
                    fee_basis_points as int,
                )
                &&& s.protocol_fee + s.royalty + s.executor_payout == amount
            },
            Err(e) => {
                &&& e == EscrowError::Overflow
                &&& !settlement_computable(amount as int, fee_basis_points as int)
            },
        },
{
    let scaled_fee = match amount.checked_mul(fee_basis_points as u64) {
        Some(v) => v,
        None => {
            return Err(EscrowError::Overflow);
        },
    };
    let protocol_fee = scaled_fee / BASIS_POINTS_DIVISOR;
    let scaled_royalty = match amount.checked_mul(ROYALTY_BASIS_POINTS) {
        Some(v) => v,
        None => {
            return Err(EscrowError::Overflow);
        },
    };
    let royalty = scaled_royalty / BASIS_POINTS_DIVISOR;
    let after_fee = match amount.checked_sub(protocol_fee) {
        Some(v) => v,
        None => {
            return Err(EscrowError::Overflow);
        },
    };
    let executor_payout = match after_fee.checked_sub(royalty) {
        Some(v) => v,
        None => {
            return Err(EscrowError::Overflow);
        },
    };
    Ok(Settlement { protocol_fee, royalty, executor_payout })
}

/// Records the executor's result digest on a pending or in-progress escrow:
/// the escrow moves to `Completed` and the challenge window opens at
/// `now_slot`. Fails, changing nothing, in any other status.
pub fn commit_result(
    escrow: &mut EscrowAccount,
    executor: AccountId,
    result_hash: Digest,
    now_slot: u64,
) -> (r: Result<(), EscrowError>)
    requires
        old(escrow).wf(),
    ensures
        final(escrow).wf(),
        old(escrow).status == final(escrow).status || transition_allowed(
            old(escrow).status,
            final(escrow).status,
        ),
        match r {
            Ok(()) => {
                &&& old(escrow).status == EscrowStatus::Pending || old(escrow).status
                    == EscrowStatus::InProgress
                &&& *final(escrow) == (EscrowAccount {
                    executor: Some(executor),
                    status: EscrowStatus::Completed,
                    result_hash: Some(result_hash),
                    challenge_slot: Some(now_slot),
                    ..*old(escrow)
                })
            },
            Err(e) => {
                &&& e == EscrowError::InvalidEscrowStatus
                &&& old(escrow).status != EscrowStatus::Pending && old(escrow).status
                    != EscrowStatus::InProgress
                &&& *final(escrow) == *old(escrow)
            },
        },
{
    if !(escrow.status == EscrowStatus::Pending || escrow.status == EscrowStatus::InProgress) {
        return Err(EscrowError::InvalidEscrowStatus);
    }
    escrow.executor = Some(executor);
    escrow.result_hash = Some(result_hash);
    escrow.status = EscrowStatus::Completed;
    escrow.challenge_slot = Some(now_slot);
    Ok(())
}

/// Whether `now_slot` still falls inside the challenge window opened at
/// `challenge_slot`: the boundary slot itself is in the window.
pub open spec fn within_challenge_window(challenge_slot: u64, now_slot: u64) -> bool {
    now_slot <= challenge_slot + CHALLENGE_WINDOW_SLOTS
}

/// Opens a challenge against a committed result: legal only while the
/// escrow is `Completed`, a window is open, and `now_slot` is at most the
/// window start plus `CHALLENGE_WINDOW_SLOTS` — the boundary succeeds, one
/// slot later fails. The evidence blob is recorded nowhere and not
/// validated; it is reserved for future cryptographic verification.
pub fn challenge(
    escrow: &mut EscrowAccount,
    challenger: AccountId,
    evidence: Evidence,
    now_slot: u64,
) -> (r: Result<(), EscrowError>)
    requires
        old(escrow).wf(),
    ensures
        final(escrow).wf(),
        old(escrow).status == final(escrow).status || transition_allowed(
            old(escrow).status,
            final(escrow).status,
        ),
        match r {
            Ok(()) => {
                &&& old(escrow).status == EscrowStatus::Completed
                &&& old(escrow).challenge_slot matches Some(cs) && within_challenge_window(
                    cs,
                    now_slot,
                )
                &&& *final(escrow) == (EscrowAccount {
                    challenger: Some(challenger),
                    status: EscrowStatus::Challenged,
                    ..*old(escrow)
                })
            },
            Err(EscrowError::InvalidEscrowStatus) => {
                &&& old(escrow).status != EscrowStatus::Completed
                &&& *final(escrow) == *old(escrow)
            },
            Err(EscrowError::NoChallengeSlot) => {
                &&& old(escrow).status == EscrowStatus::Completed
                &&& old(escrow).challenge_slot is None
                &&& *final(escrow) == *old(escrow)
            },
            Err(EscrowError::ChallengeWindowExpired) => {
                &&& old(escrow).status == EscrowStatus::Completed
                &&& old(escrow).challenge_slot matches Some(cs) && !within_challenge_window(
                    cs,
                    now_slot,
                )
                &&& *final(escrow) == *old(escrow)
            },
            Err(_) => false,
        },
{
    let _ = evidence;
    if escrow.status != EscrowStatus::Completed {
        return Err(EscrowError::InvalidEscrowStatus);
    }
    let challenge_slot = match escrow.challenge_slot {
        Some(cs) => cs,
        None => {
            return Err(EscrowError::NoChallengeSlot);
        },
    };
    let within = match challenge_slot.checked_add(CHALLENGE_WINDOW_SLOTS) {
        Some(limit) => now_slot <= limit,
        None => true,
    };
    if !within {
        return Err(EscrowError::ChallengeWindowExpired);
    }
    escrow.challenger = Some(challenger);
    escrow.status = EscrowStatus::Challenged;
    Ok(())
}

/// Resolves an open challenge; only the protocol authority may. A win for
/// the challenger moves the escrow to `Slashed` — the caller then refunds
/// the buyer the held amount and slashes the executor's stake; a loss
/// reverts the escrow to `Completed`.
pub fn resolve_challenge(
    escrow: &mut EscrowAccount,
    authority: AccountId,
    config: &ProtocolConfig,
    challenger_wins: bool,
) -> (r: Result<(), EscrowError>)
    requires
        old(escrow).wf(),
    ensures
        final(escrow).wf(),
        old(escrow).status == final(escrow).status || transition_allowed(
            old(escrow).status,
            final(escrow).status,
        ),
        match r {
            Ok(()) => {
                &&& old(escrow).status == EscrowStatus::Challenged
                &&& authority == config.authority
                &&& *final(escrow) == (EscrowAccount {
                    status: if challenger_wins {
                        EscrowStatus::Slashed
                    } else {
                        EscrowStatus::Completed
                    },
                    ..*old(escrow)
                })
            },
            Err(EscrowError::InvalidEscrowStatus) => {
                &&& old(escrow).status != EscrowStatus::Challenged
                &&& *final(escrow) == *old(escrow)
            },
            Err(EscrowError::Unauthorized) => {
                &&& old(escrow).status == EscrowStatus::Challenged
                &&& authority != config.authority
                &&& *final(escrow) == *old(escrow)
            },
            Err(_) => false,
        },
{
    if escrow.status != EscrowStatus::Challenged {
        return Err(EscrowError::InvalidEscrowStatus);
    }
    if !(authority == config.authority) {
        return Err(EscrowError::Unauthorized);
    }
    if challenger_wins {
        escrow.status = EscrowStatus::Slashed;
    } else {
        escrow.status = EscrowStatus::Completed;
    }
    Ok(())
}

/// Whether a settlement of `amount` at `fee_basis_points` can be applied in
/// full: the split is computable and none of the listing's and executor's
/// accumulators overflows.
pub open spec fn settlement_fits(
    amount: int,
    fee_basis_points: int,
    skill: SkillAccount,
    executor_agent: AgentIdentity,
) -> bool {
    &&& settlement_computable(amount, fee_basis_points)
    &&& executor_agent.total_earnings + spec_executor_payout(amount, fee_basis_points) <= u64::MAX
    &&& executor_agent.total_tasks < u64::MAX
    &&& skill.total_calls < u64::MAX
    &&& skill.total_revenue + spec_royalty(amount) <= u64::MAX
}

/// Settles a pending or in-progress escrow: splits the held amount into
/// protocol fee, royalty and executor payout, marks the escrow `Completed`
/// with the executor recorded, and books the payout and task on the
/// executor's record and the call and royalty on the listing. The three
/// payee wallets are handed in by the caller and each is checked against
/// the party it must belong to — the configured treasury, the listing
/// author and the executor. Any mismatch or overflow aborts the whole
/// settlement: on every error all three records are unchanged.
pub fn complete_escrow(
    escrow: &mut EscrowAccount,
    skill: &mut SkillAccount,
    executor_agent: &mut AgentIdentity,
    config: &ProtocolConfig,
    treasury: AccountId,
    skill_authority: AccountId,
    executor_wallet: AccountId,
) -> (r: Result<Settlement, EscrowError>)
    requires
        old(escrow).wf(),
        old(skill).wf(),
        old(executor_agent).wf(),
    ensures
        final(escrow).wf(),
        final(skill).wf(),
        final(executor_agent).wf(),
        old(escrow).status == final(escrow).status || transition_allowed(
            old(escrow).status,
            final(escrow).status,
        ),
        match r {
            Ok(s) => {
                &&& old(escrow).status == EscrowStatus::Pending || old(escrow).status
                    == EscrowStatus::InProgress
                &&& old(skill).spec_key() == old(escrow).skill
                &&& treasury == config.treasury
                &&& skill_authority == old(skill).authority
                &&& executor_wallet == old(executor_agent).owner
                &&& settlement_fits(
                    old(escrow).amount as int,
                    config.fee_basis_points as int,
                    *old(skill),
                    *old(executor_agent),
                )
                &&& s.protocol_fee == spec_protocol_fee(
                    old(escrow).amount as int,
                    config.fee_basis_points as int,
                )
                &&& s.royalty == spec_royalty(old(escrow).amount as int)
                &&& s.executor_payout == spec_executor_payout(
                    old(escrow).amount as int,
                    config.fee_basis_points as int,
                )
                &&& s.protocol_fee + s.royalty + s.executor_payout == old(escrow).amount
                &&& *final(escrow) == (EscrowAccount {
                    status: EscrowStatus::Completed,
                    executor: Some(old(executor_agent).owner),
                    ..*old(escrow)
                })
                &&& *final(executor_agent) == (AgentIdentity {
                    total_earnings: (old(executor_agent).total_earnings
                        + s.executor_payout) as u64,
                    total_tasks: (old(executor_agent).total_tasks + 1) as u64,
                    ..*old(executor_agent)
                })
                &&& *final(skill) == (SkillAccount {
                    total_calls: (old(skill).total_calls + 1) as u64,
                    total_revenue: (old(skill).total_revenue + s.royalty) as u64,
                    ..*old(skill)
                })
            },
            Err(EscrowError::InvalidEscrowStatus) => {
                &&& old(escrow).status != EscrowStatus::Pending && old(escrow).status
                    != EscrowStatus::InProgress
                &&& *final(escrow) == *old(escrow)
                &&& *final(skill) == *old(skill)
                &&& *final(executor_agent) == *old(executor_agent)
            },
            Err(EscrowError::SkillMismatch) => {
                &&& (old(escrow).status == EscrowStatus::Pending || old(escrow).status
                    == EscrowStatus::InProgress)
                &&& old(skill).spec_key() != old(escrow).skill
                &&& *final(escrow) == *old(escrow)
                &&& *final(skill) == *old(skill)
                &&& *final(executor_agent) == *old(executor_agent)
            },
            Err(EscrowError::InvalidTreasury) => {
                &&& (old(escrow).status == EscrowStatus::Pending || old(escrow).status
                    == EscrowStatus::InProgress)
                &&& old(skill).spec_key() == old(escrow).skill
                &&& treasury != config.treasury
                &&& *final(escrow) == *old(escrow)
                &&& *final(skill) == *old(skill)
                &&& *final(executor_agent) == *old(executor_agent)
            },
            Err(EscrowError::InvalidSkillAuthority) => {
                &&& (old(escrow).status == EscrowStatus::Pending || old(escrow).status
                    == EscrowStatus::InProgress)
                &&& old(skill).spec_key() == old(escrow).skill
                &&& treasury == config.treasury
                &&& skill_authority != old(skill).authority
                &&& *final(escrow) == *old(escrow)
                &&& *final(skill) == *old(skill)
                &&& *final(executor_agent) == *old(executor_agent)
            },
            Err(EscrowError::ExecutorMismatch) => {
                &&& (old(escrow).status == EscrowStatus::Pending || old(escrow).status
                    == EscrowStatus::InProgress)
                &&& old(skill).spec_key() == old(escrow).skill
                &&& treasury == config.treasury
                &&& skill_authority == old(skill).authority
                &&& executor_wallet != old(executor_agent).owner
                &&& *final(escrow) == *old(escrow)
                &&& *final(skill) == *old(skill)
                &&& *final(executor_agent) == *old(executor_agent)
            },
            Err(EscrowError::Overflow) => {
                &&& (old(escrow).status == EscrowStatus::Pending || old(escrow).status
                    == EscrowStatus::InProgress)
                &&& old(skill).spec_key() == old(escrow).skill
                &&& treasury == config.treasury
                &&& skill_authority == old(skill).authority
                &&& executor_wallet == old(executor_agent).owner
                &&& !settlement_fits(
                    old(escrow).amount as int,
                    config.fee_basis_points as int,
                    *old(skill),
                    *old(executor_agent),
                )
                &&& *final(escrow) == *old(escrow)
                &&& *final(skill) == *old(skill)
                &&& *final(executor_agent) == *old(executor_agent)
            },
            Err(_) => false,
        },
{
    if !(escrow.status == EscrowStatus::Pending || escrow.status == EscrowStatus::InProgress) {
        return Err(EscrowError::InvalidEscrowStatus);
    }
    if !(skill.authority == escrow.skill.authority && skill.name_hash == escrow.skill.name_hash) {
        return Err(EscrowError::SkillMismatch);
    }
    if !(treasury == config.treasury) {
        return Err(EscrowError::InvalidTreasury);
    }
    if !(skill_authority == skill.authority) {
        return Err(EscrowError::InvalidSkillAuthority);
    }
    if !(executor_wallet == executor_agent.owner) {
        return Err(EscrowError::ExecutorMismatch);
    }
    let settlement = match compute_settlement(escrow.amount, config.fee_basis_points) {
        Ok(s) => s,
        Err(e) => {
            return Err(e);
        },
    };
    let new_earnings = match executor_agent.total_earnings.checked_add(
        settlement.executor_payout,
    ) {
        Some(v) => v,
        None => {
            return Err(EscrowError::Overflow);
        },
    };
    let new_tasks = match executor_agent.total_tasks.checked_add(1) {
        Some(v) => v,
        None => {
            return Err(EscrowError::Overflow);
        },
    };
    let new_calls = match skill.total_calls.checked_add(1) {
        Some(v) => v,
        None => {
            return Err(EscrowError::Overflow);
        },
    };
    let new_revenue = match skill.total_revenue.checked_add(settlement.royalty) {
        Some(v) => v,
        None => {
            return Err(EscrowError::Overflow);
        },
    };
    escrow.status = EscrowStatus::Completed;
    escrow.executor = Some(executor_agent.owner);
    executor_agent.total_earnings = new_earnings;
    executor_agent.total_tasks = new_tasks;
    skill.total_calls = new_calls;
    skill.total_revenue = new_revenue;
    Ok(settlement)
}

/// Checks that an escrow may be cancelled and names the refund: only a
/// pending escrow can be, and the buyer is then refunded the full held
/// amount while the record is reclaimed by the caller.
pub fn cancel_escrow(escrow: &EscrowAccount) -> (r: Result<u64, EscrowError>)
    ensures
        match r {
            Ok(refund) => escrow.status == EscrowStatus::Pending && refund == escrow.amount,
            Err(e) => {
                &&& e == EscrowError::CannotCancelNonPending
                &&& escrow.status != EscrowStatus::Pending
            },
        },
{
    if escrow.status != EscrowStatus::Pending {
        return Err(EscrowError::CannotCancelNonPending);
    }
    Ok(escrow.amount)
}

} // verus!
