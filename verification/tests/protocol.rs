//! Whole-protocol behaviour through the keyed state: bootstrap, registration,
//! funding, the optimistic challenge round, settlement and cancellation.

use exo_core::agent::{AgentError, DEFAULT_REPUTATION, MIN_STAKE_AMOUNT};
use exo_core::escrow::{
    EscrowAccount, EscrowError, EscrowKey, EscrowStatus, DEFAULT_FEE_BASIS_POINTS,
};
use exo_core::ids::{AccountId, Digest, Evidence};
use exo_core::registry::{init_protocol_config, Protocol, ProtocolError, Resolution};
use exo_core::skill::SkillKey;
use exo_core::staking::StakingError;

fn acct(n: u64) -> AccountId {
    AccountId::new(n, 0, 0, 0)
}

fn digest(n: u64) -> Digest {
    Digest::new(n, 0, 0, 0)
}

fn evidence() -> Evidence {
    Evidence { w0: 0, w1: 0, w2: 0, w3: 0, w4: 0, w5: 0, w6: 0, w7: 0 }
}

const ADMIN: u64 = 100;
const TREASURY: u64 = 101;
const AUTHOR: u64 = 102;
const BUYER: u64 = 103;
const EXECUTOR: u64 = 104;
const CHALLENGER: u64 = 105;

fn skill_key() -> SkillKey {
    SkillKey { authority: acct(AUTHOR), name_hash: digest(1) }
}

fn escrow_key(nonce: u64) -> EscrowKey {
    EscrowKey { buyer: acct(BUYER), skill: skill_key(), nonce }
}

/// A protocol with one registered executor (staked 200_000_000) and one
/// listing priced 1_000_000_000.
fn marketplace() -> Protocol {
    let mut p = init_protocol_config(acct(ADMIN), 500, acct(TREASURY));
    p.create_agent(acct(EXECUTOR), 10).unwrap();
    p.stake_agent(acct(EXECUTOR), 200_000_000).unwrap();
    p.register_skill(acct(AUTHOR), digest(1), digest(2), 1_000_000_000, 11).unwrap();
    p
}

fn get_agent(p: &Protocol, owner: AccountId) -> exo_core::agent::AgentIdentity {
    *p.agents.iter().find(|a| a.owner == owner).unwrap()
}

fn get_escrow(p: &Protocol, key: EscrowKey) -> Option<EscrowAccount> {
    p.escrows
        .iter()
        .find(|e| e.buyer == key.buyer && e.skill == key.skill && e.nonce == key.nonce)
        .copied()
}

#[test]
fn bootstrap_keeps_explicit_rate() {
    let p = init_protocol_config(acct(ADMIN), 750, acct(TREASURY));
    assert_eq!(p.config.fee_basis_points, 750);
    assert_eq!(p.config.authority, acct(ADMIN));
    assert_eq!(p.config.treasury, acct(TREASURY));
}

#[test]
fn bootstrap_zero_rate_falls_back_to_default() {
    let p = init_protocol_config(acct(ADMIN), 0, acct(TREASURY));
    assert_eq!(p.config.fee_basis_points, DEFAULT_FEE_BASIS_POINTS);
}

#[test]
fn one_agent_record_per_owner() {
    let mut p = init_protocol_config(acct(ADMIN), 500, acct(TREASURY));
    assert_eq!(p.create_agent(acct(7), 1), Ok(()));
    assert_eq!(p.create_agent(acct(7), 2), Err(ProtocolError::AlreadyExists));
    assert_eq!(p.agents.len(), 1);
}

#[test]
fn one_listing_per_author_and_name() {
    let mut p = init_protocol_config(acct(ADMIN), 500, acct(TREASURY));
    assert_eq!(p.register_skill(acct(AUTHOR), digest(1), digest(2), 5, 1), Ok(()));
    assert_eq!(
        p.register_skill(acct(AUTHOR), digest(1), digest(9), 6, 2),
        Err(ProtocolError::AlreadyExists)
    );
    // Another name hash or another author is a different listing.
    assert_eq!(p.register_skill(acct(AUTHOR), digest(2), digest(9), 6, 2), Ok(()));
    assert_eq!(p.register_skill(acct(99), digest(1), digest(9), 6, 2), Ok(()));
}

#[test]
fn upgrade_tier_unknown_owner() {
    let mut p = init_protocol_config(acct(ADMIN), 500, acct(TREASURY));
    assert_eq!(p.upgrade_tier(acct(7)), Err(ProtocolError::NotFound));
}

#[test]
fn reputation_only_for_authority() {
    let mut p = marketplace();
    assert_eq!(
        p.update_reputation(acct(BUYER), acct(EXECUTOR), 100),
        Err(ProtocolError::Agent(AgentError::UnauthorizedAuthority))
    );
    assert_eq!(get_agent(&p, acct(EXECUTOR)).reputation_score, DEFAULT_REPUTATION);
    assert_eq!(p.update_reputation(acct(ADMIN), acct(EXECUTOR), 100), Ok(()));
    assert_eq!(get_agent(&p, acct(EXECUTOR)).reputation_score, DEFAULT_REPUTATION + 100);
}

#[test]
fn reputation_stays_in_bounds_over_sequences() {
    let mut p = marketplace();
    for delta in [20_000i16, -32_768, 500, -600, 32_767, 32_767, -32_768, -32_768, 1] {
        p.update_reputation(acct(ADMIN), acct(EXECUTOR), delta).unwrap();
        let score = get_agent(&p, acct(EXECUTOR)).reputation_score;
        assert!(score <= 10_000);
    }
    assert_eq!(get_agent(&p, acct(EXECUTOR)).reputation_score, 1);
}

#[test]
fn escrow_funding_takes_listing_price() {
    let mut p = marketplace();
    let amount = p.create_escrow(acct(BUYER), skill_key(), 0, 1000).unwrap();
    assert_eq!(amount, 1_000_000_000);
    let e = get_escrow(&p, escrow_key(0)).unwrap();
    assert_eq!(e.status, EscrowStatus::Pending);
    assert_eq!(e.amount, 1_000_000_000);
    assert_eq!(e.executor, None);
    assert_eq!(e.expires_at, 1000 + 7 * 24 * 60 * 60);
}

#[test]
fn escrow_nonce_disambiguates() {
    let mut p = marketplace();
    assert!(p.create_escrow(acct(BUYER), skill_key(), 0, 1000).is_ok());
    assert_eq!(
        p.create_escrow(acct(BUYER), skill_key(), 0, 1001),
        Err(ProtocolError::AlreadyExists)
    );
    assert!(p.create_escrow(acct(BUYER), skill_key(), 1, 1001).is_ok());
    assert_eq!(p.escrows.len(), 2);
}

#[test]
fn escrow_rejects_deprecated_listing() {
    let mut p = marketplace();
    p.deprecate_skill(acct(AUTHOR), digest(1)).unwrap();
    assert_eq!(
        p.create_escrow(acct(BUYER), skill_key(), 0, 1000),
        Err(ProtocolError::Escrow(EscrowError::SkillDeprecated))
    );
    assert!(p.escrows.is_empty());
}

#[test]
fn escrow_rejects_zero_price() {
    let mut p = init_protocol_config(acct(ADMIN), 500, acct(TREASURY));
    p.register_skill(acct(AUTHOR), digest(1), digest(2), 0, 1).unwrap();
    assert_eq!(
        p.create_escrow(acct(BUYER), skill_key(), 0, 1000),
        Err(ProtocolError::Escrow(EscrowError::InvalidPrice))
    );
}

#[test]
fn escrow_rejects_unknown_listing() {
    let mut p = marketplace();
    let other = SkillKey { authority: acct(AUTHOR), name_hash: digest(9) };
    assert_eq!(p.create_escrow(acct(BUYER), other, 0, 1000), Err(ProtocolError::NotFound));
}

#[test]
fn settlement_books_everything() {
    let mut p = marketplace();
    p.create_escrow(acct(BUYER), skill_key(), 0, 1000).unwrap();
    let st = p.complete_escrow(acct(BUYER), skill_key(), 0, acct(EXECUTOR)).unwrap();
    assert_eq!(st.protocol_fee, 50_000_000);
    assert_eq!(st.royalty, 100_000_000);
    assert_eq!(st.executor_payout, 850_000_000);
    let e = get_escrow(&p, escrow_key(0)).unwrap();
    assert_eq!(e.status, EscrowStatus::Completed);
    assert_eq!(e.executor, Some(acct(EXECUTOR)));
    let a = get_agent(&p, acct(EXECUTOR));
    assert_eq!(a.total_earnings, 850_000_000);
    assert_eq!(a.total_tasks, 1);
    let s = p.skills.iter().find(|s| s.name_hash == digest(1)).unwrap();
    assert_eq!(s.total_calls, 1);
    assert_eq!(s.total_revenue, 100_000_000);
}

#[test]
fn settlement_requires_executor_record() {
    let mut p = marketplace();
    p.create_escrow(acct(BUYER), skill_key(), 0, 1000).unwrap();
    assert_eq!(
        p.complete_escrow(acct(BUYER), skill_key(), 0, acct(99)),
        Err(ProtocolError::NotFound)
    );
    assert_eq!(get_escrow(&p, escrow_key(0)).unwrap().status, EscrowStatus::Pending);
}

#[test]
fn earnings_unlock_tier_upgrade() {
    let mut p = marketplace();
    // Two settlements put the executor past the first earnings threshold.
    p.create_escrow(acct(BUYER), skill_key(), 0, 1000).unwrap();
    p.create_escrow(acct(BUYER), skill_key(), 1, 1000).unwrap();
    p.complete_escrow(acct(BUYER), skill_key(), 0, acct(EXECUTOR)).unwrap();
    assert_eq!(
        p.upgrade_tier(acct(EXECUTOR)),
        Err(ProtocolError::Agent(AgentError::UpgradeConditionNotMet))
    );
    p.complete_escrow(acct(BUYER), skill_key(), 1, acct(EXECUTOR)).unwrap();
    assert_eq!(p.upgrade_tier(acct(EXECUTOR)), Ok(()));
    assert_eq!(get_agent(&p, acct(EXECUTOR)).tier, 1);
}

#[test]
fn cancellation_refunds_and_reclaims() {
    let mut p = marketplace();
    p.create_escrow(acct(BUYER), skill_key(), 0, 1000).unwrap();
    let refund = p.cancel_escrow(acct(BUYER), skill_key(), 0).unwrap();
    assert_eq!(refund, 1_000_000_000);
    assert!(get_escrow(&p, escrow_key(0)).is_none());
    // The key is free again.
    assert!(p.create_escrow(acct(BUYER), skill_key(), 0, 1002).is_ok());
}

#[test]
fn cancellation_rejected_in_progress() {
    let mut p = marketplace();
    p.create_escrow(acct(BUYER), skill_key(), 0, 1000).unwrap();
    let idx = p.escrows.iter().position(|e| e.nonce == 0).unwrap();
    p.escrows[idx].status = EscrowStatus::InProgress;
    let before = p.escrows[idx];
    assert_eq!(
        p.cancel_escrow(acct(BUYER), skill_key(), 0),
        Err(ProtocolError::Escrow(EscrowError::CannotCancelNonPending))
    );
    assert_eq!(get_escrow(&p, escrow_key(0)), Some(before));
}

#[test]
fn cancellation_rejected_after_settlement() {
    let mut p = marketplace();
    p.create_escrow(acct(BUYER), skill_key(), 0, 1000).unwrap();
    p.complete_escrow(acct(BUYER), skill_key(), 0, acct(EXECUTOR)).unwrap();
    assert_eq!(
        p.cancel_escrow(acct(BUYER), skill_key(), 0),
        Err(ProtocolError::Escrow(EscrowError::CannotCancelNonPending))
    );
}

#[test]
fn challenge_round_executor_wins() {
    let mut p = marketplace();
    p.create_escrow(acct(BUYER), skill_key(), 0, 1000).unwrap();
    p.commit_result(acct(EXECUTOR), escrow_key(0), digest(7), 40).unwrap();
    // The window boundary itself is still open.
    p.challenge(acct(CHALLENGER), escrow_key(0), evidence(), 140).unwrap();
    let r = p.resolve_challenge(acct(ADMIN), escrow_key(0), false).unwrap();
    assert_eq!(r, Resolution::ExecutorWins);
    let e = get_escrow(&p, escrow_key(0)).unwrap();
    assert_eq!(e.status, EscrowStatus::Completed);
    // The executor's stake is untouched.
    assert_eq!(get_agent(&p, acct(EXECUTOR)).staked_amount, 200_000_000);
}

#[test]
fn challenge_round_challenger_wins() {
    let mut p = marketplace();
    p.create_escrow(acct(BUYER), skill_key(), 0, 1000).unwrap();
    p.commit_result(acct(EXECUTOR), escrow_key(0), digest(7), 40).unwrap();
    p.challenge(acct(CHALLENGER), escrow_key(0), evidence(), 90).unwrap();
    let r = p.resolve_challenge(acct(ADMIN), escrow_key(0), true).unwrap();
    assert_eq!(
        r,
        Resolution::ChallengerWins {
            buyer: acct(BUYER),
            refund_amount: 1_000_000_000,
            challenger: acct(CHALLENGER),
            challenger_bounty: 50_000_000,
            slash_amount: 100_000_000,
        }
    );
    let e = get_escrow(&p, escrow_key(0)).unwrap();
    assert_eq!(e.status, EscrowStatus::Slashed);
    let a = get_agent(&p, acct(EXECUTOR));
    assert_eq!(a.staked_amount, 100_000_000);
    assert_eq!(a.slashed_count, 1);
    assert_eq!(a.reputation_score, DEFAULT_REPUTATION - 1000);
}

#[test]
fn challenge_misses_window_through_registry() {
    let mut p = marketplace();
    p.create_escrow(acct(BUYER), skill_key(), 0, 1000).unwrap();
    p.commit_result(acct(EXECUTOR), escrow_key(0), digest(7), 40).unwrap();
    assert_eq!(
        p.challenge(acct(CHALLENGER), escrow_key(0), evidence(), 141),
        Err(ProtocolError::Escrow(EscrowError::ChallengeWindowExpired))
    );
    assert_eq!(get_escrow(&p, escrow_key(0)).unwrap().status, EscrowStatus::Completed);
}

#[test]
fn challenge_needs_commitment() {
    let mut p = marketplace();
    p.create_escrow(acct(BUYER), skill_key(), 0, 1000).unwrap();
    p.complete_escrow(acct(BUYER), skill_key(), 0, acct(EXECUTOR)).unwrap();
    assert_eq!(
        p.challenge(acct(CHALLENGER), escrow_key(0), evidence(), 1),
        Err(ProtocolError::Escrow(EscrowError::NoChallengeSlot))
    );
}

#[test]
fn resolution_restricted_to_authority() {
    let mut p = marketplace();
    p.create_escrow(acct(BUYER), skill_key(), 0, 1000).unwrap();
    p.commit_result(acct(EXECUTOR), escrow_key(0), digest(7), 40).unwrap();
    p.challenge(acct(CHALLENGER), escrow_key(0), evidence(), 90).unwrap();
    assert_eq!(
        p.resolve_challenge(acct(CHALLENGER), escrow_key(0), true),
        Err(ProtocolError::Escrow(EscrowError::Unauthorized))
    );
    assert_eq!(get_escrow(&p, escrow_key(0)).unwrap().status, EscrowStatus::Challenged);
}

#[test]
fn no_second_challenge_after_reversion() {
    // A lost challenge reverts to Completed with the original window
    // marker, so a late second challenge is out of the window.
    let mut p = marketplace();
    p.create_escrow(acct(BUYER), skill_key(), 0, 1000).unwrap();
    p.commit_result(acct(EXECUTOR), escrow_key(0), digest(7), 40).unwrap();
    p.challenge(acct(CHALLENGER), escrow_key(0), evidence(), 90).unwrap();
    p.resolve_challenge(acct(ADMIN), escrow_key(0), false).unwrap();
    assert_eq!(
        p.challenge(acct(CHALLENGER), escrow_key(0), evidence(), 200),
        Err(ProtocolError::Escrow(EscrowError::ChallengeWindowExpired))
    );
}

#[test]
fn staking_guards_through_registry() {
    let mut p = init_protocol_config(acct(ADMIN), 500, acct(TREASURY));
    assert_eq!(p.stake_agent(acct(7), MIN_STAKE_AMOUNT), Err(ProtocolError::NotFound));
    p.create_agent(acct(7), 1).unwrap();
    assert_eq!(
        p.stake_agent(acct(7), MIN_STAKE_AMOUNT - 1),
        Err(ProtocolError::Staking(StakingError::InsufficientStake))
    );
    assert_eq!(p.stake_agent(acct(7), MIN_STAKE_AMOUNT), Ok(()));
    assert!(get_agent(&p, acct(7)).is_active);
    assert_eq!(
        p.unstake_agent(acct(7), MIN_STAKE_AMOUNT + 1),
        Err(ProtocolError::Staking(StakingError::InsufficientBalance))
    );
    assert_eq!(p.unstake_agent(acct(7), MIN_STAKE_AMOUNT), Ok(MIN_STAKE_AMOUNT));
    let a = get_agent(&p, acct(7));
    assert_eq!(a.staked_amount, 0);
    assert!(!a.is_active);
}

#[test]
fn missing_records_are_reported() {
    let mut p = marketplace();
    let key = escrow_key(9);
    assert_eq!(p.commit_result(acct(EXECUTOR), key, digest(7), 1), Err(ProtocolError::NotFound));
    assert_eq!(p.challenge(acct(CHALLENGER), key, evidence(), 1), Err(ProtocolError::NotFound));
    assert_eq!(p.resolve_challenge(acct(ADMIN), key, true), Err(ProtocolError::NotFound));
    assert_eq!(p.cancel_escrow(acct(BUYER), skill_key(), 9), Err(ProtocolError::NotFound));
    assert_eq!(
        p.complete_escrow(acct(BUYER), skill_key(), 9, acct(EXECUTOR)),
        Err(ProtocolError::NotFound)
    );
    assert_eq!(p.update_reputation(acct(ADMIN), acct(77), 5), Err(ProtocolError::NotFound));
    assert_eq!(p.update_skill(acct(77), digest(1), digest(2), 5), Err(ProtocolError::NotFound));
    assert_eq!(p.deprecate_skill(acct(77), digest(1)), Err(ProtocolError::NotFound));
}

#[test]
fn in_progress_escrow_settles_and_commits() {
    let mut p = marketplace();
    p.create_escrow(acct(BUYER), skill_key(), 0, 1000).unwrap();
    p.create_escrow(acct(BUYER), skill_key(), 1, 1000).unwrap();
    for e in p.escrows.iter_mut() {
        e.status = EscrowStatus::InProgress;
    }
    assert!(p.complete_escrow(acct(BUYER), skill_key(), 0, acct(EXECUTOR)).is_ok());
    assert_eq!(get_escrow(&p, escrow_key(0)).unwrap().status, EscrowStatus::Completed);
    assert_eq!(p.commit_result(acct(EXECUTOR), escrow_key(1), digest(7), 5), Ok(()));
    assert_eq!(get_escrow(&p, escrow_key(1)).unwrap().status, EscrowStatus::Completed);
}

#[test]
fn listing_update_through_registry() {
    let mut p = marketplace();
    assert_eq!(p.update_skill(acct(AUTHOR), digest(1), digest(9), 2_000_000_000), Ok(()));
    let s = p.skills.iter().find(|s| s.name_hash == digest(1)).unwrap();
    assert_eq!(s.version, 2);
    assert_eq!(s.price_lamports, 2_000_000_000);
    // A funded escrow keeps its own amount even after a price change.
    let mut q = marketplace();
    q.create_escrow(acct(BUYER), skill_key(), 0, 1000).unwrap();
    q.update_skill(acct(AUTHOR), digest(1), digest(9), 7).unwrap();
    assert_eq!(get_escrow(&q, escrow_key(0)).unwrap().amount, 1_000_000_000);
}
