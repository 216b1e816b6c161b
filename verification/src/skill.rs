//! The listing catalog: priced service records ("skills") that escrows are
//! created against. The catalog itself is simple bookkeeping; the escrow
//! engine reads a listing's price, author and deprecation flag and writes
//! back its call count and revenue on settlement.

use vstd::prelude::*;
use crate::ids::{AccountId, Digest};

verus! {

/// Errors of the listing catalog operations.
#[derive(Clone, Copy, PartialEq, Eq, Structural, Debug)]
pub enum SkillError {
    /// The listing has been taken down and accepts no updates.
    SkillDeprecated,
    /// The listing was already taken down.
    SkillAlreadyDeprecated,
    /// The version counter cannot be incremented further.
    VersionOverflow,
}

/// Audit state of a listing. Only recorded; nothing in the core is gated on
/// it yet.
#[derive(Clone, Copy, PartialEq, Eq, Structural, Debug)]
pub enum AuditStatus {
    /// Not reviewed; usable by anyone.
    Unverified,
    /// Listed optimistically against a deposit.
    Optimistic,
    /// Reviewed and signed off.
    Audited,
}

/// The key a listing is addressed by: its author together with the hash of
/// its name. The pair is chosen by the author at registration and never
/// changes, so it identifies the listing for its whole life.
#[derive(Clone, Copy, PartialEq, Eq, Structural, Debug)]
pub struct SkillKey {
    /// The listing's author.
    pub authority: AccountId,
    /// Hash of the listing's name.
    pub name_hash: Digest,
}

/// One priced service listing.
#[derive(Clone, Copy, PartialEq, Eq, Structural, Debug)]
pub struct SkillAccount {
    /// The author; royalties are paid here.
    pub authority: AccountId,
    /// Hash of the listing's name; part of its address.
    pub name_hash: Digest,
    /// Hash of the listing's content; replaced on update.
    pub content_hash: Digest,
    /// Price of one call, in the ledger's smallest unit.
    pub price_lamports: u64,
    /// Number of settled escrows against this listing.
    pub total_calls: u64,
    /// Royalties accumulated over all settlements.
    pub total_revenue: u64,
    /// Version counter, starting at 1 and incremented on every update.
    pub version: u8,
    /// Audit state of the listing.
    pub audit_status: AuditStatus,
    /// Creation timestamp, supplied by the environment.
    pub created_at: i64,
    /// Whether the listing has been taken down.
    pub is_deprecated: bool,
}

impl SkillAccount {
    /// Record invariant: versions start at 1.
    pub open spec fn wf(self) -> bool {
        self.version >= 1
    }

    /// The key the listing is addressed by.
    pub open spec fn spec_key(self) -> SkillKey {
        SkillKey { authority: self.authority, name_hash: self.name_hash }
    }

    /// The record a registration creates.
    pub open spec fn fresh(
        authority: AccountId,
        name_hash: Digest,
        content_hash: Digest,
        price_lamports: u64,
        now: i64,
    ) -> SkillAccount {
        SkillAccount {
            authority,
            name_hash,
            content_hash,
            price_lamports,
            total_calls: 0,
            total_revenue: 0,
            version: 1,
            audit_status: AuditStatus::Unverified,
            created_at: now,
            is_deprecated: false,
        }
    }
}

/// Creates a fresh listing record: version 1, unverified, no calls and no
/// revenue yet.
pub fn register_skill(
    authority: AccountId,
    name_hash: Digest,
    content_hash: Digest,
    price_lamports: u64,
    now: i64,
) -> (s: SkillAccount)
    ensures
        s == SkillAccount::fresh(authority, name_hash, content_hash, price_lamports, now),
        s.wf(),
{
    SkillAccount {
        authority,
        name_hash,
        content_hash,
        price_lamports,
        total_calls: 0,
        total_revenue: 0,
        version: 1,
        audit_status: AuditStatus::Unverified,
        created_at: now,
        is_deprecated: false,
    }
}

/// Replaces a listing's content hash and price and bumps its version.
/// Fails, changing nothing, on a deprecated listing or when the version
/// counter is exhausted.
pub fn update_skill(
    skill: &mut SkillAccount,
    new_content_hash: Digest,
    new_price: u64,
) -> (r: Result<(), SkillError>)
    requires
        old(skill).wf(),
    ensures
        final(skill).wf(),
        match r {
            Ok(()) => {
                &&& !old(skill).is_deprecated
                &&& old(skill).version < u8::MAX
                &&& *final(skill) == (SkillAccount {
                    content_hash: new_content_hash,
                    price_lamports: new_price,
                    version: (old(skill).version + 1) as u8,
                    ..*old(skill)
                })
            },
            Err(SkillError::SkillDeprecated) => {
                &&& old(skill).is_deprecated
                &&& *final(skill) == *old(skill)
            },
            Err(SkillError::VersionOverflow) => {
                &&& !old(skill).is_deprecated
                &&& old(skill).version == u8::MAX
                &&& *final(skill) == *old(skill)
            },
            Err(_) => false,
        },
{
    if skill.is_deprecated {
        return Err(SkillError::SkillDeprecated);
    }
    let bumped = match skill.version.checked_add(1) {
        Some(v) => v,
        None => {
            return Err(SkillError::VersionOverflow);
        },
    };
    skill.content_hash = new_content_hash;
    skill.price_lamports = new_price;
    skill.version = bumped;
    Ok(())
}

/// Takes a listing down. Fails, changing nothing, when it is already down.
/// A deprecated listing keeps settling escrows created earlier but admits no
/// new escrow and no update.
pub fn deprecate_skill(skill: &mut SkillAccount) -> (r: Result<(), SkillError>)
    requires
        old(skill).wf(),
    ensures
        final(skill).wf(),
        match r {
            Ok(()) => {
                &&& !old(skill).is_deprecated
                &&& *final(skill) == (SkillAccount { is_deprecated: true, ..*old(skill) })
            },
            Err(e) => {
                &&& e == SkillError::SkillAlreadyDeprecated
                &&& old(skill).is_deprecated
                &&& *final(skill) == *old(skill)
            },
        },
{
    if skill.is_deprecated {
        return Err(SkillError::SkillAlreadyDeprecated);
    }
    skill.is_deprecated = true;
    Ok(())
}

} // verus!
