//! Derived vault authority: a deterministic, non-custodial signing
//! capability scoped to a pool identity and a vault role.
//!
//! The pool ledger holds no private key for its vaults. Instead, each vault
//! is controlled by a capability derived from `(pool_id, role)` plus a
//! one-byte bump that disambiguates the derivation. The relation is
//! deterministic, so any party holding the pool identity and the role tag
//! can re-derive it and check a presented capability.

use vstd::prelude::*;

verus! {

/// The four vault roles a pool binds an authority for.
#[derive(Clone, Copy, Debug, PartialEq, Eq, Structural)]
pub enum VaultRole {
    Staking,
    Liquidity,
    Fee,
    FeeNative,
}

/// The capability a pool presents to the transfer service to authorize a
/// debit from one of its vaults.
#[derive(Clone, Copy, Debug, PartialEq, Eq, Structural)]
pub struct VaultAuthority {
    pub pool_id: u64,
    pub role: VaultRole,
    pub bump: u8,
}

/// One-byte tag distinguishing the four vault roles in the derivation.
pub open spec fn spec_role_tag(role: VaultRole) -> u8 {
    match role {
        VaultRole::Staking => 1,
        VaultRole::Liquidity => 2,
        VaultRole::Fee => 3,
        VaultRole::FeeNative => 4,
    }
}

/// Bump byte of the derivation for `(pool_id, role)`: a deterministic fold
/// of the pool identity, offset by the role tag.
pub open spec fn spec_vault_bump(pool_id: u64, role: VaultRole) -> u8 {
    (((pool_id % 251) + spec_role_tag(role) as u64) % 256) as u8
}

/// The authority derived for `(pool_id, role)`.
pub open spec fn spec_vault_authority(pool_id: u64, role: VaultRole) -> VaultAuthority {
    VaultAuthority { pool_id, role, bump: spec_vault_bump(pool_id, role) }
}

/// A capability is genuine exactly when its bump matches the derivation for
/// its own scope.
pub open spec fn authority_ok(authority: VaultAuthority) -> bool {
    authority.bump == spec_vault_bump(authority.pool_id, authority.role)
}

/// Role tag used by the key derivation.
pub fn role_tag(role: VaultRole) -> (tag: u8)
    ensures
        tag == spec_role_tag(role),
{
    match role {
        VaultRole::Staking => 1,
        VaultRole::Liquidity => 2,
        VaultRole::Fee => 3,
        VaultRole::FeeNative => 4,
    }
}

/// Derives the bump byte for `(pool_id, role)`.
pub fn derive_vault_bump(pool_id: u64, role: VaultRole) -> (bump: u8)
    ensures
        bump == spec_vault_bump(pool_id, role),
{
    let tag = role_tag(role);
    (((pool_id % 251) + tag as u64) % 256) as u8
}

/// Derives the vault authority for `(pool_id, role)`.
pub fn derive_vault_authority(pool_id: u64, role: VaultRole) -> (authority: VaultAuthority)
    ensures
        authority == spec_vault_authority(pool_id, role),
        authority_ok(authority),
{
    VaultAuthority { pool_id, role, bump: derive_vault_bump(pool_id, role) }
}

/// Checks a presented capability against a scope: it passes exactly when it
/// is the genuine derivation for that pool and role.
pub fn verify_vault_authority(authority: &VaultAuthority, pool_id: u64, role: VaultRole) -> (ok:
    bool)
    ensures
        ok <==> *authority == spec_vault_authority(pool_id, role),
{
    let expected = derive_vault_bump(pool_id, role);
    authority.pool_id == pool_id && authority.role == role && authority.bump == expected
}

} // verus!
