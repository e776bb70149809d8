//! Directives the ledger hands to the external transfer service.
//!
//! The ledger holds no token balances other than the native fee vault's: a
//! successful operation that moves tokens returns one of these values, and
//! the host executes it against real custody accounts. Each directive names
//! the accounts by role and carries the authorization the transfer service
//! must check: either the calling user's own signature or a derived vault
//! authority of the pool.

use vstd::prelude::*;

use crate::authority::VaultAuthority;
use crate::authority::VaultRole;

verus! {

/// A token account, named by what it is to the pool: a user's own holding
/// or one of the pool's vaults.
#[derive(Clone, Copy, Debug, PartialEq, Eq, Structural)]
pub enum TokenAccountRef {
    User { owner: u64 },
    Vault { role: VaultRole },
}

/// Who authorizes a transfer: the signing user, or the pool through a
/// derived vault authority.
#[derive(Clone, Copy, Debug, PartialEq, Eq, Structural)]
pub enum TransferSigner {
    User { id: u64 },
    Pool { authority: VaultAuthority },
}

/// An outbound instruction to the transfer service: move `amount` tokens
/// from `from` to `to` under `authority`.
#[derive(Clone, Copy, Debug, PartialEq, Eq, Structural)]
pub struct TransferDirective {
    pub from: TokenAccountRef,
    pub to: TokenAccountRef,
    pub authority: TransferSigner,
    pub amount: u64,
}

/// An outbound instruction to the transfer service: burn `amount` tokens
/// held in `from` under the pool's `authority`.
#[derive(Clone, Copy, Debug, PartialEq, Eq, Structural)]
pub struct BurnDirective {
    pub from: TokenAccountRef,
    pub authority: VaultAuthority,
    pub amount: u64,
}

} // verus!
