use vstd::prelude::*;

use crate::batch::AccountId;
use crate::errors::ProtocolError;

verus! {

/// An asset-holding account: its own identity, the asset it holds, the
/// identity that may spend from it, and its balance.
#[derive(Clone, Copy, Debug, PartialEq, Eq, Structural)]
pub struct TokenAccount {
    pub id: AccountId,
    pub mint: AccountId,
    pub owner: AccountId,
    pub balance: u64,
}

/// The pool authority capability: a keyless identity derived by the outer
/// engine from a fixed label, together with the verification nonce of that
/// derivation. Presenting the pair is what authorizes a transfer out of the
/// pool; no private key exists for it.
#[derive(Clone, Copy, Debug, PartialEq, Eq, Structural)]
pub struct PoolAuthority {
    pub id: AccountId,
    pub bump: u8,
}

/// Authorization presented to the transfer engine: either a holder's own
/// signature or the pool authority's derivation proof.
#[derive(Clone, Copy, Debug, PartialEq, Eq, Structural)]
pub enum TransferAuth {
    Signature(AccountId),
    PoolProof(PoolAuthority),
}

impl TransferAuth {
    /// The identity this authorization speaks for.
    pub open spec fn spec_id(self) -> AccountId {
        match self {
            TransferAuth::Signature(id) => id,
            TransferAuth::PoolProof(authority) => authority.id,
        }
    }

    /// The identity this authorization speaks for.
    pub fn id(&self) -> (r: AccountId)
        ensures
            r == self.spec_id(),
    {
        match self {
            TransferAuth::Signature(id) => *id,
            TransferAuth::PoolProof(authority) => authority.id,
        }
    }
}

/// What a transfer of `amount` from `from` to `to` yields: the two accounts
/// after the move, or the first failed check. The authority must speak for
/// the paying account's holder, the paying account must cover the amount,
/// and the receiving balance must not overflow.
pub open spec fn spec_transfer(
    auth: TransferAuth,
    from: TokenAccount,
    to: TokenAccount,
    amount: u64,
) -> Result<(TokenAccount, TokenAccount), ProtocolError> {
    if auth.spec_id() != from.owner {
        Err(ProtocolError::ProgramMismatch)
    } else if from.balance < amount {
        Err(ProtocolError::NotEnoughFunds)
    } else if to.balance + amount > u64::MAX {
        Err(ProtocolError::Overflow)
    } else {
        Ok(
            (
                TokenAccount {
                    id: from.id,
                    mint: from.mint,
                    owner: from.owner,
                    balance: (from.balance - amount) as u64,
                },
                TokenAccount {
                    id: to.id,
                    mint: to.mint,
                    owner: to.owner,
                    balance: (to.balance + amount) as u64,
                },
            ),
        )
    }
}

/// The transfer engine at its interface: moves `amount` from `from` to `to`
/// when `auth` speaks for the holder of `from`, and otherwise changes
/// nothing. Accounts travel by value; the caller installs the returned pair
/// only when the move is to take effect.
pub fn transfer(
    auth: TransferAuth,
    from: TokenAccount,
    to: TokenAccount,
    amount: u64,
) -> (r: Result<(TokenAccount, TokenAccount), ProtocolError>)
    ensures
        r == spec_transfer(auth, from, to, amount),
{
    if auth.id() != from.owner {
        Err(ProtocolError::ProgramMismatch)
    } else if from.balance < amount {
        Err(ProtocolError::NotEnoughFunds)
    } else if amount > u64::MAX - to.balance {
        Err(ProtocolError::Overflow)
    } else {
        Ok(
            (
                TokenAccount {
                    id: from.id,
                    mint: from.mint,
                    owner: from.owner,
                    balance: from.balance - amount,
                },
                TokenAccount {
                    id: to.id,
                    mint: to.mint,
                    owner: to.owner,
                    balance: to.balance + amount,
                },
            ),
        )
    }
}

} // verus!
