//! The token ledger the facility settles against: balance records keyed by
//! (owner, asset) and the transfer operation of the token collaborator,
//! specified at its interface boundary. A transfer debits an account only
//! when the presented authority owns it and the balance suffices.

use vstd::prelude::*;

use crate::error::TransferError;
use crate::identity::Identity;

verus! {

/// A token account: a balance record, named by `key`, debitable only under
/// the signature of `owner`.
#[derive(Clone, Copy, Debug)]
pub struct TokenAccount {
    /// The identity of the account itself.
    pub key: Identity,
    /// The party whose authority debits the account.
    pub owner: Identity,
    /// The balance the account custodies.
    pub balance: u64,
}

/// The outcome of `transfer(from, to, authority, amount)`: the new balances
/// of `from` and `to`, or the failure. It fails exactly when the authority
/// is not the owner of `from`, when `from` holds less than `amount`, or when
/// crediting `to` would leave the 64-bit range.
pub open spec fn transfer_result(
    from: TokenAccount,
    to: TokenAccount,
    authority: Identity,
    amount: u64,
) -> Result<(u64, u64), TransferError> {
    if authority@ != from.owner@ {
        Err(TransferError::BadAuthority)
    } else if from.balance < amount {
        Err(TransferError::InsufficientFunds)
    } else if to.balance + amount > u64::MAX {
        Err(TransferError::BalanceOverflow)
    } else {
        Ok(((from.balance - amount) as u64, (to.balance + amount) as u64))
    }
}

/// Move `amount` from `from` to `to` under `authority`. On failure, neither
/// account changes; on success, exactly `amount` moves. Keys and owners are
/// never altered.
pub fn transfer(
    from: &mut TokenAccount,
    to: &mut TokenAccount,
    authority: &Identity,
    amount: u64,
) -> (r: Result<(), TransferError>)
    ensures
        (match transfer_result(*old(from), *old(to), *authority, amount) {
            Ok(bals) => r == Ok::<(), TransferError>(()) && final(from).balance == bals.0
                && final(to).balance == bals.1,
            Err(e) => r == Err::<(), TransferError>(e) && *final(from) == *old(from) && *final(to)
                == *old(to),
        }),
        final(from).key == old(from).key,
        final(from).owner == old(from).owner,
        final(to).key == old(to).key,
        final(to).owner == old(to).owner,
{
    if !(*authority == from.owner) {
        return Err(TransferError::BadAuthority);
    }
    if from.balance < amount {
        return Err(TransferError::InsufficientFunds);
    }
    if to.balance > u64::MAX - amount {
        return Err(TransferError::BalanceOverflow);
    }
    from.balance = from.balance - amount;
    to.balance = to.balance + amount;
    Ok(())
}

} // verus!
