//! The borrow half of a flash loan: validate the request, move the principal
//! out of the pool under the derived authority, then prove — by inspecting
//! the immutable batch — that a correctly-scoped repay instruction stands at
//! the trailing position of the same atomic batch.

use vstd::prelude::*;

use crate::batch::{
    has_discriminator, repay_discriminator, repay_discriminator_bytes, data_has_discriminator,
    Batch, Instruction,
};
use crate::error::{LoanError, ProtocolError};
use crate::identity::Identity;
use crate::ledger::{transfer, transfer_result, TokenAccount};
use crate::authority::PoolAuthority;

verus! {

/// The validation of the presumed repay instruction, in the order the checks
/// are made: it must target this program, open with the repay discriminator,
/// and reference the borrower's token account at position 3 and the pool's
/// at position 4 of its account list (a missing reference counts as a
/// mismatch).
pub open spec fn repay_check(
    ix: Instruction,
    program: Identity,
    borrower_ata_key: Seq<u8>,
    pool_ata_key: Seq<u8>,
) -> Result<(), ProtocolError> {
    if ix.program_id@ != program@ {
        Err(ProtocolError::InvalidProgram)
    } else if !has_discriminator(ix.data@, repay_discriminator()) {
        Err(ProtocolError::InvalidIx)
    } else if ix.accounts@.len() <= 3 || ix.accounts@[3].key@ != borrower_ata_key {
        Err(ProtocolError::InvalidBorrowerAta)
    } else if ix.accounts@.len() <= 4 || ix.accounts@[4].key@ != pool_ata_key {
        Err(ProtocolError::InvalidProtocolAta)
    } else {
        Ok(())
    }
}

/// What one borrow does, as a function of the request and the state it sees:
/// the result, the pool balance and the borrower balance after the handler
/// returns. A zero amount is rejected before anything moves; then the
/// principal is transferred out of the pool under the derived authority;
/// then the batch must hold, at a trailing position after the borrow's own,
/// a repay instruction passing `repay_check`. A failure found after the
/// transfer leaves the transferred balances in place: undoing them is the
/// batch's all-or-nothing semantics, not the handler's.
pub open spec fn borrow_step(
    amount: u64,
    pool_ata: TokenAccount,
    borrower_ata: TokenAccount,
    authority: PoolAuthority,
    program: Identity,
    batch: Batch,
) -> (Result<(), LoanError>, u64, u64) {
    if amount == 0 {
        (
            Err(LoanError::Protocol(ProtocolError::InvalidAmount)),
            pool_ata.balance,
            borrower_ata.balance,
        )
    } else {
        match transfer_result(pool_ata, borrower_ata, authority.id, amount) {
            Err(e) => (Err(LoanError::Transfer(e)), pool_ata.balance, borrower_ata.balance),
            Ok(bals) => {
                let n = batch.instructions@.len();
                if n < 2 {
                    (Err(LoanError::Protocol(ProtocolError::MissingRepayIx)), bals.0, bals.1)
                } else {
                    match repay_check(
                        batch.instructions@[n - 1],
                        program,
                        borrower_ata.key@,
                        pool_ata.key@,
                    ) {
                        Err(e) => (Err(LoanError::Protocol(e)), bals.0, bals.1),
                        Ok(_) => (Ok(()), bals.0, bals.1),
                    }
                }
            },
        }
    }
}

/// What a successful borrow proves: the amount was positive, exactly the
/// principal left the pool for the borrower, the outflow was authorized by
/// the derived pool authority (it owns the pool's token account), and a
/// repay instruction passing every check of `repay_check` — same program,
/// repay discriminator, and the very same two token accounts — stands at
/// the trailing position of the batch, after the borrow's own.
pub proof fn lemma_borrow_success(
    amount: u64,
    pool_ata: TokenAccount,
    borrower_ata: TokenAccount,
    authority: PoolAuthority,
    program: Identity,
    batch: Batch,
)
    requires
        borrow_step(amount, pool_ata, borrower_ata, authority, program, batch).0 is Ok,
    ensures
        amount > 0,
        authority.id@ == pool_ata.owner@,
        pool_ata.balance >= amount,
        borrow_step(amount, pool_ata, borrower_ata, authority, program, batch).1 == pool_ata.balance
            - amount,
        borrow_step(amount, pool_ata, borrower_ata, authority, program, batch).2
            == borrower_ata.balance + amount,
        batch.instructions@.len() >= 2,
        repay_check(
            batch.instructions@[batch.instructions@.len() - 1],
            program,
            borrower_ata.key@,
            pool_ata.key@,
        ) is Ok,
{
}

/// Validate the presumed repay instruction against the two token-account
/// keys of the current loan: exactly the checks of `repay_check`, in their
/// order.
pub fn check_repay_ix(
    ix: &Instruction,
    program: &Identity,
    borrower_ata_key: &Identity,
    pool_ata_key: &Identity,
) -> (r: Result<(), ProtocolError>)
    ensures
        r == repay_check(*ix, *program, borrower_ata_key@, pool_ata_key@),
{
    if !(ix.program_id == *program) {
        return Err(ProtocolError::InvalidProgram);
    }
    let disc = repay_discriminator_bytes();
    if !data_has_discriminator(&ix.data, &disc) {
        return Err(ProtocolError::InvalidIx);
    }
    if ix.accounts.len() <= 3 {
        return Err(ProtocolError::InvalidBorrowerAta);
    }
    if !(ix.accounts[3].key == *borrower_ata_key) {
        return Err(ProtocolError::InvalidBorrowerAta);
    }
    if ix.accounts.len() <= 4 {
        return Err(ProtocolError::InvalidProtocolAta);
    }
    if !(ix.accounts[4].key == *pool_ata_key) {
        return Err(ProtocolError::InvalidProtocolAta);
    }
    Ok(())
}

/// The borrow handler. Rejects a zero amount with `InvalidAmount`; moves
/// `borrow_amount` from the pool's token account to the borrower's under the
/// derived pool authority; reads the batch's instruction count and demands a
/// repay instruction at the last position, a position after the borrow's
/// own — `MissingRepayIx` when none exists — that passes `repay_check`.
/// Success guarantees that a syntactically valid, correctly-scoped repayment
/// will execute later in the same atomic batch. The outcome and the two
/// balances are exactly those of `borrow_step`.
pub fn borrow(
    borrow_amount: u64,
    pool_ata: &mut TokenAccount,
    borrower_ata: &mut TokenAccount,
    authority: &PoolAuthority,
    program: &Identity,
    batch: &Batch,
) -> (r: Result<(), LoanError>)
    ensures
        ({
            let (res, pool_bal, borrower_bal) = borrow_step(
                borrow_amount,
                *old(pool_ata),
                *old(borrower_ata),
                *authority,
                *program,
                *batch,
            );
            r == res && final(pool_ata).balance == pool_bal && final(borrower_ata).balance
                == borrower_bal
        }),
        final(pool_ata).key == old(pool_ata).key,
        final(pool_ata).owner == old(pool_ata).owner,
        final(borrower_ata).key == old(borrower_ata).key,
        final(borrower_ata).owner == old(borrower_ata).owner,
{
    if borrow_amount == 0 {
        return Err(LoanError::Protocol(ProtocolError::InvalidAmount));
    }
    match transfer(pool_ata, borrower_ata, &authority.id, borrow_amount) {
        Err(e) => {
            return Err(LoanError::Transfer(e));
        },
        Ok(_) => {},
    }
    let n = batch.count();
    if n < 2 {
        return Err(LoanError::Protocol(ProtocolError::MissingRepayIx));
    }
    let repay_ix = match batch.decode(n - 1) {
        Ok(ix) => ix,
        Err(_) => {
            return Err(LoanError::Protocol(ProtocolError::MissingRepayIx));
        },
    };
    let borrower_key = borrower_ata.key;
    let pool_key = pool_ata.key;
    match check_repay_ix(repay_ix, program, &borrower_key, &pool_key) {
        Err(e) => Err(LoanError::Protocol(e)),
        Ok(_) => Ok(()),
    }
}

} // verus!
