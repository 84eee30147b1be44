//! The repay half of a flash loan: read the principal back out of the borrow
//! instruction that opened the batch, add the fixed fee, and move the total
//! from the borrower into the pool under the borrower's own signature.

use vstd::prelude::*;

use crate::batch::{check_is_borrow_ix, is_borrow_ix, le_u64_at, read_le_u64, Batch};
use crate::error::{LoanError, ProtocolError};
use crate::fee::{owed_of, total_owed};
use crate::identity::Identity;
use crate::ledger::{transfer, transfer_result, TokenAccount};
use crate::authority::BorrowerSigner;

verus! {

/// What one repay does, as a function of the state it sees: the result, the
/// pool balance and the borrower balance after the handler returns. The
/// instruction at batch position 0 must be a well-formed borrow of this
/// program — `MissingBorrowIx` otherwise — and its bytes 8..16 carry the
/// principal. The total owed is the principal plus the fixed fee, rejected
/// with `Overflow` when it leaves the 64-bit range; then exactly that total
/// moves from the borrower's token account into the pool's, authorized by
/// the borrower's own signer.
pub open spec fn repay_step(
    pool_ata: TokenAccount,
    borrower_ata: TokenAccount,
    borrower: BorrowerSigner,
    program: Identity,
    batch: Batch,
) -> (Result<(), LoanError>, u64, u64) {
    if batch.instructions@.len() == 0 || !is_borrow_ix(batch.instructions@[0], program) {
        (
            Err(LoanError::Protocol(ProtocolError::MissingBorrowIx)),
            pool_ata.balance,
            borrower_ata.balance,
        )
    } else {
        let principal = le_u64_at(batch.instructions@[0].data@, 8);
        if owed_of(principal) > u64::MAX {
            (
                Err(LoanError::Protocol(ProtocolError::Overflow)),
                pool_ata.balance,
                borrower_ata.balance,
            )
        } else {
            match transfer_result(
                borrower_ata,
                pool_ata,
                borrower.id,
                owed_of(principal) as u64,
            ) {
                Err(e) => (Err(LoanError::Transfer(e)), pool_ata.balance, borrower_ata.balance),
                Ok(bals) => (Ok(()), bals.1, bals.0),
            }
        }
    }
}

/// What a successful repay proves: a well-formed borrow opened the batch,
/// the inflow was authorized by the borrower's own signer (it owns the
/// debited account), and the pool received exactly the principal plus the
/// fixed fee — never less than the principal it disbursed.
pub proof fn lemma_repay_success(
    pool_ata: TokenAccount,
    borrower_ata: TokenAccount,
    borrower: BorrowerSigner,
    program: Identity,
    batch: Batch,
)
    requires
        repay_step(pool_ata, borrower_ata, borrower, program, batch).0 is Ok,
    ensures
        batch.instructions@.len() > 0,
        is_borrow_ix(batch.instructions@[0], program),
        borrower.id@ == borrower_ata.owner@,
        ({
            let principal = le_u64_at(batch.instructions@[0].data@, 8);
            &&& repay_step(pool_ata, borrower_ata, borrower, program, batch).1 == pool_ata.balance
                + owed_of(principal)
            &&& repay_step(pool_ata, borrower_ata, borrower, program, batch).2
                == borrower_ata.balance - owed_of(principal)
            &&& owed_of(principal) >= principal
        }),
{
    let principal = le_u64_at(batch.instructions@[0].data@, 8);
    crate::fee::lemma_fee_bounds(principal);
}

/// The repay handler. Decodes the instruction at batch position 0 and fails
/// with `MissingBorrowIx` unless it is a well-formed borrow of this program;
/// reads the principal from bytes 8..16 of its payload; computes the total
/// owed, propagating `Overflow`; and transfers the total from the borrower's
/// token account into the pool's under the borrower's own signer. The
/// outcome and the two balances are exactly those of `repay_step`.
pub fn repay(
    pool_ata: &mut TokenAccount,
    borrower_ata: &mut TokenAccount,
    borrower: &BorrowerSigner,
    program: &Identity,
    batch: &Batch,
) -> (r: Result<(), LoanError>)
    ensures
        ({
            let (res, pool_bal, borrower_bal) = repay_step(
                *old(pool_ata),
                *old(borrower_ata),
                *borrower,
                *program,
                *batch,
            );
            r == res && final(pool_ata).balance == pool_bal && final(borrower_ata).balance
                == borrower_bal
        }),
        final(pool_ata).key == old(pool_ata).key,
        final(pool_ata).owner == old(pool_ata).owner,
        final(borrower_ata).key == old(borrower_ata).key,
        final(borrower_ata).owner == old(borrower_ata).owner,
{
    let borrow_ix = match batch.decode(0) {
        Ok(ix) => ix,
        Err(_) => {
            return Err(LoanError::Protocol(ProtocolError::MissingBorrowIx));
        },
    };
    if !check_is_borrow_ix(borrow_ix, program) {
        return Err(LoanError::Protocol(ProtocolError::MissingBorrowIx));
    }
    let principal = read_le_u64(&borrow_ix.data, 8);
    let total = match total_owed(principal) {
        Ok(t) => t,
        Err(_) => {
            return Err(LoanError::Protocol(ProtocolError::Overflow));
        },
    };
    match transfer(borrower_ata, pool_ata, &borrower.id, total) {
        Err(e) => Err(LoanError::Transfer(e)),
        Ok(_) => Ok(()),
    }
}

} // verus!
