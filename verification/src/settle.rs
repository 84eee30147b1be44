//! All-or-nothing settlement of one atomic batch against the ledger.
//!
//! The host executes the batch's instructions strictly in order and
//! guarantees atomicity: if any instruction fails, the whole batch has no
//! effect. `run_batch` models that guarantee over the two token accounts a
//! loan touches: it dispatches each instruction of this program to its
//! handler, and on the first failure restores every balance to what it was
//! before the batch began.

use vstd::prelude::*;

use crate::authority::{BorrowerSigner, PoolAuthority};
use crate::batch::{
    check_is_borrow_ix, check_targets_repay, is_borrow_ix, le_u64_at, read_le_u64, targets_repay,
    Batch,
};
use crate::borrow::{borrow, borrow_step};
use crate::error::LoanError;
use crate::identity::Identity;
use crate::ledger::TokenAccount;
use crate::repay::{repay, repay_step};

verus! {

/// The outcome of executing the batch from position `i` onward on the given
/// ledger state: the result, the pool balance and the borrower balance when
/// the batch either completes or first fails. An instruction of this program
/// opening with the borrow discriminator runs the borrow handler on the
/// principal at its bytes 8..16; one opening with the repay discriminator
/// runs the repay handler; every other instruction leaves the two modelled
/// accounts untouched. The first failure stops execution.
pub open spec fn run_from(
    batch: Batch,
    i: int,
    pool_ata: TokenAccount,
    borrower_ata: TokenAccount,
    authority: PoolAuthority,
    borrower: BorrowerSigner,
    program: Identity,
) -> (Result<(), LoanError>, u64, u64)
    decreases batch.instructions@.len() - i,
{
    if i < 0 || i >= batch.instructions@.len() {
        (Ok(()), pool_ata.balance, borrower_ata.balance)
    } else {
        let ix = batch.instructions@[i];
        if is_borrow_ix(ix, program) {
            let step = borrow_step(
                le_u64_at(ix.data@, 8) as u64,
                pool_ata,
                borrower_ata,
                authority,
                program,
                batch,
            );
            if step.0 is Err {
                step
            } else {
                run_from(
                    batch,
                    i + 1,
                    TokenAccount { key: pool_ata.key, owner: pool_ata.owner, balance: step.1 },
                    TokenAccount {
                        key: borrower_ata.key,
                        owner: borrower_ata.owner,
                        balance: step.2,
                    },
                    authority,
                    borrower,
                    program,
                )
            }
        } else if targets_repay(ix, program) {
            let step = repay_step(pool_ata, borrower_ata, borrower, program, batch);
            if step.0 is Err {
                step
            } else {
                run_from(
                    batch,
                    i + 1,
                    TokenAccount { key: pool_ata.key, owner: pool_ata.owner, balance: step.1 },
                    TokenAccount {
                        key: borrower_ata.key,
                        owner: borrower_ata.owner,
                        balance: step.2,
                    },
                    authority,
                    borrower,
                    program,
                )
            }
        } else {
            run_from(batch, i + 1, pool_ata, borrower_ata, authority, borrower, program)
        }
    }
}

/// Execute one atomic batch against the ledger. On success the two balances
/// are exactly those `run_from` computes for the whole batch; on any failure
/// the error is the first one `run_from` meets and both accounts are exactly
/// as they were before the batch began — the all-or-nothing semantics that
/// lets the pool lend without collateral.
pub fn run_batch(
    batch: &Batch,
    pool_ata: &mut TokenAccount,
    borrower_ata: &mut TokenAccount,
    authority: &PoolAuthority,
    borrower: &BorrowerSigner,
    program: &Identity,
) -> (r: Result<(), LoanError>)
    ensures
        ({
            let (res, pool_bal, borrower_bal) = run_from(
                *batch,
                0,
                *old(pool_ata),
                *old(borrower_ata),
                *authority,
                *borrower,
                *program,
            );
            r == res && (r is Ok ==> final(pool_ata).balance == pool_bal
                && final(borrower_ata).balance == borrower_bal) && (r is Err ==> *final(pool_ata)
                == *old(pool_ata) && *final(borrower_ata) == *old(borrower_ata))
        }),
        final(pool_ata).key == old(pool_ata).key,
        final(pool_ata).owner == old(pool_ata).owner,
        final(borrower_ata).key == old(borrower_ata).key,
        final(borrower_ata).owner == old(borrower_ata).owner,
{
    let snap_pool: u64 = pool_ata.balance;
    let snap_borrower: u64 = borrower_ata.balance;
    let n = batch.count();
    let mut i: usize = 0;
    while i < n
        invariant
            i <= n,
            n == batch.instructions@.len(),
            snap_pool == old(pool_ata).balance,
            snap_borrower == old(borrower_ata).balance,
            pool_ata.key == old(pool_ata).key,
            pool_ata.owner == old(pool_ata).owner,
            borrower_ata.key == old(borrower_ata).key,
            borrower_ata.owner == old(borrower_ata).owner,
            run_from(
                *batch,
                0,
                *old(pool_ata),
                *old(borrower_ata),
                *authority,
                *borrower,
                *program,
            ) == run_from(
                *batch,
                i as int,
                *pool_ata,
                *borrower_ata,
                *authority,
                *borrower,
                *program,
            ),
        decreases n - i,
    {
        let ghost pre_pool = *pool_ata;
        let ghost pre_borrower = *borrower_ata;
        let ix = &batch.instructions[i];
        if check_is_borrow_ix(ix, program) {
            let amount = read_le_u64(&ix.data, 8);
            match borrow(amount, pool_ata, borrower_ata, authority, program, batch) {
                Err(e) => {
                    pool_ata.balance = snap_pool;
                    borrower_ata.balance = snap_borrower;
                    return Err(e);
                },
                Ok(_) => {},
            }
            proof {
                let step = borrow_step(
                    le_u64_at(batch.instructions@[i as int].data@, 8) as u64,
                    pre_pool,
                    pre_borrower,
                    *authority,
                    *program,
                    *batch,
                );
                assert(*pool_ata == (TokenAccount {
                    key: pre_pool.key,
                    owner: pre_pool.owner,
                    balance: step.1,
                }));
                assert(*borrower_ata == (TokenAccount {
                    key: pre_borrower.key,
                    owner: pre_borrower.owner,
                    balance: step.2,
                }));
            }
        } else if check_targets_repay(ix, program) {
            match repay(pool_ata, borrower_ata, borrower, program, batch) {
                Err(e) => {
                    pool_ata.balance = snap_pool;
                    borrower_ata.balance = snap_borrower;
                    return Err(e);
                },
                Ok(_) => {},
            }
            proof {
                let step = repay_step(pre_pool, pre_borrower, *borrower, *program, *batch);
                assert(*pool_ata == (TokenAccount {
                    key: pre_pool.key,
                    owner: pre_pool.owner,
                    balance: step.1,
                }));
                assert(*borrower_ata == (TokenAccount {
                    key: pre_borrower.key,
                    owner: pre_borrower.owner,
                    balance: step.2,
                }));
            }
        }
        // Instructions of other programs leave the two modelled accounts
        // untouched.
        i = i + 1;
    }
    Ok(())
}

} // verus!
