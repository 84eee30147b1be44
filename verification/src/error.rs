//! Error kinds raised by the flash-loan protocol. Every one of them aborts the
//! enclosing atomic batch: the host then undoes any transfer the batch has
//! already performed, so no partial state survives a failure.

use vstd::prelude::*;

verus! {

/// A validation or arithmetic failure of the protocol itself.
#[derive(Clone, Copy, Debug, PartialEq, Eq, Structural)]
pub enum ProtocolError {
    /// The requested borrow amount is zero.
    InvalidAmount,
    /// No instruction exists at the expected trailing repay position.
    MissingRepayIx,
    /// No borrow instruction exists at position zero during repay.
    MissingBorrowIx,
    /// The presumed repay instruction targets a different program.
    InvalidProgram,
    /// The presumed repay instruction's discriminator does not match.
    InvalidIx,
    /// The presumed repay instruction's borrower-account reference is missing
    /// or mismatched.
    InvalidBorrowerAta,
    /// The presumed repay instruction's pool-account reference is missing or
    /// mismatched.
    InvalidProtocolAta,
    /// Fee or total computation exceeds the 64-bit range.
    Overflow,
}

/// A failure of the token-transfer collaborator: the authority presented is
/// not the owner of the debited account, the debited account holds too little,
/// or the credited balance would exceed the 64-bit range.
#[derive(Clone, Copy, Debug, PartialEq, Eq, Structural)]
pub enum TransferError {
    BadAuthority,
    InsufficientFunds,
    BalanceOverflow,
}

/// Any failure that aborts a loan batch: a protocol validation error or a
/// failure reported by the token-transfer collaborator.
#[derive(Clone, Copy, Debug, PartialEq, Eq, Structural)]
pub enum LoanError {
    Protocol(ProtocolError),
    Transfer(TransferError),
}

} // verus!
