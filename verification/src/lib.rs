//! Settlement and atomicity logic of an uncollateralized flash-loan facility.
//!
//! A borrower may pull funds out of a shared pool with no collateral, provided
//! the same atomic instruction batch also carries a matching repayment
//! instruction that returns the principal plus a fixed fee. The modules here
//! hold the verified core: fee computation, introspection of the instruction
//! batch, validation performed at borrow time and at repay time, and the
//! all-or-nothing settlement of one batch against a modelled token ledger.

pub mod authority;
pub mod batch;
pub mod borrow;
pub mod error;
pub mod fee;
pub mod identity;
pub mod ledger;
pub mod repay;
pub mod settle;
