use flash_loan::error::TransferError;
use flash_loan::identity::Identity;
use flash_loan::ledger::{transfer, TokenAccount};

fn id(tag: u8) -> Identity {
    let mut bytes = [0u8; 32];
    bytes[0] = tag;
    Identity { bytes }
}

fn pair() -> (TokenAccount, TokenAccount) {
    let from = TokenAccount { key: id(1), owner: id(2), balance: 100 };
    let to = TokenAccount { key: id(3), owner: id(4), balance: 10 };
    (from, to)
}

#[test]
fn transfer_moves_exactly_the_amount() {
    let (mut from, mut to) = pair();
    let r = transfer(&mut from, &mut to, &id(2), 30);
    assert_eq!(r, Ok(()));
    assert_eq!(from.balance, 70);
    assert_eq!(to.balance, 40);
}

#[test]
fn transfer_rejects_a_non_owner_authority() {
    let (mut from, mut to) = pair();
    let r = transfer(&mut from, &mut to, &id(9), 30);
    assert_eq!(r, Err(TransferError::BadAuthority));
    assert_eq!(from.balance, 100);
    assert_eq!(to.balance, 10);
}

#[test]
fn transfer_rejects_an_overdraft() {
    let (mut from, mut to) = pair();
    let r = transfer(&mut from, &mut to, &id(2), 101);
    assert_eq!(r, Err(TransferError::InsufficientFunds));
    assert_eq!(from.balance, 100);
    assert_eq!(to.balance, 10);
}

#[test]
fn transfer_rejects_a_credit_past_the_64_bit_range() {
    let (mut from, mut to) = pair();
    to.balance = u64::MAX - 10;
    let r = transfer(&mut from, &mut to, &id(2), 11);
    assert_eq!(r, Err(TransferError::BalanceOverflow));
    assert_eq!(from.balance, 100);
    assert_eq!(to.balance, u64::MAX - 10);
}

#[test]
fn transfer_of_the_whole_balance_empties_the_account() {
    let (mut from, mut to) = pair();
    let r = transfer(&mut from, &mut to, &id(2), 100);
    assert_eq!(r, Ok(()));
    assert_eq!(from.balance, 0);
    assert_eq!(to.balance, 110);
}
