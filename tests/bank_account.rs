use dci_money::bank_account::{BankAccount, BankAccountId, TransferContext, UserAccountId};
use dci_money::currency::Currency;
use dci_money::money::{Money, MoneyError};

#[test]
fn test_dci() {
    let ba1 = BankAccount::new(BankAccountId(1), UserAccountId(1), Money::zero(Currency::jpy()));
    let new_ba1 = ba1.deposit(Money::yens_i32(1000)).unwrap();
    let ba2 = BankAccount::new(BankAccountId(2), UserAccountId(1), Money::zero(Currency::jpy()));

    let context: TransferContext<BankAccount, BankAccount> = TransferContext::new(new_ba1, ba2);
    let (from, to) = context.transfer(Money::yens_i32(10)).unwrap();
    println!("from = {:?}, to = {:?}", from, to);
}

#[test]
fn transfer_moves_ten_yen() {
    let ba1 = BankAccount::new(BankAccountId(1), UserAccountId(1), Money::zero(Currency::jpy()));
    let ba1 = ba1.deposit(Money::yens_i32(1000)).unwrap();
    let ba2 = BankAccount::new(BankAccountId(2), UserAccountId(1), Money::zero(Currency::jpy()));
    let context: TransferContext<BankAccount, BankAccount> = TransferContext::new(ba1, ba2);
    let (from, to) = context.transfer(Money::yens_i32(10)).unwrap();
    assert_eq!(*from.balance(), Money::yens_i32(990));
    assert_eq!(*to.balance(), Money::yens_i32(10));
    assert_eq!(from.id(), BankAccountId(1));
    assert_eq!(to.id(), BankAccountId(2));
    assert_eq!(to.user_account_id(), UserAccountId(1));
}

#[test]
fn withdraw_full_balance_leaves_zero() {
    let a = BankAccount::new(BankAccountId(1), UserAccountId(1), Money::dollars_i32(25));
    let a = a.withdraw(Money::dollars_i32(25)).unwrap();
    assert!(a.balance().is_zero());
}

#[test]
fn withdraw_one_unit_too_many_fails() {
    let a = BankAccount::new(BankAccountId(1), UserAccountId(1), Money::dollars_i32(25));
    let one_cent = Money::new(dc_cent(), Currency::usd());
    let too_much = Money::dollars_i32(25).add(one_cent).unwrap();
    assert_eq!(a.withdraw(too_much).unwrap_err(), MoneyError::InsufficientBalance);
    let y = BankAccount::new(BankAccountId(2), UserAccountId(1), Money::yens_i32(100));
    assert_eq!(y.withdraw(Money::yens_i32(101)).unwrap_err(), MoneyError::InsufficientBalance);
}

fn dc_cent() -> dci_money::decimal::Amount {
    dci_money::decimal::Amount::from_parts(1, 2).unwrap()
}

#[test]
fn deposit_in_other_currency_fails() {
    let a = BankAccount::new(BankAccountId(1), UserAccountId(1), Money::zero(Currency::jpy()));
    assert_eq!(a.deposit(Money::dollars_i32(1)).unwrap_err(), MoneyError::NotSameCurrencyError);
}

#[test]
fn transfer_beyond_balance_fails() {
    let a = BankAccount::new(BankAccountId(1), UserAccountId(1), Money::yens_i32(5));
    let b = BankAccount::new(BankAccountId(2), UserAccountId(2), Money::yens_i32(0));
    let context: TransferContext<BankAccount, BankAccount> = TransferContext::new(a, b);
    assert_eq!(context.transfer(Money::yens_i32(6)).unwrap_err(), MoneyError::InsufficientBalance);
}

#[test]
fn transfer_into_other_currency_fails_on_receipt() {
    let a = BankAccount::new(BankAccountId(1), UserAccountId(1), Money::yens_i32(50));
    let b = BankAccount::new(BankAccountId(2), UserAccountId(2), Money::dollars_i32(0));
    let context: TransferContext<BankAccount, BankAccount> = TransferContext::new(a, b);
    assert_eq!(context.transfer(Money::yens_i32(6)).unwrap_err(), MoneyError::NotSameCurrencyError);
}
