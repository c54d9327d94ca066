//! Bank accounts, the sender and receiver roles of a transfer, and the context
//! that composes them into one transfer.
use crate::money::{Money, MoneyError, MoneyView};
use vstd::prelude::*;

verus! {

#[derive(Clone, Copy, Debug, PartialEq, Eq, Structural)]
pub struct BankAccountId(pub u32);

#[derive(Clone, Copy, Debug, PartialEq, Eq, Structural)]
pub struct UserAccountId(pub u32);

/// The abstract value of an account.
pub struct BankAccountView {
    pub id: u32,
    pub user_account_id: u32,
    pub balance: MoneyView,
}

impl BankAccountView {
    pub open spec fn with_balance(self, balance: MoneyView) -> BankAccountView {
        BankAccountView { balance, ..self }
    }

    /// The account after a deposit, or why there is none.
    pub open spec fn deposit(self, amount: MoneyView) -> Result<BankAccountView, MoneyError> {
        match self.balance.add(amount) {
            Ok(b) => Ok(self.with_balance(b)),
            Err(e) => Err(e),
        }
    }

    /// The account after a withdrawal, or why there is none: a withdrawal may not
    /// leave the balance negative.
    pub open spec fn withdraw(self, amount: MoneyView) -> Result<BankAccountView, MoneyError> {
        match self.balance.subtract(amount) {
            Ok(b) => if b.amount.mantissa < 0 {
                Err(MoneyError::InsufficientBalance)
            } else {
                Ok(self.with_balance(b))
            },
            Err(e) => Err(e),
        }
    }
}

pub open spec fn account_result(r: Result<BankAccount, MoneyError>) -> Result<BankAccountView, MoneyError> {
    match r {
        Ok(a) => Ok(a@),
        Err(e) => Err(e),
    }
}

/// Data of a bank account: who owns it and what it holds.
#[derive(Clone, Copy, Debug)]
pub struct BankAccount {
    id: BankAccountId,
    user_account_id: UserAccountId,
    balance: Money,
}

impl View for BankAccount {
    type V = BankAccountView;

    closed spec fn view(&self) -> BankAccountView {
        BankAccountView { id: self.id.0, user_account_id: self.user_account_id.0, balance: self.balance@ }
    }
}

impl BankAccount {
    pub fn new(id: BankAccountId, user_account_id: UserAccountId, balance: Money) -> (r: BankAccount)
        ensures
            r@ == (BankAccountView { id: id.0, user_account_id: user_account_id.0, balance: balance@ }),
    {
        BankAccount { id, user_account_id, balance }
    }

    pub fn id(&self) -> (r: BankAccountId)
        ensures
            r.0 == self@.id,
    {
        self.id
    }

    pub fn user_account_id(&self) -> (r: UserAccountId)
        ensures
            r.0 == self@.user_account_id,
    {
        self.user_account_id
    }

    pub fn balance(&self) -> (r: &Money)
        ensures
            r@ == self@.balance,
    {
        &self.balance
    }

    /// Adds `amount` to the balance.
    pub fn deposit(self, amount: Money) -> (r: Result<BankAccount, MoneyError>)
        ensures
            account_result(r) == self@.deposit(amount@),
    {
        match self.balance.add(amount) {
            Ok(balance) => Ok(BankAccount { balance, ..self }),
            Err(e) => Err(e),
        }
    }

    /// Takes `amount` from the balance, which must cover it.
    pub fn withdraw(self, amount: Money) -> (r: Result<BankAccount, MoneyError>)
        ensures
            account_result(r) == self@.withdraw(amount@),
    {
        match self.balance.subtract(amount) {
            Ok(balance) => {
                if balance.is_negative() {
                    Err(MoneyError::InsufficientBalance)
                } else {
                    Ok(BankAccount { balance, ..self })
                }
            },
            Err(e) => Err(e),
        }
    }
}

/// The role of an entity that money can be sent to.
pub trait ReceiveRole: Sized {
    /// `r` is an outcome of receiving `money`.
    spec fn receives(self, money: Money, r: Result<Self, MoneyError>) -> bool;

    /// Takes in `money` sent by `from`, which has already been debited.
    fn on_receive(self, money: Money, from: BankAccount) -> (r: Result<Self, MoneyError>)
        ensures
            self.receives(money, r),
    ;
}

/// The role of an entity that can send money to a `T`.
pub trait SenderRole<T>: Sized {
    /// `r` is an outcome of sending `money` to `to`.
    spec fn sends(self, money: Money, to: T, r: Result<(Self, T), MoneyError>) -> bool;

    /// Debits `money` and has `to` receive it; both new states on success.
    fn send(self, money: Money, to: T) -> (r: Result<(Self, T), MoneyError>)
        ensures
            self.sends(money, to, r),
    ;
}

impl ReceiveRole for BankAccount {
    open spec fn receives(self, money: Money, r: Result<BankAccount, MoneyError>) -> bool {
        account_result(r) == self@.deposit(money@)
    }

    fn on_receive(self, money: Money, _from: BankAccount) -> (r: Result<BankAccount, MoneyError>) {
        self.deposit(money)
    }
}

impl<T: ReceiveRole> SenderRole<T> for BankAccount {
    /// The withdrawal decides first; once it succeeds, the receiver's outcome
    /// decides. A debit is not undone when the receiver fails.
    open spec fn sends(self, money: Money, to: T, r: Result<(BankAccount, T), MoneyError>) -> bool {
        match self@.withdraw(money@) {
            Err(e) => r == Err::<(BankAccount, T), MoneyError>(e),
            Ok(v) => match r {
                Ok(p) => p.0@ == v && to.receives(money, Ok(p.1)),
                Err(e) => to.receives(money, Err(e)),
            },
        }
    }

    fn send(self, money: Money, to: T) -> (r: Result<(BankAccount, T), MoneyError>) {
        match self.withdraw(money) {
            Ok(new_from) => match to.on_receive(money, new_from) {
                Ok(new_to) => Ok((new_from, new_to)),
                Err(e) => Err(e),
            },
            Err(e) => Err(e),
        }
    }
}

/// One transfer from a sender to a receiver.
pub struct TransferContext<T: ReceiveRole, F: SenderRole<T>> {
    from: F,
    to: T,
}

impl<T: ReceiveRole, F: SenderRole<T>> TransferContext<T, F> {
    pub closed spec fn sender(&self) -> F {
        self.from
    }

    pub closed spec fn receiver(&self) -> T {
        self.to
    }

    pub fn new(from: F, to: T) -> (r: Self)
        ensures
            r.sender() == from,
            r.receiver() == to,
    {
        TransferContext { from, to }
    }

    /// Sends `money` from the sender to the receiver.
    pub fn transfer(self, money: Money) -> (r: Result<(F, T), MoneyError>)
        ensures
            self.sender().sends(money, self.receiver(), r),
    {
        self.from.send(money, self.to)
    }
}

} // verus!
