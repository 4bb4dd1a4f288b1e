//! One client account: balances, stored transaction history, and the
//! transaction-application state machine.

use std::collections::HashMap;
use vstd::prelude::*;

use crate::transaction::{AccountId, Money, StoredTransaction, Transaction, TransactionId,
    TransactionType};

verus! {

broadcast use vstd::std_specs::hash::group_hash_axioms;

/// A monetary value whose serialized form is rounded to four places past the
/// decimal point.
#[derive(Clone, Copy, Debug, PartialEq, Eq, Structural)]
pub struct MoneyAggregate(pub Money);

/// Rounds a fixed-point balance (in `Money` units, 100000 per whole) to the
/// output precision of four decimal places (10000 per whole), half away
/// from zero.
pub open spec fn spec_output_units(m: int) -> int {
    if m >= 0 {
        (m + 5) / 10
    } else {
        -(((-m) + 5) / 10)
    }
}

impl MoneyAggregate {
    /// The value this balance serializes as, in units of one ten-thousandth
    /// of a whole: the nearest four-decimal value, ties rounded away from
    /// zero.
    pub fn output_units(&self) -> (r: i64)
        ensures
            r == spec_output_units(self.0 as int),
    {
        if self.0 >= 0 {
            let m: u64 = self.0 as u64;
            let q: u64 = m / 10;
            let rem: u64 = m % 10;
            let out: u64 = if rem >= 5 { q + 1 } else { q };
            proof {
                assert(out == (m + 5) / 10) by {
                    assert(m == 10 * (m / 10) + m % 10);
                };
            }
            out as i64
        } else {
            let n: u64 = (-(self.0 as i128)) as u64;
            let q: u64 = n / 10;
            let rem: u64 = n % 10;
            let out: u64 = if rem >= 5 { q + 1 } else { q };
            proof {
                assert(n == -(self.0 as int));
                assert(out == (n + 5) / 10) by {
                    assert(n == 10 * (n / 10) + n % 10);
                };
            }
            -(out as i64)
        }
    }
}

/// Why the ledger refused a transaction. Every rejection leaves the
/// account's balances exactly as they were.
#[derive(Clone, Copy, Debug, PartialEq, Eq, Structural)]
pub enum Error {
    /// The account was locked by an earlier chargeback.
    AccountLocked(AccountId),
    /// A dispute, resolve or chargeback referenced an id that is not in the
    /// account's stored history.
    TransactionNotFound(TransactionId),
    /// A withdrawal asked for more than the available balance.
    InsufficientFunds(AccountId),
    /// A deposit or withdrawal arrived without an amount.
    AmountMissingWhenRequired(TransactionId),
    /// A dispute, resolve or chargeback arrived with an amount, which is
    /// ambiguous for a record that only references a prior transaction.
    AmountPresentWhenAmbiguous(TransactionId),
    /// The referenced transaction's dispute flag does not fit the request:
    /// disputing an already-disputed transaction, or resolving or charging
    /// back one that is not disputed.
    InvalidTransactionState(TransactionId),
    /// The referenced transaction is not a deposit; only deposits can be
    /// disputed.
    InvalidTransactionType(TransactionId),
    /// Applying the transaction would take a balance outside the range the
    /// fixed-point representation can hold.
    BalanceOutOfRange(TransactionId),
}

/// The mathematical state of one account: exact integer balances and the
/// stored transaction history as a map.
#[verifier::ext_equal]
pub struct AccountState {
    /// The account's id.
    pub id: AccountId,
    /// Funds the client may withdraw now.
    pub available: int,
    /// Funds frozen pending dispute resolution.
    pub held: int,
    /// Full balance; always `available + held` in well-formed states.
    pub total: int,
    /// Set by a chargeback; a locked account accepts nothing further.
    pub locked: bool,
    /// Accepted deposits and withdrawals, keyed by transaction id.
    pub transactions: Map<TransactionId, StoredTransaction>,
}

/// Whether a balance fits the fixed-point representation.
pub open spec fn in_money_range(x: int) -> bool {
    i64::MIN <= x <= i64::MAX
}

/// The state of an account the first time its id appears in the input.
pub open spec fn empty_state(id: AccountId) -> AccountState {
    AccountState {
        id,
        available: 0,
        held: 0,
        total: 0,
        locked: false,
        transactions: Map::empty(),
    }
}

/// What every stored history entry satisfies: it sits under its own id and
/// is one of the two kinds that can be referenced later.
pub open spec fn stored_wf(id: TransactionId, t: StoredTransaction) -> bool {
    &&& t.id == id
    &&& t.kind == TransactionType::Deposit || t.kind == TransactionType::Withdrawal
}

/// Well-formedness of an account state: the balances fit the representation,
/// total equals available plus held, and the history is consistent.
pub open spec fn state_wf(s: AccountState) -> bool {
    &&& s.total == s.available + s.held
    &&& in_money_range(s.available)
    &&& in_money_range(s.held)
    &&& in_money_range(s.total)
    &&& forall|id: TransactionId| #[trigger]
        s.transactions.contains_key(id) ==> stored_wf(id, s.transactions[id])
}

/// Transition for a deposit: requires an amount, credits available and
/// total, and stores the record (undisputed) for later reference.
///
/// A negative amount is not rejected: amounts are assumed non-negative by
/// the upstream contract, and a record that breaks that assumption is
/// applied arithmetically rather than second-guessed here.
pub open spec fn spec_deposit(s: AccountState, t: Transaction) -> Result<AccountState, Error> {
    match t.amount {
        Option::None => Result::Err(Error::AmountMissingWhenRequired(t.id)),
        Option::Some(a) => {
            if !in_money_range(s.available + a) || !in_money_range(s.total + a) {
                Result::Err(Error::BalanceOutOfRange(t.id))
            } else {
                Result::Ok(AccountState {
                    available: s.available + a,
                    total: s.total + a,
                    transactions: s.transactions.insert(t.id, StoredTransaction {
                        id: t.id,
                        kind: TransactionType::Deposit,
                        amount: a,
                        disputed: false,
                    }),
                    ..s
                })
            }
        },
    }
}

/// Transition for a withdrawal: requires an amount, fails without mutation
/// if it would leave available negative, otherwise debits available and
/// total and stores the record.
pub open spec fn spec_withdraw(s: AccountState, t: Transaction) -> Result<AccountState, Error> {
    match t.amount {
        Option::None => Result::Err(Error::AmountMissingWhenRequired(t.id)),
        Option::Some(a) => {
            let candidate = s.available - a;
            if candidate < 0 {
                Result::Err(Error::InsufficientFunds(s.id))
            } else if !in_money_range(candidate) || !in_money_range(s.total - a) {
                Result::Err(Error::BalanceOutOfRange(t.id))
            } else {
                Result::Ok(AccountState {
                    available: candidate,
                    total: s.total - a,
                    transactions: s.transactions.insert(t.id, StoredTransaction {
                        id: t.id,
                        kind: TransactionType::Withdrawal,
                        amount: a,
                        disputed: false,
                    }),
                    ..s
                })
            }
        },
    }
}

/// Transition for a dispute: must carry no amount, must reference a stored,
/// not-yet-disputed deposit; moves that deposit's amount from available to
/// held and marks it disputed. Total is unchanged.
pub open spec fn spec_dispute(s: AccountState, t: Transaction) -> Result<AccountState, Error> {
    match t.amount {
        Option::Some(_) => Result::Err(Error::AmountPresentWhenAmbiguous(t.id)),
        Option::None => {
            if !s.transactions.contains_key(t.id) {
                Result::Err(Error::TransactionNotFound(t.id))
            } else {
                let st = s.transactions[t.id];
                if st.disputed {
                    Result::Err(Error::InvalidTransactionState(t.id))
                } else if st.kind != TransactionType::Deposit {
                    Result::Err(Error::InvalidTransactionType(t.id))
                } else if !in_money_range(s.available - st.amount)
                    || !in_money_range(s.held + st.amount) {
                    Result::Err(Error::BalanceOutOfRange(t.id))
                } else {
                    Result::Ok(AccountState {
                        available: s.available - st.amount,
                        held: s.held + st.amount,
                        transactions: s.transactions.insert(t.id, StoredTransaction {
                            disputed: true,
                            ..st
                        }),
                        ..s
                    })
                }
            }
        },
    }
}

/// Transition for a resolve: must carry no amount, must reference a stored,
/// currently disputed transaction; returns the held amount to available and
/// clears the dispute flag. Total is unchanged.
pub open spec fn spec_resolve(s: AccountState, t: Transaction) -> Result<AccountState, Error> {
    match t.amount {
        Option::Some(_) => Result::Err(Error::AmountPresentWhenAmbiguous(t.id)),
        Option::None => {
            if !s.transactions.contains_key(t.id) {
                Result::Err(Error::TransactionNotFound(t.id))
            } else {
                let st = s.transactions[t.id];
                if !st.disputed {
                    Result::Err(Error::InvalidTransactionState(t.id))
                } else if !in_money_range(s.available + st.amount)
                    || !in_money_range(s.held - st.amount) {
                    Result::Err(Error::BalanceOutOfRange(t.id))
                } else {
                    Result::Ok(AccountState {
                        available: s.available + st.amount,
                        held: s.held - st.amount,
                        transactions: s.transactions.insert(t.id, StoredTransaction {
                            disputed: false,
                            ..st
                        }),
                        ..s
                    })
                }
            }
        },
    }
}

/// Transition for a chargeback: must carry no amount, must reference a
/// stored, currently disputed transaction; removes the held amount from
/// held and total and locks the account for good.
pub open spec fn spec_chargeback(s: AccountState, t: Transaction) -> Result<AccountState, Error> {
    match t.amount {
        Option::Some(_) => Result::Err(Error::AmountPresentWhenAmbiguous(t.id)),
        Option::None => {
            if !s.transactions.contains_key(t.id) {
                Result::Err(Error::TransactionNotFound(t.id))
            } else {
                let st = s.transactions[t.id];
                if !st.disputed {
                    Result::Err(Error::InvalidTransactionState(t.id))
                } else if !in_money_range(s.held - st.amount)
                    || !in_money_range(s.total - st.amount) {
                    Result::Err(Error::BalanceOutOfRange(t.id))
                } else {
                    Result::Ok(AccountState {
                        held: s.held - st.amount,
                        total: s.total - st.amount,
                        locked: true,
                        ..s
                    })
                }
            }
        },
    }
}

/// The full transition of `Account::apply_transaction`: a locked account
/// rejects everything; otherwise the record is dispatched by kind. `Err`
/// means the state is left exactly unchanged.
pub open spec fn spec_apply(s: AccountState, t: Transaction) -> Result<AccountState, Error> {
    if s.locked {
        Result::Err(Error::AccountLocked(s.id))
    } else {
        match t.transaction_type {
            TransactionType::Deposit => spec_deposit(s, t),
            TransactionType::Withdrawal => spec_withdraw(s, t),
            TransactionType::Dispute => spec_dispute(s, t),
            TransactionType::Resolve => spec_resolve(s, t),
            TransactionType::Chargeback => spec_chargeback(s, t),
        }
    }
}

/// Law: applying any transaction to a well-formed account state yields a
/// well-formed state again; in particular `total == available + held` holds
/// exactly in every reachable state, and is maintained incrementally rather
/// than recomputed.
pub proof fn lemma_apply_preserves_invariant(s: AccountState, t: Transaction)
    requires
        state_wf(s),
    ensures
        match spec_apply(s, t) {
            Result::Ok(n) => state_wf(n) && n.total == n.available + n.held,
            Result::Err(_) => true,
        },
{
}

/// Law: a withdrawal that is accepted leaves the available balance
/// non-negative; one that would drive it negative is rejected with
/// `InsufficientFunds` (and, like every rejection, changes nothing).
pub proof fn lemma_withdrawal_keeps_available_nonnegative(s: AccountState, t: Transaction)
    requires
        state_wf(s),
        t.transaction_type == TransactionType::Withdrawal,
    ensures
        spec_apply(s, t) matches Result::Ok(n) ==> n.available >= 0,
        (t.amount matches Some(a) && !s.locked && s.available - a < 0) ==> spec_apply(s, t)
            == Result::<AccountState, Error>::Err(Error::InsufficientFunds(s.id)),
{
}

/// Law: once an account is locked, every further transaction of any kind is
/// rejected with `AccountLocked`, so no `apply` call changes `available`,
/// `held` or `total` again: the locked state is terminal.
pub proof fn lemma_locked_account_is_terminal(s: AccountState, t: Transaction)
    requires
        s.locked,
    ensures
        spec_apply(s, t) == Result::<AccountState, Error>::Err(Error::AccountLocked(s.id)),
{
}

/// Law: disputing an already-disputed transaction is rejected, and resolving
/// or charging back a transaction that is not under dispute is rejected,
/// each with `InvalidTransactionState`; being rejections, they leave the
/// balances unchanged.
pub proof fn lemma_dispute_state_is_checked(s: AccountState, t: Transaction)
    requires
        !s.locked,
        t.amount is None,
        s.transactions.contains_key(t.id),
    ensures
        t.transaction_type == TransactionType::Dispute && s.transactions[t.id].disputed
            ==> spec_apply(s, t) == Result::<AccountState, Error>::Err(
            Error::InvalidTransactionState(t.id),
        ),
        t.transaction_type == TransactionType::Resolve && !s.transactions[t.id].disputed
            ==> spec_apply(s, t) == Result::<AccountState, Error>::Err(
            Error::InvalidTransactionState(t.id),
        ),
        t.transaction_type == TransactionType::Chargeback && !s.transactions[t.id].disputed
            ==> spec_apply(s, t) == Result::<AccountState, Error>::Err(
            Error::InvalidTransactionState(t.id),
        ),
{
}

/// A client account: aggregate balances plus the stored history that
/// disputes reference by id.
pub struct Account {
    /// Account aka client id, `client` in the input.
    pub id: AccountId,
    /// Funds available for withdrawal.
    pub available: MoneyAggregate,
    /// Funds held for disputes.
    pub held: MoneyAggregate,
    /// Sum of funds available and held.
    pub total: MoneyAggregate,
    /// Locked by a chargeback; no further transactions are accepted.
    pub locked: bool,
    /// All referenceable transactions of this account, for lookup by id.
    pub transactions: HashMap<TransactionId, StoredTransaction>,
}

impl View for Account {
    type V = AccountState;

    open spec fn view(&self) -> AccountState {
        AccountState {
            id: self.id,
            available: self.available.0 as int,
            held: self.held.0 as int,
            total: self.total.0 as int,
            locked: self.locked,
            transactions: self.transactions@,
        }
    }
}

impl Account {
    /// Well-formedness of the account, kept by every operation.
    pub open spec fn wf(self) -> bool {
        state_wf(self@)
    }

    /// Creates an empty, unlocked account when its id is first encountered
    /// in the transaction input.
    pub fn new(id: AccountId) -> (a: Account)
        ensures
            a@ == empty_state(id),
            a.wf(),
    {
        let a = Account {
            id,
            locked: false,
            available: MoneyAggregate(0),
            held: MoneyAggregate(0),
            total: MoneyAggregate(0),
            transactions: HashMap::new(),
        };
        proof {
            assert(a@ =~= empty_state(id));
        }
        a
    }

    /// Stores an accepted deposit or withdrawal under its id.
    fn add_transaction(&mut self, stored: StoredTransaction)
        ensures
            final(self)@ == (AccountState {
                transactions: old(self)@.transactions.insert(stored.id, stored),
                ..old(self)@
            }),
    {
        self.transactions.insert(stored.id, stored);
        proof {
            assert(self@ =~= (AccountState {
                transactions: old(self)@.transactions.insert(stored.id, stored),
                ..old(self)@
            }));
        }
    }

    /// Looks up a stored transaction by id.
    fn get_transaction(&self, id: TransactionId) -> (r: Result<StoredTransaction, Error>)
        ensures
            match r {
                Result::Ok(st) => self@.transactions.contains_key(id)
                    && st == self@.transactions[id],
                Result::Err(e) => e == Error::TransactionNotFound(id)
                    && !self@.transactions.contains_key(id),
            },
    {
        match self.transactions.get(&id) {
            Option::Some(st) => Result::Ok(*st),
            Option::None => Result::Err(Error::TransactionNotFound(id)),
        }
    }

    /// Whether a prospective balance fits the fixed-point range.
    fn balance_fits(x: i128) -> (b: bool)
        ensures
            b == in_money_range(x as int),
    {
        i64::MIN as i128 <= x && x <= i64::MAX as i128
    }

    /// Credits the amount to available and total and stores the record.
    fn deposit(&mut self, transaction: Transaction) -> (r: Result<(), Error>)
        requires
            old(self).wf(),
        ensures
            final(self).wf(),
            match spec_deposit(old(self)@, transaction) {
                Result::Ok(s) => r == Result::<(), Error>::Ok(()) && final(self)@ == s,
                Result::Err(e) => r == Result::<(), Error>::Err(e) && final(self)@ == old(self)@,
            },
    {
        match transaction.amount {
            Option::Some(amount) => {
                let new_available: i128 = self.available.0 as i128 + amount as i128;
                let new_total: i128 = self.total.0 as i128 + amount as i128;
                if !Self::balance_fits(new_available) || !Self::balance_fits(new_total) {
                    return Result::Err(Error::BalanceOutOfRange(transaction.id));
                }
                self.available.0 = new_available as i64;
                self.total.0 = new_total as i64;
                self.add_transaction(StoredTransaction {
                    id: transaction.id,
                    kind: TransactionType::Deposit,
                    amount,
                    disputed: false,
                });
                Result::Ok(())
            },
            Option::None => Result::Err(Error::AmountMissingWhenRequired(transaction.id)),
        }
    }

    /// Debits the amount from available and total if enough is available,
    /// and stores the record; rejects without mutation otherwise.
    fn withdraw(&mut self, transaction: Transaction) -> (r: Result<(), Error>)
        requires
            old(self).wf(),
        ensures
            final(self).wf(),
            match spec_withdraw(old(self)@, transaction) {
                Result::Ok(s) => r == Result::<(), Error>::Ok(()) && final(self)@ == s,
                Result::Err(e) => r == Result::<(), Error>::Err(e) && final(self)@ == old(self)@,
            },
    {
        match transaction.amount {
            Option::Some(amount) => {
                let candidate: i128 = self.available.0 as i128 - amount as i128;
                if candidate < 0 {
                    return Result::Err(Error::InsufficientFunds(self.id));
                }
                let new_total: i128 = self.total.0 as i128 - amount as i128;
                if !Self::balance_fits(candidate) || !Self::balance_fits(new_total) {
                    return Result::Err(Error::BalanceOutOfRange(transaction.id));
                }
                self.available.0 = candidate as i64;
                self.total.0 = new_total as i64;
                self.add_transaction(StoredTransaction {
                    id: transaction.id,
                    kind: TransactionType::Withdrawal,
                    amount,
                    disputed: false,
                });
                Result::Ok(())
            },
            Option::None => Result::Err(Error::AmountMissingWhenRequired(transaction.id)),
        }
    }

    /// Moves a stored, undisputed deposit's amount from available to held
    /// and marks it disputed.
    fn dispute(&mut self, transaction: Transaction) -> (r: Result<(), Error>)
        requires
            old(self).wf(),
        ensures
            final(self).wf(),
            match spec_dispute(old(self)@, transaction) {
                Result::Ok(s) => r == Result::<(), Error>::Ok(()) && final(self)@ == s,
                Result::Err(e) => r == Result::<(), Error>::Err(e) && final(self)@ == old(self)@,
            },
    {
        match transaction.amount {
            Option::Some(_) => Result::Err(Error::AmountPresentWhenAmbiguous(transaction.id)),
            Option::None => {
                let stored = match self.get_transaction(transaction.id) {
                    Result::Ok(st) => st,
                    Result::Err(e) => {
                        return Result::Err(e);
                    },
                };
                if stored.disputed {
                    return Result::Err(Error::InvalidTransactionState(transaction.id));
                }
                if stored.kind != TransactionType::Deposit {
                    return Result::Err(Error::InvalidTransactionType(transaction.id));
                }
                let new_available: i128 = self.available.0 as i128 - stored.amount as i128;
                let new_held: i128 = self.held.0 as i128 + stored.amount as i128;
                if !Self::balance_fits(new_available) || !Self::balance_fits(new_held) {
                    return Result::Err(Error::BalanceOutOfRange(transaction.id));
                }
                self.available.0 = new_available as i64;
                self.held.0 = new_held as i64;
                self.add_transaction(StoredTransaction { disputed: true, ..stored });
                Result::Ok(())
            },
        }
    }

    /// Returns a disputed transaction's amount from held to available and
    /// clears its dispute flag.
    fn resolve(&mut self, transaction: Transaction) -> (r: Result<(), Error>)
        requires
            old(self).wf(),
        ensures
            final(self).wf(),
            match spec_resolve(old(self)@, transaction) {
                Result::Ok(s) => r == Result::<(), Error>::Ok(()) && final(self)@ == s,
                Result::Err(e) => r == Result::<(), Error>::Err(e) && final(self)@ == old(self)@,
            },
    {
        match transaction.amount {
            Option::Some(_) => Result::Err(Error::AmountPresentWhenAmbiguous(transaction.id)),
            Option::None => {
                let stored = match self.get_transaction(transaction.id) {
                    Result::Ok(st) => st,
                    Result::Err(e) => {
                        return Result::Err(e);
                    },
                };
                if !stored.disputed {
                    return Result::Err(Error::InvalidTransactionState(transaction.id));
                }
                let new_available: i128 = self.available.0 as i128 + stored.amount as i128;
                let new_held: i128 = self.held.0 as i128 - stored.amount as i128;
                if !Self::balance_fits(new_available) || !Self::balance_fits(new_held) {
                    return Result::Err(Error::BalanceOutOfRange(transaction.id));
                }
                self.available.0 = new_available as i64;
                self.held.0 = new_held as i64;
                self.add_transaction(StoredTransaction { disputed: false, ..stored });
                Result::Ok(())
            },
        }
    }

    /// Removes a disputed transaction's amount from held and total and
    /// locks the account permanently.
    fn chargeback(&mut self, transaction: Transaction) -> (r: Result<(), Error>)
        requires
            old(self).wf(),
        ensures
            final(self).wf(),
            match spec_chargeback(old(self)@, transaction) {
                Result::Ok(s) => r == Result::<(), Error>::Ok(()) && final(self)@ == s,
                Result::Err(e) => r == Result::<(), Error>::Err(e) && final(self)@ == old(self)@,
            },
    {
        match transaction.amount {
            Option::Some(_) => Result::Err(Error::AmountPresentWhenAmbiguous(transaction.id)),
            Option::None => {
                let stored = match self.get_transaction(transaction.id) {
                    Result::Ok(st) => st,
                    Result::Err(e) => {
                        return Result::Err(e);
                    },
                };
                if !stored.disputed {
                    return Result::Err(Error::InvalidTransactionState(transaction.id));
                }
                let new_held: i128 = self.held.0 as i128 - stored.amount as i128;
                let new_total: i128 = self.total.0 as i128 - stored.amount as i128;
                if !Self::balance_fits(new_held) || !Self::balance_fits(new_total) {
                    return Result::Err(Error::BalanceOutOfRange(transaction.id));
                }
                self.held.0 = new_held as i64;
                self.total.0 = new_total as i64;
                self.locked = true;
                Result::Ok(())
            },
        }
    }

    /// Applies one transaction to this account's aggregates: rejects
    /// everything while locked, otherwise dispatches on the record's kind.
    /// The exact outcome and successor state are given by `spec_apply`; on
    /// any error the account is left unchanged.
    pub fn apply_transaction(&mut self, transaction: Transaction) -> (r: Result<(), Error>)
        requires
            old(self).wf(),
        ensures
            final(self).wf(),
            match spec_apply(old(self)@, transaction) {
                Result::Ok(s) => r == Result::<(), Error>::Ok(()) && final(self)@ == s,
                Result::Err(e) => r == Result::<(), Error>::Err(e) && final(self)@ == old(self)@,
            },
    {
        if self.locked {
            return Result::Err(Error::AccountLocked(self.id));
        }
        match transaction.transaction_type {
            TransactionType::Deposit => self.deposit(transaction),
            TransactionType::Withdrawal => self.withdraw(transaction),
            TransactionType::Dispute => self.dispute(transaction),
            TransactionType::Resolve => self.resolve(transaction),
            TransactionType::Chargeback => self.chargeback(transaction),
        }
    }
}

} // verus!
