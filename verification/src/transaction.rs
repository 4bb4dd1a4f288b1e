//! Transaction records and the kinds of transaction the ledger accepts.

use vstd::prelude::*;

verus! {

/// Client account id.
pub type AccountId = u16;

/// Transaction id, unique within an account's history.
pub type TransactionId = u32;

/// A monetary value in fixed-point representation: `MONEY_UNITS_PER_WHOLE`
/// units stand for one whole currency unit.
pub type Money = i64;

/// Fixed-point scale: one whole currency unit in `Money` units. The scale is
/// finer than the four decimal places of the output format, so balances may
/// carry a fifth decimal digit that output rounding discards.
pub const MONEY_UNITS_PER_WHOLE: i64 = 100_000;

/// The five transaction kinds. The set is closed: anything else is rejected
/// by the input parser before it reaches the ledger.
#[derive(Clone, Copy, Debug, PartialEq, Eq, Structural)]
pub enum TransactionType {
    /// Credit to the client's account: increases available and total funds.
    Deposit,
    /// Debit to the client's account: decreases available and total funds.
    Withdrawal,
    /// Claim that a prior deposit was erroneous: moves its amount from
    /// available to held.
    Dispute,
    /// Resolution of a dispute: returns the held amount to available.
    Resolve,
    /// Final ruling against the client: removes the held amount and locks
    /// the account.
    Chargeback,
}

/// One incoming transaction record, as handed over by the input parser.
#[derive(Clone, Copy, Debug, PartialEq)]
pub struct Transaction {
    /// Transaction id, `tx` in the input.
    pub id: TransactionId,
    /// Client account id, `client` in the input.
    pub account_id: AccountId,
    /// Which of the five kinds this record is.
    pub transaction_type: TransactionType,
    /// Amount: required for deposits and withdrawals, and must be absent for
    /// the three kinds that reference a prior transaction by id.
    pub amount: Option<Money>,
    /// Carried for parity with the input record layout; the ledger ignores
    /// it and tracks dispute state in its own stored history.
    pub disputed: bool,
}

impl Transaction {
    /// Builds a record field by field, in the input file's column order.
    pub fn new(
        transaction_type: TransactionType,
        client: AccountId,
        tx: TransactionId,
        amount: Option<Money>,
        disputed: bool,
    ) -> (t: Transaction)
        ensures
            t == (Transaction {
                id: tx,
                account_id: client,
                transaction_type,
                amount,
                disputed,
            }),
    {
        Transaction { transaction_type, account_id: client, id: tx, amount, disputed }
    }
}

/// The part of an accepted deposit or withdrawal that the ledger keeps for
/// later reference by disputes. Only these two kinds are retained.
#[derive(Clone, Copy, Debug, PartialEq, Eq, Structural)]
pub struct StoredTransaction {
    /// Id under which the transaction is stored and referenced.
    pub id: TransactionId,
    /// Deposit or Withdrawal; no other kind is ever stored.
    pub kind: TransactionType,
    /// The committed amount.
    pub amount: Money,
    /// True while the amount is held pending a dispute's resolution.
    pub disputed: bool,
}

} // verus!
