//! Routing of a transaction stream across accounts: one ledger per account
//! id, created lazily the first time an id appears.

use std::collections::HashMap;
use vstd::prelude::*;

use crate::account::{empty_state, lemma_apply_preserves_invariant, spec_apply, state_wf, Account,
    AccountState, Error};
use crate::transaction::{AccountId, Money, Transaction};

verus! {

broadcast use vstd::std_specs::hash::group_hash_axioms;

/// The final, per-account read of an engine run, one row of the output:
/// raw (unrounded) fixed-point balances and the locked flag.
#[derive(Clone, Copy, Debug, PartialEq, Eq, Structural)]
pub struct AccountSnapshot {
    /// The account's id, `client` in the output.
    pub client: AccountId,
    /// Funds available for withdrawal.
    pub available: Money,
    /// Funds held for disputes.
    pub held: Money,
    /// Sum of funds available and held.
    pub total: Money,
    /// Whether a chargeback locked the account.
    pub locked: bool,
}

/// Whether a snapshot reads exactly the given account state.
pub open spec fn snapshot_matches(s: AccountState, snap: AccountSnapshot) -> bool {
    &&& snap.client == s.id
    &&& snap.available == s.available
    &&& snap.held == s.held
    &&& snap.total == s.total
    &&& snap.locked == s.locked
}

/// Routing one record: the account is looked up, or created empty on first
/// reference, and the record is applied to it. A rejection leaves the
/// account as it was -- but created nonetheless.
pub open spec fn spec_route(
    m: Map<AccountId, AccountState>,
    t: Transaction,
) -> Map<AccountId, AccountState> {
    let s = if m.contains_key(t.account_id) {
        m[t.account_id]
    } else {
        empty_state(t.account_id)
    };
    let s2 = match spec_apply(s, t) {
        Result::Ok(n) => n,
        Result::Err(_) => s,
    };
    m.insert(t.account_id, s2)
}

/// Routing a whole record sequence, strictly in input order, each record
/// independent of whether earlier ones were rejected.
pub open spec fn spec_input(
    m: Map<AccountId, AccountState>,
    ts: Seq<Transaction>,
) -> Map<AccountId, AccountState>
    decreases ts.len(),
{
    if ts.len() == 0 {
        m
    } else {
        spec_input(spec_route(m, ts[0]), ts.skip(1))
    }
}

/// Law: routing one record keeps every account state well-formed and keyed
/// by its own id; in particular `total == available + held` holds for every
/// account after the record, whether it was applied or rejected.
pub proof fn lemma_route_preserves_state_wf(m: Map<AccountId, AccountState>, t: Transaction)
    requires
        forall|id: AccountId| #[trigger]
            m.contains_key(id) ==> state_wf(m[id]) && m[id].id == id,
    ensures
        forall|id: AccountId| #[trigger]
            spec_route(m, t).contains_key(id) ==> state_wf(spec_route(m, t)[id])
                && spec_route(m, t)[id].id == id,
{
    let s = if m.contains_key(t.account_id) {
        m[t.account_id]
    } else {
        empty_state(t.account_id)
    };
    lemma_apply_preserves_invariant(s, t);
}

/// Law: across a whole run, every account state the processor ever holds is
/// well-formed, so the balance invariant holds in every reachable state.
pub proof fn lemma_input_preserves_state_wf(m: Map<AccountId, AccountState>, ts: Seq<Transaction>)
    requires
        forall|id: AccountId| #[trigger]
            m.contains_key(id) ==> state_wf(m[id]) && m[id].id == id,
    ensures
        forall|id: AccountId| #[trigger]
            spec_input(m, ts).contains_key(id) ==> state_wf(spec_input(m, ts)[id])
                && spec_input(m, ts)[id].id == id,
    decreases ts.len(),
{
    if ts.len() > 0 {
        lemma_route_preserves_state_wf(m, ts[0]);
        lemma_input_preserves_state_wf(spec_route(m, ts[0]), ts.skip(1));
        assert(spec_input(m, ts) == spec_input(spec_route(m, ts[0]), ts.skip(1)));
    }
}

/// Takes parsed transaction records, applies them to accounts, and exposes
/// the accounts' final snapshots.
pub struct Engine {
    /// Accounts in memory, for lookup by id.
    pub account_map: HashMap<AccountId, Account>,
    /// The account ids in order of first appearance; exactly the keys of
    /// `account_map`, each once. Fixes the snapshot order.
    pub account_ids: Vec<AccountId>,
}

impl View for Engine {
    type V = Map<AccountId, AccountState>;

    open spec fn view(&self) -> Map<AccountId, AccountState> {
        Map::new(
            |id: AccountId| self.account_map@.contains_key(id),
            |id: AccountId| self.account_map@[id]@,
        )
    }
}

impl Engine {
    /// Well-formedness: every stored account is well-formed and keyed by its
    /// own id, and `account_ids` lists the map's keys without duplicates.
    pub open spec fn wf(self) -> bool {
        &&& forall|id: AccountId| #[trigger]
            self.account_map@.contains_key(id) ==> self.account_map@[id].wf()
                && self.account_map@[id]@.id == id
        &&& self.account_ids@.to_set() == self.account_map@.dom()
        &&& self.account_ids@.no_duplicates()
    }

    /// An engine with no accounts yet.
    pub fn new() -> (e: Engine)
        ensures
            e@ == Map::<AccountId, AccountState>::empty(),
            e.wf(),
    {
        let e = Engine { account_map: HashMap::new(), account_ids: Vec::new() };
        proof {
            assert(e@ =~= Map::<AccountId, AccountState>::empty());
            assert(e.account_ids@.to_set() =~= e.account_map@.dom());
        }
        e
    }

    /// Routes one record to its account, creating the account on first
    /// reference, and applies it there. The returned result is the ledger's
    /// verdict on the record; an `Err` never aborts a run.
    pub fn process_record(&mut self, transaction: Transaction) -> (r: Result<(), Error>)
        requires
            old(self).wf(),
        ensures
            final(self).wf(),
            final(self)@ == spec_route(old(self)@, transaction),
            ({
                let s = if old(self)@.contains_key(transaction.account_id) {
                    old(self)@[transaction.account_id]
                } else {
                    empty_state(transaction.account_id)
                };
                match spec_apply(s, transaction) {
                    Result::Ok(_) => r == Result::<(), Error>::Ok(()),
                    Result::Err(e) => r == Result::<(), Error>::Err(e),
                }
            }),
    {
        let id = transaction.account_id;
        let mut account = match self.account_map.remove(&id) {
            Option::Some(a) => a,
            Option::None => {
                proof {
                    assert(!old(self).account_ids@.to_set().contains(id));
                    assert(!old(self).account_ids@.contains(id));
                    old(self).account_ids@.lemma_push_to_set_commute(id);
                }
                self.account_ids.push(id);
                proof {
                    let ids = self.account_ids@;
                    let olds = old(self).account_ids@;
                    assert forall|k: int, l: int| 0 <= k < l < ids.len() implies ids[k]
                        != ids[l] by {
                        if l < olds.len() {
                            assert(olds[k] != olds[l]);
                        } else {
                            assert(ids[l] == id);
                            assert(ids[k] == olds[k]);
                            assert(olds[k] != id) by {
                                if olds[k] == id {
                                    assert(olds.contains(id));
                                }
                            };
                        }
                    };
                    assert(ids.no_duplicates());
                }
                Account::new(id)
            },
        };
        let r = account.apply_transaction(transaction);
        self.account_map.insert(id, account);
        proof {
            assert(self.account_ids@.to_set() =~= self.account_map@.dom());
            assert(self@ =~= spec_route(old(self)@, transaction));
        }
        r
    }

    /// Applies a record sequence in order. Rejected records are skipped;
    /// the run continues with the next record, as `spec_input` states.
    pub fn input(&mut self, transactions: &Vec<Transaction>)
        requires
            old(self).wf(),
        ensures
            final(self).wf(),
            final(self)@ == spec_input(old(self)@, transactions@),
    {
        let n = transactions.len();
        proof {
            assert(transactions@.skip(0) =~= transactions@);
        }
        let mut i: usize = 0;
        while i < n
            invariant
                self.wf(),
                i <= n,
                n == transactions@.len(),
                spec_input(old(self)@, transactions@) == spec_input(
                    self@,
                    transactions@.skip(i as int),
                ),
            decreases n - i,
        {
            proof {
                assert(transactions@.skip(i as int)[0] == transactions@[i as int]);
                assert(transactions@.skip(i as int).skip(1) =~= transactions@.skip(i as int + 1));
            }
            let _ = self.process_record(transactions[i]);
            i += 1;
        }
        proof {
            assert(transactions@.skip(n as int) =~= Seq::<Transaction>::empty());
        }
    }

    /// Reads every account's final snapshot, in order of first appearance
    /// in the input: one snapshot per account, each reading its account's
    /// state exactly.
    pub fn snapshots(&self) -> (v: Vec<AccountSnapshot>)
        requires
            self.wf(),
        ensures
            v@.len() == self.account_ids@.len(),
            forall|j: int|
                0 <= j < v@.len() ==> (#[trigger] v@[j]).client == self.account_ids@[j],
            forall|j: int|
                0 <= j < v@.len() ==> self@.contains_key(#[trigger] v@[j].client)
                    && snapshot_matches(self@[v@[j].client], v@[j]),
            forall|id: AccountId| #[trigger]
                self@.contains_key(id) ==> exists|j: int|
                    0 <= j < v@.len() && v@[j].client == id,
    {
        let mut v: Vec<AccountSnapshot> = Vec::new();
        let n = self.account_ids.len();
        let mut i: usize = 0;
        while i < n
            invariant
                self.wf(),
                i <= n,
                n == self.account_ids@.len(),
                v@.len() == i,
                forall|j: int|
                    0 <= j < i ==> (#[trigger] v@[j]).client == self.account_ids@[j]
                        && self@.contains_key(v@[j].client)
                        && snapshot_matches(self@[v@[j].client], v@[j]),
            decreases n - i,
        {
            let id = self.account_ids[i];
            proof {
                assert(self.account_ids@.contains(id));
                assert(self.account_map@.dom().contains(id));
            }
            let account = match self.account_map.get(&id) {
                Option::Some(a) => a,
                Option::None => vstd::pervasive::unreached(),
            };
            v.push(AccountSnapshot {
                client: account.id,
                available: account.available.0,
                held: account.held.0,
                total: account.total.0,
                locked: account.locked,
            });
            i += 1;
        }
        proof {
            assert forall|id: AccountId| self@.contains_key(id) implies exists|j: int|
                0 <= j < v@.len() && v@[j].client == id by {
                assert(self.account_map@.dom().contains(id));
                assert(self.account_ids@.to_set().contains(id));
                assert(self.account_ids@.contains(id));
                let j = choose|j: int|
                    0 <= j < self.account_ids@.len() && self.account_ids@[j] == id;
                assert(v@[j].client == id);
            };
        }
        v
    }
}

} // verus!
