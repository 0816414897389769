//! Confirmation-status helpers: which of a batch of submitted transactions
//! have landed at the confirmed commitment level, and which of a set of
//! accounts holds the largest balance.
use vstd::prelude::*;

verus! {

/// Ledger commitment levels, weakest first.
#[derive(Clone, Copy, PartialEq, Eq, Structural, Debug)]
pub enum Commitment {
    Processed,
    Confirmed,
    Finalized,
}

/// The status the ledger reports for one transaction signature.
#[derive(Clone, Copy, PartialEq, Eq, Structural, Debug)]
pub struct TxStatus {
    pub commitment: Commitment,
}

/// A reported status satisfies the confirmed commitment level.
pub open spec fn confirmed_status(st: Option<TxStatus>) -> bool {
    st is Some && (st.unwrap().commitment is Confirmed || st.unwrap().commitment is Finalized)
}

/// The signatures among the first `n` whose reported status satisfies the
/// confirmed commitment level, in input order.
pub open spec fn landed_upto(sigs: Seq<u64>, sts: Seq<Option<TxStatus>>, n: int) -> Seq<u64>
    decreases n,
{
    if n <= 0 {
        Seq::empty()
    } else {
        landed_upto(sigs, sts, n - 1) + (if confirmed_status(sts[n - 1]) {
            seq![sigs[n - 1]]
        } else {
            Seq::empty()
        })
    }
}

/// Of the queried signatures, keep those whose status answer is present and
/// satisfies the confirmed commitment level.  `statuses[i]` answers for
/// `signatures[i]`.
pub fn find_landed_txs(signatures: &Vec<u64>, statuses: &Vec<Option<TxStatus>>) -> (r: Vec<u64>)
    requires
        signatures@.len() == statuses@.len(),
    ensures
        r@ == landed_upto(signatures@, statuses@, signatures@.len() as int),
{
    let mut r: Vec<u64> = Vec::new();
    let mut i: usize = 0;
    while i < signatures.len()
        invariant
            i <= signatures@.len(),
            signatures@.len() == statuses@.len(),
            r@ == landed_upto(signatures@, statuses@, i as int),
        decreases signatures@.len() - i,
    {
        let landed = match statuses[i] {
            Some(st) => match st.commitment {
                Commitment::Processed => false,
                Commitment::Confirmed => true,
                Commitment::Finalized => true,
            },
            None => false,
        };
        if landed {
            r.push(signatures[i]);
        }
        i += 1;
    }
    r
}

/// The balance recorded for `key` in the table: the value of the first entry
/// carrying that address, if any.
pub open spec fn lookup_spec(t: Seq<(u64, u64)>, key: u64) -> Option<u64>
    decreases t.len(),
{
    if t.len() == 0 {
        None
    } else if t[0].0 == key {
        Some(t[0].1)
    } else {
        lookup_spec(t.skip(1), key)
    }
}

/// Look a balance up in the table built by `get_balances`.
pub fn lookup_balance(table: &Vec<(u64, u64)>, key: u64) -> (r: Option<u64>)
    ensures
        r == lookup_spec(table@, key),
{
    let mut i: usize = 0;
    assert(table@.skip(0) =~= table@);
    while i < table.len()
        invariant
            i <= table@.len(),
            lookup_spec(table@, key) == lookup_spec(table@.skip(i as int), key),
            forall|j: int| 0 <= j < i ==> (#[trigger] table@[j]).0 != key,
        decreases table@.len() - i,
    {
        if table[i].0 == key {
            assert(table@.skip(i as int)[0] == table@[i as int]);
            return Some(table[i].1);
        }
        assert(table@.skip(i as int).skip(1) =~= table@.skip(i + 1 as int));
        i += 1;
    }
    assert(table@.skip(i as int).len() == 0);
    None
}

/// Of a non-empty set of accounts, each with a recorded balance, return the
/// one with the largest balance; among equally rich accounts, the last one.
pub fn pick_richest_account(balances: &Vec<(u64, u64)>, accounts: &Vec<u64>) -> (r: u64)
    requires
        accounts@.len() >= 1,
        forall|i: int| 0 <= i < accounts@.len() ==> lookup_spec(balances@, #[trigger] accounts@[i]) is Some,
    ensures
        accounts@.contains(r),
        forall|i: int| 0 <= i < accounts@.len()
            ==> lookup_spec(balances@, #[trigger] accounts@[i]).unwrap()
                <= lookup_spec(balances@, r).unwrap(),
{
    assert(lookup_spec(balances@, accounts@[0]) is Some);
    let mut best: u64 = accounts[0];
    let mut best_balance: u64 = match lookup_balance(balances, best) {
        Some(b) => b,
        None => 0,
    };
    assert(accounts@.contains(best)) by {
        assert(accounts@[0] == best);
    }
    let mut i: usize = 1;
    while i < accounts.len()
        invariant
            1 <= i <= accounts@.len(),
            forall|j: int| 0 <= j < accounts@.len()
                ==> lookup_spec(balances@, #[trigger] accounts@[j]) is Some,
            accounts@.contains(best),
            lookup_spec(balances@, best) == Some(best_balance),
            forall|j: int| 0 <= j < i
                ==> lookup_spec(balances@, #[trigger] accounts@[j]).unwrap() <= best_balance,
        decreases accounts@.len() - i,
    {
        assert(lookup_spec(balances@, accounts@[i as int]) is Some);
        let candidate = accounts[i];
        let candidate_balance = match lookup_balance(balances, candidate) {
            Some(b) => b,
            None => 0,
        };
        if candidate_balance >= best_balance {
            best = candidate;
            best_balance = candidate_balance;
            assert(accounts@.contains(best)) by {
                assert(accounts@[i as int] == best);
            }
        }
        i += 1;
    }
    best
}

} // verus!
