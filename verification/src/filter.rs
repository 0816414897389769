//! Eligibility filtering: of the candidate signing accounts, only those for
//! which the ledger holds an account record may be debited.  The existence
//! lookups themselves are network reads done by the caller; this module turns
//! their per-address answers into the eligible account list.
use vstd::prelude::*;

verus! {

/// The first `n` candidates kept by the filter: address `i` survives exactly
/// when its lookup found an account.
pub open spec fn eligible_upto(a: Seq<u64>, f: Seq<bool>, n: int) -> Seq<u64>
    decreases n,
{
    if n <= 0 {
        Seq::empty()
    } else {
        eligible_upto(a, f, n - 1) + (if f[n - 1] {
            seq![a[n - 1]]
        } else {
            Seq::empty()
        })
    }
}

/// The whole filtered candidate list.
pub open spec fn eligible_spec(a: Seq<u64>, f: Seq<bool>) -> Seq<u64> {
    eligible_upto(a, f, a.len() as int)
}

/// `x` is one of the candidates in `a`, at a position whose lookup found an
/// account record.
pub open spec fn appears_found(x: u64, a: Seq<u64>, f: Seq<bool>) -> bool {
    exists|k: int| 0 <= k < a.len() && #[trigger] a[k] == x && f[k]
}

/// Every element of `r` is one of the candidates in `a` whose lookup found
/// an account record.
pub open spec fn subset_of_found(r: Seq<u64>, a: Seq<u64>, f: Seq<bool>) -> bool {
    forall|j: int| 0 <= j < r.len() ==> appears_found(#[trigger] r[j], a, f)
}

/// Keep the candidates whose existence lookup found an account record.
/// `found[i]` answers for `accounts[i]`.  The result is a subset of the
/// input, in input order, and every returned address had a non-absent lookup
/// result.
pub fn filter_eligible(accounts: &Vec<u64>, found: &Vec<bool>) -> (r: Vec<u64>)
    requires
        accounts@.len() == found@.len(),
    ensures
        r@ == eligible_spec(accounts@, found@),
        subset_of_found(r@, accounts@, found@),
{
    let mut r: Vec<u64> = Vec::new();
    let mut i: usize = 0;
    let ghost mut wit: Seq<int> = Seq::empty();
    while i < accounts.len()
        invariant
            i <= accounts@.len(),
            accounts@.len() == found@.len(),
            r@ == eligible_upto(accounts@, found@, i as int),
            wit.len() == r@.len(),
            forall|j: int| 0 <= j < r@.len()
                ==> 0 <= #[trigger] wit[j] < i && accounts@[wit[j]] == r@[j] && found@[wit[j]],
        decreases accounts@.len() - i,
    {
        if found[i] {
            r.push(accounts[i]);
            proof {
                wit = wit.push(i as int);
            }
        }
        i += 1;
    }
    proof {
        assert forall|j: int| 0 <= j < r@.len() implies appears_found(#[trigger] r@[j], accounts@, found@) by {
            assert(0 <= wit[j] < accounts@.len() && accounts@[wit[j]] == r@[j] && found@[wit[j]]);
        }
    }
    r
}

/// The balance table built from the first `n` lookup answers: one entry per
/// address whose account was found, carrying its balance.
pub open spec fn balances_upto(a: Seq<u64>, l: Seq<Option<u64>>, n: int) -> Seq<(u64, u64)>
    decreases n,
{
    if n <= 0 {
        Seq::empty()
    } else {
        balances_upto(a, l, n - 1) + (match l[n - 1] {
            Some(b) => seq![(a[n - 1], b)],
            None => Seq::empty(),
        })
    }
}

/// Pair each address whose lookup found an account with that account's
/// balance, dropping the absent ones.  `lamports[i]` answers for
/// `accounts[i]`.
pub fn get_balances(accounts: &Vec<u64>, lamports: &Vec<Option<u64>>) -> (r: Vec<(u64, u64)>)
    requires
        accounts@.len() == lamports@.len(),
    ensures
        r@ == balances_upto(accounts@, lamports@, accounts@.len() as int),
{
    let mut r: Vec<(u64, u64)> = Vec::new();
    let mut i: usize = 0;
    while i < accounts.len()
        invariant
            i <= accounts@.len(),
            accounts@.len() == lamports@.len(),
            r@ == balances_upto(accounts@, lamports@, i as int),
        decreases accounts@.len() - i,
    {
        match lamports[i] {
            Some(b) => {
                r.push((accounts[i], b));
            },
            None => {},
        }
        i += 1;
    }
    r
}

} // verus!
