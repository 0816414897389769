//! Building one operation set for one transfer group: one transfer per
//! member, a fee payer picked uniformly at random among the members, and —
//! only for the first set of a bundle — the single bribe operation, appended
//! last and paid by that set's fee payer.
use vstd::prelude::*;
use rand::Rng;
use crate::model::{Operation, OperationSet, set_wf, copy_accounts, GROUP_SIZE};

verus! {

/// Relies on rand's `thread_rng` and `Rng::gen_range` over `0..n`: the
/// sample is drawn from the half-open range, so it is a valid index below
/// `n`; the call panics only on an empty range, which `n >= 1` excludes.
#[verifier::external_body]
fn random_index(n: usize) -> (r: usize)
    requires
        n >= 1,
    ensures
        r < n,
{
    rand::thread_rng().gen_range(0..n)
}

/// Build the operations of one group: a transfer `group[i] -> recipient` of
/// `amount` for every member, in member order, and — exactly when the group
/// is the first of its bundle — one bribe of `bribe_amount`, paid by the
/// chosen fee payer and appended last.
pub fn build_operation_set(
    group: &Vec<u64>,
    payer_index: usize,
    recipient: u64,
    amount: u64,
    first_in_bundle: bool,
    bribe_amount: u64,
) -> (s: OperationSet)
    requires
        1 <= group@.len() <= GROUP_SIZE,
        payer_index < group@.len(),
    ensures
        set_wf(s, recipient, amount, bribe_amount, first_in_bundle),
        s.members@ == group@,
        s.payer == group@[payer_index as int],
        s.ops@.len() == group@.len() + (if first_in_bundle { 1int } else { 0int }),
{
    let payer = group[payer_index];
    let mut ops: Vec<Operation> = Vec::new();
    let mut i: usize = 0;
    while i < group.len()
        invariant
            i <= group@.len(),
            ops@.len() == i,
            forall|j: int| 0 <= j < i
                ==> ops@[j] == (Operation::Transfer { from: group@[j], to: recipient, amount }),
        decreases group@.len() - i,
    {
        ops.push(Operation::Transfer { from: group[i], to: recipient, amount });
        i += 1;
    }
    if first_in_bundle {
        ops.push(Operation::Bribe { payer, amount: bribe_amount });
    }
    let members = copy_accounts(group);
    let s = OperationSet { members, payer, ops };
    assert(s.members@.contains(s.payer)) by {
        assert(s.members@[payer_index as int] == s.payer);
    }
    s
}

/// Build the operations of one group with the fee payer picked uniformly at
/// random among the group's members, as the run does.
pub fn build_operation_set_random(
    group: &Vec<u64>,
    recipient: u64,
    amount: u64,
    first_in_bundle: bool,
    bribe_amount: u64,
) -> (s: OperationSet)
    requires
        1 <= group@.len() <= GROUP_SIZE,
    ensures
        set_wf(s, recipient, amount, bribe_amount, first_in_bundle),
        s.members@ == group@,
        s.ops@.len() == group@.len() + (if first_in_bundle { 1int } else { 0int }),
{
    let payer_index = random_index(group.len());
    build_operation_set(group, payer_index, recipient, amount, first_in_bundle, bribe_amount)
}

} // verus!
