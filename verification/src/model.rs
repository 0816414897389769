//! The data model of the settlement engine: operations, operation sets,
//! block references and signed transactions, together with the
//! well-formedness conditions that the builder establishes and every later
//! stage preserves.
use vstd::prelude::*;

verus! {

/// Number of accounts per transfer group, and also the largest number of
/// operation sets that one bundle may carry.
pub const GROUP_SIZE: usize = 5;

/// One ledger operation: either a plain transfer of `amount` from `from` to
/// `to`, or the single bribe that pays the auction relay for inclusion.
#[derive(Clone, Copy, PartialEq, Eq, Structural, Debug)]
pub enum Operation {
    Transfer { from: u64, to: u64, amount: u64 },
    Bribe { payer: u64, amount: u64 },
}

/// The operations built for one transfer group, together with the group's
/// members (its co-signers) and the fee payer chosen among them.
#[derive(Clone, Debug)]
pub struct OperationSet {
    pub members: Vec<u64>,
    pub payer: u64,
    pub ops: Vec<Operation>,
}

/// A recent block identifier and the height at which it was observed; stale
/// references are rejected by the ledger, so every submission attempt fetches
/// a fresh one.
#[derive(Clone, Copy, PartialEq, Eq, Structural, Debug)]
pub struct BlockRef {
    pub hash: u64,
    pub height: u64,
}

/// A signed transaction: one operation set bound to a block reference and
/// signed by all of the group's members.
#[derive(Clone, Debug)]
pub struct SignedTx {
    pub ops: Vec<Operation>,
    pub payer: u64,
    pub signers: Vec<u64>,
    pub block_ref: BlockRef,
}

/// Shape of the operations built for one group.  The set holds one transfer
/// per member, in member order, all to the same recipient and for the same
/// amount; the payer is one of the members; and exactly when the set is the
/// first of its bundle, one bribe operation paid by the payer stands last.
pub open spec fn set_wf(s: OperationSet, recipient: u64, amount: u64, bribe: u64, first: bool) -> bool {
    &&& 1 <= s.members@.len() <= GROUP_SIZE
    &&& s.members@.contains(s.payer)
    &&& s.ops@.len() == s.members@.len() + (if first { 1int } else { 0int })
    &&& forall|i: int| 0 <= i < s.members@.len()
            ==> s.ops@[i] == (Operation::Transfer { from: s.members@[i], to: recipient, amount })
    &&& first ==> s.ops@.last() == (Operation::Bribe { payer: s.payer, amount: bribe })
}

/// Shape of a bundle: at most `GROUP_SIZE` operation sets, each well formed,
/// and only the first one carries the bribe.
pub open spec fn bundle_wf(b: Seq<OperationSet>, recipient: u64, amount: u64, bribe: u64) -> bool {
    &&& b.len() <= GROUP_SIZE
    &&& forall|i: int| 0 <= i < b.len() ==> set_wf(#[trigger] b[i], recipient, amount, bribe, i == 0)
}

/// How many bribe operations a list of operations holds.
pub open spec fn bribe_ops(ops: Seq<Operation>) -> nat
    decreases ops.len(),
{
    if ops.len() == 0 {
        0
    } else {
        bribe_ops(ops.drop_last()) + (if ops.last() is Bribe { 1nat } else { 0nat })
    }
}

proof fn lemma_bribe_ops_all_transfers(ops: Seq<Operation>)
    requires
        forall|i: int| 0 <= i < ops.len() ==> #[trigger] ops[i] is Transfer,
    ensures
        bribe_ops(ops) == 0,
    decreases ops.len(),
{
    if ops.len() > 0 {
        lemma_bribe_ops_all_transfers(ops.drop_last());
    }
}

/// Law: every non-empty well-formed bundle carries exactly one bribe
/// operation, and it sits in the bundle's first operation set, whatever the
/// bundle's size.
pub proof fn lemma_one_bribe_per_bundle(b: Seq<OperationSet>, recipient: u64, amount: u64, bribe: u64)
    requires
        bundle_wf(b, recipient, amount, bribe),
        b.len() >= 1,
    ensures
        bribe_ops(b[0].ops@) == 1,
        forall|i: int| 1 <= i < b.len() ==> bribe_ops(#[trigger] b[i].ops@) == 0,
{
    let ops0 = b[0].ops@;
    assert(set_wf(b[0], recipient, amount, bribe, true));
    assert(forall|i: int| 0 <= i < ops0.drop_last().len() ==> #[trigger] ops0.drop_last()[i] is Transfer);
    lemma_bribe_ops_all_transfers(ops0.drop_last());
    assert forall|i: int| 1 <= i < b.len() implies bribe_ops(#[trigger] b[i].ops@) == 0 by {
        assert(set_wf(b[i], recipient, amount, bribe, false));
        assert(forall|j: int| 0 <= j < b[i].ops@.len() ==> #[trigger] b[i].ops@[j] is Transfer);
        lemma_bribe_ops_all_transfers(b[i].ops@);
    }
}

/// The signed transactions are the bundle's sets, in order, each bound to the
/// block reference `r` and signed by its own group's members.
pub open spec fn signed_matches(txs: Seq<SignedTx>, b: Seq<OperationSet>, r: BlockRef) -> bool {
    &&& txs.len() == b.len()
    &&& forall|i: int| 0 <= i < b.len() ==> {
            &&& (#[trigger] txs[i]).ops@ == b[i].ops@
            &&& txs[i].payer == b[i].payer
            &&& txs[i].signers@ == b[i].members@
            &&& txs[i].block_ref == r
        }
}

fn copy_ops(v: &Vec<Operation>) -> (r: Vec<Operation>)
    ensures
        r@ == v@,
{
    let mut r: Vec<Operation> = Vec::new();
    let mut i: usize = 0;
    while i < v.len()
        invariant
            i <= v@.len(),
            r@ == v@.take(i as int),
        decreases v@.len() - i,
    {
        r.push(v[i]);
        assert(v@.take(i + 1 as int) =~= v@.take(i as int).push(v@[i as int]));
        i += 1;
    }
    assert(v@.take(v@.len() as int) =~= v@);
    r
}

pub(crate) fn copy_accounts(v: &Vec<u64>) -> (r: Vec<u64>)
    ensures
        r@ == v@,
{
    let mut r: Vec<u64> = Vec::new();
    let mut i: usize = 0;
    while i < v.len()
        invariant
            i <= v@.len(),
            r@ == v@.take(i as int),
        decreases v@.len() - i,
    {
        r.push(v[i]);
        assert(v@.take(i + 1 as int) =~= v@.take(i as int).push(v@[i as int]));
        i += 1;
    }
    assert(v@.take(v@.len() as int) =~= v@);
    r
}

/// Bind every operation set of the bundle to one shared block reference,
/// producing the transactions that are submitted together.  Signing never
/// changes the operations themselves, only the reference they authorize.
pub fn sign_bundle(bundle: &Vec<OperationSet>, r: BlockRef) -> (txs: Vec<SignedTx>)
    ensures
        signed_matches(txs@, bundle@, r),
{
    let mut txs: Vec<SignedTx> = Vec::new();
    let mut i: usize = 0;
    while i < bundle.len()
        invariant
            i <= bundle@.len(),
            txs@.len() == i,
            forall|j: int| 0 <= j < i ==> {
                &&& (#[trigger] txs@[j]).ops@ == bundle@[j].ops@
                &&& txs@[j].payer == bundle@[j].payer
                &&& txs@[j].signers@ == bundle@[j].members@
                &&& txs@[j].block_ref == r
            },
        decreases bundle@.len() - i,
    {
        let s = &bundle[i];
        let tx = SignedTx {
            ops: copy_ops(&s.ops),
            payer: s.payer,
            signers: copy_accounts(&s.members),
            block_ref: r,
        };
        txs.push(tx);
        i += 1;
    }
    txs
}

/// Law: resubmitting an unmodified bundle under a new block reference yields
/// transactions with identical operation contents, payers and signers, and
/// every transaction references only the new block reference.
pub proof fn lemma_resubmission_idempotent(
    b: Seq<OperationSet>,
    txs1: Seq<SignedTx>,
    txs2: Seq<SignedTx>,
    r1: BlockRef,
    r2: BlockRef,
)
    requires
        signed_matches(txs1, b, r1),
        signed_matches(txs2, b, r2),
    ensures
        txs2.len() == txs1.len(),
        forall|i: int| 0 <= i < txs1.len() ==> {
            &&& (#[trigger] txs2[i]).ops@ == txs1[i].ops@
            &&& txs2[i].payer == txs1[i].payer
            &&& txs2[i].signers@ == txs1[i].signers@
        },
        forall|i: int| 0 <= i < txs2.len() ==> (#[trigger] txs2[i]).block_ref == r2,
{
}

} // verus!
