//! The settlement loop.  The engine is a state machine over plain values:
//! the caller performs each network round-trip (block-reference fetch,
//! simulation, relay submission, status poll) and feeds the outcome back in,
//! and the engine decides the next stage.  At most one bundle is in flight at
//! a time, and the accounting invariant ties `remaining` to the accounts
//! still queued or in flight, so that reaching `Done` means every account was
//! settled or explicitly abandoned.
use vstd::prelude::*;
use crate::model::{
    BlockRef, OperationSet, SignedTx, bundle_wf, sign_bundle, signed_matches, GROUP_SIZE,
};
use crate::group::build_operation_set_random;
use crate::{BatchTransferArgs, Miner};

verus! {

/// The stages of the settlement loop.
#[derive(Clone, Copy, PartialEq, Eq, Structural, Debug)]
pub enum Phase {
    /// Gathering operation sets into the current bundle.
    Filling,
    /// Waiting for a fresh block reference.
    Referencing,
    /// Waiting for the bundle's simulation verdict.
    Simulating,
    /// Waiting for the relay to accept the bundle.
    Submitting,
    /// Waiting for the representative transaction to land or expire.
    Polling,
    /// All accounts settled or abandoned.
    Done,
}

/// What one simulation round-trip reported for one transaction.
#[derive(Clone, Copy, PartialEq, Eq, Structural, Debug)]
pub enum SimOutcome {
    /// The dry run executed without error.
    Valid,
    /// The dry run reported an execution error.
    ExecError,
    /// The simulation request itself failed.
    TransportError,
}

/// What one confirmation poll reported.
#[derive(Clone, Copy, PartialEq, Eq, Structural, Debug)]
pub enum PollEvent {
    /// The status request failed; the poll does not count.
    Transport,
    /// A status answer: whether the representative transaction landed, and
    /// the block height observed with the answer.
    Status { landed: bool, height: u64 },
}

/// Total number of accounts across the bundle's operation sets.
pub open spec fn sum_members(b: Seq<OperationSet>) -> nat
    decreases b.len(),
{
    if b.len() == 0 {
        0
    } else {
        sum_members(b.drop_last()) + b.last().members@.len()
    }
}

/// All member lists of the bundle, concatenated in bundle order.
pub open spec fn concat_members(b: Seq<OperationSet>) -> Seq<u64>
    decreases b.len(),
{
    if b.len() == 0 {
        Seq::empty()
    } else {
        concat_members(b.drop_last()) + b.last().members@
    }
}

/// The settlement engine's whole state.
pub struct Engine {
    /// Current stage of the loop.
    pub phase: Phase,
    /// Eligible accounts not yet drawn into a bundle, in settlement order.
    pub queue: Vec<u64>,
    /// The address every group transfers to.
    pub recipient: u64,
    /// The amount each account transfers.
    pub amount: u64,
    /// The bribe paid to the auction relay, once per bundle.
    pub bribe_amount: u64,
    /// How many blocks past the submission height a bundle may wait before
    /// it is considered dropped and is resubmitted.
    pub expiration_window: u64,
    /// The operation sets of the bundle currently being worked.
    pub bundle: Vec<OperationSet>,
    /// Number of accounts in the current bundle.
    pub bundle_accounts: usize,
    /// The bundle's transactions, signed under `block_ref`.
    pub signed: Vec<SignedTx>,
    /// The block reference of the current submission attempt; its height is
    /// the height the attempt was sent at.
    pub block_ref: BlockRef,
    /// The representative confirmation handle of the current attempt: the
    /// signature of the bundle's first transaction.
    pub handle: u64,
    /// Accounts that have not yet reached a terminal outcome.
    pub remaining: usize,
}

impl Engine {
    /// The accounting and structural invariant of the loop.
    pub open spec fn wf(self) -> bool {
        &&& self.remaining as int == self.queue@.len() + self.bundle_accounts as int
        &&& self.bundle_accounts as nat == sum_members(self.bundle@)
        &&& bundle_wf(self.bundle@, self.recipient, self.amount, self.bribe_amount)
        &&& forall|i: int| 0 <= i < self.bundle@.len() - 1
                ==> (#[trigger] self.bundle@[i]).members@.len() == GROUP_SIZE
        &&& self.phase is Filling ==> self.bundle@.len() == 0
        &&& (self.phase is Referencing || self.phase is Simulating || self.phase is Submitting
                || self.phase is Polling) ==> self.bundle@.len() >= 1
        &&& (self.phase is Simulating || self.phase is Submitting || self.phase is Polling)
                ==> signed_matches(self.signed@, self.bundle@, self.block_ref)
        &&& self.phase is Done ==> self.queue@.len() == 0 && self.bundle@.len() == 0
    }

    /// The configuration fields never change while the loop runs.
    pub open spec fn same_config(self, other: Engine) -> bool {
        &&& self.recipient == other.recipient
        &&& self.amount == other.amount
        &&& self.bribe_amount == other.bribe_amount
        &&& self.expiration_window == other.expiration_window
    }

    /// Start a run over the filtered, eligible accounts.
    pub fn new(
        eligible: Vec<u64>,
        recipient: u64,
        amount: u64,
        bribe_amount: u64,
        expiration_window: u64,
    ) -> (e: Engine)
        ensures
            e.wf(),
            e.phase is Filling,
            e.queue@ == eligible@,
            e.remaining == eligible@.len(),
            e.recipient == recipient,
            e.amount == amount,
            e.bribe_amount == bribe_amount,
            e.expiration_window == expiration_window,
    {
        let remaining = eligible.len();
        Engine {
            phase: Phase::Filling,
            queue: eligible,
            recipient,
            amount,
            bribe_amount,
            expiration_window,
            bundle: Vec::new(),
            bundle_accounts: 0,
            signed: Vec::new(),
            block_ref: BlockRef { hash: 0, height: 0 },
            handle: 0,
            remaining,
        }
    }

    /// Start a run from the tool's configuration.  The bribe amount is the
    /// configured priority fee; a run without one cannot be started, which is
    /// the fatal startup error of the tool.
    pub fn from_config(m: &Miner, args: &BatchTransferArgs, eligible: Vec<u64>) -> (r: Option<
        Engine,
    >)
        ensures
            r is Some <==> m.priority_fee is Some,
            r is Some ==> {
                &&& r.unwrap().wf()
                &&& r.unwrap().phase is Filling
                &&& r.unwrap().queue@ == eligible@
                &&& r.unwrap().remaining == eligible@.len()
                &&& r.unwrap().recipient == args.recipient
                &&& r.unwrap().amount == args.amount
                &&& r.unwrap().bribe_amount == m.priority_fee.unwrap()
                &&& r.unwrap().expiration_window == crate::SLOT_EXPIRATION
            },
    {
        match m.priority_fee {
            Some(tip) => Some(
                Engine::new(eligible, args.recipient, args.amount, tip, crate::SLOT_EXPIRATION),
            ),
            None => None,
        }
    }
}

fn take_front(v: &mut Vec<u64>, k: usize) -> (r: Vec<u64>)
    requires
        k <= old(v)@.len(),
    ensures
        r@ == old(v)@.take(k as int),
        final(v)@ == old(v)@.skip(k as int),
{
    let mut r: Vec<u64> = Vec::new();
    let mut i: usize = 0;
    while i < k
        invariant
            i <= k,
            k <= v@.len(),
            v@ == old(v)@,
            r@ == v@.take(i as int),
        decreases k - i,
    {
        r.push(v[i]);
        assert(v@.take(i + 1 as int) =~= v@.take(i as int).push(v@[i as int]));
        i += 1;
    }
    let mut rest: Vec<u64> = Vec::new();
    let mut j: usize = k;
    while j < v.len()
        invariant
            k <= j <= v@.len(),
            v@ == old(v)@,
            rest@ == v@.subrange(k as int, j as int),
        decreases v@.len() - j,
    {
        rest.push(v[j]);
        assert(v@.subrange(k as int, j + 1 as int)
            =~= v@.subrange(k as int, j as int).push(v@[j as int]));
        j += 1;
    }
    assert(old(v)@.subrange(k as int, old(v)@.len() as int) =~= old(v)@.skip(k as int));
    *v = rest;
    r
}

impl Engine {
    /// Gather operation sets into the bundle until it holds `GROUP_SIZE`
    /// sets or the queue is exhausted: draw the next accounts in order,
    /// build their transfers with a randomly chosen fee payer, and attach
    /// the bribe to the first set only.  With nothing left to draw the run
    /// is done; otherwise the bundle waits for a block reference.
    pub fn fill(&mut self)
        requires
            old(self).wf(),
            old(self).phase is Filling,
        ensures
            final(self).wf(),
            final(self).same_config(*old(self)),
            final(self).remaining == old(self).remaining,
            final(self).phase is Done || final(self).phase is Referencing,
            (final(self).phase is Done) <==> old(self).queue@.len() == 0,
            final(self).queue@ == old(self).queue@.skip(
                old(self).queue@.len() - final(self).queue@.len(),
            ),
            concat_members(final(self).bundle@) == old(self).queue@.take(
                old(self).queue@.len() - final(self).queue@.len(),
            ),
            final(self).bundle_accounts as int == old(self).queue@.len()
                - final(self).queue@.len(),
            final(self).queue@.len() > 0
                ==> final(self).bundle_accounts as int == GROUP_SIZE * GROUP_SIZE,
            final(self).bundle@.len() == GROUP_SIZE || final(self).queue@.len() == 0,
    {
        let ghost q0 = self.queue@;
        while self.bundle.len() < GROUP_SIZE && self.queue.len() > 0
            invariant
                q0 == old(self).queue@,
                self.phase is Filling,
                self.same_config(*old(self)),
                self.remaining == old(self).remaining,
                self.remaining as int == self.queue@.len() + self.bundle_accounts as int,
                self.bundle_accounts as nat == sum_members(self.bundle@),
                bundle_wf(self.bundle@, self.recipient, self.amount, self.bribe_amount),
                forall|i: int| 0 <= i < self.bundle@.len() - 1
                    ==> (#[trigger] self.bundle@[i]).members@.len() == GROUP_SIZE,
                self.queue@.len() > 0 ==> forall|i: int| 0 <= i < self.bundle@.len()
                    ==> (#[trigger] self.bundle@[i]).members@.len() == GROUP_SIZE,
                self.queue@.len() <= q0.len(),
                self.bundle_accounts as int == q0.len() - self.queue@.len(),
                self.queue@.len() > 0
                    ==> self.bundle_accounts as int == GROUP_SIZE * self.bundle@.len(),
                self.queue@ == q0.skip(q0.len() - self.queue@.len()),
                concat_members(self.bundle@) == q0.take(q0.len() - self.queue@.len()),
                self.bundle@.len() <= GROUP_SIZE,
                old(self).queue@.len() == 0 ==> self.bundle@.len() == 0,
            decreases self.queue@.len(),
        {
            let ghost drawn = q0.len() - self.queue@.len();
            let qlen = self.queue.len();
            let k = if qlen < GROUP_SIZE {
                qlen
            } else {
                GROUP_SIZE
            };
            let group = take_front(&mut self.queue, k);
            let first = self.bundle.len() == 0;
            let set = build_operation_set_random(
                &group,
                self.recipient,
                self.amount,
                first,
                self.bribe_amount,
            );
            let ghost b0 = self.bundle@;
            self.bundle.push(set);
            self.bundle_accounts = self.bundle_accounts + k;
            proof {
                assert(self.bundle@.drop_last() =~= b0);
                assert(0 <= drawn && drawn + k <= q0.len());
                assert(q0.skip(drawn).take(k as int) =~= q0.subrange(drawn, drawn + k));
                assert(q0.take(drawn) + q0.subrange(drawn, drawn + k) =~= q0.take(drawn + k));
                assert(concat_members(self.bundle@) == concat_members(b0) + set.members@);
                assert(q0.skip(drawn).skip(k as int) =~= q0.skip(drawn + k));
            }
        }
        if self.bundle.len() == 0 {
            self.phase = Phase::Done;
        } else {
            self.phase = Phase::Referencing;
        }
    }

    /// React to a block-reference fetch.  A failed fetch leaves the engine
    /// waiting in place; a fresh reference signs the whole bundle under it,
    /// records the height the attempt is sent at, and hands the bundle to
    /// simulation.
    pub fn on_block_ref(&mut self, fetched: Option<BlockRef>)
        requires
            old(self).wf(),
            old(self).phase is Referencing,
        ensures
            final(self).wf(),
            fetched is None ==> *final(self) == *old(self),
            fetched is Some ==> {
                &&& final(self).same_config(*old(self))
                &&& final(self).phase is Simulating
                &&& final(self).block_ref == fetched.unwrap()
                &&& signed_matches(final(self).signed@, old(self).bundle@, fetched.unwrap())
                &&& final(self).bundle@ == old(self).bundle@
                &&& final(self).queue@ == old(self).queue@
                &&& final(self).remaining == old(self).remaining
                &&& final(self).bundle_accounts == old(self).bundle_accounts
                &&& final(self).handle == old(self).handle
            },
    {
        match fetched {
            None => {},
            Some(r) => {
                self.signed = sign_bundle(&self.bundle, r);
                self.block_ref = r;
                self.phase = Phase::Simulating;
            },
        }
    }

    /// React to the bundle's simulation verdict.  A valid bundle moves on to
    /// relay submission untouched.  Any failure abandons the whole bundle:
    /// its accounts are removed from further consideration in this run, the
    /// bundle is discarded, and the loop returns to filling.
    pub fn on_sim_outcome(&mut self, all_ok: bool)
        requires
            old(self).wf(),
            old(self).phase is Simulating,
        ensures
            final(self).wf(),
            final(self).same_config(*old(self)),
            final(self).queue@ == old(self).queue@,
            all_ok ==> {
                &&& final(self).phase is Submitting
                &&& final(self).bundle@ == old(self).bundle@
                &&& final(self).signed@ == old(self).signed@
                &&& final(self).block_ref == old(self).block_ref
                &&& final(self).remaining == old(self).remaining
                &&& final(self).bundle_accounts == old(self).bundle_accounts
            },
            !all_ok ==> {
                &&& final(self).phase is Filling
                &&& final(self).bundle@.len() == 0
                &&& final(self).bundle_accounts == 0
                &&& final(self).remaining
                    == old(self).remaining - old(self).bundle_accounts
            },
    {
        if all_ok {
            self.phase = Phase::Submitting;
        } else {
            self.remaining = self.remaining - self.bundle_accounts;
            self.bundle = Vec::new();
            self.signed = Vec::new();
            self.bundle_accounts = 0;
            self.phase = Phase::Filling;
        }
    }

    /// React to the relay accepting the bundle: remember the representative
    /// confirmation handle and start polling for it.
    pub fn on_submitted(&mut self, handle: u64)
        requires
            old(self).wf(),
            old(self).phase is Submitting,
        ensures
            final(self).wf(),
            final(self).same_config(*old(self)),
            final(self).phase is Polling,
            final(self).handle == handle,
            final(self).bundle@ == old(self).bundle@,
            final(self).signed@ == old(self).signed@,
            final(self).block_ref == old(self).block_ref,
            final(self).queue@ == old(self).queue@,
            final(self).remaining == old(self).remaining,
            final(self).bundle_accounts == old(self).bundle_accounts,
    {
        self.handle = handle;
        self.phase = Phase::Polling;
    }

    /// React to one confirmation poll.  A transport failure changes nothing
    /// and does not count toward expiration.  A landed answer settles the
    /// bundle: its accounts are done, and the loop returns to filling.  An
    /// unlanded answer past the expiration window sends the same, unmodified
    /// bundle back for a fresh block reference; before the window elapses
    /// the engine keeps polling.
    pub fn on_poll(&mut self, ev: PollEvent)
        requires
            old(self).wf(),
            old(self).phase is Polling,
        ensures
            final(self).wf(),
            ev is Transport ==> *final(self) == *old(self),
            ev matches PollEvent::Status { landed, height } ==> {
                &&& final(self).same_config(*old(self))
                &&& final(self).queue@ == old(self).queue@
                &&& landed ==> {
                    &&& final(self).phase is Filling
                    &&& final(self).bundle@.len() == 0
                    &&& final(self).bundle_accounts == 0
                    &&& final(self).remaining
                        == old(self).remaining - old(self).bundle_accounts
                }
                &&& (!landed && (height as int)
                    >= old(self).block_ref.height as int + old(self).expiration_window as int)
                    ==> {
                    &&& final(self).phase is Referencing
                    &&& final(self).bundle@ == old(self).bundle@
                    &&& final(self).remaining == old(self).remaining
                    &&& final(self).bundle_accounts == old(self).bundle_accounts
                }
                &&& (!landed && (height as int)
                    < old(self).block_ref.height as int + old(self).expiration_window as int)
                    ==> *final(self) == *old(self)
            },
    {
        match ev {
            PollEvent::Transport => {},
            PollEvent::Status { landed, height } => {
                if landed {
                    self.remaining = self.remaining - self.bundle_accounts;
                    self.bundle = Vec::new();
                    self.signed = Vec::new();
                    self.bundle_accounts = 0;
                    self.phase = Phase::Filling;
                } else {
                    let expired = height >= self.block_ref.height
                        && height - self.block_ref.height >= self.expiration_window;
                    if expired {
                        self.phase = Phase::Referencing;
                    }
                }
            },
        }
    }
}

/// Whether the whole bundle may be submitted: true exactly when every
/// transaction's dry run executed without error.  The first execution error
/// or transport failure condemns the whole bundle.
pub fn bundle_sim_ok(results: &Vec<SimOutcome>) -> (r: bool)
    ensures
        r <==> (forall|i: int| 0 <= i < results@.len() ==> #[trigger] results@[i] is Valid),
{
    let mut i: usize = 0;
    while i < results.len()
        invariant
            i <= results@.len(),
            forall|j: int| 0 <= j < i ==> #[trigger] results@[j] is Valid,
        decreases results@.len() - i,
    {
        let ok = match results[i] {
            SimOutcome::Valid => true,
            SimOutcome::ExecError => false,
            SimOutcome::TransportError => false,
        };
        if !ok {
            return false;
        }
        i += 1;
    }
    true
}

/// Law: when the loop reaches `Done`, every account has reached a terminal
/// outcome — nothing is queued and no bundle is in flight — so the count of
/// accounts remaining to settle is zero.
pub proof fn lemma_done_settled(e: Engine)
    requires
        e.wf(),
        e.phase is Done,
    ensures
        e.remaining == 0,
{
}

} // verus!
