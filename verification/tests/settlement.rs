use bundle_settle::engine::{bundle_sim_ok, Engine, Phase, PollEvent, SimOutcome};
use bundle_settle::filter::{filter_eligible, get_balances};
use bundle_settle::group::{build_operation_set, build_operation_set_random};
use bundle_settle::model::{BlockRef, Operation};
use bundle_settle::{BatchTransferArgs, Command, Miner};

#[test]
fn filter_keeps_found_accounts() {
    let accounts: Vec<u64> = vec![10, 20, 30];
    let found: Vec<bool> = vec![true, false, true];
    assert_eq!(filter_eligible(&accounts, &found), vec![10, 30]);
}

#[test]
fn filter_empty_input() {
    let accounts: Vec<u64> = vec![];
    let found: Vec<bool> = vec![];
    assert_eq!(filter_eligible(&accounts, &found), Vec::<u64>::new());
}

#[test]
fn filter_none_found() {
    let accounts: Vec<u64> = vec![1, 2, 3];
    let found: Vec<bool> = vec![false, false, false];
    assert_eq!(filter_eligible(&accounts, &found), Vec::<u64>::new());
}

#[test]
fn get_balances_drops_absent_accounts() {
    let accounts: Vec<u64> = vec![1, 2, 3];
    let lamports: Vec<Option<u64>> = vec![Some(10), None, Some(30)];
    assert_eq!(get_balances(&accounts, &lamports), vec![(1, 10), (3, 30)]);
}

#[test]
fn first_group_ops_are_transfers_then_bribe() {
    let group: Vec<u64> = vec![1, 2, 3];
    let s = build_operation_set(&group, 1, 9, 4, true, 2);
    assert_eq!(s.members, vec![1, 2, 3]);
    assert_eq!(s.payer, 2);
    assert_eq!(
        s.ops,
        vec![
            Operation::Transfer { from: 1, to: 9, amount: 4 },
            Operation::Transfer { from: 2, to: 9, amount: 4 },
            Operation::Transfer { from: 3, to: 9, amount: 4 },
            Operation::Bribe { payer: 2, amount: 2 },
        ]
    );
}

#[test]
fn later_group_has_no_bribe() {
    let group: Vec<u64> = vec![1, 2, 3];
    let s = build_operation_set(&group, 0, 9, 4, false, 2);
    assert_eq!(s.payer, 1);
    assert_eq!(
        s.ops,
        vec![
            Operation::Transfer { from: 1, to: 9, amount: 4 },
            Operation::Transfer { from: 2, to: 9, amount: 4 },
            Operation::Transfer { from: 3, to: 9, amount: 4 },
        ]
    );
}

#[test]
fn random_payer_is_a_group_member() {
    let group: Vec<u64> = vec![7, 8, 9];
    for _ in 0..32 {
        let s = build_operation_set_random(&group, 1, 1, true, 1);
        assert!(s.members.contains(&s.payer));
        assert_eq!(s.ops[3], Operation::Bribe { payer: s.payer, amount: 1 });
    }
}

#[test]
fn single_account_group_pays_its_own_fee() {
    let group: Vec<u64> = vec![42];
    let s = build_operation_set_random(&group, 1, 1, false, 1);
    assert_eq!(s.payer, 42);
    assert_eq!(s.ops, vec![Operation::Transfer { from: 42, to: 1, amount: 1 }]);
}

fn count_bribes(ops: &[Operation]) -> usize {
    ops.iter()
        .filter(|op| matches!(op, Operation::Bribe { .. }))
        .count()
}

#[test]
fn twelve_accounts_settle_in_one_pass() {
    let eligible: Vec<u64> = (1..=12).collect();
    let mut e = Engine::new(eligible, 99, 4, 7, 100);
    assert_eq!(e.remaining, 12);

    e.fill();
    assert_eq!(e.phase, Phase::Referencing);
    assert_eq!(e.bundle.len(), 3);
    assert_eq!(e.bundle[0].members, vec![1, 2, 3, 4, 5]);
    assert_eq!(e.bundle[1].members, vec![6, 7, 8, 9, 10]);
    assert_eq!(e.bundle[2].members, vec![11, 12]);
    assert_eq!(e.bundle_accounts, 12);
    assert_eq!(e.remaining, 12);

    // one bribe in the whole bundle, in the first set, after its transfers
    assert_eq!(count_bribes(&e.bundle[0].ops), 1);
    assert_eq!(e.bundle[0].ops.len(), 6);
    assert_eq!(e.bundle[0].ops[5], Operation::Bribe { payer: e.bundle[0].payer, amount: 7 });
    assert_eq!(count_bribes(&e.bundle[1].ops), 0);
    assert_eq!(count_bribes(&e.bundle[2].ops), 0);

    let reference = BlockRef { hash: 5, height: 1000 };
    e.on_block_ref(Some(reference));
    assert_eq!(e.phase, Phase::Simulating);
    assert_eq!(e.signed.len(), 3);
    for (tx, set) in e.signed.iter().zip(e.bundle.iter()) {
        assert_eq!(tx.block_ref, reference);
        assert_eq!(tx.ops, set.ops);
        assert_eq!(tx.signers, set.members);
        assert_eq!(tx.payer, set.payer);
    }

    let verdict = bundle_sim_ok(&vec![SimOutcome::Valid, SimOutcome::Valid, SimOutcome::Valid]);
    assert!(verdict);
    e.on_sim_outcome(verdict);
    assert_eq!(e.phase, Phase::Submitting);

    e.on_submitted(777);
    assert_eq!(e.phase, Phase::Polling);
    assert_eq!(e.handle, 777);

    e.on_poll(PollEvent::Status { landed: true, height: 1001 });
    assert_eq!(e.phase, Phase::Filling);
    assert_eq!(e.remaining, 0);

    e.fill();
    assert_eq!(e.phase, Phase::Done);
    assert_eq!(e.remaining, 0);
}

#[test]
fn unlanded_bundle_is_resubmitted_unchanged() {
    let eligible: Vec<u64> = vec![1, 2, 3, 4, 5];
    let mut e = Engine::new(eligible, 50, 2, 3, 100);
    e.fill();
    e.on_block_ref(Some(BlockRef { hash: 1, height: 50 }));
    let first_signing: Vec<Vec<Operation>> = e.signed.iter().map(|tx| tx.ops.clone()).collect();
    e.on_sim_outcome(true);
    e.on_submitted(11);

    // a transport failure while polling changes nothing
    e.on_poll(PollEvent::Transport);
    assert_eq!(e.phase, Phase::Polling);

    // not landed, but the expiration window has not elapsed: keep polling
    e.on_poll(PollEvent::Status { landed: false, height: 149 });
    assert_eq!(e.phase, Phase::Polling);
    assert_eq!(e.remaining, 5);

    // not landed at the expiration height: resubmit the same bundle
    e.on_poll(PollEvent::Status { landed: false, height: 150 });
    assert_eq!(e.phase, Phase::Referencing);
    assert_eq!(e.remaining, 5);
    assert_eq!(e.bundle.len(), 1);
    assert_eq!(e.bundle[0].members, vec![1, 2, 3, 4, 5]);

    // the new signing references only the new block reference, with the
    // same operation contents
    let fresh = BlockRef { hash: 2, height: 160 };
    e.on_block_ref(Some(fresh));
    assert_eq!(e.phase, Phase::Simulating);
    for (tx, ops) in e.signed.iter().zip(first_signing.iter()) {
        assert_eq!(tx.block_ref, fresh);
        assert_eq!(&tx.ops, ops);
    }

    e.on_sim_outcome(true);
    e.on_submitted(12);
    e.on_poll(PollEvent::Status { landed: true, height: 161 });
    assert_eq!(e.remaining, 0);
}

#[test]
fn simulation_failure_abandons_whole_bundle() {
    let eligible: Vec<u64> = (1..=12).collect();
    let mut e = Engine::new(eligible, 99, 4, 7, 100);
    e.fill();
    e.on_block_ref(Some(BlockRef { hash: 9, height: 10 }));
    assert_eq!(e.bundle.len(), 3);

    // the second of three sets fails to simulate: the whole bundle goes
    let verdict = bundle_sim_ok(&vec![
        SimOutcome::Valid,
        SimOutcome::ExecError,
        SimOutcome::Valid,
    ]);
    assert!(!verdict);
    e.on_sim_outcome(verdict);
    assert_eq!(e.phase, Phase::Filling);
    assert_eq!(e.bundle.len(), 0);
    assert_eq!(e.remaining, 0);

    e.fill();
    assert_eq!(e.phase, Phase::Done);
}

#[test]
fn block_ref_fetch_failure_retries_in_place() {
    let eligible: Vec<u64> = vec![1, 2];
    let mut e = Engine::new(eligible, 5, 1, 1, 10);
    e.fill();
    assert_eq!(e.phase, Phase::Referencing);
    e.on_block_ref(None);
    assert_eq!(e.phase, Phase::Referencing);
    assert_eq!(e.remaining, 2);
}

#[test]
fn a_run_larger_than_one_bundle_takes_several_passes() {
    let eligible: Vec<u64> = (1..=27).collect();
    let mut e = Engine::new(eligible, 8, 1, 2, 30);

    // first bundle: five full sets, 25 accounts
    e.fill();
    assert_eq!(e.bundle.len(), 5);
    assert_eq!(e.bundle_accounts, 25);
    assert_eq!(e.queue, vec![26, 27]);
    let bribes: usize = e.bundle.iter().map(|s| count_bribes(&s.ops)).sum();
    assert_eq!(bribes, 1);
    assert_eq!(count_bribes(&e.bundle[0].ops), 1);

    e.on_block_ref(Some(BlockRef { hash: 3, height: 70 }));
    e.on_sim_outcome(true);
    e.on_submitted(21);
    e.on_poll(PollEvent::Status { landed: true, height: 71 });
    assert_eq!(e.remaining, 2);

    // second bundle: the two left-over accounts, with a bribe of its own
    e.fill();
    assert_eq!(e.bundle.len(), 1);
    assert_eq!(e.bundle[0].members, vec![26, 27]);
    assert_eq!(count_bribes(&e.bundle[0].ops), 1);

    e.on_block_ref(Some(BlockRef { hash: 4, height: 75 }));
    e.on_sim_outcome(true);
    e.on_submitted(22);
    e.on_poll(PollEvent::Status { landed: true, height: 76 });
    assert_eq!(e.remaining, 0);

    e.fill();
    assert_eq!(e.phase, Phase::Done);
    assert_eq!(e.remaining, 0);
}

#[test]
fn bundle_sim_verdicts() {
    assert!(bundle_sim_ok(&Vec::new()));
    assert!(bundle_sim_ok(&vec![SimOutcome::Valid]));
    assert!(!bundle_sim_ok(&vec![SimOutcome::TransportError]));
    assert!(!bundle_sim_ok(&vec![SimOutcome::Valid, SimOutcome::ExecError]));
}

#[test]
fn missing_priority_fee_is_fatal_at_startup() {
    let args = BatchTransferArgs { key_folder: String::from("keys"), recipient: 7, amount: 3 };
    let m = Miner {
        rpc: String::from("http://localhost"),
        priority_fee: None,
        command: Command::BundleTransfer(BatchTransferArgs {
            key_folder: String::from("keys"),
            recipient: 7,
            amount: 3,
        }),
    };
    assert!(Engine::from_config(&m, &args, vec![1, 2, 3]).is_none());
}

#[test]
fn configured_priority_fee_becomes_the_bribe() {
    let args = BatchTransferArgs { key_folder: String::from("keys"), recipient: 7, amount: 3 };
    let m = Miner {
        rpc: String::from("http://localhost"),
        priority_fee: Some(5),
        command: Command::BundleTransfer(BatchTransferArgs {
            key_folder: String::from("keys"),
            recipient: 7,
            amount: 3,
        }),
    };
    let e = Engine::from_config(&m, &args, vec![1, 2, 3]).unwrap();
    assert_eq!(e.bribe_amount, 5);
    assert_eq!(e.recipient, 7);
    assert_eq!(e.amount, 3);
    assert_eq!(e.remaining, 3);
    assert_eq!(e.phase, Phase::Filling);
}

#[test]
fn empty_account_set_is_immediately_done() {
    let mut e = Engine::new(Vec::new(), 9, 1, 1, 10);
    assert_eq!(e.remaining, 0);
    e.fill();
    assert_eq!(e.phase, Phase::Done);
    assert_eq!(e.remaining, 0);
}
