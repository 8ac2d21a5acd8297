//! Broadcast runs driven with test doubles for the signer and the chain.

use ampd::broadcast::{
    begin, seal_envelope, step, AccountInfo, BroadcastAction, BroadcastEvent, BroadcastOutcome,
    Phase, SubmitResult,
};
use ampd::errors::{BroadcastError, ChainQueryError, RunError, SignerError};
use ampd::keys::PublicKey;
use ampd::state::{encode_state, get_or_init, needs_keygen, parse_state, PersistedState};

fn registry_addr() -> String {
    let mut s = String::from("axelar1");
    for _ in 0..38 {
        s.push('q');
    }
    s
}

fn sample_tx() -> ampd::assemble::UnsignedTx {
    let coin = ampd::assemble::Coin { amount: 100, denom: String::from("uaxl") };
    ampd::assemble::bond_worker_tx(
        registry_addr(),
        String::from("svc-1"),
        coin,
        registry_addr(),
    )
    .expect("assembly succeeds")
}

fn sample_key() -> PublicKey {
    let mut bytes = vec![0x02u8, 0x79, 0xBE, 0x66, 0x7E, 0xF9, 0xDC, 0xBB, 0xAC, 0x55, 0xA0];
    bytes.extend_from_slice(&[
        0x62, 0x95, 0xCE, 0x87, 0x0B, 0x07, 0x02, 0x9B, 0xFC, 0xDB, 0x2D, 0xCE, 0x28, 0xD9, 0x59,
        0xF2, 0x81, 0x5B, 0x16, 0xF8, 0x17, 0x98,
    ]);
    PublicKey::from_compressed_bytes(bytes).expect("sample key is well-formed")
}

#[test]
fn sequence_mismatch_is_recovered_with_exactly_two_submits() {
    let mut s = begin(String::from("op-key"), registry_addr(), sample_tx(), 3);

    // The chain double answers the first fetch with sequence 3.
    let a = step(&mut s, BroadcastEvent::AccountFetched(Ok(AccountInfo {
        account_number: 7,
        sequence: 3,
    })));
    assert_eq!(a, BroadcastAction::Sign { account: AccountInfo { account_number: 7, sequence: 3 } });

    let a = step(&mut s, BroadcastEvent::Signed(Ok(())));
    assert_eq!(a, BroadcastAction::Submit { account: AccountInfo { account_number: 7, sequence: 3 } });

    // The double rejects exactly once with a sequence mismatch.
    let a = step(&mut s, BroadcastEvent::Submitted(SubmitResult::RejectedSequenceMismatch));
    assert_eq!(a, BroadcastAction::FetchAccount);

    // The refetched account state carries the fresh sequence.
    let a = step(&mut s, BroadcastEvent::AccountFetched(Ok(AccountInfo {
        account_number: 7,
        sequence: 4,
    })));
    assert_eq!(a, BroadcastAction::Sign { account: AccountInfo { account_number: 7, sequence: 4 } });

    let a = step(&mut s, BroadcastEvent::Signed(Ok(())));
    assert_eq!(a, BroadcastAction::Submit { account: AccountInfo { account_number: 7, sequence: 4 } });

    let a = step(&mut s, BroadcastEvent::Submitted(SubmitResult::Accepted));
    assert_eq!(a, BroadcastAction::Report { outcome: BroadcastOutcome::Confirmed });
    assert_eq!(s.phase, Phase::Done { outcome: BroadcastOutcome::Confirmed });
    assert_eq!(s.submits, 2);
}

#[test]
fn exhausted_retry_budget_ends_in_sequence_mismatch_failure() {
    let mut s = begin(String::from("op-key"), registry_addr(), sample_tx(), 0);
    step(&mut s, BroadcastEvent::AccountFetched(Ok(AccountInfo { account_number: 7, sequence: 3 })));
    step(&mut s, BroadcastEvent::Signed(Ok(())));
    let a = step(&mut s, BroadcastEvent::Submitted(SubmitResult::RejectedSequenceMismatch));
    assert_eq!(
        a,
        BroadcastAction::Report {
            outcome: BroadcastOutcome::Failed(RunError::Broadcast(BroadcastError::SequenceMismatch)),
        }
    );
    assert_eq!(s.submits, 1);
}

#[test]
fn unfunded_account_is_a_distinct_failure() {
    let mut s = begin(String::from("op-key"), registry_addr(), sample_tx(), 3);
    let a = step(&mut s, BroadcastEvent::AccountFetched(Err(ChainQueryError::NotFound)));
    assert_eq!(
        a,
        BroadcastAction::Report {
            outcome: BroadcastOutcome::Failed(RunError::ChainQuery(ChainQueryError::NotFound)),
        }
    );
    assert_eq!(s.submits, 0);
}

#[test]
fn transport_failure_and_sign_failure_are_terminal() {
    let mut s = begin(String::from("op-key"), registry_addr(), sample_tx(), 3);
    let a = step(&mut s, BroadcastEvent::AccountFetched(Err(ChainQueryError::Transport)));
    assert_eq!(
        a,
        BroadcastAction::Report {
            outcome: BroadcastOutcome::Failed(RunError::ChainQuery(ChainQueryError::Transport)),
        }
    );

    let mut s = begin(String::from("op-key"), registry_addr(), sample_tx(), 3);
    step(&mut s, BroadcastEvent::AccountFetched(Ok(AccountInfo { account_number: 7, sequence: 3 })));
    let a = step(&mut s, BroadcastEvent::Signed(Err(SignerError::Sign)));
    assert_eq!(
        a,
        BroadcastAction::Report {
            outcome: BroadcastOutcome::Failed(RunError::Signer(SignerError::Sign)),
        }
    );
    assert_eq!(s.submits, 0);
}

#[test]
fn other_rejections_and_unknown_outcomes_are_distinct() {
    let mut s = begin(String::from("op-key"), registry_addr(), sample_tx(), 3);
    step(&mut s, BroadcastEvent::AccountFetched(Ok(AccountInfo { account_number: 7, sequence: 3 })));
    step(&mut s, BroadcastEvent::Signed(Ok(())));
    let a = step(&mut s, BroadcastEvent::Submitted(SubmitResult::RejectedOther));
    assert_eq!(a, BroadcastAction::Report { outcome: BroadcastOutcome::Rejected });

    let mut s = begin(String::from("op-key"), registry_addr(), sample_tx(), 3);
    step(&mut s, BroadcastEvent::AccountFetched(Ok(AccountInfo { account_number: 7, sequence: 3 })));
    step(&mut s, BroadcastEvent::Signed(Ok(())));
    let a = step(&mut s, BroadcastEvent::Submitted(SubmitResult::OutcomeUnknown));
    assert_eq!(a, BroadcastAction::Report { outcome: BroadcastOutcome::Unknown });
}

#[test]
fn end_to_end_bond_worker_scenario() {
    // Empty state file.
    let mut st = parse_state("{\"pub_key\":null}").expect("empty state parses");
    assert!(needs_keygen(&st));

    // The signer double returns key K for keygen("op-key"); resolution
    // records it.
    let k = get_or_init(&mut st, Some(sample_key())).expect("resolution succeeds");

    // The address derived from K with prefix "axelar".
    let sender = ampd::addr::worker_address(&k, "axelar").expect("derivation succeeds");

    // Action BondWorker{svc-1} with funds 100uaxl.
    let coin = ampd::assemble::Coin { amount: 100, denom: String::from("uaxl") };
    let tx = ampd::assemble::bond_worker_tx(
        registry_addr(),
        String::from("svc-1"),
        coin,
        sender.clone(),
    )
    .expect("assembly succeeds");

    // The chain double returns {account_number: 7, sequence: 3}.
    let mut s = begin(String::from("op-key"), sender, tx, 3);
    let a = step(&mut s, BroadcastEvent::AccountFetched(Ok(AccountInfo {
        account_number: 7,
        sequence: 3,
    })));
    let account = match a {
        BroadcastAction::Sign { account } => account,
        other => panic!("expected a sign request, got {:?}", other),
    };

    // One signed envelope, with sequence 3.
    let a = step(&mut s, BroadcastEvent::Signed(Ok(())));
    assert_eq!(a, BroadcastAction::Submit { account });
    let envelope = seal_envelope(sample_tx(), account, vec![0x01, 0x02, 0x03]);
    assert_eq!(envelope.account.sequence, 3);
    assert_eq!(envelope.account.account_number, 7);

    // One submit call, accepted.
    let a = step(&mut s, BroadcastEvent::Submitted(SubmitResult::Accepted));
    assert_eq!(a, BroadcastAction::Report { outcome: BroadcastOutcome::Confirmed });
    assert_eq!(s.submits, 1);

    // The resulting state file contains K.
    let text = encode_state(&st);
    assert!(text.contains("0279be667ef9dcbbac55a06295ce870b07029bfcdb2dce28d959f2815b16f81798"));
    let reread = parse_state(&text).expect("state file parses back");
    assert_eq!(reread.pub_key.unwrap(), sample_key());
}

#[test]
fn envelope_keeps_its_parts() {
    let account = AccountInfo { account_number: 9, sequence: 12 };
    let e = seal_envelope(sample_tx(), account, vec![0xAA, 0xBB]);
    assert_eq!(e.account, account);
    assert_eq!(e.signature, vec![0xAA, 0xBB]);
    assert_eq!(e.tx.msg, "{\"bond_worker\":{\"service_name\":\"svc-1\"}}");
}

#[test]
fn persisted_state_survives_a_failed_run() {
    // The one durable side effect before submission is the key write; a
    // failed broadcast leaves it untouched.
    let mut st = PersistedState { pub_key: None };
    get_or_init(&mut st, Some(sample_key())).expect("resolution succeeds");
    let before = encode_state(&st);

    let mut s = begin(String::from("op-key"), registry_addr(), sample_tx(), 3);
    step(&mut s, BroadcastEvent::AccountFetched(Err(ChainQueryError::Transport)));

    assert_eq!(encode_state(&st), before);
}
