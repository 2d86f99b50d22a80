use std::collections::{HashMap, HashSet};
use std::sync::Arc;

use signature_collector::collector_state::{
    find_invalid_shares, try_combine_and_verify, CollectorAction, CombineOutcome,
    SignatureCollectorState,
};
use signature_collector::types::{Hash256, OperatorId, PublicKeyBytes};
use tokio::sync::oneshot;

// A stand-in for threshold BLS: a share signature records which key made it
// and which root it signed; a combination is valid for the master key when
// every share was made by a share key of that master over the same root.

const THRESHOLD: u64 = 3;
const TOTAL_SHARES: u64 = 4;

fn root(byte: u8) -> Hash256 {
    Hash256 { bytes: [byte; 32] }
}

fn signing_root() -> Hash256 {
    root(0xAB)
}

fn bad_signing_root() -> Hash256 {
    root(0xCC)
}

fn master_key(master: u8) -> PublicKeyBytes {
    let mut bytes = [0u8; 48];
    bytes[0] = master;
    PublicKeyBytes { bytes }
}

fn share_key(master: u8, operator: u64) -> PublicKeyBytes {
    let mut bytes = [0u8; 48];
    bytes[0] = master;
    bytes[1] = operator as u8;
    PublicKeyBytes { bytes }
}

#[derive(Clone, Copy, Debug, PartialEq)]
struct MockSig {
    key: PublicKeyBytes,
    root: Hash256,
}

struct TestQuorum {
    master: u8,
    master_pubkey: PublicKeyBytes,
    shares: Vec<(OperatorId, u8)>,
}

fn split_master(master: u8, total: u64) -> TestQuorum {
    TestQuorum {
        master,
        master_pubkey: master_key(master),
        shares: (1..=total).map(|i| (OperatorId(i), master)).collect(),
    }
}

fn split_random_master() -> TestQuorum {
    split_master(7, TOTAL_SHARES)
}

fn sign(op: OperatorId, master: u8, r: Hash256) -> MockSig {
    MockSig { key: share_key(master, op.0), root: r }
}

fn combine_and_verify(shares: &HashMap<u64, MockSig>, pk: &PublicKeyBytes) -> CombineOutcome<MockSig> {
    let combined = if shares.is_empty() {
        None
    } else {
        let first = *shares.values().next().unwrap();
        let all_same = shares
            .iter()
            .all(|(op, s)| s.key == share_key(first.key.bytes[0], *op) && s.root == first.root);
        Some((all_same, MockSig { key: master_key(first.key.bytes[0]), root: first.root }))
    };
    match combined {
        None => try_combine_and_verify(None, false),
        Some((consistent, sig)) => {
            let verified = consistent && sig.key == *pk && sig.root == signing_root();
            try_combine_and_verify(Some(sig), verified)
        }
    }
}

fn verify_share(sig: &MockSig, pk: &PublicKeyBytes, r: &Hash256) -> bool {
    sig.key == *pk && sig.root == *r
}

type Notifier = oneshot::Sender<Arc<MockSig>>;
type State = SignatureCollectorState<Notifier, MockSig>;

fn fresh_state() -> State {
    SignatureCollectorState::new(signing_root())
}

struct Db {
    share_pubkeys: HashMap<PublicKeyBytes, HashMap<u64, PublicKeyBytes>>,
}

fn seed_share_pubkeys(master_pubkey: PublicKeyBytes, quorum: &TestQuorum) -> Db {
    let keys = quorum
        .shares
        .iter()
        .map(|(op, m)| (op.0, share_key(*m, op.0)))
        .collect();
    let mut share_pubkeys = HashMap::new();
    share_pubkeys.insert(master_pubkey, keys);
    Db { share_pubkeys }
}

/// Runs the outside work the collector asks for until it waits or stops;
/// counts verification failures.
fn drive(
    state: &mut State,
    db: Option<&Db>,
    failures: &mut u64,
    initial: CollectorAction<Notifier>,
) -> CollectorAction<Notifier> {
    let mut action = initial;
    loop {
        match action {
            CollectorAction::Recv | CollectorAction::Exit => return action,
            CollectorAction::Deliver(notifiers) => {
                let sig = Arc::new(*state.full_signature().expect("signature present"));
                for n in notifiers {
                    let _ = n.send(Arc::clone(&sig));
                }
                return CollectorAction::Recv;
            }
            CollectorAction::CombineShares(pk) => {
                let outcome = combine_and_verify(state.shares(), &pk);
                action = state.apply_combine_outcome(outcome);
            }
            CollectorAction::FetchSharePubkeys(pk) => {
                *failures += 1;
                let keys = db
                    .and_then(|d| d.share_pubkeys.get(&pk).cloned())
                    .unwrap_or_default();
                action = state.apply_fallback(keys, &verify_share);
            }
        }
    }
}

fn register_notifier(
    state: &mut State,
    threshold: u64,
    validator_pubkey: PublicKeyBytes,
) -> oneshot::Receiver<Arc<MockSig>> {
    let (notify, rx) = oneshot::channel();
    let mut failures = 0;
    let first = state.register_request(notify, threshold, validator_pubkey);
    let outcome = drive(state, None, &mut failures, first);
    assert!(
        matches!(outcome, CollectorAction::Recv),
        "register_notifier should not break the collector"
    );
    rx
}

fn feed_partial_sig(state: &mut State, operator_id: OperatorId, signature: MockSig) {
    let mut failures = 0;
    let first = state.add_partial_signature(operator_id, signature);
    let outcome = drive(state, None, &mut failures, first);
    assert!(
        matches!(outcome, CollectorAction::Recv),
        "feed_partial_sig should not break the collector"
    );
}

fn feed_and_drive(
    state: &mut State,
    db: &Db,
    failures: &mut u64,
    operator_id: OperatorId,
    signature: MockSig,
) -> CollectorAction<Notifier> {
    let first = state.add_partial_signature(operator_id, signature);
    drive(state, Some(db), failures, first)
}

fn expect_signature(rx: &mut oneshot::Receiver<Arc<MockSig>>, context: &str) {
    rx.try_recv().expect(context);
}

#[test]
fn state_processes_full_quorum_and_notifies() {
    let TestQuorum { master, master_pubkey, shares } = split_random_master();
    let mut state = fresh_state();
    let mut result_rx = register_notifier(&mut state, THRESHOLD, master_pubkey);
    for (op_id, _) in &shares[..THRESHOLD as usize] {
        feed_partial_sig(&mut state, *op_id, sign(*op_id, master, signing_root()));
    }
    expect_signature(&mut result_rx, "Notifier should receive the reconstructed signature");
}

#[test]
fn state_breaks_on_conflicting_thresholds() {
    let TestQuorum { master_pubkey, .. } = split_random_master();
    let mut state = fresh_state();
    let _first_rx = register_notifier(&mut state, THRESHOLD, master_pubkey);

    let (second_notify, mut second_rx) = oneshot::channel();
    let outcome = state.register_request(second_notify, THRESHOLD + 1, master_pubkey);
    assert!(
        matches!(outcome, CollectorAction::Exit),
        "State should Break when a second notifier disagrees on threshold"
    );
    drop(state);
    assert!(
        matches!(second_rx.try_recv(), Err(oneshot::error::TryRecvError::Closed)),
        "Conflicting notifier sender should be dropped, surfacing RecvError"
    );
}

#[test]
fn state_delivers_cached_signature_to_late_registrant() {
    let TestQuorum { master, master_pubkey, shares } = split_random_master();
    let mut state = fresh_state();
    let mut first_rx = register_notifier(&mut state, THRESHOLD, master_pubkey);
    for (op_id, _) in &shares[..THRESHOLD as usize] {
        feed_partial_sig(&mut state, *op_id, sign(*op_id, master, signing_root()));
    }
    expect_signature(&mut first_rx, "First registrant should receive the reconstructed signature");

    let mut late_rx = register_notifier(&mut state, THRESHOLD, master_pubkey);
    expect_signature(&mut late_rx, "Late registrant should receive the cached signature immediately");
}

#[test]
fn state_notifies_all_registrants_on_reconstruction() {
    let TestQuorum { master, master_pubkey, shares } = split_random_master();
    let mut state = fresh_state();
    let mut rx_a = register_notifier(&mut state, THRESHOLD, master_pubkey);
    let mut rx_b = register_notifier(&mut state, THRESHOLD, master_pubkey);
    let mut rx_c = register_notifier(&mut state, THRESHOLD, master_pubkey);
    for (op_id, _) in &shares[..THRESHOLD as usize] {
        feed_partial_sig(&mut state, *op_id, sign(*op_id, master, signing_root()));
    }
    expect_signature(&mut rx_a, "registrant a should be notified");
    expect_signature(&mut rx_b, "registrant b should be notified");
    expect_signature(&mut rx_c, "registrant c should be notified");
}

#[test]
fn state_buffers_shares_arriving_before_first_notifier_register() {
    let TestQuorum { master, master_pubkey, shares } = split_random_master();
    let mut state = fresh_state();
    for (op_id, _) in &shares[..THRESHOLD as usize] {
        feed_partial_sig(&mut state, *op_id, sign(*op_id, master, signing_root()));
    }
    assert!(!state.is_reconstructed(), "State should not reconstruct without a threshold");
    let mut result_rx = register_notifier(&mut state, THRESHOLD, master_pubkey);
    expect_signature(
        &mut result_rx,
        "Notifier should receive the signature reconstructed from buffered shares",
    );
}

fn share_pubkey_map(quorum: &TestQuorum) -> HashMap<u64, PublicKeyBytes> {
    quorum.shares.iter().map(|(op, m)| (op.0, share_key(*m, op.0))).collect()
}

#[test]
fn find_invalid_shares_identifies_bad() {
    let quorum = split_random_master();
    let share_pubkeys = share_pubkey_map(&quorum);
    let (bad_op, m) = quorum.shares[0];
    let shares: HashMap<u64, MockSig> = std::iter::once((bad_op.0, sign(bad_op, m, bad_signing_root())))
        .chain(quorum.shares[1..].iter().map(|(op, m)| (op.0, sign(*op, *m, signing_root()))))
        .collect();
    let invalid = find_invalid_shares(&shares, signing_root(), &share_pubkeys, &verify_share);
    assert_eq!(invalid, HashSet::from([bad_op.0]));
}

#[test]
fn find_invalid_shares_all_valid() {
    let quorum = split_random_master();
    let share_pubkeys = share_pubkey_map(&quorum);
    let shares: HashMap<u64, MockSig> =
        quorum.shares.iter().map(|(op, m)| (op.0, sign(*op, *m, signing_root()))).collect();
    let invalid = find_invalid_shares(&shares, signing_root(), &share_pubkeys, &verify_share);
    assert!(invalid.is_empty(), "no shares should be invalid");
}

#[test]
fn find_invalid_shares_missing_pubkey_marked_invalid() {
    let quorum = split_random_master();
    let mut share_pubkeys = share_pubkey_map(&quorum);
    let (missing_op, _) = quorum.shares[0];
    share_pubkeys.remove(&missing_op.0);
    let shares: HashMap<u64, MockSig> =
        quorum.shares.iter().map(|(op, m)| (op.0, sign(*op, *m, signing_root()))).collect();
    let invalid = find_invalid_shares(&shares, signing_root(), &share_pubkeys, &verify_share);
    assert_eq!(
        invalid,
        HashSet::from([missing_op.0]),
        "operator without a known share pubkey must be flagged invalid"
    );
}

#[test]
fn try_combine_valid_quorum_succeeds() {
    let quorum = split_random_master();
    let shares: HashMap<u64, MockSig> = quorum.shares[..THRESHOLD as usize]
        .iter()
        .map(|(op, m)| (op.0, sign(*op, *m, signing_root())))
        .collect();
    let outcome = combine_and_verify(&shares, &quorum.master_pubkey);
    assert!(
        matches!(outcome, CombineOutcome::Success(_)),
        "clean quorum should reconstruct and verify"
    );
}

#[test]
fn try_combine_poisoned_quorum_fails_verify() {
    let quorum = split_random_master();
    let mut signed: Vec<(u64, MockSig)> = quorum.shares[..THRESHOLD as usize]
        .iter()
        .map(|(op, m)| (op.0, sign(*op, *m, signing_root())))
        .collect();
    let (bad_op, m) = quorum.shares[0];
    signed[0] = (bad_op.0, sign(bad_op, m, bad_signing_root()));
    let shares: HashMap<u64, MockSig> = signed.into_iter().collect();
    let outcome = combine_and_verify(&shares, &quorum.master_pubkey);
    assert!(
        matches!(outcome, CombineOutcome::VerificationFailed),
        "poisoned quorum should reach verification, then fail it"
    );
}

#[test]
fn integration_fallback_removes_bad_and_succeeds() {
    let quorum = split_random_master();
    let db = seed_share_pubkeys(quorum.master_pubkey, &quorum);
    let mut state = fresh_state();
    let mut rx = register_notifier(&mut state, THRESHOLD, quorum.master_pubkey);
    let mut failures = 0u64;

    let m = quorum.master;
    let (op0, _) = quorum.shares[0];
    let (op1, _) = quorum.shares[1];
    let (bad_op, _) = quorum.shares[2];
    let (op3, _) = quorum.shares[3];
    feed_and_drive(&mut state, &db, &mut failures, op0, sign(op0, m, signing_root()));
    feed_and_drive(&mut state, &db, &mut failures, op1, sign(op1, m, signing_root()));
    feed_and_drive(&mut state, &db, &mut failures, bad_op, sign(bad_op, m, bad_signing_root()));
    assert!(
        !state.is_reconstructed(),
        "fallback should have evicted the bad share without producing a signature"
    );
    feed_and_drive(&mut state, &db, &mut failures, op3, sign(op3, m, signing_root()));

    expect_signature(&mut rx, "Clean quorum after eviction should reconstruct successfully");
    assert_eq!(failures, 1, "exactly one verification failure should have been recorded");
}

#[test]
fn integration_aborts_when_no_individual_share_invalid() {
    let quorum = split_random_master();
    let wrong_master_pubkey = master_key(99);
    let db = seed_share_pubkeys(wrong_master_pubkey, &quorum);
    let mut state = fresh_state();
    let (notify, mut rx) = oneshot::channel();
    let register_outcome = state.register_request(notify, THRESHOLD, wrong_master_pubkey);
    assert!(
        matches!(register_outcome, CollectorAction::Recv),
        "registration before any shares should not break"
    );

    let mut failures = 0u64;
    let m = quorum.master;
    let (op0, _) = quorum.shares[0];
    let (op1, _) = quorum.shares[1];
    let (op2, _) = quorum.shares[2];
    feed_and_drive(&mut state, &db, &mut failures, op0, sign(op0, m, signing_root()));
    feed_and_drive(&mut state, &db, &mut failures, op1, sign(op1, m, signing_root()));
    let last_outcome =
        feed_and_drive(&mut state, &db, &mut failures, op2, sign(op2, m, signing_root()));

    assert!(
        matches!(last_outcome, CollectorAction::Exit),
        "collector should `Break` when verification fails but no share is individually invalid"
    );
    drop(state);
    assert!(
        matches!(rx.try_recv(), Err(oneshot::error::TryRecvError::Closed)),
        "notifier sender should be dropped after the collector aborts"
    );
}

#[test]
fn integration_while_loop_evicts_two_then_succeeds() {
    let quorum = split_master(11, 5);
    let db = seed_share_pubkeys(quorum.master_pubkey, &quorum);
    let mut state = fresh_state();
    let mut rx = register_notifier(&mut state, THRESHOLD, quorum.master_pubkey);
    let mut failures = 0u64;

    for (idx, (op_id, m)) in quorum.shares.iter().enumerate() {
        let sig = if idx < 2 {
            sign(*op_id, *m, bad_signing_root())
        } else {
            sign(*op_id, *m, signing_root())
        };
        feed_and_drive(&mut state, &db, &mut failures, *op_id, sig);
    }

    expect_signature(&mut rx, "Multi-eviction loop should reconstruct from the remaining valid shares");
    assert_eq!(failures, 1, "the single verification failure should be recorded once");
    assert_eq!(state.share_count(), 0, "shares should be cleared after a successful reconstruction");
}

#[test]
fn state_drops_partial_signatures_after_reconstruction() {
    let TestQuorum { master, master_pubkey, shares } = split_random_master();
    let mut state = fresh_state();
    let mut rx = register_notifier(&mut state, THRESHOLD, master_pubkey);
    for (op_id, _) in &shares[..THRESHOLD as usize] {
        feed_partial_sig(&mut state, *op_id, sign(*op_id, master, signing_root()));
    }
    expect_signature(&mut rx, "first registrant should be notified");

    let (late_op, _) = shares[THRESHOLD as usize];
    feed_partial_sig(&mut state, late_op, sign(late_op, master, signing_root()));

    assert!(state.is_reconstructed(), "cached signature persists");
    assert_eq!(state.share_count(), 0, "post-reconstruction shares are not buffered");
}

// Further properties of the state machine.

#[test]
fn first_share_of_an_operator_wins() {
    let q = split_random_master();
    let mut state = fresh_state();
    let op = OperatorId(1);
    feed_partial_sig(&mut state, op, sign(op, q.master, signing_root()));
    feed_partial_sig(&mut state, op, sign(op, q.master, bad_signing_root()));
    assert_eq!(state.share_count(), 1);
    assert_eq!(state.shares().get(&1).unwrap().root, signing_root());
}

#[test]
fn conflicting_validator_key_exits() {
    let q = split_random_master();
    let mut state = fresh_state();
    let _rx = register_notifier(&mut state, THRESHOLD, q.master_pubkey);
    let (notify, _rx2) = oneshot::channel();
    let outcome = state.register_request(notify, THRESHOLD, master_key(42));
    assert!(matches!(outcome, CollectorAction::Exit));
}

#[test]
fn combination_requested_exactly_at_threshold() {
    let q = split_random_master();
    let mut state = fresh_state();
    let (notify, _rx) = oneshot::channel();
    assert!(matches!(state.register_request(notify, THRESHOLD, q.master_pubkey), CollectorAction::Recv));
    assert!(matches!(
        state.add_partial_signature(OperatorId(1), sign(OperatorId(1), q.master, signing_root())),
        CollectorAction::Recv
    ));
    assert!(matches!(
        state.add_partial_signature(OperatorId(2), sign(OperatorId(2), q.master, signing_root())),
        CollectorAction::Recv
    ));
    match state.add_partial_signature(OperatorId(3), sign(OperatorId(3), q.master, signing_root())) {
        CollectorAction::CombineShares(pk) => assert_eq!(pk, q.master_pubkey),
        _ => panic!("a combination should be requested at the threshold"),
    }
}

#[test]
fn combine_failure_exits() {
    let q = split_random_master();
    let mut state = fresh_state();
    let (notify, _rx) = oneshot::channel();
    state.register_request(notify, 1, q.master_pubkey);
    let a = state.add_partial_signature(OperatorId(1), sign(OperatorId(1), q.master, signing_root()));
    assert!(matches!(a, CollectorAction::CombineShares(_)));
    assert!(matches!(state.apply_combine_outcome(CombineOutcome::CombineFailed), CollectorAction::Exit));
    assert!(!state.is_reconstructed());
}

#[test]
fn verification_failure_asks_for_share_keys() {
    let q = split_random_master();
    let mut state = fresh_state();
    let (notify, _rx) = oneshot::channel();
    state.register_request(notify, 1, q.master_pubkey);
    state.add_partial_signature(OperatorId(1), sign(OperatorId(1), q.master, signing_root()));
    match state.apply_combine_outcome(CombineOutcome::VerificationFailed) {
        CollectorAction::FetchSharePubkeys(pk) => assert_eq!(pk, q.master_pubkey),
        _ => panic!("expected a share key lookup"),
    }
}

#[test]
fn success_delivers_every_waiting_task_in_order() {
    let q = split_random_master();
    let mut state: SignatureCollectorState<u32, MockSig> = SignatureCollectorState::new(signing_root());
    state.register_request(10, 1, q.master_pubkey);
    state.register_request(20, 1, q.master_pubkey);
    state.add_partial_signature(OperatorId(1), sign(OperatorId(1), q.master, signing_root()));
    let sig = MockSig { key: q.master_pubkey, root: signing_root() };
    match state.apply_combine_outcome(CombineOutcome::Success(sig)) {
        CollectorAction::Deliver(v) => assert_eq!(v, vec![10, 20]),
        _ => panic!("expected delivery"),
    }
    assert_eq!(state.full_signature(), Some(&sig));
    assert_eq!(state.share_count(), 0);
    match state.register_request(30, 1, q.master_pubkey) {
        CollectorAction::Deliver(v) => assert_eq!(v, vec![30]),
        _ => panic!("a late registrant is served at once"),
    }
}

#[test]
fn try_combine_and_verify_classifies() {
    assert!(matches!(try_combine_and_verify::<u8>(None, true), CombineOutcome::CombineFailed));
    assert!(matches!(try_combine_and_verify(Some(5u8), true), CombineOutcome::Success(5)));
    assert!(matches!(try_combine_and_verify(Some(5u8), false), CombineOutcome::VerificationFailed));
}
