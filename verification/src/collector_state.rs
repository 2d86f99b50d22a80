//! The per-validator signature collector: a synchronous state machine that
//! buffers partial signatures from operators, asks for a threshold
//! combination once a registration and enough shares are present, and falls
//! back to evicting individually invalid shares when the combination fails
//! verification.
//!
//! Outside work (combining shares, verifying signatures, looking up share
//! public keys, delivering the result to waiting tasks) is requested through
//! [`CollectorAction`]; the driver performs it and reports back.

use std::collections::{HashMap, HashSet};
use vstd::prelude::*;
use vstd::std_specs::iter::IteratorSpec;

use crate::types::{Hash256, OperatorId, PublicKeyBytes};

verus! {

broadcast use vstd::std_specs::hash::group_hash_axioms;

/// The threshold and validator key recorded by the first registration.
#[derive(Clone, Copy, Debug)]
pub struct Registration {
    pub threshold: u64,
    pub validator_pubkey: PublicKeyBytes,
}

/// What the driver of a collector must do next.
pub enum CollectorAction<N> {
    /// Wait for the next message.
    Recv,
    /// Stop this collector; waiting tasks are dropped.
    Exit,
    /// Combine the buffered shares (see [`SignatureCollectorState::shares`]),
    /// verify the result against this key and report with
    /// [`SignatureCollectorState::apply_combine_outcome`].
    CombineShares(PublicKeyBytes),
    /// Look up the per-operator share keys of this validator and report with
    /// [`SignatureCollectorState::apply_fallback`].
    FetchSharePubkeys(PublicKeyBytes),
    /// Hand the reconstructed signature (see
    /// [`SignatureCollectorState::full_signature`]) to each of these waiting
    /// tasks, then wait for the next message.
    Deliver(Vec<N>),
}

/// The mathematical counterpart of [`CollectorAction`].
pub enum ActionModel<N> {
    Recv,
    Exit,
    CombineShares(PublicKeyBytes),
    FetchSharePubkeys(PublicKeyBytes),
    Deliver(Seq<N>),
}

impl<N> View for CollectorAction<N> {
    type V = ActionModel<N>;

    open spec fn view(&self) -> ActionModel<N> {
        match self {
            CollectorAction::Recv => ActionModel::Recv,
            CollectorAction::Exit => ActionModel::Exit,
            CollectorAction::CombineShares(k) => ActionModel::CombineShares(*k),
            CollectorAction::FetchSharePubkeys(k) => ActionModel::FetchSharePubkeys(*k),
            CollectorAction::Deliver(v) => ActionModel::Deliver(v@),
        }
    }
}

/// The result of combining the buffered shares and verifying the combination
/// against the validator key.
pub enum CombineOutcome<S> {
    /// The combination verified.
    Success(S),
    /// The shares could not be combined at all.
    CombineFailed,
    /// The combination did not verify against the validator key.
    VerificationFailed,
}

/// Classifies one combine-and-verify attempt: `combined` is the result of
/// combining the shares, `verified` whether it verified against the
/// validator key (only looked at when there is a combination).
pub fn try_combine_and_verify<S>(combined: Option<S>, verified: bool) -> (r: CombineOutcome<S>)
    ensures
        match combined {
            None => r is CombineFailed,
            Some(sig) => if verified {
                r == CombineOutcome::Success(sig)
            } else {
                r is VerificationFailed
            },
        },
{
    match combined {
        None => CombineOutcome::CombineFailed,
        Some(sig) => if verified {
            CombineOutcome::Success(sig)
        } else {
            CombineOutcome::VerificationFailed
        },
    }
}

/// The abstract state of a collector.
pub struct CollectorModel<N, S> {
    /// Tasks waiting for the reconstructed signature, in registration order.
    pub notifiers: Seq<N>,
    /// The buffered partial signature of each operator.
    pub shares: Map<u64, S>,
    /// The reconstructed signature, once there is one.
    pub full_signature: Option<S>,
    /// The first registration, if any.
    pub registration: Option<Registration>,
    /// The root all shares sign.
    pub signing_root: Hash256,
}

impl<N, S> CollectorModel<N, S> {
    /// Once the signature is reconstructed nothing is buffered and nobody waits.
    pub open spec fn wf(self) -> bool {
        &&& self.shares.dom().finite()
        &&& self.full_signature is Some ==> self.shares.dom().is_empty() && self.notifiers.len()
            == 0
    }

    /// A combination has been requested and its outcome is awaited.
    pub open spec fn combine_pending(self) -> bool {
        &&& self.full_signature is None
        &&& self.registration matches Some(reg) && self.shares.len() >= reg.threshold
    }
}

/// A fresh collector for `signing_root`.
pub open spec fn initial_model<N, S>(signing_root: Hash256) -> CollectorModel<N, S> {
    CollectorModel {
        notifiers: Seq::empty(),
        shares: Map::empty(),
        full_signature: None,
        registration: None,
        signing_root,
    }
}

/// Asks for a combination once registered and at least `threshold` shares
/// are buffered; otherwise waits.
pub open spec fn reconstruct_step<N, S>(m: CollectorModel<N, S>) -> (
    CollectorModel<N, S>,
    ActionModel<N>,
) {
    match m.registration {
        None => (m, ActionModel::Recv),
        Some(reg) => if m.shares.len() < reg.threshold {
            (m, ActionModel::Recv)
        } else {
            (m, ActionModel::CombineShares(reg.validator_pubkey))
        },
    }
}

/// A task registers for the signature with a threshold and validator key.
pub open spec fn register_step<N, S>(
    m: CollectorModel<N, S>,
    notify: N,
    threshold: u64,
    validator_pubkey: PublicKeyBytes,
) -> (CollectorModel<N, S>, ActionModel<N>) {
    if m.full_signature is Some {
        (m, ActionModel::Deliver(seq![notify]))
    } else {
        let queued = CollectorModel { notifiers: m.notifiers.push(notify), ..m };
        match m.registration {
            Some(reg) => if reg.threshold != threshold || reg.validator_pubkey != validator_pubkey {
                (queued, ActionModel::Exit)
            } else {
                reconstruct_step(queued)
            },
            None => reconstruct_step(
                CollectorModel {
                    registration: Some(Registration { threshold, validator_pubkey }),
                    ..queued
                },
            ),
        }
    }
}

/// An operator's partial signature arrives; the first one of each operator
/// is kept, and nothing is kept once the signature is reconstructed.
pub open spec fn share_step<N, S>(m: CollectorModel<N, S>, operator: u64, signature: S) -> (
    CollectorModel<N, S>,
    ActionModel<N>,
) {
    if m.full_signature is Some {
        (m, ActionModel::Recv)
    } else if m.shares.contains_key(operator) {
        reconstruct_step(m)
    } else {
        reconstruct_step(CollectorModel { shares: m.shares.insert(operator, signature), ..m })
    }
}

/// The outcome of a requested combination arrives.
pub open spec fn combine_step<N, S>(m: CollectorModel<N, S>, outcome: CombineOutcome<S>) -> (
    CollectorModel<N, S>,
    ActionModel<N>,
) {
    match outcome {
        CombineOutcome::Success(sig) => (
            CollectorModel {
                notifiers: Seq::empty(),
                shares: Map::empty(),
                full_signature: Some(sig),
                ..m
            },
            ActionModel::Deliver(m.notifiers),
        ),
        CombineOutcome::CombineFailed => (m, ActionModel::Exit),
        CombineOutcome::VerificationFailed => (
            m,
            ActionModel::FetchSharePubkeys(m.registration->0.validator_pubkey),
        ),
    }
}

/// The shares of the operators in `invalid` are evicted and reconstruction is
/// retried; with nobody to blame the collector stops.
pub open spec fn fallback_step<N, S>(m: CollectorModel<N, S>, invalid: Set<u64>) -> (
    CollectorModel<N, S>,
    ActionModel<N>,
) {
    if invalid.is_empty() {
        (m, ActionModel::Exit)
    } else {
        reconstruct_step(CollectorModel { shares: m.shares.remove_keys(invalid), ..m })
    }
}

/// `invalid` is what checking each share of `shares` against its operator's
/// key in `share_pubkeys` with `verify` flags: the operators without a key,
/// and those whose share `verify` rejected.
pub open spec fn flags_invalid_shares<S, F: Fn(&S, &PublicKeyBytes, &Hash256) -> bool>(
    shares: Map<u64, S>,
    signing_root: Hash256,
    share_pubkeys: Map<u64, PublicKeyBytes>,
    verify: F,
    invalid: Set<u64>,
) -> bool {
    &&& forall|op: u64| invalid.contains(op) ==> shares.contains_key(op)
    &&& forall|op: u64|
        shares.contains_key(op) && !share_pubkeys.contains_key(op) ==> invalid.contains(op)
    &&& forall|op: u64|
        #![trigger invalid.contains(op)]
        shares.contains_key(op) && share_pubkeys.contains_key(op) && invalid.contains(op)
            ==> call_ensures(verify, (&shares[op], &share_pubkeys[op], &signing_root), false)
    &&& forall|op: u64|
        #![trigger invalid.contains(op)]
        shares.contains_key(op) && share_pubkeys.contains_key(op) && !invalid.contains(op)
            ==> call_ensures(verify, (&shares[op], &share_pubkeys[op], &signing_root), true)
}

/// Checks every share against its operator's key: a share is invalid when
/// its operator has no key in `share_pubkeys` or when `verify` rejects it.
pub fn find_invalid_shares<S, F: Fn(&S, &PublicKeyBytes, &Hash256) -> bool>(
    shares: &HashMap<u64, S>,
    signing_root: Hash256,
    share_pubkeys: &HashMap<u64, PublicKeyBytes>,
    verify: &F,
) -> (invalid: HashSet<u64>)
    requires
        forall|s: &S, k: &PublicKeyBytes, r: &Hash256| call_requires(*verify, (s, k, r)),
    ensures
        flags_invalid_shares(shares@, signing_root, share_pubkeys@, *verify, invalid@),
{
    let mut invalid: HashSet<u64> = HashSet::new();
    let entries = shares.iter();
    proof {
        let v = entries.remaining();
        assert forall|a: int, b: int|
            0 <= a < v.len() && 0 <= b < v.len() && a != b implies *v[a].0 != *v[b].0 by {
            if *v[a].0 == *v[b].0 {
                assert(shares@.contains_key(*v[a].0) && shares@[*v[a].0] == *v[a].1);
                assert(shares@.contains_key(*v[b].0) && shares@[*v[b].0] == *v[b].1);
                assert(v[a] == v[b]);
            }
        }
    }
    for (op, sig) in it: entries
        invariant
            forall|s: &S, k: &PublicKeyBytes, r: &Hash256| call_requires(*verify, (s, k, r)),
            forall|a: int, b: int|
                0 <= a < it.seq().len() && 0 <= b < it.seq().len() && a != b ==> *it.seq()[a].0
                    != *it.seq()[b].0,
            forall|j: int|
                #![trigger it.seq()[j]]
                0 <= j < it.seq().len() ==> shares@.contains_key(*it.seq()[j].0)
                    && shares@[*it.seq()[j].0] == *it.seq()[j].1,
            forall|o: u64|
                shares@.contains_key(o) ==> exists|j: int|
                    0 <= j < it.seq().len() && *it.seq()[j].0 == o,
            forall|o: u64| invalid@.contains(o) ==> shares@.contains_key(o),
            forall|j: int|
                it.index() <= j < it.seq().len() ==> !invalid@.contains(#[trigger] *it.seq()[j].0),
            forall|j: int|
                0 <= j < it.index() && !share_pubkeys@.contains_key(*it.seq()[j].0)
                    ==> invalid@.contains(*it.seq()[j].0),
            forall|j: int|
                0 <= j < it.index() && share_pubkeys@.contains_key(*it.seq()[j].0)
                    && invalid@.contains(*it.seq()[j].0) ==> call_ensures(
                    *verify,
                    (it.seq()[j].1, &share_pubkeys@[*it.seq()[j].0], &signing_root),
                    false,
                ),
            forall|j: int|
                0 <= j < it.index() && share_pubkeys@.contains_key(*it.seq()[j].0)
                    && !invalid@.contains(*it.seq()[j].0) ==> call_ensures(
                    *verify,
                    (it.seq()[j].1, &share_pubkeys@[*it.seq()[j].0], &signing_root),
                    true,
                ),
    {
        let ghost before = invalid@;
        let flag = match share_pubkeys.get(op) {
            Some(pk) => !verify(sig, pk, &signing_root),
            None => true,
        };
        if flag {
            invalid.insert(*op);
            assert forall|j: int| 0 <= j < it.index() implies (invalid@.contains(*it.seq()[j].0)
                == before.contains(*it.seq()[j].0)) by {
                assert(*it.seq()[j].0 != *it.seq()[it.index() as int].0);
            }
        }
    }
    invalid
}

/// The state of one collector: waiting tasks of type `N`, signatures of type `S`.
pub struct SignatureCollectorState<N, S> {
    notifiers: Vec<N>,
    signature_share: HashMap<u64, S>,
    full_signature: Option<S>,
    registration: Option<Registration>,
    signing_root: Hash256,
}

impl<N, S> View for SignatureCollectorState<N, S> {
    type V = CollectorModel<N, S>;

    closed spec fn view(&self) -> CollectorModel<N, S> {
        CollectorModel {
            notifiers: self.notifiers@,
            shares: self.signature_share@,
            full_signature: self.full_signature,
            registration: self.registration,
            signing_root: self.signing_root,
        }
    }
}

impl<N, S> SignatureCollectorState<N, S> {
    /// A collector for `signing_root` with nothing buffered.
    pub fn new(signing_root: Hash256) -> (r: Self)
        ensures
            r@ == initial_model::<N, S>(signing_root),
            r@.wf(),
    {
        let r = SignatureCollectorState {
            notifiers: Vec::new(),
            signature_share: HashMap::new(),
            full_signature: None,
            registration: None,
            signing_root,
        };
        assert(r@.notifiers =~= Seq::<N>::empty());
        r
    }

    /// The buffered shares, by operator.
    pub fn shares(&self) -> (r: &HashMap<u64, S>)
        ensures
            r@ == self@.shares,
    {
        &self.signature_share
    }

    /// The reconstructed signature, once there is one.
    pub fn full_signature(&self) -> (r: Option<&S>)
        ensures
            match self@.full_signature {
                Some(s) => r == Some(&s),
                None => r is None,
            },
    {
        match &self.full_signature {
            Some(s) => Some(s),
            None => None,
        }
    }

    /// Whether the signature has been reconstructed.
    pub fn is_reconstructed(&self) -> (r: bool)
        ensures
            r == self@.full_signature is Some,
    {
        self.full_signature.is_some()
    }

    /// How many shares are buffered.
    pub fn share_count(&self) -> (r: usize)
        ensures
            r == self@.shares.len(),
    {
        self.signature_share.len()
    }

    /// Asks for a combination when registered and enough shares are buffered;
    /// the state is left as it is, so the collector invariant (once the
    /// signature is reconstructed, no share is buffered and no task waits)
    /// still holds.
    fn try_reconstruct(&mut self) -> (a: CollectorAction<N>)
        requires
            old(self)@.wf(),
        ensures
            (final(self)@, a@) == reconstruct_step(old(self)@),
            final(self)@ == old(self)@,
            final(self)@.wf(),
            final(self)@.full_signature is Some ==> final(self)@.shares.dom().is_empty()
                && final(self)@.notifiers.len() == 0,
    {
        match &self.registration {
            None => CollectorAction::Recv,
            Some(registration) => {
                if (self.signature_share.len() as u64) < registration.threshold {
                    CollectorAction::Recv
                } else {
                    CollectorAction::CombineShares(registration.validator_pubkey)
                }
            },
        }
    }

    /// Registers a task waiting for the reconstructed signature. A task that
    /// registers after reconstruction gets the cached signature at once;
    /// a threshold or validator key that differs from the first
    /// registration stops the collector.
    pub fn register_request(
        &mut self,
        notify: N,
        threshold: u64,
        validator_pubkey: PublicKeyBytes,
    ) -> (a: CollectorAction<N>)
        requires
            old(self)@.wf(),
        ensures
            (final(self)@, a@) == register_step(old(self)@, notify, threshold, validator_pubkey),
            final(self)@.wf(),
    {
        if self.full_signature.is_some() {
            let v = vec![notify];
            assert(v@ =~= seq![notify]);
            return CollectorAction::Deliver(v);
        }
        self.notifiers.push(notify);
        match &self.registration {
            Some(existing) => {
                if existing.threshold != threshold {
                    return CollectorAction::Exit;
                }
                if !existing.validator_pubkey.same_as(&validator_pubkey) {
                    return CollectorAction::Exit;
                }
            },
            None => {
                self.registration = Some(Registration { threshold, validator_pubkey });
            },
        }
        self.try_reconstruct()
    }

    /// Buffers an operator's partial signature (the first of each operator
    /// is kept; after reconstruction nothing is kept) and asks for a
    /// combination when there are enough.
    pub fn add_partial_signature(&mut self, operator_id: OperatorId, signature: S) -> (a:
        CollectorAction<N>)
        requires
            old(self)@.wf(),
        ensures
            (final(self)@, a@) == share_step(old(self)@, operator_id.0, signature),
            final(self)@.wf(),
    {
        if self.full_signature.is_some() {
            return CollectorAction::Recv;
        }
        if !self.signature_share.contains_key(&operator_id.0) {
            self.signature_share.insert(operator_id.0, signature);
        }
        self.try_reconstruct()
    }

    /// Applies the outcome of a requested combination: on success the
    /// signature is kept, the shares dropped and every waiting task is to be
    /// served.
    pub fn apply_combine_outcome(&mut self, outcome: CombineOutcome<S>) -> (a: CollectorAction<N>)
        requires
            old(self)@.wf(),
            old(self)@.combine_pending(),
        ensures
            (final(self)@, a@) == combine_step(old(self)@, outcome),
            final(self)@.wf(),
    {
        match outcome {
            CombineOutcome::Success(signature) => {
                self.signature_share.clear();
                let mut waiting: Vec<N> = Vec::new();
                std::mem::swap(&mut waiting, &mut self.notifiers);
                self.full_signature = Some(signature);
                assert(self@.notifiers =~= Seq::<N>::empty());
                CollectorAction::Deliver(waiting)
            },
            CombineOutcome::CombineFailed => CollectorAction::Exit,
            CombineOutcome::VerificationFailed => {
                let registration = self.registration.unwrap();
                CollectorAction::FetchSharePubkeys(registration.validator_pubkey)
            },
        }
    }

    /// The per-share fallback: evicts every share that fails its own check
    /// (see [`find_invalid_shares`]) and retries; stops when no share is to
    /// blame.
    pub fn apply_fallback<F: Fn(&S, &PublicKeyBytes, &Hash256) -> bool>(
        &mut self,
        share_pubkeys: HashMap<u64, PublicKeyBytes>,
        verify: &F,
    ) -> (a: CollectorAction<N>)
        requires
            old(self)@.wf(),
            forall|s: &S, k: &PublicKeyBytes, r: &Hash256| call_requires(*verify, (s, k, r)),
        ensures
            exists|invalid: Set<u64>|
                flags_invalid_shares(
                    old(self)@.shares,
                    old(self)@.signing_root,
                    share_pubkeys@,
                    *verify,
                    invalid,
                ) && (final(self)@, a@) == fallback_step(old(self)@, invalid),
            final(self)@.wf(),
    {
        let invalid = find_invalid_shares(
            &self.signature_share,
            self.signing_root,
            &share_pubkeys,
            verify,
        );
        proof {
            assert(flags_invalid_shares(
                old(self)@.shares,
                old(self)@.signing_root,
                share_pubkeys@,
                *verify,
                invalid@,
            ));
        }
        if invalid.is_empty() {
            proof {
                assert((self@, CollectorAction::<N>::Exit@) == fallback_step(old(self)@, invalid@));
            }
            return CollectorAction::Exit;
        }
        let ghost start = self.signature_share@;
        let mut remaining: HashMap<u64, S> = HashMap::new();
        std::mem::swap(&mut remaining, &mut self.signature_share);
        let ops = invalid.iter();
        proof {
            let v = ops.remaining();
            let u = v.unref();
            assert(u.to_set() == invalid@);
            assert forall|j: int| 0 <= j < v.len() implies invalid@.contains(*v[j]) by {
                assert(u[j] == *v[j]);
                assert(u.contains(u[j]));
            }
            assert forall|o: u64| invalid@.contains(o) implies exists|j: int|
                0 <= j < v.len() && *v[j] == o by {
                assert(u.to_set().contains(o));
                assert(u.contains(o));
                let j = choose|j: int| 0 <= j < u.len() && u[j] == o;
                assert(*v[j] == o);
            }
        }
        for op in it: ops
            invariant
                remaining@.dom().finite(),
                it.seq().no_duplicates(),
                it.seq().len() == invalid@.len(),
                forall|j: int| 0 <= j < it.seq().len() ==> invalid@.contains(*it.seq()[j]),
                forall|o: u64| invalid@.contains(o) ==> exists|j: int|
                    0 <= j < it.seq().len() && *it.seq()[j] == o,
                forall|k: u64|
                    #![trigger remaining@.contains_key(k)]
                    remaining@.contains_key(k) <==> (start.contains_key(k) && !(exists|
                        j: int,
                    | 0 <= j < it.index() && *it.seq()[j] == k)),
                forall|k: u64|
                    #![trigger remaining@[k]]
                    remaining@.contains_key(k) ==> remaining@[k] == start[k],
        {
            remaining.remove(op);
        }
        proof {
            assert(remaining@ =~= start.remove_keys(invalid@));
        }
        std::mem::swap(&mut remaining, &mut self.signature_share);
        proof {
            assert(self@ == CollectorModel {
                shares: old(self)@.shares.remove_keys(invalid@),
                ..old(self)@
            });
        }
        let a = self.try_reconstruct();
        proof {
            assert((self@, a@) == fallback_step(old(self)@, invalid@));
        }
        a
    }
}

} // verus!
