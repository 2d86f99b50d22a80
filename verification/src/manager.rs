//! Decisions of the collector manager: which collectors and committee
//! batches are old enough to drop, when a committee batch is complete, how
//! many signatures fit in one message, and how queue failures are reported.

use vstd::prelude::*;

use crate::types::{Hash256, OperatorId, PartialSignatureKind, PublicKeyBytes, Slot, ValidatorIndex};

verus! {

/// Number of slots before the current one whose collectors are kept.
pub const SIGNATURE_COLLECTOR_RETAIN_SLOTS: u64 = 1;

/// Why collecting a signature failed.
#[derive(Clone, Copy, Debug, PartialEq, Eq, Structural)]
pub enum CollectionError {
    QueueClosedError,
    QueueFullError,
    CollectionTimeout,
    EmptySignature,
    OwnOperatorIdUnknown,
    RecoverError,
}

/// Why handing work to a processor queue failed.
#[derive(Clone, Copy, Debug, PartialEq, Eq, Structural)]
pub enum QueueSendError {
    Full,
    Closed,
}

impl CollectionError {
    /// The collection error that a queue failure is reported as.
    pub fn from_queue_error(e: QueueSendError) -> (r: CollectionError)
        ensures
            e == QueueSendError::Full ==> r == CollectionError::QueueFullError,
            e == QueueSendError::Closed ==> r == CollectionError::QueueClosedError,
    {
        match e {
            QueueSendError::Full => CollectionError::QueueFullError,
            QueueSendError::Closed => CollectionError::QueueClosedError,
        }
    }

    /// A result channel whose sender was dropped: the queue is closed.
    pub fn from_recv_error() -> (r: CollectionError)
        ensures
            r == CollectionError::QueueClosedError,
    {
        CollectionError::QueueClosedError
    }
}

/// The operator that signs: the local operator id, which must be known.
pub fn own_signer(operator_id: Option<OperatorId>) -> (r: Result<OperatorId, CollectionError>)
    ensures
        match operator_id {
            Some(id) => r == Ok::<OperatorId, CollectionError>(id),
            None => r == Err::<OperatorId, CollectionError>(CollectionError::OwnOperatorIdUnknown),
        },
{
    match operator_id {
        Some(id) => Ok(id),
        None => Err(CollectionError::OwnOperatorIdUnknown),
    }
}

/// What a signature request is about: the kind and role written into the
/// network message, the number of operator shares that reconstruct the
/// validator signature, the slot (the collector is dropped one slot after
/// it) and the signers' committee.
#[derive(Clone, Copy, Debug)]
pub struct SignatureMetadata {
    pub kind: PartialSignatureKind,
    /// The role number of the message stream.
    pub role: u64,
    pub threshold: u64,
    pub slot: Slot,
    pub committee_id: u64,
}

/// Whether a request signs for one validator or for a committee.
#[derive(Clone, Copy, Debug)]
pub enum SignatureRequester {
    /// Only this validator signs; its message goes out at once.
    SingleValidator { pubkey: PublicKeyBytes },
    /// Several validators of one committee sign in the same round; the local
    /// partial signatures are batched into one message of
    /// `validator_partial_signature_batch_size` signatures, grouped by
    /// `base_hash`.
    Committee { validator_partial_signature_batch_size: usize, base_hash: Hash256 },
}

/// One operator's partial signature over a signing root, for a validator.
pub struct PartialSignatureMessage<S> {
    pub partial_signature: S,
    pub signing_root: Hash256,
    pub signer: OperatorId,
    pub validator_index: ValidatorIndex,
}

/// The local partial signatures of one committee round awaiting sending.
pub struct CommitteePartialSignatureBatch<M> {
    pub batched_validator_partial_signatures: Vec<M>,
    pub for_slot: Slot,
}

impl<M> CommitteePartialSignatureBatch<M> {
    /// An empty batch for a round of `for_slot`.
    pub fn new(capacity: usize, for_slot: Slot) -> (r: Self)
        ensures
            r.batched_validator_partial_signatures@.len() == 0,
            r.for_slot == for_slot,
    {
        CommitteePartialSignatureBatch {
            batched_validator_partial_signatures: Vec::with_capacity(capacity),
            for_slot,
        }
    }

    /// Adds a partial signature; the batch is complete once it holds exactly
    /// `batch_size` of them.
    pub fn add(&mut self, message: M, batch_size: usize) -> (complete: bool)
        ensures
            final(self).batched_validator_partial_signatures@
                == old(self).batched_validator_partial_signatures@.push(message),
            final(self).for_slot == old(self).for_slot,
            complete == (final(self).batched_validator_partial_signatures@.len() == batch_size),
    {
        self.batched_validator_partial_signatures.push(message);
        self.batched_validator_partial_signatures.len() == batch_size
    }
}

/// Identifies the batch of one committee round: the hash of the decided
/// committee value and the committee.
#[derive(Clone, Copy, Debug)]
pub struct BatchKey {
    pub base_hash: Hash256,
    pub committee_id: u64,
}

impl BatchKey {
    /// Whether two keys are the same.
    pub fn same_as(&self, other: &BatchKey) -> (r: bool)
        ensures
            r == (*self == *other),
    {
        self.committee_id == other.committee_id && self.base_hash.same_as(&other.base_hash)
    }
}

/// The abstract content of one pending batch.
pub struct BatchModel<M> {
    pub for_slot: Slot,
    pub messages: Seq<M>,
}

/// The abstract content of a pending batch value.
pub open spec fn batch_model<M>(b: CommitteePartialSignatureBatch<M>) -> BatchModel<M> {
    BatchModel { for_slot: b.for_slot, messages: b.batched_validator_partial_signatures@ }
}

/// One addition to the pending batches: the batch of `key` is found, or
/// created for `slot`; `message` is appended; a batch that then holds
/// exactly `batch_size` messages is removed and its messages handed out.
pub open spec fn batch_add_step<M>(
    m: Map<BatchKey, BatchModel<M>>,
    key: BatchKey,
    slot: Slot,
    message: M,
    batch_size: usize,
) -> (Map<BatchKey, BatchModel<M>>, Option<Seq<M>>) {
    let prev = if m.contains_key(key) {
        m[key]
    } else {
        BatchModel { for_slot: slot, messages: Seq::empty() }
    };
    let messages = prev.messages.push(message);
    if messages.len() == batch_size {
        (m.remove(key), Some(messages))
    } else {
        (m.insert(key, BatchModel { for_slot: prev.for_slot, messages }), None)
    }
}

/// The pending batches that a cleanup at `cutoff` keeps.
pub open spec fn retained_batches<M>(m: Map<BatchKey, BatchModel<M>>, cutoff: Slot) -> Map<
    BatchKey,
    BatchModel<M>,
> {
    m.restrict(m.dom().filter(|k: BatchKey| m[k].for_slot.0 >= cutoff.0))
}

/// Successive additions of `messages` to the round `key`, all for `slot`:
/// the pending batches after them and what each addition handed out.
pub open spec fn batch_add_all<M>(
    m: Map<BatchKey, BatchModel<M>>,
    key: BatchKey,
    slot: Slot,
    messages: Seq<M>,
    batch_size: usize,
) -> (Map<BatchKey, BatchModel<M>>, Seq<Option<Seq<M>>>)
    decreases messages.len(),
{
    if messages.len() == 0 {
        (m, Seq::empty())
    } else {
        let (m1, sent) = batch_add_all(m, key, slot, messages.drop_last(), batch_size);
        let (m2, out) = batch_add_step(m1, key, slot, messages.last(), batch_size);
        (m2, sent.push(out))
    }
}

/// The messages pending in the batch of `key`: none when it has no batch.
pub open spec fn pending_messages<M>(m: Map<BatchKey, BatchModel<M>>, key: BatchKey) -> Seq<M> {
    if m.contains_key(key) {
        m[key].messages
    } else {
        Seq::empty()
    }
}

/// How the remainder modulo `n` moves when one is added.
proof fn lemma_mod_succ(a: int, n: int)
    requires
        0 <= a,
        1 <= n,
    ensures
        0 <= a % n < n,
        a % n <= a,
        a < n ==> a % n == a,
        a % n + 1 < n ==> (a + 1) % n == a % n + 1,
        a % n + 1 == n ==> (a + 1) % n == 0,
        a % n == 0 && a > 0 ==> a >= n,
{
    vstd::arithmetic::div_mod::lemma_mod_pos_bound(a, n);
    vstd::arithmetic::div_mod::lemma_fundamental_div_mod(a, n);
    let q = a / n;
    let r = a % n;
    assert(a == q * n + r) by (nonlinear_arith)
        requires
            a == n * q + r,
    ;
    if q < 0 {
        assert(q * n <= -n) by (nonlinear_arith)
            requires
                q < 0,
                n >= 1,
        ;
    }
    if q >= 1 {
        assert(q * n >= n) by (nonlinear_arith)
            requires
                q >= 1,
                n >= 1,
        ;
    }
    if a < n {
        vstd::arithmetic::div_mod::lemma_small_mod(a as nat, n as nat);
    }
    if r + 1 < n {
        vstd::arithmetic::div_mod::lemma_fundamental_div_mod_converse(a + 1, n, q, r + 1);
    }
    if r + 1 == n {
        assert(a + 1 == (q + 1) * n + 0) by (nonlinear_arith)
            requires
                a == q * n + r,
                r + 1 == n,
        ;
        vstd::arithmetic::div_mod::lemma_fundamental_div_mod_converse(a + 1, n, q + 1, 0);
    }
}

/// Committee batching over any run of additions to one round with one
/// batch size `n`, from any state in which the round's batch, if it has one,
/// holds some but fewer than `n` signatures (as every batch left by such
/// additions does). Let `full` be the pending signatures followed by the
/// added ones. The `j`-th addition hands out a message exactly when the
/// number of signatures batched so far, `t`, is a multiple of `n`, and then
/// hands out the last `n` of them, `full[t - n .. t]`, in the order they
/// were batched. Afterwards the round has a batch exactly when `n` does not
/// divide the length of `full`; it holds the signatures after the last
/// multiple of `n` and is for the slot of the batch it continues, or for
/// `slot` when it was started by these additions. Other rounds never change.
pub proof fn lemma_committee_batching<M>(
    m: Map<BatchKey, BatchModel<M>>,
    key: BatchKey,
    slot: Slot,
    messages: Seq<M>,
    batch_size: usize,
)
    requires
        1 <= batch_size,
        m.contains_key(key) ==> 0 < m[key].messages.len() < batch_size,
    ensures
        ({
            let (after, sent) = batch_add_all(m, key, slot, messages, batch_size);
            let pending = pending_messages(m, key);
            let full = pending + messages;
            let n = batch_size as int;
            &&& sent.len() == messages.len()
            &&& forall|j: int|
                0 <= j < messages.len() ==> #[trigger] sent[j] == {
                    let t = pending.len() + j + 1;
                    if t % n == 0 {
                        Some(full.subrange(t - n, t))
                    } else {
                        None::<Seq<M>>
                    }
                }
            &&& after.remove(key) == m.remove(key)
            &&& after.contains_key(key) <==> (full.len() as int) % n != 0
            &&& after.contains_key(key) ==> after[key] == BatchModel {
                for_slot: if m.contains_key(key) && full.len() < n {
                    m[key].for_slot
                } else {
                    slot
                },
                messages: full.subrange((full.len() as int) - (full.len() as int) % n, full.len() as int),
            }
        }),
    decreases messages.len(),
{
    let n = batch_size as int;
    let pending = pending_messages(m, key);
    if messages.len() == 0 {
        let full = pending + messages;
        assert(full =~= pending);
        lemma_mod_succ(pending.len() as int, n);
        assert(full.subrange((full.len() as int) - (full.len() as int) % n, full.len() as int) =~= pending);
    } else {
        let prefix = messages.drop_last();
        let x = messages.last();
        lemma_committee_batching(m, key, slot, prefix, batch_size);
        let (m1, sent1) = batch_add_all(m, key, slot, prefix, batch_size);
        let full1 = pending + prefix;
        let full = pending + messages;
        assert(full =~= full1.push(x));
        let l1 = full1.len() as int;
        lemma_mod_succ(l1, n);
        let r1 = l1 % n;
        let prev = if m1.contains_key(key) {
            m1[key]
        } else {
            BatchModel { for_slot: slot, messages: Seq::empty() }
        };
        assert(prev.messages =~= full1.subrange(l1 - r1, l1)) by {
            if !m1.contains_key(key) {
                assert(r1 == 0);
            }
        }
        assert(prev.messages.push(x) =~= full.subrange(l1 - r1, l1 + 1));
        if m.contains_key(key) {
            assert(pending.len() > 0);
        }
        let (after, sent) = batch_add_all(m, key, slot, messages, batch_size);
        assert((after, sent[messages.len() - 1]) == batch_add_step(
            m1,
            key,
            slot,
            x,
            batch_size,
        ));
        assert forall|j: int| 0 <= j < messages.len() implies #[trigger] sent[j] == {
            let t = pending.len() + j + 1;
            if t % n == 0 {
                Some(full.subrange(t - n, t))
            } else {
                None::<Seq<M>>
            }
        } by {
            let t = pending.len() + j + 1;
            if j < prefix.len() {
                assert(sent[j] == sent1[j]);
                if t % n == 0 {
                    lemma_mod_succ(t, n);
                    assert(full.subrange(t - n, t) =~= full1.subrange(t - n, t));
                }
            } else {
                assert(t == l1 + 1);
            }
        }
        assert(after.remove(key) =~= m.remove(key));
        if after.contains_key(key) {
            let l = full.len() as int;
            assert(l == l1 + 1);
            assert(full.subrange(l - l % n, l) =~= full.subrange(l1 - r1, l1 + 1));
        }
    }
}

/// The local partial signatures of every committee round in progress, by
/// round.
pub struct CommitteeBatchRegistry<M> {
    entries: Vec<(BatchKey, CommitteePartialSignatureBatch<M>)>,
    model: Ghost<Map<BatchKey, BatchModel<M>>>,
}

impl<M> View for CommitteeBatchRegistry<M> {
    type V = Map<BatchKey, BatchModel<M>>;

    closed spec fn view(&self) -> Map<BatchKey, BatchModel<M>> {
        self.model@
    }
}

impl<M> CommitteeBatchRegistry<M> {
    /// The entries hold distinct rounds and are exactly the abstract map.
    pub closed spec fn wf(&self) -> bool {
        let e = self.entries@;
        let m = self.model@;
        &&& forall|i: int, j: int|
            0 <= i < j < e.len() ==> (#[trigger] e[i]).0 != (#[trigger] e[j]).0
        &&& forall|i: int|
            0 <= i < e.len() ==> m.contains_key((#[trigger] e[i]).0) && m[e[i].0] == batch_model(
                e[i].1,
            )
        &&& forall|k: BatchKey| m.contains_key(k) ==> exists|i: int| 0 <= i < e.len() && (#[trigger] e[i]).0 == k
    }

    /// No round in progress.
    pub fn new() -> (r: Self)
        ensures
            r.wf(),
            r@ == Map::<BatchKey, BatchModel<M>>::empty(),
    {
        CommitteeBatchRegistry { entries: Vec::new(), model: Ghost(Map::empty()) }
    }

    /// The position of the entry of `key`, if there is one.
    fn find(&self, key: &BatchKey) -> (r: Option<usize>)
        ensures
            match r {
                Some(i) => i < self.entries@.len() && self.entries@[i as int].0 == *key,
                None => forall|i: int| 0 <= i < self.entries@.len() ==> (#[trigger] self.entries@[i]).0 != *key,
            },
    {
        let mut i: usize = 0;
        while i < self.entries.len()
            invariant
                i <= self.entries@.len(),
                forall|j: int| 0 <= j < i ==> (#[trigger] self.entries@[j]).0 != *key,
            decreases self.entries@.len() - i,
        {
            if self.entries[i].0.same_as(key) {
                return Some(i);
            }
            i = i + 1;
        }
        None
    }

    /// Adds a locally produced partial signature to the batch of its round,
    /// creating the batch for `slot` if it is the round's first; when the
    /// batch then holds exactly `batch_size` signatures it is removed and
    /// its signatures, in the order they were added, are returned for
    /// sending.
    pub fn add(&mut self, key: BatchKey, slot: Slot, message: M, batch_size: usize) -> (sent: Option<
        Vec<M>,
    >)
        requires
            old(self).wf(),
        ensures
            final(self).wf(),
            (final(self)@, match sent {
                Some(v) => Some(v@),
                None => None,
            }) == batch_add_step(old(self)@, key, slot, message, batch_size),
    {
        let ghost m = self.model@;
        let ghost e0 = self.entries@;
        let found = self.find(&key);
        let mut batch = match found {
            Some(i) => {
                let entry = self.entries.remove(i);
                assert(e0[i as int].0 == key);
                proof {
                    assert forall|j: int| 0 <= j < self.entries@.len() implies (
                    #[trigger] self.entries@[j]).0 != key by {
                        if j < i {
                            assert(self.entries@[j] == e0[j]);
                        } else {
                            assert(self.entries@[j] == e0[j + 1]);
                        }
                    }
                }
                assert(entry == e0[i as int]);
                assert(m.contains_key(key) && m[key] == batch_model(entry.1));
                entry.1
            },
            None => {
                proof {
                    if m.contains_key(key) {
                        let i0 = choose|i0: int| 0 <= i0 < e0.len() && (#[trigger] e0[i0]).0 == key;
                        assert(e0[i0].0 != key);
                    }
                }
                let b = CommitteePartialSignatureBatch::new(batch_size, slot);
                assert(b.batched_validator_partial_signatures@ =~= Seq::<M>::empty());
                b
            },
        };
        let ghost e1 = self.entries@;
        proof {
            assert(batch_model(batch) == (if m.contains_key(key) {
                m[key]
            } else {
                BatchModel { for_slot: slot, messages: Seq::empty() }
            }));
            assert forall|j: int| 0 <= j < e1.len() implies m.contains_key((#[trigger] e1[j]).0)
                && m[e1[j].0] == batch_model(e1[j].1) && e1[j].0 != key by {
                match found {
                    Some(i) => {
                        if j < i {
                            assert(e1[j] == e0[j]);
                        } else {
                            assert(e1[j] == e0[j + 1]);
                        }
                    },
                    None => {},
                }
            }
            assert forall|a: int, b: int| 0 <= a < b < e1.len() implies (#[trigger] e1[a]).0
                != (#[trigger] e1[b]).0 by {
                match found {
                    Some(i) => {
                        let a0 = if a < i { a } else { a + 1 };
                        let b0 = if b < i { b } else { b + 1 };
                        assert(e1[a] == e0[a0]);
                        assert(e1[b] == e0[b0]);
                        assert(e0[a0].0 != e0[b0].0);
                    },
                    None => {},
                }
            }
            assert forall|k: BatchKey| k != key && m.contains_key(k) implies exists|j: int|
                0 <= j < e1.len() && (#[trigger] e1[j]).0 == k by {
                let i0 = choose|i0: int| 0 <= i0 < e0.len() && (#[trigger] e0[i0]).0 == k;
                match found {
                    Some(i) => {
                        if i0 < i {
                            assert(e1[i0] == e0[i0]);
                        } else {
                            assert(i0 != i);
                            assert(e1[i0 - 1] == e0[i0]);
                        }
                    },
                    None => {
                        assert(e1[i0] == e0[i0]);
                    },
                }
            }
        }
        let complete = batch.add(message, batch_size);
        if complete {
            self.model = Ghost(m.remove(key));
            proof {
                assert forall|j: int| 0 <= j < e1.len() implies self.model@.contains_key(
                    (#[trigger] e1[j]).0,
                ) && self.model@[e1[j].0] == batch_model(e1[j].1) by {}
                assert forall|k: BatchKey| self.model@.contains_key(k) implies exists|j: int|
                    0 <= j < e1.len() && (#[trigger] e1[j]).0 == k by {
                    assert(k != key && m.contains_key(k));
                }
                assert(self.entries@ == e1);
                assert(forall|a: int, b: int| 0 <= a < b < e1.len() ==> (#[trigger] e1[a]).0
                != (#[trigger] e1[b]).0);
            }
            Some(batch.batched_validator_partial_signatures)
        } else {
            let ghost bm = batch_model(batch);
            self.entries.push((key, batch));
            self.model = Ghost(m.insert(key, bm));
            proof {
                let e2 = self.entries@;
                assert(e2.len() == e1.len() + 1);
                assert forall|j: int| 0 <= j < e1.len() implies (#[trigger] e2[j]) == e1[j] by {}
                assert(e2[e1.len() as int] == (key, batch));
                assert forall|k: BatchKey| self.model@.contains_key(k) implies exists|j: int|
                    0 <= j < e2.len() && (#[trigger] e2[j]).0 == k by {
                    if k == key {
                        assert(e2[e1.len() as int].0 == k);
                    } else {
                        let j = choose|j: int| 0 <= j < e1.len() && (#[trigger] e1[j]).0 == k;
                        assert(e2[j] == e1[j]);
                    }
                }
                assert forall|a: int, b: int| 0 <= a < b < e2.len() implies (#[trigger] e2[a]).0
                    != (#[trigger] e2[b]).0 by {
                    if b == e1.len() {
                        assert(e2[a] == e1[a]);
                    } else {
                        assert(e2[a] == e1[a]);
                        assert(e2[b] == e1[b]);
                    }
                }
                assert forall|j: int| 0 <= j < e2.len() implies self.model@.contains_key(
                    (#[trigger] e2[j]).0,
                ) && self.model@[e2[j].0] == batch_model(e2[j].1) by {
                    if j < e1.len() {
                        assert(e2[j] == e1[j]);
                    }
                }
            }
            None
        }
    }

    /// Drops the batches of rounds older than `cutoff`.
    pub fn retain_recent(&mut self, cutoff: Slot)
        requires
            old(self).wf(),
        ensures
            final(self).wf(),
            final(self)@ == retained_batches(old(self)@, cutoff),
    {
        let ghost m = self.model@;
        let ghost e0 = self.entries@;
        let mut rest: Vec<(BatchKey, CommitteePartialSignatureBatch<M>)> = Vec::new();
        std::mem::swap(&mut rest, &mut self.entries);
        let ghost target = retained_batches(m, cutoff);
        while rest.len() > 0
            invariant
                rest@.len() <= e0.len(),
                rest@ == e0.subrange(0, rest@.len() as int),
                forall|i: int, j: int|
                    0 <= i < j < e0.len() ==> (#[trigger] e0[i]).0 != (#[trigger] e0[j]).0,
                forall|i: int|
                    0 <= i < e0.len() ==> m.contains_key((#[trigger] e0[i]).0) && m[e0[i].0]
                        == batch_model(e0[i].1),
                forall|k: BatchKey| m.contains_key(k) ==> exists|i: int| 0 <= i < e0.len() && (#[trigger] e0[i]).0 == k,
                target == retained_batches(m, cutoff),
                forall|i: int, j: int|
                    0 <= i < j < self.entries@.len() ==> (#[trigger] self.entries@[i]).0
                        != (#[trigger] self.entries@[j]).0,
                forall|i: int|
                    0 <= i < self.entries@.len() ==> exists|j: int|
                        rest@.len() <= j < e0.len() && (#[trigger] self.entries@[i]) == e0[j],
                forall|i: int|
                    0 <= i < self.entries@.len() ==> (#[trigger] self.entries@[i]).1.for_slot.0
                        >= cutoff.0,
                forall|j: int|
                    rest@.len() <= j < e0.len() && (#[trigger] e0[j]).1.for_slot.0 >= cutoff.0
                        ==> exists|i: int| 0 <= i < self.entries@.len() && self.entries@[i] == e0[j],
            decreases rest@.len(),
        {
            let ghost n = rest@.len();
            let entry = rest.pop().unwrap();
            assert(entry == e0[n - 1]);
            assert(rest@ =~= e0.subrange(0, n - 1));
            if is_retained(entry.1.for_slot, cutoff) {
                let ghost before = self.entries@;
                proof {
                    assert forall|i: int| 0 <= i < before.len() implies (#[trigger] before[i]).0
                        != entry.0 by {
                        let j = choose|j: int| n <= j < e0.len() && before[i] == e0[j];
                        assert(e0[n - 1].0 != e0[j].0);
                    }
                }
                self.entries.push(entry);
                proof {
                    let after = self.entries@;
                    assert forall|i: int| 0 <= i < before.len() implies (#[trigger] after[i])
                        == before[i] by {}
                    assert forall|i: int, j: int| 0 <= i < j < after.len() implies (
                    #[trigger] after[i]).0 != (#[trigger] after[j]).0 by {
                        assert(after[i] == before[i]);
                        if j < before.len() {
                            assert(after[j] == before[j]);
                        }
                    }
                    assert forall|i: int| 0 <= i < after.len() implies exists|j: int|
                        n - 1 <= j < e0.len() && (#[trigger] after[i]) == e0[j] by {
                        if i < before.len() {
                            assert(after[i] == before[i]);
                            let j = choose|j: int| n <= j < e0.len() && before[i] == e0[j];
                            assert(after[i] == e0[j]);
                        } else {
                            assert(after[i] == e0[n - 1]);
                        }
                    }
                    assert forall|i: int| 0 <= i < after.len() implies (
                    #[trigger] after[i]).1.for_slot.0 >= cutoff.0 by {
                        if i < before.len() {
                            assert(after[i] == before[i]);
                        }
                    }
                    assert forall|j: int|
                        n - 1 <= j < e0.len() && (#[trigger] e0[j]).1.for_slot.0 >= cutoff.0
                            implies exists|i: int|
                        0 <= i < after.len() && after[i] == e0[j] by {
                        if j == n - 1 {
                            assert(after[before.len() as int] == e0[j]);
                        } else {
                            let i = choose|i: int| 0 <= i < before.len() && before[i] == e0[j];
                            assert(after[i] == e0[j]);
                        }
                    }
                }
            }
        }
        self.model = Ghost(target);
        proof {
            let e = self.entries@;
            assert(rest@.len() == 0);
            assert forall|i: int| 0 <= i < e.len() implies target.contains_key((#[trigger] e[i]).0)
                && target[e[i].0] == batch_model(e[i].1) by {
                let j = choose|j: int| 0 <= j < e0.len() && e[i] == e0[j];
                assert(m.contains_key(e0[j].0));
                assert(m.dom().filter(|k: BatchKey| m[k].for_slot.0 >= cutoff.0).contains(e0[j].0));
            }
            assert forall|k: BatchKey| target.contains_key(k) implies exists|i: int|
                0 <= i < e.len() && (#[trigger] e[i]).0 == k by {
                assert(m.dom().filter(|k: BatchKey| m[k].for_slot.0 >= cutoff.0).contains(k));
                let j = choose|j: int| 0 <= j < e0.len() && (#[trigger] e0[j]).0 == k;
                assert(e0[j].1.for_slot == m[k].for_slot);
                let i = choose|i: int| 0 <= i < e.len() && e[i] == e0[j];
                assert(e[i].0 == k);
            }
        }
    }
}

/// Identifies a collector: the signing root and the signing validator.
#[derive(Clone, Copy, Debug)]
pub struct CollectorKey {
    pub signing_root: Hash256,
    pub validator_index: ValidatorIndex,
}

impl CollectorKey {
    /// Whether two keys are the same.
    pub fn same_as(&self, other: &CollectorKey) -> (r: bool)
        ensures
            r == (*self == *other),
    {
        self.validator_index.0 == other.validator_index.0 && self.signing_root.same_as(
            &other.signing_root,
        )
    }
}

/// A registered collector: the slot it was created for and the handle to
/// reach it.
pub struct CollectorEntry<H> {
    pub for_slot: Slot,
    pub handle: H,
}

/// The collectors that a cleanup at `cutoff` keeps.
pub open spec fn retained_collectors<H>(m: Map<CollectorKey, CollectorEntry<H>>, cutoff: Slot) -> Map<
    CollectorKey,
    CollectorEntry<H>,
> {
    m.restrict(m.dom().filter(|k: CollectorKey| m[k].for_slot.0 >= cutoff.0))
}

/// The running collectors, one per signing root and validator.
pub struct CollectorRegistry<H> {
    entries: Vec<(CollectorKey, CollectorEntry<H>)>,
    model: Ghost<Map<CollectorKey, CollectorEntry<H>>>,
}

impl<H> View for CollectorRegistry<H> {
    type V = Map<CollectorKey, CollectorEntry<H>>;

    closed spec fn view(&self) -> Map<CollectorKey, CollectorEntry<H>> {
        self.model@
    }
}

impl<H> CollectorRegistry<H> {
    /// The entries hold distinct keys and are exactly the abstract map.
    pub closed spec fn wf(&self) -> bool {
        let e = self.entries@;
        let m = self.model@;
        &&& forall|i: int, j: int|
            0 <= i < j < e.len() ==> (#[trigger] e[i]).0 != (#[trigger] e[j]).0
        &&& forall|i: int|
            0 <= i < e.len() ==> m.contains_key((#[trigger] e[i]).0) && m[e[i].0] == e[i].1
        &&& forall|k: CollectorKey| m.contains_key(k) ==> exists|i: int| 0 <= i < e.len() && (#[trigger] e[i]).0 == k
    }

    /// No collector.
    pub fn new() -> (r: Self)
        ensures
            r.wf(),
            r@ == Map::<CollectorKey, CollectorEntry<H>>::empty(),
    {
        CollectorRegistry { entries: Vec::new(), model: Ghost(Map::empty()) }
    }

    /// The position of the entry of `key`, if there is one.
    fn find(&self, key: &CollectorKey) -> (r: Option<usize>)
        ensures
            match r {
                Some(i) => i < self.entries@.len() && self.entries@[i as int].0 == *key,
                None => forall|i: int| 0 <= i < self.entries@.len() ==> (#[trigger] self.entries@[i]).0 != *key,
            },
    {
        let mut i: usize = 0;
        while i < self.entries.len()
            invariant
                i <= self.entries@.len(),
                forall|j: int| 0 <= j < i ==> (#[trigger] self.entries@[j]).0 != *key,
            decreases self.entries@.len() - i,
        {
            if self.entries[i].0.same_as(key) {
                return Some(i);
            }
            i = i + 1;
        }
        None
    }

    /// The handle of the collector of `key`, if one runs.
    pub fn get(&self, key: &CollectorKey) -> (r: Option<&H>)
        requires
            self.wf(),
        ensures
            match r {
                Some(h) => self@.contains_key(*key) && *h == self@[*key].handle,
                None => !self@.contains_key(*key),
            },
    {
        match self.find(key) {
            Some(i) => Some(&self.entries[i].1.handle),
            None => {
                proof {
                    if self@.contains_key(*key) {
                        let i0 = choose|i0: int|
                            0 <= i0 < self.entries@.len() && (#[trigger] self.entries@[i0]).0
                                == *key;
                        assert(self.entries@[i0].0 != *key);
                    }
                }
                None
            },
        }
    }

    /// Registers a collector for `key`, created for `slot`, unless one
    /// already runs; the first one stays.
    pub fn get_or_insert(&mut self, key: CollectorKey, slot: Slot, handle: H) -> (created: bool)
        requires
            old(self).wf(),
        ensures
            final(self).wf(),
            created <==> !old(self)@.contains_key(key),
            final(self)@ == if created {
                old(self)@.insert(key, CollectorEntry { for_slot: slot, handle })
            } else {
                old(self)@
            },
    {
        let ghost m = self.model@;
        let ghost e0 = self.entries@;
        match self.find(&key) {
            Some(i) => {
                assert(m.contains_key(e0[i as int].0));
                false
            },
            None => {
                proof {
                    if m.contains_key(key) {
                        let i0 = choose|i0: int| 0 <= i0 < e0.len() && (#[trigger] e0[i0]).0 == key;
                        assert(e0[i0].0 != key);
                    }
                }
                let entry = CollectorEntry { for_slot: slot, handle };
                let ghost ge = entry;
                self.entries.push((key, entry));
                self.model = Ghost(m.insert(key, ge));
                proof {
                    let e2 = self.entries@;
                    assert forall|j: int| 0 <= j < e0.len() implies (#[trigger] e2[j]) == e0[j] by {}
                    assert(e2[e0.len() as int] == (key, ge));
                    assert forall|k: CollectorKey| self.model@.contains_key(k) implies exists|j: int|
                        0 <= j < e2.len() && (#[trigger] e2[j]).0 == k by {
                        if k == key {
                            assert(e2[e0.len() as int].0 == k);
                        } else {
                            let j = choose|j: int| 0 <= j < e0.len() && (#[trigger] e0[j]).0 == k;
                            assert(e2[j] == e0[j]);
                        }
                    }
                    assert forall|a: int, b: int| 0 <= a < b < e2.len() implies (#[trigger] e2[a]).0
                        != (#[trigger] e2[b]).0 by {
                        assert(e2[a] == e0[a]);
                        if b < e0.len() {
                            assert(e2[b] == e0[b]);
                        }
                    }
                    assert forall|j: int| 0 <= j < e2.len() implies self.model@.contains_key(
                        (#[trigger] e2[j]).0,
                    ) && self.model@[e2[j].0] == e2[j].1 by {
                        if j < e0.len() {
                            assert(e2[j] == e0[j]);
                        }
                    }
                }
                true
            },
        }
    }

    /// Drops the collectors of slots older than `cutoff`.
    #[verifier::rlimit(40)]
    pub fn retain_recent(&mut self, cutoff: Slot)
        requires
            old(self).wf(),
        ensures
            final(self).wf(),
            final(self)@ == retained_collectors(old(self)@, cutoff),
    {
        let ghost m = self.model@;
        let ghost e0 = self.entries@;
        let mut rest: Vec<(CollectorKey, CollectorEntry<H>)> = Vec::new();
        std::mem::swap(&mut rest, &mut self.entries);
        let ghost target = retained_collectors(m, cutoff);
        while rest.len() > 0
            invariant
                rest@.len() <= e0.len(),
                rest@ == e0.subrange(0, rest@.len() as int),
                forall|i: int, j: int|
                    0 <= i < j < e0.len() ==> (#[trigger] e0[i]).0 != (#[trigger] e0[j]).0,
                forall|i: int|
                    0 <= i < e0.len() ==> m.contains_key((#[trigger] e0[i]).0) && m[e0[i].0]
                        == e0[i].1,
                forall|k: CollectorKey| m.contains_key(k) ==> exists|i: int| 0 <= i < e0.len() && (#[trigger] e0[i]).0 == k,
                target == retained_collectors(m, cutoff),
                forall|i: int, j: int|
                    0 <= i < j < self.entries@.len() ==> (#[trigger] self.entries@[i]).0
                        != (#[trigger] self.entries@[j]).0,
                forall|i: int|
                    0 <= i < self.entries@.len() ==> exists|j: int|
                        rest@.len() <= j < e0.len() && (#[trigger] self.entries@[i]) == e0[j],
                forall|i: int|
                    0 <= i < self.entries@.len() ==> (#[trigger] self.entries@[i]).1.for_slot.0
                        >= cutoff.0,
                forall|j: int|
                    rest@.len() <= j < e0.len() && (#[trigger] e0[j]).1.for_slot.0 >= cutoff.0
                        ==> exists|i: int| 0 <= i < self.entries@.len() && self.entries@[i] == e0[j],
            decreases rest@.len(),
        {
            let ghost n = rest@.len();
            let entry = rest.pop().unwrap();
            assert(entry == e0[n - 1]);
            assert(rest@ =~= e0.subrange(0, n - 1));
            if is_retained(entry.1.for_slot, cutoff) {
                let ghost before = self.entries@;
                proof {
                    assert forall|i: int| 0 <= i < before.len() implies (#[trigger] before[i]).0
                        != entry.0 by {
                        let j = choose|j: int| n <= j < e0.len() && before[i] == e0[j];
                        assert(e0[n - 1].0 != e0[j].0);
                    }
                }
                self.entries.push(entry);
                proof {
                    let after = self.entries@;
                    assert forall|i: int| 0 <= i < before.len() implies (#[trigger] after[i])
                        == before[i] by {}
                    assert forall|i: int, j: int| 0 <= i < j < after.len() implies (
                    #[trigger] after[i]).0 != (#[trigger] after[j]).0 by {
                        assert(after[i] == before[i]);
                        if j < before.len() {
                            assert(after[j] == before[j]);
                        }
                    }
                    assert forall|i: int| 0 <= i < after.len() implies exists|j: int|
                        n - 1 <= j < e0.len() && (#[trigger] after[i]) == e0[j] by {
                        if i < before.len() {
                            assert(after[i] == before[i]);
                            let j = choose|j: int| n <= j < e0.len() && before[i] == e0[j];
                            assert(after[i] == e0[j]);
                        } else {
                            assert(after[i] == e0[n - 1]);
                        }
                    }
                    assert forall|i: int| 0 <= i < after.len() implies (
                    #[trigger] after[i]).1.for_slot.0 >= cutoff.0 by {
                        if i < before.len() {
                            assert(after[i] == before[i]);
                        }
                    }
                    assert forall|j: int|
                        n - 1 <= j < e0.len() && (#[trigger] e0[j]).1.for_slot.0 >= cutoff.0
                            implies exists|i: int|
                        0 <= i < after.len() && after[i] == e0[j] by {
                        if j == n - 1 {
                            assert(after[before.len() as int] == e0[j]);
                        } else {
                            let i = choose|i: int| 0 <= i < before.len() && before[i] == e0[j];
                            assert(after[i] == e0[j]);
                        }
                    }
                }
            }
        }
        self.model = Ghost(target);
        proof {
            let e = self.entries@;
            assert(rest@.len() == 0);
            assert forall|i: int| 0 <= i < e.len() implies target.contains_key((#[trigger] e[i]).0)
                && target[e[i].0] == e[i].1 by {
                let j = choose|j: int| 0 <= j < e0.len() && e[i] == e0[j];
                assert(m.contains_key(e0[j].0));
                assert(m.dom().filter(|k: CollectorKey| m[k].for_slot.0 >= cutoff.0).contains(e0[j].0));
            }
            assert forall|k: CollectorKey| target.contains_key(k) implies exists|i: int|
                0 <= i < e.len() && (#[trigger] e[i]).0 == k by {
                assert(m.dom().filter(|k: CollectorKey| m[k].for_slot.0 >= cutoff.0).contains(k));
                let j = choose|j: int| 0 <= j < e0.len() && (#[trigger] e0[j]).0 == k;
                assert(e0[j].1.for_slot == m[k].for_slot);
                let i = choose|i: int| 0 <= i < e.len() && e[i] == e0[j];
                assert(e[i].0 == k);
            }
        }
    }
}

/// The oldest slot whose collectors and batches are kept when `now` is the
/// current slot.
pub fn cleanup_cutoff(now: Slot) -> (r: Slot)
    ensures
        r.0 == if now.0 >= SIGNATURE_COLLECTOR_RETAIN_SLOTS {
            now.0 - SIGNATURE_COLLECTOR_RETAIN_SLOTS
        } else {
            0
        },
{
    Slot(now.0.saturating_sub(SIGNATURE_COLLECTOR_RETAIN_SLOTS))
}

/// Whether something for `for_slot` survives a cleanup at `cutoff`.
pub fn is_retained(for_slot: Slot, cutoff: Slot) -> (r: bool)
    ensures
        r == (for_slot.0 >= cutoff.0),
{
    for_slot.0 >= cutoff.0
}

/// A cleanup at slot `now` keeps exactly what is for the current slot, the
/// previous one, or later.
pub proof fn lemma_cleanup_keeps_recent(for_slot: u64, now: u64)
    ensures
        ({
            let cutoff = if now >= SIGNATURE_COLLECTOR_RETAIN_SLOTS {
                now - SIGNATURE_COLLECTOR_RETAIN_SLOTS
            } else {
                0
            };
            (for_slot >= cutoff) <==> (for_slot + 1 >= now)
        }),
{
}

/// Why a partial signature message could not be made.
#[derive(Clone, Copy, Debug, PartialEq, Eq, Structural)]
pub enum CreateMessageError {
    TooManySignatures { count: usize, max: usize },
    SsvMessage,
}

/// A message carries at most `max` partial signatures.
pub fn check_signature_count(count: usize, max: usize) -> (r: Result<(), CreateMessageError>)
    ensures
        count <= max ==> r is Ok,
        count > max ==> r == Err::<(), CreateMessageError>(
            CreateMessageError::TooManySignatures { count, max },
        ),
{
    if count > max {
        Err(CreateMessageError::TooManySignatures { count, max })
    } else {
        Ok(())
    }
}

/// A cleanup at `cutoff` keeps every collector whose slot is at or after
/// the cutoff, however far after, unchanged, and removes exactly those
/// before it; run at slot `now` (at `cleanup_at`, one slot back), it keeps exactly
/// the collectors of the previous slot or later.
pub proof fn lemma_collector_cleanup<H>(m: Map<CollectorKey, CollectorEntry<H>>, now: Slot, cleanup_at: Slot)
    requires
        cleanup_at.0 == if now.0 >= 1 {
            now.0 - 1
        } else {
            0
        },
    ensures
        forall|cutoff: Slot, k: CollectorKey|
            #[trigger] retained_collectors(m, cutoff).contains_key(k) <==> (m.contains_key(k)
                && m[k].for_slot.0 >= cutoff.0),
        forall|cutoff: Slot, k: CollectorKey|
            #[trigger] retained_collectors(m, cutoff).contains_key(k) ==> retained_collectors(
                m,
                cutoff,
            )[k] == m[k],
        forall|k: CollectorKey|
            #[trigger] retained_collectors(m, cleanup_at).contains_key(k) <==> (m.contains_key(k) && m[k].for_slot.0 + 1 >= now.0),
{
}

/// A cleanup at `cutoff` keeps every pending batch whose slot is at or
/// after the cutoff, unchanged, and removes exactly those before it; run at
/// slot `now` (at `cleanup_at`, one slot back) it keeps exactly the batches of the previous slot or later.
pub proof fn lemma_batch_cleanup<M>(m: Map<BatchKey, BatchModel<M>>, now: Slot, cleanup_at: Slot)
    requires
        cleanup_at.0 == if now.0 >= 1 {
            now.0 - 1
        } else {
            0
        },
    ensures
        forall|cutoff: Slot, k: BatchKey|
            #[trigger] retained_batches(m, cutoff).contains_key(k) <==> (m.contains_key(k)
                && m[k].for_slot.0 >= cutoff.0),
        forall|cutoff: Slot, k: BatchKey|
            #[trigger] retained_batches(m, cutoff).contains_key(k) ==> retained_batches(
                m,
                cutoff,
            )[k] == m[k],
        forall|k: BatchKey|
            #[trigger] retained_batches(m, cleanup_at).contains_key(k) <==> (m.contains_key(k) && m[k].for_slot.0 + 1 >= now.0),
{
}

} // verus!
