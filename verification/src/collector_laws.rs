//! Properties of the collector state machine that span several operations.

use vstd::prelude::*;

use crate::collector_state::{
    combine_step, fallback_step, register_step, share_step, ActionModel, CollectorModel,
    CombineOutcome, Registration,
};
use crate::types::PublicKeyBytes;

verus! {

/// One input to a collector.
pub enum CollectorEvent<N, S> {
    /// A task registers for the signature.
    Register { notify: N, threshold: u64, validator_pubkey: PublicKeyBytes },
    /// An operator's partial signature arrives.
    Share { operator: u64, signature: S },
    /// The outcome of a requested combination arrives.
    Combined(CombineOutcome<S>),
    /// The per-share check flagged these operators.
    Fallback(Set<u64>),
}

/// The effect of one event.
pub open spec fn event_step<N, S>(m: CollectorModel<N, S>, e: CollectorEvent<N, S>) -> (
    CollectorModel<N, S>,
    ActionModel<N>,
) {
    match e {
        CollectorEvent::Register { notify, threshold, validator_pubkey } => register_step(
            m,
            notify,
            threshold,
            validator_pubkey,
        ),
        CollectorEvent::Share { operator, signature } => share_step(m, operator, signature),
        CollectorEvent::Combined(outcome) => combine_step(m, outcome),
        CollectorEvent::Fallback(invalid) => fallback_step(m, invalid),
    }
}

/// An event may happen in `m`: a combination outcome only arrives while one
/// is awaited, and the flagged operators are among the buffered ones.
pub open spec fn admissible<N, S>(m: CollectorModel<N, S>, e: CollectorEvent<N, S>) -> bool {
    match e {
        CollectorEvent::Combined(_) => m.combine_pending(),
        CollectorEvent::Fallback(invalid) => invalid.subset_of(m.shares.dom()),
        _ => true,
    }
}

/// The state after a sequence of events.
pub open spec fn run_events<N, S>(m: CollectorModel<N, S>, events: Seq<CollectorEvent<N, S>>) -> CollectorModel<
    N,
    S,
>
    decreases events.len(),
{
    if events.len() == 0 {
        m
    } else {
        run_events(event_step(m, events[0]).0, events.drop_first())
    }
}

/// Every event of the sequence may happen where it happens.
pub open spec fn admissible_run<N, S>(
    m: CollectorModel<N, S>,
    events: Seq<CollectorEvent<N, S>>,
) -> bool
    decreases events.len(),
{
    events.len() == 0 || (admissible(m, events[0]) && admissible_run(
        event_step(m, events[0]).0,
        events.drop_first(),
    ))
}

/// Every operation keeps the collector's invariant: once the signature is
/// reconstructed, no share is buffered and no task waits.
pub proof fn lemma_step_keeps_invariant<N, S>(m: CollectorModel<N, S>, e: CollectorEvent<N, S>)
    requires
        m.wf(),
        admissible(m, e),
    ensures
        event_step(m, e).0.wf(),
{
    match e {
        CollectorEvent::Share { operator, signature } => {
            if m.full_signature is None && !m.shares.contains_key(operator) {
                assert(m.shares.insert(operator, signature).dom() =~= m.shares.dom().insert(
                    operator,
                ));
            }
        },
        CollectorEvent::Combined(_) => {
            assert(Map::<u64, S>::empty().dom() =~= Set::<u64>::empty());
        },
        CollectorEvent::Fallback(invalid) => {
            assert(m.shares.remove_keys(invalid).dom() =~= m.shares.dom().difference(invalid));
        },
        _ => {},
    }
}

/// The invariant holds after any admissible sequence of events.
pub proof fn lemma_run_keeps_invariant<N, S>(
    m: CollectorModel<N, S>,
    events: Seq<CollectorEvent<N, S>>,
)
    requires
        m.wf(),
        admissible_run(m, events),
    ensures
        run_events(m, events).wf(),
    decreases events.len(),
{
    if events.len() > 0 {
        lemma_step_keeps_invariant(m, events[0]);
        lemma_run_keeps_invariant(event_step(m, events[0]).0, events.drop_first());
    }
}

/// Once reconstructed, the signature never changes and shares that arrive
/// later are never buffered, whatever happens next.
pub proof fn lemma_reconstructed_signature_persists<N, S>(
    m: CollectorModel<N, S>,
    events: Seq<CollectorEvent<N, S>>,
)
    requires
        m.wf(),
        m.full_signature is Some,
        admissible_run(m, events),
    ensures
        run_events(m, events).full_signature == m.full_signature,
        run_events(m, events).shares.dom().is_empty(),
    decreases events.len(),
{
    if events.len() > 0 {
        let next = event_step(m, events[0]).0;
        lemma_step_keeps_invariant(m, events[0]);
        match events[0] {
            CollectorEvent::Fallback(invalid) => {
                assert(next.shares.dom() =~= Set::<u64>::empty());
            },
            _ => {},
        }
        lemma_reconstructed_signature_persists(next, events.drop_first());
    }
}

/// A late share is dropped: after reconstruction, a partial signature leaves
/// the collector unchanged and it keeps waiting.
pub proof fn lemma_late_share_dropped<N, S>(m: CollectorModel<N, S>, operator: u64, signature: S)
    requires
        m.full_signature is Some,
    ensures
        share_step(m, operator, signature) == (m, ActionModel::<N>::Recv),
{
}

/// A late registrant is served at once: after reconstruction, a registration
/// is answered with the cached signature and changes nothing.
pub proof fn lemma_late_registrant_served<N, S>(
    m: CollectorModel<N, S>,
    notify: N,
    threshold: u64,
    validator_pubkey: PublicKeyBytes,
)
    requires
        m.full_signature is Some,
    ensures
        register_step(m, notify, threshold, validator_pubkey) == (
            m,
            ActionModel::Deliver(seq![notify]),
        ),
{
}

/// The first share of an operator wins: a second one leaves the buffered
/// shares unchanged.
pub proof fn lemma_first_share_wins<N, S>(m: CollectorModel<N, S>, operator: u64, signature: S)
    requires
        m.shares.contains_key(operator),
    ensures
        share_step(m, operator, signature).0 == m,
{
}

/// Without a registration there is no threshold, so shares are only
/// buffered and no combination is ever requested.
pub proof fn lemma_no_combination_before_registration<N, S>(
    m: CollectorModel<N, S>,
    operator: u64,
    signature: S,
)
    requires
        m.registration is None,
    ensures
        share_step(m, operator, signature).1 == ActionModel::<N>::Recv,
        m.full_signature is None && !m.shares.contains_key(operator) ==> share_step(
            m,
            operator,
            signature,
        ).0.shares == m.shares.insert(operator, signature),
{
}

/// A combination is requested exactly when a share brings a registered,
/// unreconstructed collector to its threshold or beyond.
pub proof fn lemma_combination_at_threshold<N, S>(
    m: CollectorModel<N, S>,
    operator: u64,
    signature: S,
)
    requires
        m.full_signature is None,
        m.registration is Some,
    ensures
        share_step(m, operator, signature).1 is CombineShares <==> share_step(
            m,
            operator,
            signature,
        ).0.shares.len() >= m.registration->0.threshold,
        share_step(m, operator, signature).1 is CombineShares ==> share_step(
            m,
            operator,
            signature,
        ).1 == ActionModel::<N>::CombineShares(m.registration->0.validator_pubkey),
{
}

/// Shares buffered before any registration count: a registration whose
/// threshold they already meet asks for a combination at once.
pub proof fn lemma_buffered_shares_count_at_registration<N, S>(
    m: CollectorModel<N, S>,
    notify: N,
    threshold: u64,
    validator_pubkey: PublicKeyBytes,
)
    requires
        m.full_signature is None,
        m.registration is None,
        m.shares.len() >= threshold,
    ensures
        register_step(m, notify, threshold, validator_pubkey).1 == ActionModel::<
            N,
        >::CombineShares(validator_pubkey),
{
}

/// A registration that disagrees with the first one on the threshold or the
/// validator key stops the collector.
pub proof fn lemma_conflicting_registration_exits<N, S>(
    m: CollectorModel<N, S>,
    notify: N,
    threshold: u64,
    validator_pubkey: PublicKeyBytes,
)
    requires
        m.full_signature is None,
        m.registration matches Some(reg) && (reg.threshold != threshold || reg.validator_pubkey
            != validator_pubkey),
    ensures
        register_step(m, notify, threshold, validator_pubkey).1 == ActionModel::<N>::Exit,
{
}

/// A successful combination serves every waiting task, in registration
/// order, and empties the buffer.
pub proof fn lemma_success_serves_all_waiting<N, S>(m: CollectorModel<N, S>, signature: S)
    ensures
        combine_step(m, CombineOutcome::Success(signature)).1 == ActionModel::Deliver(m.notifiers),
        combine_step(m, CombineOutcome::Success(signature)).0.full_signature == Some(signature),
        combine_step(m, CombineOutcome::Success(signature)).0.shares.dom().is_empty(),
        combine_step(m, CombineOutcome::Success(signature)).0.notifiers.len() == 0,
{
    assert(Map::<u64, S>::empty().dom() =~= Set::<u64>::empty());
}

/// The fallback evicts exactly the flagged operators: every other buffered
/// share stays; with nobody flagged the collector stops.
pub proof fn lemma_fallback_evicts_exactly_flagged<N, S>(
    m: CollectorModel<N, S>,
    invalid: Set<u64>,
)
    ensures
        invalid.is_empty() ==> fallback_step(m, invalid).1 == ActionModel::<N>::Exit,
        !invalid.is_empty() ==> forall|op: u64|
            #[trigger] fallback_step(m, invalid).0.shares.contains_key(op) <==> (
            m.shares.contains_key(op) && !invalid.contains(op)),
        !invalid.is_empty() ==> forall|op: u64|
            fallback_step(m, invalid).0.shares.contains_key(op) ==> #[trigger] fallback_step(
                m,
                invalid,
            ).0.shares[op] == m.shares[op],
{
}

/// The first registration of an unreconstructed collector that holds fewer
/// shares than its threshold (none, or some) is recorded, its task is
/// queued, every buffered share is kept, and the collector waits.
pub proof fn lemma_first_registration_below_threshold_waits<N, S>(
    m: CollectorModel<N, S>,
    notify: N,
    threshold: u64,
    validator_pubkey: PublicKeyBytes,
)
    requires
        m.full_signature is None,
        m.registration is None,
        m.shares.len() < threshold,
    ensures
        register_step(m, notify, threshold, validator_pubkey) == (
            CollectorModel {
                notifiers: m.notifiers.push(notify),
                shares: m.shares,
                full_signature: None::<S>,
                registration: Some(Registration { threshold, validator_pubkey }),
                signing_root: m.signing_root,
            },
            ActionModel::<N>::Recv,
        ),
{
}

/// A registration stops the collector only when it conflicts with an
/// earlier registration, on the threshold or on the validator key; any
/// other registration keeps the collector running and queues or serves
/// its task.
pub proof fn lemma_registration_exits_only_on_conflict<N, S>(
    m: CollectorModel<N, S>,
    notify: N,
    threshold: u64,
    validator_pubkey: PublicKeyBytes,
)
    ensures
        register_step(m, notify, threshold, validator_pubkey).1 == ActionModel::<N>::Exit <==> (
        m.full_signature is None && m.registration is Some && (m.registration->0.threshold
            != threshold || m.registration->0.validator_pubkey != validator_pubkey)),
        m.full_signature is None ==> register_step(
            m,
            notify,
            threshold,
            validator_pubkey,
        ).0.notifiers == m.notifiers.push(notify),
        register_step(m, notify, threshold, validator_pubkey).0.shares == m.shares,
{
}

/// The outcome of a requested combination: success keeps the signature and
/// serves every waiting task; shares that cannot be combined stop the
/// collector with nothing changed; a combination that fails verification
/// leaves the state as it is and asks for the share keys of the registered
/// validator.
pub proof fn lemma_combine_outcomes<N, S>(m: CollectorModel<N, S>)
    requires
        m.registration is Some,
    ensures
        combine_step(m, CombineOutcome::CombineFailed) == (m, ActionModel::<N>::Exit),
        combine_step(m, CombineOutcome::VerificationFailed) == (
            m,
            ActionModel::<N>::FetchSharePubkeys(m.registration->0.validator_pubkey),
        ),
{
}

} // verus!
