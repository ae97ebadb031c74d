use vstd::prelude::*;

verus! {

/// Where a commerce record stands in its lifecycle.
#[derive(Clone, Copy, Debug, PartialEq, Eq, Structural)]
pub enum CommerceStatusType {
    QuoteRequested,
    QuoteAccepted,
    QuoteRejected,
    Initialized,
    Created,
    Accepted,
    InProgress,
    Completed,
    Cancelled,
}

/// The progress that an `on_status` callback reports.
#[derive(Clone, Copy, Debug, PartialEq, Eq, Structural)]
pub enum OrderProgress {
    Accepted,
    InProgress,
    Completed,
}

/// An inbound callback, as far as the lifecycle is concerned.
#[derive(Clone, Copy, Debug, PartialEq, Eq, Structural)]
pub enum InboundEvent {
    OnSelect { ok: bool },
    OnInit,
    OnConfirm,
    OnStatus { progress: OrderProgress },
    OnCancel { ok: bool },
}

/// How far along the lifecycle a status lies; every transition raises it.
pub open spec fn status_rank(s: CommerceStatusType) -> nat {
    match s {
        CommerceStatusType::QuoteRequested => 0,
        CommerceStatusType::QuoteAccepted => 1,
        CommerceStatusType::QuoteRejected => 1,
        CommerceStatusType::Initialized => 2,
        CommerceStatusType::Created => 3,
        CommerceStatusType::Accepted => 4,
        CommerceStatusType::InProgress => 5,
        CommerceStatusType::Completed => 6,
        CommerceStatusType::Cancelled => 7,
    }
}

/// The transition table: the status an event leads to, or `None` where the
/// event is not listed for that status (it is then ignored).
pub open spec fn transition(s: CommerceStatusType, e: InboundEvent) -> Option<CommerceStatusType> {
    match (s, e) {
        (CommerceStatusType::QuoteRequested, InboundEvent::OnSelect { ok }) => if ok {
            Some(CommerceStatusType::QuoteAccepted)
        } else {
            Some(CommerceStatusType::QuoteRejected)
        },
        (CommerceStatusType::QuoteAccepted, InboundEvent::OnInit) => Some(
            CommerceStatusType::Initialized,
        ),
        (CommerceStatusType::Initialized, InboundEvent::OnConfirm) => Some(
            CommerceStatusType::Created,
        ),
        (
            CommerceStatusType::Created,
            InboundEvent::OnStatus { progress: OrderProgress::Accepted },
        ) => Some(CommerceStatusType::Accepted),
        (
            CommerceStatusType::Accepted,
            InboundEvent::OnStatus { progress: OrderProgress::InProgress },
        ) => Some(CommerceStatusType::InProgress),
        (
            CommerceStatusType::InProgress,
            InboundEvent::OnStatus { progress: OrderProgress::Completed },
        ) => Some(CommerceStatusType::Completed),
        (CommerceStatusType::QuoteAccepted, InboundEvent::OnCancel { ok: true }) => Some(
            CommerceStatusType::Cancelled,
        ),
        (CommerceStatusType::Initialized, InboundEvent::OnCancel { ok: true }) => Some(
            CommerceStatusType::Cancelled,
        ),
        (CommerceStatusType::Created, InboundEvent::OnCancel { ok: true }) => Some(
            CommerceStatusType::Cancelled,
        ),
        (CommerceStatusType::Accepted, InboundEvent::OnCancel { ok: true }) => Some(
            CommerceStatusType::Cancelled,
        ),
        (CommerceStatusType::InProgress, InboundEvent::OnCancel { ok: true }) => Some(
            CommerceStatusType::Cancelled,
        ),
        _ => None,
    }
}

/// The status after an event: the listed transition, or the same status.
pub open spec fn apply_event(s: CommerceStatusType, e: InboundEvent) -> CommerceStatusType {
    match transition(s, e) {
        Some(t) => t,
        None => s,
    }
}

/// The status after a run of events, taken in order.
pub open spec fn apply_events(s: CommerceStatusType, es: Seq<InboundEvent>) -> CommerceStatusType
    decreases es.len(),
{
    if es.len() == 0 {
        s
    } else {
        apply_event(apply_events(s, es.drop_last()), es.last())
    }
}

/// Looks up the transition table.
pub fn next_status(s: CommerceStatusType, e: InboundEvent) -> (r: Option<CommerceStatusType>)
    ensures
        r == transition(s, e),
{
    match (s, e) {
        (CommerceStatusType::QuoteRequested, InboundEvent::OnSelect { ok }) => if ok {
            Some(CommerceStatusType::QuoteAccepted)
        } else {
            Some(CommerceStatusType::QuoteRejected)
        },
        (CommerceStatusType::QuoteAccepted, InboundEvent::OnInit) => Some(
            CommerceStatusType::Initialized,
        ),
        (CommerceStatusType::Initialized, InboundEvent::OnConfirm) => Some(
            CommerceStatusType::Created,
        ),
        (
            CommerceStatusType::Created,
            InboundEvent::OnStatus { progress: OrderProgress::Accepted },
        ) => Some(CommerceStatusType::Accepted),
        (
            CommerceStatusType::Accepted,
            InboundEvent::OnStatus { progress: OrderProgress::InProgress },
        ) => Some(CommerceStatusType::InProgress),
        (
            CommerceStatusType::InProgress,
            InboundEvent::OnStatus { progress: OrderProgress::Completed },
        ) => Some(CommerceStatusType::Completed),
        (CommerceStatusType::QuoteAccepted, InboundEvent::OnCancel { ok: true }) => Some(
            CommerceStatusType::Cancelled,
        ),
        (CommerceStatusType::Initialized, InboundEvent::OnCancel { ok: true }) => Some(
            CommerceStatusType::Cancelled,
        ),
        (CommerceStatusType::Created, InboundEvent::OnCancel { ok: true }) => Some(
            CommerceStatusType::Cancelled,
        ),
        (CommerceStatusType::Accepted, InboundEvent::OnCancel { ok: true }) => Some(
            CommerceStatusType::Cancelled,
        ),
        (CommerceStatusType::InProgress, InboundEvent::OnCancel { ok: true }) => Some(
            CommerceStatusType::Cancelled,
        ),
        _ => None,
    }
}

/// Folds one inbound event into a status; an unlisted event leaves it as it was.
pub fn advance_status(s: CommerceStatusType, e: InboundEvent) -> (r: CommerceStatusType)
    ensures
        r == apply_event(s, e),
        status_rank(r) >= status_rank(s),
{
    match next_status(s, e) {
        Some(t) => t,
        None => s,
    }
}

/// Folds a run of inbound events, in the order given, into a status.
pub fn advance_status_all(s: CommerceStatusType, es: &Vec<InboundEvent>) -> (r: CommerceStatusType)
    ensures
        r == apply_events(s, es@),
{
    let mut cur = s;
    let mut i: usize = 0;
    while i < es.len()
        invariant
            i <= es@.len(),
            cur == apply_events(s, es@.subrange(0, i as int)),
        decreases es.len() - i,
    {
        proof {
            assert(es@.subrange(0, i as int + 1).drop_last() =~= es@.subrange(0, i as int));
        }
        cur = advance_status(cur, es[i]);
        i = i + 1;
    }
    proof {
        assert(es@.subrange(0, es@.len() as int) =~= es@);
    }
    cur
}

/// A single event never moves a record back: a listed transition raises the
/// rank, an unlisted one leaves the status unchanged.
pub proof fn lemma_event_does_not_regress(s: CommerceStatusType, e: InboundEvent)
    ensures
        status_rank(apply_event(s, e)) >= status_rank(s),
        transition(s, e) is Some ==> status_rank(apply_event(s, e)) > status_rank(s),
{
}

/// Applying callbacks in timestamp order gives the status that each step
/// of the table prescribes, and no run of callbacks, in whatever order they
/// arrive, takes the record below any status it has reached.
pub proof fn lemma_status_monotone(s: CommerceStatusType, es: Seq<InboundEvent>)
    ensures
        status_rank(apply_events(s, es)) >= status_rank(s),
        forall|k: int|
            0 <= k <= es.len() ==> status_rank(apply_events(s, es)) >= status_rank(
                #[trigger] apply_events(s, es.subrange(0, k)),
            ),
    decreases es.len(),
{
    if es.len() > 0 {
        lemma_status_monotone(s, es.drop_last());
        lemma_event_does_not_regress(apply_events(s, es.drop_last()), es.last());
        assert forall|k: int|
            0 <= k <= es.len() implies status_rank(apply_events(s, es)) >= status_rank(
                #[trigger] apply_events(s, es.subrange(0, k)),
            ) by {
            if k == es.len() {
                assert(es.subrange(0, k) =~= es);
            } else {
                assert(es.subrange(0, k) =~= es.drop_last().subrange(0, k));
            }
        }
    }
}

/// For an ordered pair of callbacks the final status is the second applied
/// after the first; and a callback that arrives late (after a later one)
/// cannot lower the status that the later one left.
pub proof fn lemma_callback_pair(s: CommerceStatusType, first: InboundEvent, second: InboundEvent)
    ensures
        apply_events(s, seq![first, second]) == apply_event(apply_event(s, first), second),
        status_rank(apply_events(s, seq![second, first])) >= status_rank(apply_event(s, second)),
{
    assert(seq![first, second].drop_last() =~= seq![first]);
    assert(seq![first].drop_last() =~= Seq::<InboundEvent>::empty());
    assert(seq![second, first].drop_last() =~= seq![second]);
    assert(seq![second].drop_last() =~= Seq::<InboundEvent>::empty());
    assert(apply_events(s, Seq::<InboundEvent>::empty()) == s);
    assert(seq![first].last() == first);
    assert(seq![second].last() == second);
    assert(seq![first, second].last() == second);
    assert(seq![second, first].last() == first);
    assert(apply_events(s, seq![first]) == apply_event(s, first));
    assert(apply_events(s, seq![second]) == apply_event(s, second));
    lemma_event_does_not_regress(apply_event(s, second), first);
}

} // verus!
