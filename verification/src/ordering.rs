//! What holds of queued clients and pipelines over whole histories: the
//! order in which work is handed over, how a failure spreads, and that
//! identities are not shared.

use crate::error::Error;
use crate::queued::Action;
use crate::queued::Call;
use crate::queued::CapModel;
use crate::queued::ClientModel;
use crate::queued::Dispatch;
use crate::queued::ExtractionModel;
use crate::queued::Identities;
use crate::queued::Observed;
use crate::queued::PipelineModel;
use crate::queued::PipelineOp;
use crate::queued::Resolution;
use vstd::prelude::*;

verus! {

/// Something that happens to a queued client.
pub enum Event<C, A, O> {
    /// Somebody makes this call on the client.
    Call(Call<A>),
    /// Somebody asks to be told the resolution.
    Observe(O),
    /// A facade of the client is added.
    AddRef,
    /// A facade of the client is dropped.
    Release,
    /// The upstream of the client settles.
    Settle(Resolution<C>),
}

/// The events in which the given calls are made, one after the other.
pub open spec fn calls<C, A, O>(made: Seq<Call<A>>) -> Seq<Event<C, A, O>> {
    Seq::new(made.len(), |i: int| Event::Call(made[i]))
}

/// The calls that the steps hand to the target, in the order of the steps.
pub open spec fn forwarded<A, O>(actions: Seq<Action<A, O>>) -> Seq<Call<A>>
    decreases actions.len(),
{
    if actions.len() == 0 {
        Seq::empty()
    } else {
        let earlier = forwarded(actions.drop_last());
        match actions.last() {
            Action::Forward(call) => earlier.push(call),
            _ => earlier,
        }
    }
}

/// The state after one event.
pub open spec fn after_event<C, A, O>(
    state: ClientModel<C, A, O>,
    event: Event<C, A, O>,
) -> ClientModel<C, A, O> {
    match event {
        Event::Call(call) => state.call(call),
        Event::Observe(observer) => state.observe(observer),
        Event::AddRef => state.add_ref(),
        Event::Release => state.release(),
        Event::Settle(outcome) => state.settle(outcome),
    }
}

/// The calls that one event hands to the target.
pub open spec fn handed_by<C, A, O>(state: ClientModel<C, A, O>, event: Event<C, A, O>) -> Seq<
    Call<A>,
> {
    match event {
        Event::Call(call) => match state.dispatch(call) {
            Dispatch::Forward(now) => seq![now],
            _ => Seq::empty(),
        },
        Event::Settle(outcome) => forwarded(state.settle_actions(outcome)),
        _ => Seq::empty(),
    }
}

/// The state after a history of events.
pub open spec fn after<C, A, O>(
    state: ClientModel<C, A, O>,
    events: Seq<Event<C, A, O>>,
) -> ClientModel<C, A, O>
    decreases events.len(),
{
    if events.len() == 0 {
        state
    } else {
        after_event(after(state, events.drop_last()), events.last())
    }
}

/// All calls that a history of events hands to the target, in the order in
/// which the target receives them.
pub open spec fn handed_over<C, A, O>(
    state: ClientModel<C, A, O>,
    events: Seq<Event<C, A, O>>,
) -> Seq<Call<A>>
    decreases events.len(),
{
    if events.len() == 0 {
        Seq::empty()
    } else {
        handed_over(state, events.drop_last()) + handed_by(
            after(state, events.drop_last()),
            events.last(),
        )
    }
}

/// The calls among the events, in their order.
pub open spec fn calls_among<C, A, O>(events: Seq<Event<C, A, O>>) -> Seq<Call<A>>
    decreases events.len(),
{
    if events.len() == 0 {
        Seq::empty()
    } else {
        let earlier = calls_among(events.drop_last());
        match events.last() {
            Event::Call(call) => earlier.push(call),
            _ => earlier,
        }
    }
}

/// The observers among the events, in their order.
pub open spec fn observers_among<C, A, O>(events: Seq<Event<C, A, O>>) -> Seq<O>
    decreases events.len(),
{
    if events.len() == 0 {
        Seq::empty()
    } else {
        let earlier = observers_among(events.drop_last());
        match events.last() {
            Event::Observe(observer) => earlier.push(observer),
            _ => earlier,
        }
    }
}

/// True when the upstream settles nowhere in the history.
pub open spec fn unsettled<C, A, O>(events: Seq<Event<C, A, O>>) -> bool {
    forall|i: int| 0 <= i < events.len() ==> !((#[trigger] events[i]) is Settle)
}

/// The state of a pipeline after capabilities at the given paths were asked
/// for, one after the other.
pub open spec fn after_requests<P>(
    state: PipelineModel<P>,
    asked: Seq<Seq<PipelineOp>>,
) -> PipelineModel<P>
    decreases asked.len(),
{
    if asked.len() == 0 {
        state
    } else {
        after_requests(state, asked.drop_last()).request(asked.last())
    }
}

proof fn lemma_forwarded_concat<A, O>(first: Seq<Action<A, O>>, second: Seq<Action<A, O>>)
    ensures
        forwarded(first + second) == forwarded(first) + forwarded(second),
    decreases second.len(),
{
    if second.len() == 0 {
        assert(first + second =~= first);
        assert(forwarded(first) + forwarded(second) =~= forwarded(first));
    } else {
        lemma_forwarded_concat(first, second.drop_last());
        assert((first + second).drop_last() =~= first + second.drop_last());
        assert((first + second).last() == second.last());
        match second.last() {
            Action::Forward(call) => {
                assert((forwarded(first) + forwarded(second.drop_last())).push(call)
                    =~= forwarded(first) + forwarded(second.drop_last()).push(call));
            },
            _ => {},
        }
    }
}

proof fn lemma_forwarded_hand_over<C, A, O>(state: ClientModel<C, A, O>, target: C)
    ensures
        forwarded(state.hand_over(Resolution::Resolved(target))) == state.queue,
    decreases state.queue.len(),
{
    let outcome = Resolution::Resolved(target);
    let steps = state.hand_over(outcome);
    if state.queue.len() > 0 {
        let shorter = ClientModel { queue: state.queue.drop_last(), ..state };
        lemma_forwarded_hand_over(shorter, target);
        assert(steps.drop_last() =~= shorter.hand_over(outcome));
        assert(steps.last() == Action::<A, O>::Forward(state.queue.last()));
        assert(shorter.queue.push(state.queue.last()) =~= state.queue);
    } else {
        assert(state.queue =~= Seq::<Call<A>>::empty());
    }
}

proof fn lemma_forwarded_notify<C, A, O>(state: ClientModel<C, A, O>)
    ensures
        forwarded(state.notify()) == Seq::<Call<A>>::empty(),
    decreases state.observers.len(),
{
    if state.observers.len() > 0 {
        let shorter = ClientModel { observers: state.observers.drop_last(), ..state };
        lemma_forwarded_notify(shorter);
        assert(state.notify().drop_last() =~= shorter.notify());
    }
}

proof fn lemma_pending_history<C, A, O>(state: ClientModel<C, A, O>, events: Seq<Event<C, A, O>>)
    requires
        state.outcome is None,
        unsettled(events),
    ensures
        after(state, events).outcome is None,
        after(state, events).queue == state.queue + calls_among(events),
        after(state, events).observers == state.observers + observers_among(events),
        handed_over(state, events) == Seq::<Call<A>>::empty(),
    decreases events.len(),
{
    if events.len() == 0 {
        assert(state.queue + calls_among(events) =~= state.queue);
        assert(state.observers + observers_among(events) =~= state.observers);
    } else {
        let earlier = events.drop_last();
        assert(unsettled(earlier)) by {
            assert forall|i: int| 0 <= i < earlier.len() implies !((#[trigger] earlier[i])
                is Settle) by {
                assert(earlier[i] == events[i]);
            }
        }
        lemma_pending_history(state, earlier);
        assert(!(events[events.len() - 1] is Settle));
        match events.last() {
            Event::Call(call) => {
                assert((state.queue + calls_among(earlier)).push(call) =~= state.queue
                    + calls_among(events));
            },
            Event::Observe(observer) => {
                assert((state.observers + observers_among(earlier)).push(observer)
                    =~= state.observers + observers_among(events));
            },
            _ => {},
        }
    }
}

proof fn lemma_calls_among_calls<C, A, O>(made: Seq<Call<A>>)
    ensures
        calls_among(calls::<C, A, O>(made)) == made,
        observers_among(calls::<C, A, O>(made)) == Seq::<O>::empty(),
        unsettled(calls::<C, A, O>(made)),
    decreases made.len(),
{
    if made.len() > 0 {
        lemma_calls_among_calls::<C, A, O>(made.drop_last());
        assert(calls::<C, A, O>(made).drop_last() =~= calls::<C, A, O>(made.drop_last()));
        assert(made.drop_last().push(made.last()) =~= made);
    } else {
        assert(made =~= Seq::<Call<A>>::empty());
    }
}

proof fn lemma_resolved_calls_pass<C, A, O>(
    state: ClientModel<C, A, O>,
    history: Seq<Event<C, A, O>>,
    later: Seq<Call<A>>,
)
    requires
        after(state, history).outcome is Some,
        after(state, history).outcome->0 is Resolved,
    ensures
        after(state, history + calls(later)) == after(state, history),
        handed_over(state, history + calls(later)) == handed_over(state, history) + later,
    decreases later.len(),
{
    let events = history + calls::<C, A, O>(later);
    if later.len() == 0 {
        assert(events =~= history);
        assert(handed_over(state, history) + later =~= handed_over(state, history));
    } else {
        lemma_resolved_calls_pass(state, history, later.drop_last());
        assert(events.drop_last() =~= history + calls::<C, A, O>(later.drop_last()));
        assert(events.last() == Event::<C, A, O>::Call(later.last()));
        assert((handed_over(state, history) + later.drop_last()) + seq![later.last()]
            =~= handed_over(state, history) + later);
    }
}

/// Calls reach the target in the order in which they were made. Take a
/// client that is pending with nothing queued; any history `before` in
/// which the upstream does not settle; the resolution to `target`; and any
/// calls `later`. The target receives exactly the calls of `before`, in
/// their order, followed by `later`.
pub proof fn lemma_calls_forwarded_in_order<C, A, O>(
    state: ClientModel<C, A, O>,
    before: Seq<Event<C, A, O>>,
    target: C,
    later: Seq<Call<A>>,
)
    requires
        state.outcome is None,
        state.queue.len() == 0,
        unsettled(before),
    ensures
        handed_over(state, before.push(Event::Settle(Resolution::Resolved(target))) + calls(later))
            == calls_among(before) + later,
{
    let outcome = Resolution::Resolved(target);
    let history = before.push(Event::Settle(outcome));
    lemma_pending_history(state, before);
    assert(history.drop_last() =~= before);
    let waiting = after(state, before);
    assert(waiting.queue =~= calls_among(before));
    lemma_forwarded_hand_over(waiting, target);
    lemma_forwarded_notify(waiting);
    lemma_forwarded_concat(waiting.hand_over(outcome), waiting.notify());
    assert(forwarded(waiting.settle_actions(outcome)) =~= calls_among(before));
    assert(handed_over(state, history) =~= calls_among(before));
    lemma_resolved_calls_pass(state, history, later);
}

/// Observers learn the resolution after every queued call was handed over.
/// Take a fresh client and any history in which the upstream does not
/// settle. When the client settles, the steps are one hand-over for each
/// call of the history, in their order, and after all of them one
/// notification for each observer of the history, in their order.
/// Completions are not among the steps: they can only follow the
/// hand-over.
pub proof fn lemma_observers_told_after_forwarding<C, A, O>(
    state: ClientModel<C, A, O>,
    before: Seq<Event<C, A, O>>,
    outcome: Resolution<C>,
)
    requires
        state.outcome is None,
        state.queue.len() == 0,
        state.observers.len() == 0,
        unsettled(before),
    ensures
        ({
            let made = calls_among(before);
            let asked = observers_among(before);
            let steps = after(state, before).settle_actions(outcome);
            &&& steps.len() == made.len() + asked.len()
            &&& forall|i: int|
                0 <= i < made.len() ==> #[trigger] steps[i] == ClientModel::<C, A, O>::step(
                    outcome,
                    made[i],
                )
            &&& forall|j: int|
                0 <= j < asked.len() ==> #[trigger] steps[made.len() + j] == Action::<
                    A,
                    O,
                >::Notify(asked[j])
            &&& forall|i: int, j: int|
                0 <= i < steps.len() && 0 <= j < steps.len() && !(#[trigger] steps[i] is Notify)
                    && #[trigger] steps[j] is Notify ==> i < j
        }),
{
    lemma_pending_history(state, before);
    let waiting = after(state, before);
    assert(waiting.queue =~= calls_among(before));
    assert(waiting.observers =~= observers_among(before));
}

proof fn lemma_requests_wait<P>(state: PipelineModel<P>, asked: Seq<Seq<PipelineOp>>)
    requires
        state.outcome is None,
    ensures
        after_requests(state, asked).outcome is None,
        after_requests(state, asked).queue == state.queue + asked,
    decreases asked.len(),
{
    if asked.len() == 0 {
        assert(state.queue + asked =~= state.queue);
    } else {
        lemma_requests_wait(state, asked.drop_last());
        assert((state.queue + asked.drop_last()).push(asked.last()) =~= state.queue + asked);
    }
}

/// A pipeline can be asked for capabilities before it has settled, and
/// serves the requests in their order. Each request on a pending pipeline
/// is answered at once with a queued client, placed behind the earlier
/// ones; when the pipeline settles, the steps are those of the requests,
/// oldest first.
pub proof fn lemma_pipelined_caps_in_order<P>(
    state: PipelineModel<P>,
    asked: Seq<Seq<PipelineOp>>,
    outcome: Resolution<P>,
)
    requires
        state.outcome is None,
        state.queue.len() == 0,
    ensures
        after_requests(state, asked).queue == asked,
        after_requests(state, asked).outcome is None,
        forall|i: int|
            0 <= i < asked.len() ==> #[trigger] after_requests(state, asked.take(i)).cap(asked[i])
                == CapModel::Queued(i as nat),
        after_requests(state, asked).settle_actions(outcome) == Seq::new(
            asked.len(),
            |i: int| PipelineModel::<P>::step(outcome, asked[i]),
        ),
{
    lemma_requests_wait(state, asked);
    assert(after_requests(state, asked).queue =~= asked);
    assert forall|i: int| 0 <= i < asked.len() implies #[trigger] after_requests(
        state,
        asked.take(i),
    ).cap(asked[i]) == CapModel::Queued(i as nat) by {
        lemma_requests_wait(state, asked.take(i));
    }
    assert(after_requests(state, asked).settle_actions(outcome) =~= Seq::new(
        asked.len(),
        |i: int| PipelineModel::<P>::step(outcome, asked[i]),
    ));
}

/// The pipeline of a call can be used at once, and what is taken from it
/// queues calls like any other queued client. Take a client that is not
/// broken: the pipeline that a call on it returns answers every request,
/// however many were made before, with a fresh queued client placed behind
/// the earlier ones. And the calls made on such a client before it
/// resolves, and those made after, reach its target in the order in which
/// they were made.
pub proof fn lemma_pipelined_calls_in_order<P, C, A, O>(
    client: ClientModel<C, A, O>,
    asked: Seq<Seq<PipelineOp>>,
    path: Seq<PipelineOp>,
    ptr: usize,
    before: Seq<Call<A>>,
    target: C,
    later: Seq<Call<A>>,
)
    requires
        client.outcome is Some ==> client.outcome->0 is Resolved,
    ensures
        after_requests(client.pipeline_of_call::<P>(), asked).cap(path) == CapModel::Queued(
            asked.len(),
        ),
        handed_over(
            ClientModel::<C, A, O>::fresh(ptr),
            calls(before).push(Event::Settle(Resolution::Resolved(target))) + calls(later),
        ) == before + later,
{
    lemma_requests_wait(client.pipeline_of_call::<P>(), asked);
    lemma_calls_among_calls::<C, A, O>(before);
    lemma_calls_forwarded_in_order(
        ClientModel::<C, A, O>::fresh(ptr),
        calls::<C, A, O>(before),
        target,
        later,
    );
}

/// Once a pipeline has settled, requests go past the queue: they leave the
/// state as it is and are answered from what the pipeline settled to.
pub proof fn lemma_settled_pipeline_answers_directly<P>(
    state: PipelineModel<P>,
    target: P,
    asked: Seq<Seq<PipelineOp>>,
    path: Seq<PipelineOp>,
)
    requires
        state.outcome is None,
    ensures
        after_requests(state.settle(Resolution::Resolved(target)), asked) == state.settle(
            Resolution::Resolved(target),
        ),
        after_requests(state.settle(Resolution::Resolved(target)), asked).cap(path)
            == CapModel::Delegate(path),
    decreases asked.len(),
{
    if asked.len() > 0 {
        lemma_settled_pipeline_answers_directly(state, target, asked.drop_last(), path);
    }
}

proof fn lemma_settled_stays<C, A, O>(state: ClientModel<C, A, O>, later: Seq<Event<C, A, O>>)
    requires
        state.outcome is Some,
    ensures
        after(state, later).outcome == state.outcome,
        after(state, later).redirected == state.redirected,
    decreases later.len(),
{
    if later.len() > 0 {
        lemma_settled_stays(state, later.drop_last());
    }
}

/// A failure of the upstream reaches everything that depends on the
/// client. When a pending client settles to the error `e`, every queued
/// call is failed with `e`. Whatever happens afterwards, every further
/// call is failed with `e`, the pipeline of such a call answers every
/// request with a capability that is broken with `e`, and who asks for the
/// resolution is told at once.
pub proof fn lemma_broken_propagation<C, A, O, P>(
    state: ClientModel<C, A, O>,
    e: Error,
    later: Seq<Event<C, A, O>>,
    call: Call<A>,
    path: Seq<PipelineOp>,
    observer: O,
)
    requires
        state.outcome is None,
    ensures
        forall|i: int|
            0 <= i < state.queue.len() ==> #[trigger] state.settle_actions(Resolution::Broken(e))[i]
                == Action::<A, O>::Fail(state.queue[i], e),
        after(state.settle(Resolution::Broken(e)), later).outcome == Some(
            Resolution::<C>::Broken(e),
        ),
        after(state.settle(Resolution::Broken(e)), later).dispatch(call) == Dispatch::Fail(call, e),
        after(state.settle(Resolution::Broken(e)), later).pipeline_of_call::<P>().cap(path)
            == CapModel::Broken(e),
        after(state.settle(Resolution::Broken(e)), later).observed(observer) == Observed::Ready(
            observer,
        ),
{
    lemma_settled_stays(state.settle(Resolution::Broken(e)), later);
}

/// A failure reaches the capabilities of a pipeline. When a pending
/// pipeline settles to the error `e`, every client that waits for it is
/// failed with `e`, and every request made afterwards is answered with a
/// capability that is broken with `e`.
pub proof fn lemma_broken_pipeline<P>(
    state: PipelineModel<P>,
    e: Error,
    asked: Seq<Seq<PipelineOp>>,
    path: Seq<PipelineOp>,
)
    requires
        state.outcome is None,
    ensures
        forall|i: int|
            0 <= i < state.queue.len() ==> #[trigger] state.settle_actions(Resolution::Broken(e))[i]
                == ExtractionModel::Break(e),
        after_requests(state.settle(Resolution::Broken(e)), asked).cap(path) == CapModel::Broken(
            e,
        ),
    decreases asked.len(),
{
    if asked.len() > 0 {
        lemma_broken_pipeline(state, e, asked.drop_last(), path);
    }
}

/// The identity of a client is stable: whatever happens to the client, and
/// however many facades are added or dropped, it reports the identity that
/// it was made with.
pub proof fn lemma_identity_is_stable<C, A, O>(ptr: usize, events: Seq<Event<C, A, O>>)
    ensures
        after(ClientModel::<C, A, O>::fresh(ptr), events).ptr == ptr,
    decreases events.len(),
{
    if events.len() > 0 {
        lemma_identity_is_stable::<C, A, O>(ptr, events.drop_last());
    }
}

/// Clients made from one source of identities do not share an identity:
/// a client made when the source stood at `earlier` and one made when it
/// stood at `later`, after at least one more identity was handed out,
/// report different values.
pub proof fn lemma_identities_differ<C, A, O>(earlier: Identities, later: Identities)
    requires
        earlier.next() < later.next(),
    ensures
        ClientModel::<C, A, O>::fresh(earlier.next()).ptr != ClientModel::<C, A, O>::fresh(
            later.next(),
        ).ptr,
{
}

} // verus!
