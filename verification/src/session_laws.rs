//! What holds of every streaming session, whatever the host feeds it.
//!
//! A run is a sequence of steps: the task's waits resolving, the consumer
//! pulling, the consumer giving up. The laws below are about all runs.

use vstd::prelude::*;
use crate::bridge::{
    DeliveryView, PulledView, ReceiverState, SessionView, SignalView, TaskState, drop_view,
    offer_view, pull_output, pull_state,
};

verus! {

/// One step of a session.
pub enum SessionStep<T> {
    /// The task's wait resolved to a signal.
    Offer(SignalView<T>),
    /// The consumer pulled.
    Pull,
    /// The consumer gave up its end of the channel.
    DropReceiver,
}

/// The session after one step.
pub open spec fn step_state<H, T>(s: SessionView<H, T>, step: SessionStep<T>) -> SessionView<H, T> {
    match step {
        SessionStep::Offer(signal) => offer_view(s, signal),
        SessionStep::Pull => pull_state(s),
        SessionStep::DropReceiver => drop_view(s),
    }
}

/// The delivery that one step hands to the consumer, if it hands one.
pub open spec fn step_output<H, T>(s: SessionView<H, T>, step: SessionStep<T>) -> Option<
    DeliveryView<T>,
> {
    match step {
        SessionStep::Pull => match pull_output(s) {
            PulledView::Next(d) => Some(d),
            _ => None,
        },
        _ => None,
    }
}

/// The session after a run.
pub open spec fn run_state<H, T>(s: SessionView<H, T>, steps: Seq<SessionStep<T>>) -> SessionView<
    H,
    T,
>
    decreases steps.len(),
{
    if steps.len() == 0 {
        s
    } else {
        step_state(run_state(s, steps.drop_last()), steps.last())
    }
}

/// The deliveries that a run handed to the consumer, in the order it got them.
pub open spec fn run_outputs<H, T>(s: SessionView<H, T>, steps: Seq<SessionStep<T>>) -> Seq<
    DeliveryView<T>,
>
    decreases steps.len(),
{
    if steps.len() == 0 {
        Seq::empty()
    } else {
        let before = run_outputs(s, steps.drop_last());
        match step_output(run_state(s, steps.drop_last()), steps.last()) {
            Some(d) => before.push(d),
            None => before,
        }
    }
}

/// The events that a run offered to the task, in the order they were offered.
pub open spec fn offered_events<T>(steps: Seq<SessionStep<T>>) -> Seq<T>
    decreases steps.len(),
{
    if steps.len() == 0 {
        Seq::empty()
    } else {
        let before = offered_events(steps.drop_last());
        match steps.last() {
            SessionStep::Offer(SignalView::Event(t)) => before.push(t),
            _ => before,
        }
    }
}

/// A step that is an upstream event or a pull.
pub open spec fn is_event_or_pull<T>(step: SessionStep<T>) -> bool {
    match step {
        SessionStep::Offer(SignalView::Event(_)) => true,
        SessionStep::Pull => true,
        _ => false,
    }
}

/// The session after `n` pulls in a row.
pub open spec fn pull_times<H, T>(s: SessionView<H, T>, n: nat) -> SessionView<H, T>
    decreases n,
{
    if n == 0 {
        s
    } else {
        pull_state(pull_times(s, (n - 1) as nat))
    }
}

/// What the consumer gets when it pulls until a pull yields no delivery.
pub open spec fn drained<H, T>(s: SessionView<H, T>) -> Seq<DeliveryView<T>>
    decreases s.queue.len(),
{
    match pull_output(s) {
        PulledView::Next(d) => seq![d] + drained(pull_state(s)),
        _ => Seq::empty(),
    }
}

/// The session after the task saw each of `signals` in turn.
pub open spec fn feed<H, T>(s: SessionView<H, T>, signals: Seq<SignalView<T>>) -> SessionView<H, T>
    decreases signals.len(),
{
    if signals.len() == 0 {
        s
    } else {
        offer_view(feed(s, signals.drop_last()), signals.last())
    }
}

/// Pulling until nothing comes hands over the whole queue, in order, while the
/// consumer's end is open.
pub proof fn lemma_drained_is_the_queue<H, T>(s: SessionView<H, T>)
    requires
        s.receiver == ReceiverState::Open,
    ensures
        drained(s) == s.queue,
    decreases s.queue.len(),
{
    if s.queue.len() > 0 {
        lemma_drained_is_the_queue(pull_state(s));
        assert(seq![s.queue[0]] + s.queue.subrange(1, s.queue.len() as int) =~= s.queue);
    } else {
        assert(drained(s) =~= s.queue);
    }
}

/// After `k` pulls on an open session that buffers at least `k` deliveries, the
/// first `k` are gone and nothing else has changed.
pub proof fn lemma_pull_times_takes_a_prefix<H, T>(s: SessionView<H, T>, k: nat)
    requires
        s.receiver == ReceiverState::Open,
        k <= s.queue.len(),
    ensures
        pull_times(s, k) == (SessionView { queue: s.queue.subrange(k as int, s.queue.len() as int), ..s }),
    decreases k,
{
    if k == 0 {
        assert(s.queue.subrange(0, s.queue.len() as int) =~= s.queue);
    } else {
        lemma_pull_times_takes_a_prefix(s, (k - 1) as nat);
        let before = pull_times(s, (k - 1) as nat);
        assert(before.queue.subrange(1, before.queue.len() as int) =~= s.queue.subrange(
            k as int,
            s.queue.len() as int,
        ));
    }
}

/// Once the task has exited, nothing the upstream source still sends reaches
/// the session.
pub proof fn lemma_exited_task_ignores_signals<H, T>(s: SessionView<H, T>, signals: Seq<SignalView<T>>)
    requires
        s.task == TaskState::Exited,
    ensures
        feed(s, signals) == s,
    decreases signals.len(),
{
    if signals.len() > 0 {
        lemma_exited_task_ignores_signals(s, signals.drop_last());
    }
}

/// While only events and pulls happen on a running session, what was pulled
/// followed by what is buffered is exactly what was buffered at the start
/// followed by what was offered.
pub proof fn lemma_nothing_lost_nothing_reordered<H, T>(
    s: SessionView<H, T>,
    steps: Seq<SessionStep<T>>,
)
    requires
        s.task == TaskState::Running,
        s.receiver == ReceiverState::Open,
        forall|i: int| 0 <= i < steps.len() ==> is_event_or_pull(#[trigger] steps[i]),
    ensures
        run_state(s, steps).task == TaskState::Running,
        run_state(s, steps).receiver == ReceiverState::Open,
        run_state(s, steps).handle == s.handle,
        run_outputs(s, steps) + run_state(s, steps).queue == s.queue + offered_events(
            steps,
        ).map_values(|t: T| DeliveryView::Item(t)),
    decreases steps.len(),
{
    let item = |t: T| DeliveryView::Item(t);
    if steps.len() == 0 {
        assert(run_outputs(s, steps) + run_state(s, steps).queue =~= s.queue + offered_events(
            steps,
        ).map_values(item));
    } else {
        let init = steps.drop_last();
        lemma_nothing_lost_nothing_reordered(s, init);
        let before = run_state(s, init);
        let out = run_outputs(s, init);
        assert(is_event_or_pull(steps[steps.len() - 1]));
        match steps.last() {
            SessionStep::Offer(SignalView::Event(t)) => {
                assert(run_state(s, steps).queue == before.queue.push(DeliveryView::Item(t)));
                assert(out + before.queue.push(DeliveryView::Item(t)) =~= (out
                    + before.queue).push(DeliveryView::Item(t)));
                assert(offered_events(init).push(t).map_values(item) =~= offered_events(
                    init,
                ).map_values(item).push(DeliveryView::Item(t)));
                assert(s.queue + offered_events(init).map_values(item).push(
                    DeliveryView::Item(t),
                ) =~= (s.queue + offered_events(init).map_values(item)).push(
                    DeliveryView::Item(t),
                ));
            },
            SessionStep::Pull => {
                if before.queue.len() > 0 {
                    assert(out.push(before.queue[0]) + before.queue.subrange(
                        1,
                        before.queue.len() as int,
                    ) =~= out + before.queue);
                } else {
                }
            },
            _ => {},
        }
    }
}

/// Every event offered to a subscription before it is cancelled reaches the
/// consumer exactly once and in the order of offering: the deliveries pulled
/// before the cancellation, followed by those pulled after it until the
/// sequence ends, are what was buffered at the start and then the offered
/// events, one delivery each. The pull after the last of them yields the end
/// of the sequence.
pub proof fn lemma_events_before_cancellation_all_arrive_in_order<H, T>(
    s: SessionView<H, T>,
    steps: Seq<SessionStep<T>>,
)
    requires
        s.task == TaskState::Running,
        s.receiver == ReceiverState::Open,
        forall|i: int| 0 <= i < steps.len() ==> is_event_or_pull(#[trigger] steps[i]),
    ensures
        ({
            let cancelled = offer_view(run_state(s, steps), SignalView::Cancelled);
            &&& run_outputs(s, steps) + drained(cancelled) == s.queue + offered_events(
                steps,
            ).map_values(|t: T| DeliveryView::Item(t))
            &&& (run_outputs(s, steps) + drained(cancelled)).len() == s.queue.len()
                + offered_events(steps).len()
            &&& pull_output(pull_times(cancelled, cancelled.queue.len())) == PulledView::<T>::End
        }),
{
    lemma_nothing_lost_nothing_reordered(s, steps);
    let cancelled = offer_view(run_state(s, steps), SignalView::Cancelled);
    lemma_drained_is_the_queue(cancelled);
    lemma_pull_times_takes_a_prefix(cancelled, cancelled.queue.len());
}

/// Cancelling a session ends its sequence after a bounded number of pulls, and
/// nothing that the upstream source sends afterwards is delivered: the queue
/// stays what it was at the cancellation; while the consumer's end is open the
/// pulls hand the queue over in order, and the pull after its last delivery
/// yields the end of the sequence, as does every later one; where the
/// consumer's end is not open, every pull yields the end.
pub proof fn lemma_cancellation_ends_the_sequence<H, T>(
    s: SessionView<H, T>,
    later: Seq<SignalView<T>>,
    k: nat,
)
    ensures
        ({
            let after = feed(offer_view(s, SignalView::Cancelled), later);
            let open = s.receiver == ReceiverState::Open;
            &&& after.task == TaskState::Exited
            &&& after.queue == s.queue
            &&& after.receiver == s.receiver
            &&& after.handle == s.handle
            &&& open && k < s.queue.len() ==> pull_output(pull_times(after, k))
                == PulledView::Next(s.queue[k as int])
            &&& !open || k >= s.queue.len() ==> pull_output(pull_times(after, k))
                == PulledView::<T>::End
        }),
{
    let cancelled = offer_view(s, SignalView::Cancelled);
    lemma_exited_task_ignores_signals(cancelled, later);
    let after = feed(cancelled, later);
    let n = s.queue.len();
    if s.receiver != ReceiverState::Open {
        lemma_end_is_final(after, k);
    } else if k < n {
        lemma_pull_times_takes_a_prefix(after, k);
    } else {
        lemma_pull_times_takes_a_prefix(after, n);
        lemma_end_is_final(pull_times(after, n), (k - n) as nat);
        lemma_pull_times_adds(after, n, (k - n) as nat);
    }
}

/// Pulling `a` times and then `b` times is pulling `a + b` times.
pub proof fn lemma_pull_times_adds<H, T>(s: SessionView<H, T>, a: nat, b: nat)
    ensures
        pull_times(pull_times(s, a), b) == pull_times(s, a + b),
    decreases b,
{
    if b > 0 {
        lemma_pull_times_adds(s, a, (b - 1) as nat);
    }
}

/// A session is not restartable: once a pull has yielded the end of the
/// sequence because the task has exited and nothing is buffered, every later
/// pull yields the end too.
pub proof fn lemma_end_is_final<H, T>(s: SessionView<H, T>, k: nat)
    requires
        s.task == TaskState::Exited || s.receiver != ReceiverState::Open,
        s.queue.len() == 0 || s.receiver != ReceiverState::Open,
    ensures
        pull_output(pull_times(s, k)) == PulledView::<T>::End,
        pull_times(s, k).task == s.task,
        pull_times(s, k).receiver != ReceiverState::Open || k == 0,
    decreases k,
{
    if k > 0 {
        lemma_end_is_final(s, (k - 1) as nat);
    }
}

/// No step changes the handle that a session was opened with.
pub proof fn lemma_session_keeps_its_handle<H, T>(s: SessionView<H, T>, steps: Seq<SessionStep<T>>)
    ensures
        run_state(s, steps).handle == s.handle,
    decreases steps.len(),
{
    if steps.len() > 0 {
        lemma_session_keeps_its_handle(s, steps.drop_last());
    }
}

/// One step of a registry together with the sessions that were opened from it.
pub enum SystemStep<H, T> {
    /// A new handle replaces the registry's current one.
    Connect(H),
    /// The session of this index takes a step.
    Session(int, SessionStep<T>),
}

/// A registry together with the sessions that were opened from it.
pub struct SystemView<H, T> {
    pub registry: Option<H>,
    pub sessions: Seq<SessionView<H, T>>,
}

/// The system after one step. A step of a session that does not exist changes
/// nothing.
pub open spec fn system_step<H, T>(sys: SystemView<H, T>, step: SystemStep<H, T>) -> SystemView<
    H,
    T,
> {
    match step {
        SystemStep::Connect(h) => SystemView { registry: Some(h), ..sys },
        SystemStep::Session(i, st) => if 0 <= i < sys.sessions.len() {
            SystemView { sessions: sys.sessions.update(i, step_state(sys.sessions[i], st)), ..sys }
        } else {
            sys
        },
    }
}

/// The system after a run.
pub open spec fn system_run<H, T>(sys: SystemView<H, T>, steps: Seq<SystemStep<H, T>>) -> SystemView<
    H,
    T,
>
    decreases steps.len(),
{
    if steps.len() == 0 {
        sys
    } else {
        system_step(system_run(sys, steps.drop_last()), steps.last())
    }
}

/// The deliveries that a run of the system handed to the consumer of the
/// session of index `which`.
pub open spec fn system_outputs<H, T>(
    sys: SystemView<H, T>,
    which: int,
    steps: Seq<SystemStep<H, T>>,
) -> Seq<DeliveryView<T>>
    decreases steps.len(),
{
    if steps.len() == 0 {
        Seq::empty()
    } else {
        let before = system_outputs(sys, which, steps.drop_last());
        let sessions = system_run(sys, steps.drop_last()).sessions;
        match steps.last() {
            SystemStep::Session(i, st) => if i == which && 0 <= i < sessions.len() {
                match step_output(sessions[i], st) {
                    Some(d) => before.push(d),
                    None => before,
                }
            } else {
                before
            },
            SystemStep::Connect(_) => before,
        }
    }
}

/// The steps of the session of index `which` among the steps of the system,
/// in order.
pub open spec fn session_steps<H, T>(which: int, steps: Seq<SystemStep<H, T>>) -> Seq<
    SessionStep<T>,
>
    decreases steps.len(),
{
    if steps.len() == 0 {
        Seq::empty()
    } else {
        let before = session_steps(which, steps.drop_last());
        match steps.last() {
            SystemStep::Session(i, st) => if i == which {
                before.push(st)
            } else {
                before
            },
            SystemStep::Connect(_) => before,
        }
    }
}

/// Replacing the registry's handle while a session is active does not affect
/// the session, and neither does anything that happens to another session,
/// its cancellation included: after any run of the system, a session is in
/// the state, and has handed over the deliveries, that its own steps alone
/// lead to, and it still holds the handle it was opened with.
pub proof fn lemma_a_session_depends_on_its_own_steps_only<H, T>(
    sys: SystemView<H, T>,
    which: int,
    steps: Seq<SystemStep<H, T>>,
)
    requires
        0 <= which < sys.sessions.len(),
    ensures
        system_run(sys, steps).sessions.len() == sys.sessions.len(),
        system_run(sys, steps).sessions[which] == run_state(
            sys.sessions[which],
            session_steps(which, steps),
        ),
        system_outputs(sys, which, steps) == run_outputs(
            sys.sessions[which],
            session_steps(which, steps),
        ),
        system_run(sys, steps).sessions[which].handle == sys.sessions[which].handle,
    decreases steps.len(),
{
    if steps.len() > 0 {
        let init = steps.drop_last();
        lemma_a_session_depends_on_its_own_steps_only(sys, which, init);
        match steps.last() {
            SystemStep::Connect(_) => {},
            SystemStep::Session(i, st) => {
                if i == which {
                    let own = session_steps(which, init).push(st);
                    assert(own.drop_last() =~= session_steps(which, init));
                    assert(own.last() == st);
                }
            },
        }
    }
    lemma_session_keeps_its_handle(sys.sessions[which], session_steps(which, steps));
}

} // verus!
