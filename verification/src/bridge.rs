//! The streaming bridge: a push-delivered event source seen as a pull sequence.
//!
//! A session has a background task and a consumer, joined by an unbounded
//! first-in-first-out channel. The task waits for whichever comes first, a
//! cancellation or the next upstream event, and forwards events into the
//! channel. The consumer takes one delivery per pull. The functions here
//! decide what each side does next; the host performs the waiting, the
//! sending and the receiving.
//!
//! [`task_step`], [`after_send`] and [`Reader`] are the two sides taken alone,
//! for a host that runs them on a channel of its own. [`StreamSession`] is
//! both sides with the channel between them, as one value: the model that the
//! laws on sessions speak of.

use std::collections::VecDeque;
use vstd::prelude::*;
use crate::error::{BridgeError, ErrorView, not_connected_view};
use crate::registry::Registry;

verus! {

/// The phases of a session, in the order it passes through them.
#[derive(Debug, Clone, Copy, PartialEq, Eq, Structural)]
pub enum Phase {
    /// Constructed; the upstream source is not open yet.
    Idle,
    /// The task is subscribed and the consumer may pull.
    Running,
    /// The task has exited; what is buffered can still be pulled.
    Draining,
    /// Terminal: every further pull yields end-of-sequence.
    Closed,
}

/// Where the background task stands.
#[derive(Debug, Clone, Copy, PartialEq, Eq, Structural)]
pub enum TaskState {
    /// Not subscribed yet.
    Idle,
    /// Subscribed and looping.
    Running,
    /// Left its loop; it forwards nothing any more.
    Exited,
}

/// Where the consumer's end of the channel stands.
#[derive(Debug, Clone, Copy, PartialEq, Eq, Structural)]
pub enum ReceiverState {
    /// The consumer may still receive.
    Open,
    /// The consumer has seen the channel closed and empty.
    Ended,
    /// The consumer gave up its end before the sequence ended.
    Dropped,
}

/// What one wait of the background task resolved to.
#[derive(Debug, Clone, PartialEq, Eq)]
pub enum Signal<T> {
    /// The upstream source was opened.
    Subscribed,
    /// The session's cancellation token fired.
    Cancelled,
    /// The upstream source produced an event.
    Event(T),
    /// The upstream source ended.
    Ended,
    /// Opening or reading the upstream source failed, or the task itself did.
    Failed(BridgeError),
}

/// The mathematical content of a [`Signal`].
pub enum SignalView<T> {
    Subscribed,
    Cancelled,
    Event(T),
    Ended,
    Failed(ErrorView),
}

impl<T> View for Signal<T> {
    type V = SignalView<T>;

    open spec fn view(&self) -> SignalView<T> {
        match *self {
            Signal::Subscribed => SignalView::Subscribed,
            Signal::Cancelled => SignalView::Cancelled,
            Signal::Event(t) => SignalView::Event(t),
            Signal::Ended => SignalView::Ended,
            Signal::Failed(e) => SignalView::Failed(e@),
        }
    }
}

/// What travels through the channel: an event, or the failure that ended the stream.
#[derive(Debug, Clone, PartialEq, Eq)]
pub enum Delivery<T> {
    Item(T),
    Failure(BridgeError),
}

/// The mathematical content of a [`Delivery`].
pub enum DeliveryView<T> {
    Item(T),
    Failure(ErrorView),
}

impl<T> View for Delivery<T> {
    type V = DeliveryView<T>;

    open spec fn view(&self) -> DeliveryView<T> {
        match *self {
            Delivery::Item(t) => DeliveryView::Item(t),
            Delivery::Failure(e) => DeliveryView::Failure(e@),
        }
    }
}

/// What the background task does after a wait.
#[derive(Debug, Clone, PartialEq, Eq)]
pub enum TaskAction<T> {
    /// Nothing to forward; wait again.
    Continue,
    /// Send the delivery into the channel, then wait again.
    Forward(Delivery<T>),
    /// Send the delivery into the channel, then leave the loop.
    ForwardThenExit(Delivery<T>),
    /// Leave the loop without sending.
    Exit,
}

/// The mathematical content of a [`TaskAction`].
pub enum TaskActionView<T> {
    Continue,
    Forward(DeliveryView<T>),
    ForwardThenExit(DeliveryView<T>),
    Exit,
}

impl<T> View for TaskAction<T> {
    type V = TaskActionView<T>;

    open spec fn view(&self) -> TaskActionView<T> {
        match *self {
            TaskAction::Continue => TaskActionView::Continue,
            TaskAction::Forward(d) => TaskActionView::Forward(d@),
            TaskAction::ForwardThenExit(d) => TaskActionView::ForwardThenExit(d@),
            TaskAction::Exit => TaskActionView::Exit,
        }
    }
}

/// The state the task is in after a wait resolved to `signal`.
///
/// Cancellation, the end of the upstream source and a failure each end the
/// loop. An event keeps a running task running. A signal that cannot arise in
/// the task's state leaves the state as it is, and an exited task stays exited.
pub open spec fn task_next<T>(state: TaskState, signal: SignalView<T>) -> TaskState {
    match state {
        TaskState::Idle => match signal {
            SignalView::Subscribed => TaskState::Running,
            SignalView::Cancelled => TaskState::Exited,
            SignalView::Failed(_) => TaskState::Exited,
            SignalView::Event(_) => TaskState::Idle,
            SignalView::Ended => TaskState::Idle,
        },
        TaskState::Running => match signal {
            SignalView::Subscribed => TaskState::Running,
            SignalView::Event(_) => TaskState::Running,
            SignalView::Cancelled => TaskState::Exited,
            SignalView::Ended => TaskState::Exited,
            SignalView::Failed(_) => TaskState::Exited,
        },
        TaskState::Exited => TaskState::Exited,
    }
}

/// What the task does after a wait resolved to `signal`.
///
/// Only a running task forwards events. A failure is forwarded as the last
/// delivery, whether it came while subscribing or while running. Cancellation
/// forwards nothing, whatever the upstream source still holds.
pub open spec fn task_action<T>(state: TaskState, signal: SignalView<T>) -> TaskActionView<T> {
    match state {
        TaskState::Idle => match signal {
            SignalView::Subscribed => TaskActionView::Continue,
            SignalView::Cancelled => TaskActionView::Exit,
            SignalView::Failed(e) => TaskActionView::ForwardThenExit(DeliveryView::Failure(e)),
            SignalView::Event(_) => TaskActionView::Continue,
            SignalView::Ended => TaskActionView::Continue,
        },
        TaskState::Running => match signal {
            SignalView::Subscribed => TaskActionView::Continue,
            SignalView::Event(t) => TaskActionView::Forward(DeliveryView::Item(t)),
            SignalView::Cancelled => TaskActionView::Exit,
            SignalView::Ended => TaskActionView::Exit,
            SignalView::Failed(e) => TaskActionView::ForwardThenExit(DeliveryView::Failure(e)),
        },
        TaskState::Exited => TaskActionView::Exit,
    }
}

/// The delivery that an action puts into the channel, if any.
pub open spec fn forwarded<T>(action: TaskActionView<T>) -> Option<DeliveryView<T>> {
    match action {
        TaskActionView::Forward(d) => Some(d),
        TaskActionView::ForwardThenExit(d) => Some(d),
        TaskActionView::Continue => None,
        TaskActionView::Exit => None,
    }
}

/// Decides what the background task does after one wait.
pub fn task_step<T>(state: TaskState, signal: Signal<T>) -> (next: (TaskState, TaskAction<T>))
    ensures
        next.0 == task_next(state, signal@),
        next.1@ == task_action(state, signal@),
{
    match state {
        TaskState::Idle => match signal {
            Signal::Subscribed => (TaskState::Running, TaskAction::Continue),
            Signal::Cancelled => (TaskState::Exited, TaskAction::Exit),
            Signal::Failed(e) => (
                TaskState::Exited,
                TaskAction::ForwardThenExit(Delivery::Failure(e)),
            ),
            Signal::Event(_) => (TaskState::Idle, TaskAction::Continue),
            Signal::Ended => (TaskState::Idle, TaskAction::Continue),
        },
        TaskState::Running => match signal {
            Signal::Subscribed => (TaskState::Running, TaskAction::Continue),
            Signal::Event(t) => (TaskState::Running, TaskAction::Forward(Delivery::Item(t))),
            Signal::Cancelled => (TaskState::Exited, TaskAction::Exit),
            Signal::Ended => (TaskState::Exited, TaskAction::Exit),
            Signal::Failed(e) => (
                TaskState::Exited,
                TaskAction::ForwardThenExit(Delivery::Failure(e)),
            ),
        },
        TaskState::Exited => (TaskState::Exited, TaskAction::Exit),
    }
}

/// The task's state after a send: a send that found the receiving end gone ends the loop.
pub open spec fn task_after_send(state: TaskState, accepted: bool) -> TaskState {
    if accepted {
        state
    } else {
        TaskState::Exited
    }
}

/// Decides whether the task goes on after a send into the channel.
///
/// `accepted` is false when the consumer's end of the channel was gone.
pub fn after_send(state: TaskState, accepted: bool) -> (next: TaskState)
    ensures
        next == task_after_send(state, accepted),
{
    if accepted {
        state
    } else {
        TaskState::Exited
    }
}

/// What a pull hands to the consumer.
#[derive(Debug, Clone, PartialEq, Eq)]
pub enum Pulled<T> {
    /// The next delivery, in the order the task forwarded it.
    Next(Delivery<T>),
    /// Nothing is buffered and the task is still alive: the consumer has to wait.
    Pending,
    /// End of sequence.
    End,
}

/// The mathematical content of a [`Pulled`].
pub enum PulledView<T> {
    Next(DeliveryView<T>),
    Pending,
    End,
}

impl<T> View for Pulled<T> {
    type V = PulledView<T>;

    open spec fn view(&self) -> PulledView<T> {
        match *self {
            Pulled::Next(d) => PulledView::Next(d@),
            Pulled::Pending => PulledView::Pending,
            Pulled::End => PulledView::End,
        }
    }
}

/// The consumer's side of a channel: remembers that the sequence has ended.
#[derive(Debug)]
pub struct Reader {
    pub ended: bool,
}

impl Reader {
    /// A reader that has not seen the end yet.
    pub fn new() -> (r: Reader)
        ensures
            !r.ended,
    {
        Reader { ended: false }
    }

    /// Whether a pull should receive from the channel at all.
    ///
    /// Once the end was seen the sequence stays ended: it is not restartable.
    pub fn wants_receive(&self) -> (b: bool)
        ensures
            b == !self.ended,
    {
        !self.ended
    }

    /// Turns what one receive returned into what the pull yields.
    ///
    /// `received` is `None` when the channel is closed and empty. After the end
    /// was seen, every pull yields the end, whatever is handed in.
    pub fn accept<T>(&mut self, received: Option<Delivery<T>>) -> (pulled: Pulled<T>)
        ensures
            old(self).ended ==> pulled@ == PulledView::<T>::End && final(self).ended,
            !old(self).ended ==> match received {
                Some(d) => pulled@ == PulledView::Next(d@) && !final(self).ended,
                None => pulled@ == PulledView::<T>::End && final(self).ended,
            },
    {
        if self.ended {
            return Pulled::End;
        }
        match received {
            Some(d) => Pulled::Next(d),
            None => {
                self.ended = true;
                Pulled::End
            },
        }
    }
}

/// A session: the handle it was opened with, its task, its channel, its consumer.
#[derive(Debug)]
pub struct StreamSession<H, T> {
    pub handle: H,
    pub task: TaskState,
    pub channel: VecDeque<Delivery<T>>,
    pub receiver: ReceiverState,
}

/// The mathematical content of a [`StreamSession`].
pub struct SessionView<H, T> {
    pub handle: H,
    pub task: TaskState,
    pub queue: Seq<DeliveryView<T>>,
    pub receiver: ReceiverState,
}

impl<H, T> View for StreamSession<H, T> {
    type V = SessionView<H, T>;

    open spec fn view(&self) -> SessionView<H, T> {
        SessionView {
            handle: self.handle,
            task: self.task,
            queue: self.channel@.map_values(|d: Delivery<T>| d@),
            receiver: self.receiver,
        }
    }
}

/// A session as it is opened: idle task, empty channel, open receiver.
pub open spec fn opened<H, T>(handle: H) -> SessionView<H, T> {
    SessionView {
        handle,
        task: TaskState::Idle,
        queue: Seq::empty(),
        receiver: ReceiverState::Open,
    }
}

/// The phase a session is in.
pub open spec fn phase_of<H, T>(s: SessionView<H, T>) -> Phase {
    if s.receiver != ReceiverState::Open {
        Phase::Closed
    } else {
        match s.task {
            TaskState::Idle => Phase::Idle,
            TaskState::Running => Phase::Running,
            TaskState::Exited => Phase::Draining,
        }
    }
}

/// The session after the task's wait resolved to `signal`.
///
/// What the task forwards is appended to the queue while the consumer's end
/// is there. A forward that finds it gone ends the task.
pub open spec fn offer_view<H, T>(s: SessionView<H, T>, signal: SignalView<T>) -> SessionView<
    H,
    T,
> {
    let action = task_action(s.task, signal);
    let next = task_next(s.task, signal);
    match forwarded(action) {
        Some(d) => if s.receiver == ReceiverState::Dropped {
            SessionView { task: TaskState::Exited, ..s }
        } else {
            SessionView { task: next, queue: s.queue.push(d), ..s }
        },
        None => SessionView { task: next, ..s },
    }
}

/// The session after one pull.
pub open spec fn pull_state<H, T>(s: SessionView<H, T>) -> SessionView<H, T> {
    if s.receiver != ReceiverState::Open {
        s
    } else if s.queue.len() > 0 {
        SessionView { queue: s.queue.subrange(1, s.queue.len() as int), ..s }
    } else if s.task == TaskState::Exited {
        SessionView { receiver: ReceiverState::Ended, ..s }
    } else {
        s
    }
}

/// What one pull yields.
pub open spec fn pull_output<H, T>(s: SessionView<H, T>) -> PulledView<T> {
    if s.receiver != ReceiverState::Open {
        PulledView::End
    } else if s.queue.len() > 0 {
        PulledView::Next(s.queue[0])
    } else if s.task == TaskState::Exited {
        PulledView::End
    } else {
        PulledView::Pending
    }
}

/// The session after the consumer gave up its end of the channel.
pub open spec fn drop_view<H, T>(s: SessionView<H, T>) -> SessionView<H, T> {
    if s.receiver == ReceiverState::Open {
        SessionView { receiver: ReceiverState::Dropped, queue: Seq::empty(), ..s }
    } else {
        s
    }
}

impl<H: Clone, T> StreamSession<H, T> {
    /// Opens a session on the registry's current handle.
    ///
    /// The session keeps its own clone of the handle. Without a current handle
    /// no session is opened and the caller is told to connect first.
    pub fn open(registry: &Registry<H>) -> (opened_session: Result<StreamSession<H, T>, BridgeError>)
        ensures
            opened_session is Ok <==> registry@ is Some,
            opened_session matches Ok(s) ==> {
                &&& cloned(registry@->0, s@.handle)
                &&& s@ == opened::<H, T>(s@.handle)
            },
            opened_session matches Err(e) ==> e@ == not_connected_view(),
    {
        match registry.require() {
            Ok(handle) => {
                let s = StreamSession {
                    handle,
                    task: TaskState::Idle,
                    channel: VecDeque::new(),
                    receiver: ReceiverState::Open,
                };
                assert(s@.queue =~= Seq::empty());
                Ok(s)
            },
            Err(e) => Err(e),
        }
    }

    /// The handle the session was opened with.
    pub fn handle(&self) -> (h: &H)
        ensures
            *h == self@.handle,
    {
        &self.handle
    }

    /// The phase the session is in.
    pub fn phase(&self) -> (p: Phase)
        ensures
            p == phase_of(self@),
    {
        match self.receiver {
            ReceiverState::Open => match self.task {
                TaskState::Idle => Phase::Idle,
                TaskState::Running => Phase::Running,
                TaskState::Exited => Phase::Draining,
            },
            ReceiverState::Ended => Phase::Closed,
            ReceiverState::Dropped => Phase::Closed,
        }
    }

    /// How many deliveries are buffered.
    pub fn buffered(&self) -> (n: usize)
        ensures
            n == self@.queue.len(),
    {
        self.channel.len()
    }

    /// Lets the task take one step: its wait resolved to `signal`.
    pub fn offer(&mut self, signal: Signal<T>)
        ensures
            final(self)@ == offer_view(old(self)@, signal@),
    {
        let (next, action) = task_step(self.task, signal);
        match action {
            TaskAction::Forward(d) => {
                self.send(d, next);
            },
            TaskAction::ForwardThenExit(d) => {
                self.send(d, next);
            },
            TaskAction::Continue => {
                self.task = next;
            },
            TaskAction::Exit => {
                self.task = next;
            },
        }
    }

    /// Sends one delivery into the channel on behalf of the task.
    fn send(&mut self, d: Delivery<T>, next: TaskState)
        ensures
            old(self).receiver == ReceiverState::Dropped ==> final(self)@ == (SessionView {
                task: TaskState::Exited,
                ..old(self)@
            }),
            old(self).receiver != ReceiverState::Dropped ==> final(self)@ == (SessionView {
                task: next,
                queue: old(self)@.queue.push(d@),
                ..old(self)@
            }),
    {
        let accepted = match self.receiver {
            ReceiverState::Dropped => false,
            _ => true,
        };
        if accepted {
            self.channel.push_back(d);
            assert(self@.queue =~= old(self)@.queue.push(d@));
        }
        self.task = after_send(next, accepted);
    }

    /// Takes the next delivery for the consumer.
    pub fn pull(&mut self) -> (pulled: Pulled<T>)
        ensures
            pulled@ == pull_output(old(self)@),
            final(self)@ == pull_state(old(self)@),
    {
        match self.receiver {
            ReceiverState::Open => {},
            _ => {
                return Pulled::End;
            },
        }
        match self.channel.pop_front() {
            Some(d) => {
                assert(self@.queue =~= old(self)@.queue.subrange(
                    1,
                    old(self)@.queue.len() as int,
                ));
                Pulled::Next(d)
            },
            None => {
                assert(self@.queue =~= old(self)@.queue);
                match self.task {
                    TaskState::Exited => {
                        self.receiver = ReceiverState::Ended;
                        Pulled::End
                    },
                    _ => Pulled::Pending,
                }
            },
        }
    }

    /// The consumer gives up its end of the channel; what was buffered is lost.
    pub fn drop_receiver(&mut self)
        ensures
            final(self)@ == drop_view(old(self)@),
    {
        match self.receiver {
            ReceiverState::Open => {
                self.receiver = ReceiverState::Dropped;
                self.channel.clear();
                assert(self@.queue =~= Seq::empty());
            },
            _ => {},
        }
    }
}

} // verus!
