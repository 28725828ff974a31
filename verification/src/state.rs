//! Application state coordinator: the current lifecycle state and the
//! subscribers that are told of every change.

use vstd::prelude::*;

verus! {

/// Lifecycle of the process. `Quit` is terminal.
#[derive(Clone, Copy, Debug, PartialEq, Eq, Structural)]
pub enum ApplicationState {
    Running,
    Quit,
}

/// `crossbeam::channel::Sender`: the sending end of a plain-thread
/// subscriber's channel. Nothing inside it is looked at.
#[verifier::external_type_specification]
#[verifier::external_body]
#[verifier::reject_recursive_types(T)]
pub struct ExSyncSender<T>(crossbeam::channel::Sender<T>);

/// `crossbeam::channel::Receiver`: the receiving end, handed to the
/// subscriber.
#[verifier::external_type_specification]
#[verifier::external_body]
#[verifier::reject_recursive_types(T)]
pub struct ExSyncReceiver<T>(crossbeam::channel::Receiver<T>);

/// `crossbeam::channel::SendError`: what `send` returns when the channel
/// is disconnected.
#[verifier::external_type_specification]
#[verifier::external_body]
#[verifier::reject_recursive_types(T)]
pub struct ExSyncSendError<T>(crossbeam::channel::SendError<T>);

/// `tokio::sync::mpsc::Sender`: the sending end of a cooperative
/// subscriber's channel. Nothing inside it is looked at.
#[verifier::external_type_specification]
#[verifier::external_body]
#[verifier::reject_recursive_types(T)]
pub struct ExAsyncSender<T>(tokio::sync::mpsc::Sender<T>);

/// `tokio::sync::mpsc::Receiver`: the receiving end, handed to the
/// subscriber.
#[verifier::external_type_specification]
#[verifier::external_body]
#[verifier::reject_recursive_types(T)]
pub struct ExAsyncReceiver<T>(tokio::sync::mpsc::Receiver<T>);

/// `tokio::sync::Notify`: wakes those that wait for a change.
#[verifier::external_type_specification]
#[verifier::external_body]
pub struct ExNotify(tokio::sync::Notify);

/// `tokio::sync::futures::OwnedNotified`: the future of one who waits.
#[verifier::external_type_specification]
#[verifier::external_body]
pub struct ExOwnedNotified(tokio::sync::futures::OwnedNotified);

/// `crossbeam::channel::Sender::send`: blocks until the message is in the
/// channel or the channel is disconnected, and says which of the two it was.
/// Nothing is claimed of that.
pub assume_specification<T>[ crossbeam::channel::Sender::<T>::send ](
    sender: &crossbeam::channel::Sender<T>,
    msg: T,
) -> (sent: Result<(), crossbeam::channel::SendError<T>>)
;

/// `tokio::sync::Notify::new`.
pub assume_specification[ tokio::sync::Notify::new ]() -> (notify: tokio::sync::Notify)
;

/// `tokio::sync::Notify::notify_waiters`: wakes every task that waits now.
pub assume_specification[ tokio::sync::Notify::notify_waiters ](notify: &tokio::sync::Notify)
;

/// The `Notify` that a waiting handle was made on: the one whose wakes
/// complete it.
pub uninterp spec fn waits_on(handle: tokio::sync::futures::OwnedNotified) -> std::sync::Arc<
    tokio::sync::Notify,
>;

/// `tokio::sync::Notify::notified_owned`: a future that completes at the
/// next wake of the `Notify` it is called on, which it keeps.
pub assume_specification[ tokio::sync::Notify::notified_owned ](
    notify: std::sync::Arc<tokio::sync::Notify>,
) -> (waiting: tokio::sync::futures::OwnedNotified)
    ensures
        waits_on(waiting) == notify,
;

/// How many messages a subscriber's channel holds.
pub const SUBSCRIBER_CAPACITY: usize = 1;

/// The sending end of the channel that `receiver` is the receiving end of.
pub uninterp spec fn plain_sender(
    receiver: crossbeam::channel::Receiver<ApplicationState>,
) -> crossbeam::channel::Sender<ApplicationState>;

/// The sending end of the channel that `receiver` is the receiving end of.
pub uninterp spec fn cooperative_sender(
    receiver: tokio::sync::mpsc::Receiver<ApplicationState>,
) -> tokio::sync::mpsc::Sender<ApplicationState>;

/// `crossbeam::channel::bounded`: a new channel that holds at most `cap`
/// messages; the two ends returned are those of that one channel. It panics
/// on a capacity that cannot be allocated, which one slot always can.
#[verifier::external_body]
fn plain_channel(cap: usize) -> (ends: (
    crossbeam::channel::Sender<ApplicationState>,
    crossbeam::channel::Receiver<ApplicationState>,
))
    requires
        cap <= 1,
    ensures
        plain_sender(ends.1) == ends.0,
{
    crossbeam::channel::bounded(cap)
}

/// `tokio::sync::mpsc::channel`: a new channel that holds at most `buffer`
/// messages; the two ends returned are those of that one channel. It panics
/// on a capacity of zero or above the semaphore's limit.
#[verifier::external_body]
fn cooperative_channel(buffer: usize) -> (ends: (
    tokio::sync::mpsc::Sender<ApplicationState>,
    tokio::sync::mpsc::Receiver<ApplicationState>,
))
    requires
        0 < buffer <= usize::MAX / 8,
    ensures
        cooperative_sender(ends.1) == ends.0,
{
    tokio::sync::mpsc::channel(buffer)
}

/// The state that holds after a change to `requested` is asked for while
/// `current` holds: `Quit` is never left.
pub open spec fn settled(current: ApplicationState, requested: ApplicationState) -> ApplicationState {
    if current == ApplicationState::Quit {
        ApplicationState::Quit
    } else {
        requested
    }
}

/// Whether the subscriber at `index` stays after a broadcast: it goes only
/// when its delivery is known to have failed.
pub open spec fn stays(delivered: Seq<bool>, index: int) -> bool {
    !(0 <= index < delivered.len() && !delivered[index])
}

/// The subscribers that stay after a broadcast, in registration order.
pub open spec fn retained<T>(subscribers: Seq<T>, delivered: Seq<bool>) -> Seq<T>
    decreases subscribers.len(),
{
    if subscribers.len() == 0 {
        subscribers
    } else if stays(delivered, subscribers.len() - 1) {
        retained(subscribers.drop_last(), delivered).push(subscribers.last())
    } else {
        retained(subscribers.drop_last(), delivered)
    }
}

/// How many of the first `count` subscribers stay.
pub open spec fn stay_count(delivered: Seq<bool>, count: nat) -> nat
    decreases count,
{
    if count == 0 {
        0
    } else if stays(delivered, count - 1) {
        stay_count(delivered, (count - 1) as nat) + 1
    } else {
        stay_count(delivered, (count - 1) as nat)
    }
}

/// A broadcast drops exactly the subscribers whose delivery failed: each of
/// the others stays, and those that stay keep their order.
pub proof fn lemma_retained_keeps_the_others<T>(subscribers: Seq<T>, delivered: Seq<bool>)
    ensures
        retained(subscribers, delivered).len() == stay_count(delivered, subscribers.len()),
        forall|i: int|
            0 <= i < subscribers.len() && #[trigger] stays(delivered, i) ==> {
                &&& stay_count(delivered, i as nat) < retained(subscribers, delivered).len()
                &&& retained(subscribers, delivered)[stay_count(delivered, i as nat) as int]
                    == subscribers[i]
            },
    decreases subscribers.len(),
{
    if subscribers.len() > 0 {
        let front = subscribers.drop_last();
        lemma_retained_keeps_the_others(front, delivered);
        assert forall|i: int| 0 <= i < subscribers.len() && #[trigger] stays(delivered, i) implies {
            &&& stay_count(delivered, i as nat) < retained(subscribers, delivered).len()
            &&& retained(subscribers, delivered)[stay_count(delivered, i as nat) as int]
                == subscribers[i]
        } by {
            if i < front.len() {
                assert(front[i] == subscribers[i]);
            }
        }
    }
}

/// Removes from `subscribers` those whose delivery failed.
pub fn retain_delivered<T>(subscribers: &mut Vec<T>, delivered: &Vec<bool>)
    ensures
        final(subscribers)@ == retained(old(subscribers)@, delivered@),
{
    let ghost before = subscribers@;
    let total: usize = subscribers.len();
    let mut seen: usize = 0;
    let mut kept: usize = 0;
    while seen < total
        invariant
            total == before.len(),
            kept <= seen <= total,
            subscribers@.len() == kept + (total - seen),
            subscribers@.subrange(0, kept as int) == retained(
                before.subrange(0, seen as int),
                delivered@,
            ),
            subscribers@.subrange(kept as int, subscribers@.len() as int) == before.subrange(
                seen as int,
                total as int,
            ),
        decreases total - seen,
    {
        let ghost prefix = before.subrange(0, seen as int + 1);
        assert(prefix.drop_last() == before.subrange(0, seen as int));
        assert(subscribers@[kept as int] == subscribers@.subrange(
            kept as int,
            subscribers@.len() as int,
        )[0]);
        let ghost tail = subscribers@.subrange(kept as int, subscribers@.len() as int);
        if seen < delivered.len() && !delivered[seen] {
            let _ = subscribers.remove(kept);
        } else {
            kept += 1;
        }
        assert(subscribers@.subrange(kept as int, subscribers@.len() as int)
            == tail.drop_first());
        seen += 1;
    }
    assert(before.subrange(0, total as int) == before);
}

/// The lifecycle state together with the subscribers that are told of each
/// change. One owner mutates it; sharing it between threads is the caller's
/// business.
pub struct ApplicationStateManager {
    state: ApplicationState,
    notify: std::sync::Arc<tokio::sync::Notify>,
    subscribers: Vec<tokio::sync::mpsc::Sender<ApplicationState>>,
    subscribers_sync: Vec<crossbeam::channel::Sender<ApplicationState>>,
}

impl ApplicationStateManager {
    /// The state that `read` returns.
    pub closed spec fn current(&self) -> ApplicationState {
        self.state
    }

    /// The cooperative subscribers, in registration order.
    pub closed spec fn cooperative(&self) -> Seq<tokio::sync::mpsc::Sender<ApplicationState>> {
        self.subscribers@
    }

    /// What `change` wakes: whoever waits on it is woken by the next change.
    pub closed spec fn waiters(&self) -> std::sync::Arc<tokio::sync::Notify> {
        self.notify
    }

    /// The plain-thread subscribers, in registration order.
    pub closed spec fn plain(&self) -> Seq<crossbeam::channel::Sender<ApplicationState>> {
        self.subscribers_sync@
    }

    /// A coordinator in state `Running` that nobody has subscribed to.
    pub fn new() -> (manager: Self)
        ensures
            manager.current() == ApplicationState::Running,
            manager.cooperative().len() == 0,
            manager.plain().len() == 0,
    {
        ApplicationStateManager {
            state: ApplicationState::Running,
            notify: std::sync::Arc::new(tokio::sync::Notify::new()),
            subscribers: Vec::new(),
            subscribers_sync: Vec::new(),
        }
    }

    /// The current state.
    pub fn read(&self) -> (state: ApplicationState)
        ensures
            state == self.current(),
    {
        self.state
    }

    /// Moves to `state`, unless `Quit` was reached before, and wakes whoever
    /// waits for a change. Returns the state that now holds: the one to
    /// deliver to the subscribers.
    pub fn change(&mut self, state: ApplicationState) -> (now: ApplicationState)
        ensures
            now == settled(old(self).current(), state),
            final(self).current() == now,
            state == ApplicationState::Quit ==> final(self).current() == ApplicationState::Quit,
            old(self).current() == ApplicationState::Quit ==> final(self).current()
                == ApplicationState::Quit,
            final(self).cooperative() == old(self).cooperative(),
            final(self).plain() == old(self).plain(),
            final(self).waiters() == old(self).waiters(),
    {
        if self.state != ApplicationState::Quit {
            self.state = state;
        }
        self.notify.notify_waiters();
        self.state
    }

    /// A handle that completes at the next call of `change` after this one
    /// of `wait_for_change`; changes made before are not replayed. The handle
    /// waits on what this coordinator's `change` wakes.
    pub fn wait_for_change(&self) -> (waiting: tokio::sync::futures::OwnedNotified)
        ensures
            waits_on(waiting) == self.waiters(),
    {
        self.notify.clone().notified_owned()
    }

    /// Registers a cooperative subscriber behind those that are there and
    /// returns the end it receives on: the receiving end of the channel whose
    /// sending end was registered.
    pub fn subscribe(&mut self) -> (receiver: tokio::sync::mpsc::Receiver<ApplicationState>)
        ensures
            final(self).cooperative() == old(self).cooperative().push(
                cooperative_sender(receiver),
            ),
            final(self).plain() == old(self).plain(),
            final(self).current() == old(self).current(),
            final(self).waiters() == old(self).waiters(),
    {
        let (tx, rx) = cooperative_channel(SUBSCRIBER_CAPACITY);
        self.subscribers.push(tx);
        rx
    }

    /// Registers a plain-thread subscriber behind those that are there and
    /// returns the end it receives on: the receiving end of the channel whose
    /// sending end was registered.
    pub fn subscribe_sync(&mut self) -> (receiver: crossbeam::channel::Receiver<ApplicationState>)
        ensures
            final(self).plain() == old(self).plain().push(plain_sender(receiver)),
            final(self).cooperative() == old(self).cooperative(),
            final(self).current() == old(self).current(),
            final(self).waiters() == old(self).waiters(),
    {
        let (tx, rx) = plain_channel(SUBSCRIBER_CAPACITY);
        self.subscribers_sync.push(tx);
        rx
    }

    /// The sending ends of the cooperative subscribers, for the caller to
    /// deliver on: a delivery may suspend, which only the caller can do.
    pub fn cooperative_subscribers(&self) -> (senders: &Vec<
        tokio::sync::mpsc::Sender<ApplicationState>,
    >)
        ensures
            senders@ == self.cooperative(),
    {
        &self.subscribers
    }

    /// Drops the cooperative subscribers whose delivery failed.
    pub fn prune(&mut self, delivered: &Vec<bool>)
        ensures
            final(self).cooperative() == retained(old(self).cooperative(), delivered@),
            final(self).plain() == old(self).plain(),
            final(self).current() == old(self).current(),
            final(self).waiters() == old(self).waiters(),
    {
        retain_delivered(&mut self.subscribers, delivered);
    }

    /// Delivers `state` once to each plain-thread subscriber, in registration
    /// order, and drops those that are gone. Returns, for each subscriber
    /// that was there, whether it got the message.
    pub fn broadcast_sync(&mut self, state: ApplicationState) -> (delivered: Vec<bool>)
        ensures
            delivered@.len() == old(self).plain().len(),
            final(self).plain() == retained(old(self).plain(), delivered@),
            final(self).cooperative() == old(self).cooperative(),
            final(self).current() == old(self).current(),
            final(self).waiters() == old(self).waiters(),
    {
        let mut delivered: Vec<bool> = Vec::new();
        let mut index: usize = 0;
        while index < self.subscribers_sync.len()
            invariant
                index <= self.subscribers_sync@.len(),
                delivered@.len() == index,
                self.subscribers_sync@ == old(self).subscribers_sync@,
                self.subscribers@ == old(self).subscribers@,
                self.state == old(self).state,
                self.notify == old(self).notify,
            decreases self.subscribers_sync@.len() - index,
        {
            let sent = self.subscribers_sync[index].send(state);
            delivered.push(sent.is_ok());
            index += 1;
        }
        retain_delivered(&mut self.subscribers_sync, &delivered);
        delivered
    }
}

} // verus!
