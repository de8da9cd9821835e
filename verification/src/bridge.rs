//! The bridge to asynchronous consumers: a bounded tokio channel that drops
//! what does not fit.

use vstd::prelude::*;

use crate::channel::{halves, Answer, Inbox, Offered, Outbox};
use crate::config::IpcConfig;
use crate::counters::{Counter, CounterKey, ReceiverMetrics};

verus! {

/// What follows an offer.
#[derive(Debug, Clone, Copy, PartialEq, Eq, Structural)]
pub enum BridgeStep {
    /// Nothing: the message is on its way.
    Delivered,
    /// Increment the counter: the message is dropped.
    Dropped {
        /// The counter to increment.
        count: Counter,
    },
    /// Cancel the receiver: nobody reads its messages any more.
    Cancel,
}

/// What follows an offer: nothing, or a drop that is counted, or the end.
pub open spec fn bridge_step<T>(offered: Offered<T>) -> BridgeStep {
    match offered {
        Offered::Accepted => BridgeStep::Delivered,
        Offered::Full(_) => BridgeStep::Dropped { count: Counter::ChannelFull },
        Offered::Closed(_) => BridgeStep::Cancel,
    }
}

/// What follows an offer.
pub fn after_offer<T>(offered: Offered<T>) -> (r: BridgeStep)
    ensures
        r == bridge_step(offered),
        match offered {
            Offered::Accepted => r is Delivered,
            Offered::Full(_) => r == (BridgeStep::Dropped { count: Counter::ChannelFull }),
            Offered::Closed(_) => r is Cancel,
        },
{
    match offered {
        Offered::Accepted => BridgeStep::Delivered,
        Offered::Full(_) => BridgeStep::Dropped { count: Counter::ChannelFull },
        Offered::Closed(_) => BridgeStep::Cancel,
    }
}

/// The answer of the channel that a step goes by.
pub open spec fn answer_behind(step: BridgeStep) -> Answer {
    match step {
        BridgeStep::Delivered => Answer::Accepted,
        BridgeStep::Dropped { .. } => Answer::Full,
        BridgeStep::Cancel => Answer::Closed,
    }
}

/// The receiver's end of the channel to an asynchronous consumer.
#[verifier::reject_recursive_types(T)]
pub struct Bridge<T> {
    outbox: Outbox<T>,
    channel_full: CounterKey,
}

impl<T> Bridge<T> {
    /// The half of the channel that the bridge sends into.
    pub closed spec fn outbox_spec(self) -> Outbox<T> {
        self.outbox
    }

    /// Which channel the bridge leads into.
    pub open spec fn channel_id(self) -> int {
        self.outbox_spec().channel_id()
    }

    /// How many messages the channel holds.
    pub open spec fn capacity_spec(self) -> usize {
        self.outbox_spec().bound_spec()
    }

    /// The messages that the channel took so far, in order.
    pub open spec fn taken_spec(self) -> Seq<T> {
        self.outbox_spec().taken_spec()
    }

    /// Whether the consumer was found to be gone.
    pub open spec fn closed_spec(self) -> bool {
        self.outbox_spec().closed_spec()
    }

    /// Every message that was offered so far, with the channel's answer, in
    /// order.
    pub open spec fn log_spec(self) -> Seq<(T, Answer)> {
        self.outbox_spec().log_spec()
    }

    /// The counter of messages dropped because it was full.
    pub closed spec fn channel_full_spec(self) -> CounterKey {
        self.channel_full
    }

    /// The counter of messages dropped because it was full.
    pub fn channel_full(&self) -> (r: &CounterKey)
        ensures
            *r == self.channel_full_spec(),
    {
        &self.channel_full
    }

    /// Whether this bridge is new and leads to `inbox`, over a channel for the
    /// messages of `channel` that holds `capacity` of them.
    pub open spec fn leads_to(self, inbox: Inbox<T>, channel: Seq<char>, capacity: usize) -> bool {
        &&& self.channel_id() == inbox.channel_id()
        &&& self.capacity_spec() == capacity
        &&& inbox.bound_spec() == capacity
        &&& self.taken_spec() == Seq::<T>::empty()
        &&& !self.closed_spec()
        &&& self.log_spec() == Seq::<(T, Answer)>::empty()
        &&& self.channel_full_spec().is_for(Counter::ChannelFull, channel)
    }

    /// Opens a channel for the messages of `channel` that holds as many as a
    /// subscriber's queue does.
    pub fn open(channel: &str, cfg: &IpcConfig) -> (r: (Self, Inbox<T>))
        requires
            0 < cfg.buffer_size <= usize::MAX / 8,
        ensures
            r.0.leads_to(r.1, channel@, cfg.buffer_size),
    {
        let (outbox, inbox) = halves(cfg.buffer_size);
        let metrics = ReceiverMetrics::new(channel);
        (Bridge { outbox, channel_full: metrics.channel_full }, inbox)
    }

    /// Offers a message to the consumer without waiting, and says what follows.
    /// A message that is delivered is behind all that were delivered before; no
    /// message is dropped before the channel took as many as it holds; and a
    /// consumer that is gone stays so.
    pub fn forward(&mut self, message: T) -> (r: BridgeStep)
        ensures
            Bridge::forwarded(*old(self), *final(self), message, r),
    {
        let offered = self.outbox.offer(message);
        after_offer(offered)
    }

    /// What one `forward` of `message` does to a bridge, where `step` is what it
    /// says. The message is offered once, and the step goes by the answer. A
    /// message that is delivered is behind all that were delivered
    /// before, and no other goes into the channel. A drop is counted, and comes
    /// only once the channel took as many messages as it holds. The receiver is
    /// cancelled exactly if the consumer is found to be gone, and then it stays
    /// so.
    pub open spec fn forwarded(before: Self, after: Self, message: T, step: BridgeStep) -> bool {
        &&& after.log_spec() == before.log_spec().push((message, answer_behind(step)))
        &&& after.taken_spec() == if step is Delivered {
            before.taken_spec().push(message)
        } else {
            before.taken_spec()
        }
        &&& step is Dropped ==> step == (BridgeStep::Dropped { count: Counter::ChannelFull })
        &&& step is Dropped ==> before.taken_spec().len() >= before.capacity_spec()
        &&& before.closed_spec() ==> step is Cancel
        &&& after.closed_spec() == (before.closed_spec() || step is Cancel)
        &&& after.channel_id() == before.channel_id()
        &&& after.capacity_spec() == before.capacity_spec()
        &&& after.channel_full_spec() == before.channel_full_spec()
    }

    /// Whether `bridges` are the states of one bridge over which `messages` are
    /// forwarded, one after the other, and `steps` is what that says.
    pub open spec fn forwards(
        bridges: Seq<Self>,
        messages: Seq<T>,
        steps: Seq<BridgeStep>,
    ) -> bool {
        &&& bridges.len() == messages.len() + 1
        &&& steps.len() == messages.len()
        &&& forall|i: int|
            0 <= i < messages.len() ==> Bridge::forwarded(
                bridges[i],
                bridges[i + 1],
                #[trigger] messages[i],
                steps[i],
            )
    }
}

/// Those of `messages` whose step says that they are delivered, in order.
pub open spec fn delivered_of<T>(messages: Seq<T>, steps: Seq<BridgeStep>, n: nat) -> Seq<T>
    decreases n,
{
    if n == 0 {
        seq![]
    } else {
        let before = delivered_of(messages, steps, (n - 1) as nat);
        if steps[n - 1] is Delivered {
            before.push(messages[n - 1])
        } else {
            before
        }
    }
}

/// A channel takes exactly the messages that are delivered, in order, behind
/// what it took before. It stays the same channel with the same capacity, and
/// the drops stay those of the same counter.
pub proof fn law_channel_takes_what_is_delivered<T>(
    bridges: Seq<Bridge<T>>,
    messages: Seq<T>,
    steps: Seq<BridgeStep>,
    n: nat,
)
    requires
        Bridge::forwards(bridges, messages, steps),
        n <= messages.len(),
    ensures
        bridges[n as int].taken_spec() == bridges[0].taken_spec() + delivered_of(
            messages,
            steps,
            n,
        ),
        delivered_of(messages, steps, n).len() <= n,
        bridges[n as int].channel_id() == bridges[0].channel_id(),
        bridges[n as int].capacity_spec() == bridges[0].capacity_spec(),
        bridges[n as int].channel_full_spec() == bridges[0].channel_full_spec(),
    decreases n,
{
    if n > 0 {
        law_channel_takes_what_is_delivered(bridges, messages, steps, (n - 1) as nat);
        let message = messages[n - 1];
        assert(Bridge::forwarded(bridges[n - 1], bridges[n as int], message, steps[n - 1]));
        assert(bridges[n as int].taken_spec() =~= bridges[0].taken_spec() + delivered_of(
            messages,
            steps,
            n,
        ));
    } else {
        assert(bridges[0].taken_spec() =~= bridges[0].taken_spec() + delivered_of(
            messages,
            steps,
            0,
        ));
    }
}

/// A full channel costs the message that does not fit and no more: each drop is
/// one of the counter of full channels, and neither a drop nor a delivery
/// cancels the receiver. It is cancelled exactly if the consumer is found to be
/// gone, and from then on every message says so.
pub proof fn law_full_channel_only_drops<T>(
    bridges: Seq<Bridge<T>>,
    messages: Seq<T>,
    steps: Seq<BridgeStep>,
    n: nat,
)
    requires
        Bridge::forwards(bridges, messages, steps),
        n <= messages.len(),
        !bridges[0].closed_spec(),
    ensures
        forall|i: int|
            0 <= i < n && (#[trigger] steps[i]) is Dropped ==> steps[i] == (BridgeStep::Dropped {
                count: Counter::ChannelFull,
            }),
        bridges[n as int].closed_spec() == exists|i: int|
            0 <= i < n && (#[trigger] steps[i]) is Cancel,
        forall|i: int, j: int|
            0 <= i <= j < n && (#[trigger] steps[i]) is Cancel ==> (#[trigger] steps[j]) is Cancel,
    decreases n,
{
    if n > 0 {
        let m = (n - 1) as nat;
        law_full_channel_only_drops(bridges, messages, steps, m);
        let message = messages[n - 1];
        assert(Bridge::forwarded(bridges[n - 1], bridges[n as int], message, steps[n - 1]));
        if steps[n - 1] is Cancel {
            assert(exists|i: int| 0 <= i < n && (#[trigger] steps[i]) is Cancel);
        }
        if bridges[m as int].closed_spec() {
            let i = choose|i: int| 0 <= i < m && (#[trigger] steps[i]) is Cancel;
            assert(0 <= i < n && steps[i] is Cancel);
        }
    }
}

/// The first messages over a new bridge, as many as the channel holds, are never
/// dropped, whether the consumer reads or not. As long as it is there they are
/// all delivered, and the channel takes them in order.
pub proof fn law_first_messages_are_never_dropped<T>(
    bridges: Seq<Bridge<T>>,
    messages: Seq<T>,
    steps: Seq<BridgeStep>,
    n: nat,
)
    requires
        Bridge::forwards(bridges, messages, steps),
        bridges[0].taken_spec() == Seq::<T>::empty(),
        n <= messages.len(),
        n <= bridges[0].capacity_spec(),
    ensures
        forall|i: int| 0 <= i < n ==> !((#[trigger] steps[i]) is Dropped),
        (forall|i: int| 0 <= i < n ==> !((#[trigger] steps[i]) is Cancel))
            ==> bridges[n as int].taken_spec() == messages.take(n as int),
    decreases n,
{
    if n > 0 {
        let m = (n - 1) as nat;
        law_first_messages_are_never_dropped(bridges, messages, steps, m);
        law_channel_takes_what_is_delivered(bridges, messages, steps, m);
        let message = messages[n - 1];
        assert(Bridge::forwarded(bridges[n - 1], bridges[n as int], message, steps[n - 1]));
        assert(messages.take(m as int).push(message) =~= messages.take(n as int));
    } else {
        assert(messages.take(0) =~= seq![]);
    }
}

/// A consumer that is there and does not read is left with the first messages,
/// as many as its channel holds, in order: those are delivered, and each message
/// after them is dropped and counted. That it does not read is said by the
/// premise that a message is delivered only where the channel took fewer than it
/// holds.
pub proof fn law_unread_channel_keeps_the_first_messages<T>(
    bridges: Seq<Bridge<T>>,
    messages: Seq<T>,
    steps: Seq<BridgeStep>,
    n: nat,
)
    requires
        Bridge::forwards(bridges, messages, steps),
        bridges[0].taken_spec() == Seq::<T>::empty(),
        n <= messages.len(),
        forall|i: int|
            0 <= i < n ==> {
                &&& !((#[trigger] steps[i]) is Cancel)
                &&& steps[i] is Delivered ==> bridges[i].taken_spec().len()
                    < bridges[i].capacity_spec()
            },
    ensures
        bridges[n as int].taken_spec() == messages.take(
            if n < bridges[0].capacity_spec() {
                n as int
            } else {
                bridges[0].capacity_spec() as int
            },
        ),
        forall|i: int|
            0 <= i < n ==> (#[trigger] steps[i]) == if i < bridges[0].capacity_spec() {
                BridgeStep::Delivered
            } else {
                BridgeStep::Dropped { count: Counter::ChannelFull }
            },
    decreases n,
{
    if n > 0 {
        let m = (n - 1) as nat;
        law_unread_channel_keeps_the_first_messages(bridges, messages, steps, m);
        law_channel_takes_what_is_delivered(bridges, messages, steps, m);
        let message = messages[n - 1];
        assert(Bridge::forwarded(bridges[n - 1], bridges[n as int], message, steps[n - 1]));
        assert(!(steps[n - 1] is Cancel));
        assert(messages.take(m as int).push(message) =~= messages.take(n as int));
    } else {
        assert(messages.take(0) =~= seq![]);
    }
}

/// A message is delivered exactly if the channel took it, dropped exactly if the
/// channel is full, which counts as one of the full channels, and the receiver
/// is cancelled exactly if the channel is closed.
pub proof fn law_step_goes_by_the_answer<T>(offered: Offered<T>)
    ensures
        bridge_step(offered) is Delivered <==> offered is Accepted,
        bridge_step(offered) is Dropped <==> offered is Full,
        bridge_step(offered) is Cancel <==> offered is Closed,
        bridge_step(offered) matches BridgeStep::Dropped { count } ==> count
            == Counter::ChannelFull,
        answer_behind(bridge_step(offered)) == offered.answer(),
{
}

/// Every message is offered to the channel, once each and in order, whatever
/// became of those before it: a drop or a cancellation is always the channel's
/// own answer to that very message.
pub proof fn law_every_message_is_offered_once<T>(
    bridges: Seq<Bridge<T>>,
    messages: Seq<T>,
    steps: Seq<BridgeStep>,
    n: nat,
)
    requires
        Bridge::forwards(bridges, messages, steps),
        n <= messages.len(),
        bridges[0].log_spec() == Seq::<(T, Answer)>::empty(),
    ensures
        bridges[n as int].log_spec().len() == n,
        forall|i: int|
            #![trigger bridges[n as int].log_spec()[i]]
            0 <= i < n ==> {
                let (message, answer) = bridges[n as int].log_spec()[i];
                &&& message == messages[i]
                &&& answer is Accepted <==> steps[i] is Delivered
                &&& answer is Full <==> steps[i] is Dropped
                &&& answer is Closed <==> steps[i] is Cancel
            },
    decreases n,
{
    if n > 0 {
        let m = (n - 1) as nat;
        law_every_message_is_offered_once(bridges, messages, steps, m);
        let message = messages[n - 1];
        assert(Bridge::forwarded(bridges[n - 1], bridges[n as int], message, steps[n - 1]));
        assert forall|i: int|
            #![trigger bridges[n as int].log_spec()[i]]
            0 <= i < n implies {
                let (message, answer) = bridges[n as int].log_spec()[i];
                &&& message == messages[i]
                &&& answer is Accepted <==> steps[i] is Delivered
                &&& answer is Full <==> steps[i] is Dropped
                &&& answer is Closed <==> steps[i] is Cancel
            } by {
            if i < m {
                assert(bridges[n as int].log_spec()[i] == bridges[m as int].log_spec()[i]);
            }
        }
    }
}

/// A new bridge and its inbox are the two ends of one open channel, which holds
/// as many messages as asked for, took none and was offered none; drops count on
/// the channel that it was opened for.
pub proof fn law_bridge_leads_to_its_inbox<T>(
    bridge: Bridge<T>,
    inbox: Inbox<T>,
    channel: Seq<char>,
    capacity: usize,
)
    requires
        bridge.leads_to(inbox, channel, capacity),
    ensures
        bridge.outbox_spec().channel_id() == inbox.channel_id(),
        bridge.outbox_spec().bound_spec() == capacity,
        inbox.bound_spec() == capacity,
        bridge.outbox_spec().taken_spec().len() == 0,
        bridge.outbox_spec().log_spec().len() == 0,
        !bridge.outbox_spec().closed_spec(),
        bridge.channel_full_spec().counter == Counter::ChannelFull,
        bridge.channel_full_spec().channel@ == channel,
{
}

} // verus!
