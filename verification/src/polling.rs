//! What a receiver's thread does once it is set up: it polls until it is
//! cancelled, draining the queue each time, and busy-spins when it is empty.

use vstd::prelude::*;

use crate::counters::{Counter, CounterKey};
use crate::text::join4;

verus! {

/// What one attempt to take a message out of the queue gave.
#[derive(Debug)]
pub enum ReceiveOutcome<M> {
    /// A message.
    Message(M),
    /// Nothing: the queue is empty.
    Empty,
    /// Nothing, for the reason given in words.
    Failed(String),
}

/// A drain of the queue: messages are taken out until there is none.
#[derive(Debug, Clone, Copy, PartialEq, Eq, Structural)]
pub struct Drain {
    /// Whether a message was taken out so far.
    pub got: bool,
}

/// What follows an attempt to take a message out of the queue.
#[derive(Debug)]
pub enum DrainStep<M> {
    /// Increment the counter, then hand the message to the handler, then try
    /// again.
    Deliver {
        /// The counter to increment.
        count: Counter,
        /// The message.
        message: M,
        /// The drain that goes on.
        drain: Drain,
    },
    /// The drain is over.
    Done {
        /// Whether a message was taken out.
        got: bool,
        /// What is worth a warning, if anything is.
        warning: Option<String>,
    },
}

/// A step of a drain, as far as it can be seen from outside.
#[verifier::ext_equal]
pub struct DrainEffect<M> {
    /// The message that is handed to the handler, if any.
    pub delivered: Option<M>,
    /// The counter that is incremented, if any.
    pub counted: Option<Counter>,
    /// Whether a message was taken out so far.
    pub got: bool,
    /// Whether the drain is over.
    pub done: bool,
    /// The warning, if any.
    pub warning: Option<Seq<char>>,
}

impl<M> DrainStep<M> {
    /// What can be seen of this step.
    pub open spec fn effect(self) -> DrainEffect<M> {
        match self {
            DrainStep::Deliver { count, message, drain } => DrainEffect {
                delivered: Some(message),
                counted: Some(count),
                got: drain.got,
                done: false,
                warning: None,
            },
            DrainStep::Done { got, warning } => DrainEffect {
                delivered: None,
                counted: None,
                got,
                done: true,
                warning: match warning {
                    Some(text) => Some(text@),
                    None => None,
                },
            },
        }
    }
}

/// Something that happens in a drain.
pub enum DrainEvent<M> {
    /// An attempt to take a message out of the queue.
    Attempted,
    /// A counter is incremented.
    Counted(Counter),
    /// A message is handed to the handler, which returns.
    Delivered(M),
    /// A warning is given.
    Warned(Seq<char>),
}

impl<M> DrainStep<M> {
    /// What happens in this step, in order: a message is counted before it is
    /// handed to the handler.
    pub open spec fn events(self) -> Seq<DrainEvent<M>> {
        match self {
            DrainStep::Deliver { count, message, .. } => seq![
                DrainEvent::Counted(count),
                DrainEvent::Delivered(message),
            ],
            DrainStep::Done { warning: Some(text), .. } => seq![DrainEvent::Warned(text@)],
            DrainStep::Done { warning: None, .. } => seq![],
        }
    }
}

/// The warning about a failure to receive on `channel`.
pub open spec fn receive_warning(channel: Seq<char>, cause: Seq<char>) -> Seq<char> {
    "win-ipc "@ + channel + ": receive failed: "@ + cause
}

impl Drain {
    /// A message is counted and delivered and the drain goes on. Without one
    /// the drain is over, with a warning if that was a failure.
    pub open spec fn next<M>(
        self,
        channel: Seq<char>,
        outcome: ReceiveOutcome<M>,
    ) -> DrainEffect<M> {
        match outcome {
            ReceiveOutcome::Message(message) => DrainEffect {
                delivered: Some(message),
                counted: Some(Counter::Received),
                got: true,
                done: false,
                warning: None,
            },
            ReceiveOutcome::Empty => DrainEffect {
                delivered: None,
                counted: None,
                got: self.got,
                done: true,
                warning: None,
            },
            ReceiveOutcome::Failed(cause) => DrainEffect {
                delivered: None,
                counted: None,
                got: self.got,
                done: true,
                warning: Some(receive_warning(channel, cause@)),
            },
        }
    }

    /// What happens after an attempt, in order: a message is counted as
    /// received, then handed to the handler.
    pub open spec fn next_events<M>(
        self,
        channel: Seq<char>,
        outcome: ReceiveOutcome<M>,
    ) -> Seq<DrainEvent<M>> {
        match outcome {
            ReceiveOutcome::Message(message) => seq![
                DrainEvent::Counted(Counter::Received),
                DrainEvent::Delivered(message),
            ],
            ReceiveOutcome::Empty => seq![],
            ReceiveOutcome::Failed(cause) => seq![
                DrainEvent::Warned(receive_warning(channel, cause@)),
            ],
        }
    }

    /// A drain that has not started.
    pub fn new() -> (r: Drain)
        ensures
            r == (Drain { got: false }),
    {
        Drain { got: false }
    }

    /// What follows an attempt to take a message out of the queue of `channel`.
    pub fn received<M>(self, channel: &str, outcome: ReceiveOutcome<M>) -> (r: DrainStep<M>)
        ensures
            r.effect() == self.next(channel@, outcome),
            r.events() == self.next_events(channel@, outcome),
            match outcome {
                ReceiveOutcome::Message(message) => r == (DrainStep::Deliver {
                    count: Counter::Received,
                    message,
                    drain: Drain { got: true },
                }),
                ReceiveOutcome::Empty => r == (DrainStep::<M>::Done {
                    got: self.got,
                    warning: None,
                }),
                ReceiveOutcome::Failed(cause) => r matches DrainStep::Done {
                    got,
                    warning: Some(text),
                } && got == self.got && text@ == "win-ipc "@ + channel@ + ": receive failed: "@
                    + cause@,
            },
    {
        match outcome {
            ReceiveOutcome::Message(message) => DrainStep::Deliver {
                count: Counter::Received,
                message,
                drain: Drain { got: true },
            },
            ReceiveOutcome::Empty => DrainStep::Done { got: self.got, warning: None },
            ReceiveOutcome::Failed(cause) => DrainStep::Done {
                got: self.got,
                warning: Some(join4("win-ipc ", channel, ": receive failed: ", cause.as_str())),
            },
        }
    }
}

/// What a drain does along `outcomes`.
#[verifier::ext_equal]
pub struct DrainRun<M> {
    /// The messages handed to the handler, in order.
    pub delivered: Seq<M>,
    /// How often the counter of received messages is incremented.
    pub received: nat,
    /// Whether a message was taken out.
    pub got: bool,
    /// Whether the drain came to its end.
    pub done: bool,
    /// The warnings, in order.
    pub warnings: Seq<Seq<char>>,
}

/// What a drain does along `outcomes`, one step after the other.
pub open spec fn drain_run<M>(
    drain: Drain,
    channel: Seq<char>,
    outcomes: Seq<ReceiveOutcome<M>>,
) -> DrainRun<M>
    decreases outcomes.len(),
{
    if outcomes.len() == 0 {
        DrainRun { delivered: seq![], received: 0, got: drain.got, done: false, warnings: seq![] }
    } else {
        let step = drain.next(channel, outcomes[0]);
        let rest = if step.done {
            DrainRun { delivered: seq![], received: 0, got: step.got, done: true, warnings: seq![] }
        } else {
            drain_run(Drain { got: step.got }, channel, outcomes.drop_first())
        };
        DrainRun {
            delivered: match step.delivered {
                Some(message) => seq![message] + rest.delivered,
                None => rest.delivered,
            },
            received: if step.counted == Some(Counter::Received) {
                rest.received + 1
            } else {
                rest.received
            },
            got: rest.got,
            done: rest.done,
            warnings: match step.warning {
                Some(text) => seq![text] + rest.warnings,
                None => rest.warnings,
            },
        }
    }
}

/// How many messages `outcomes` start with.
pub open spec fn leading_count<M>(outcomes: Seq<ReceiveOutcome<M>>) -> nat
    decreases outcomes.len(),
{
    if outcomes.len() > 0 && outcomes[0] is Message {
        1 + leading_count(outcomes.drop_first())
    } else {
        0
    }
}

/// The messages that `outcomes` start with.
pub open spec fn leading_messages<M>(outcomes: Seq<ReceiveOutcome<M>>) -> Seq<M> {
    Seq::new(leading_count(outcomes), |i: int| outcomes[i]->Message_0)
}

/// `leading_count` is what it says.
proof fn lemma_leading_count<M>(outcomes: Seq<ReceiveOutcome<M>>)
    ensures
        leading_count(outcomes) <= outcomes.len(),
        forall|i: int|
            0 <= i < leading_count(outcomes) ==> (#[trigger] outcomes[i]) is Message,
        leading_count(outcomes) < outcomes.len() ==> !(outcomes[leading_count(
            outcomes,
        ) as int] is Message),
    decreases outcomes.len(),
{
    if outcomes.len() > 0 && outcomes[0] is Message {
        let rest = outcomes.drop_first();
        lemma_leading_count(rest);
        assert forall|i: int| 0 <= i < leading_count(outcomes) implies (
        #[trigger] outcomes[i]) is Message by {
            if i > 0 {
                assert(rest[i - 1] == outcomes[i]);
            }
        }
    }
}

/// A drain delivers every message up to the first attempt that gave none, once
/// each and in order, and counts each of them. It tells whether it delivered
/// any, ends with the attempt that gave none, and warns exactly if that attempt
/// failed.
pub proof fn law_drain_delivers_every_message_once<M>(
    drain: Drain,
    channel: Seq<char>,
    outcomes: Seq<ReceiveOutcome<M>>,
)
    ensures
        drain_run(drain, channel, outcomes) == (DrainRun {
            delivered: leading_messages(outcomes),
            received: leading_count(outcomes),
            got: drain.got || leading_count(outcomes) > 0,
            done: leading_count(outcomes) < outcomes.len(),
            warnings: if leading_count(outcomes) < outcomes.len() {
                match outcomes[leading_count(outcomes) as int] {
                    ReceiveOutcome::Failed(cause) => seq![receive_warning(channel, cause@)],
                    _ => seq![],
                }
            } else {
                seq![]
            },
        }),
    decreases outcomes.len(),
{
    lemma_leading_count(outcomes);
    if outcomes.len() > 0 {
        if outcomes[0] is Message {
            let rest = outcomes.drop_first();
            law_drain_delivers_every_message_once(Drain { got: true }, channel, rest);
            lemma_leading_count(rest);
            assert(leading_messages(outcomes) =~= seq![outcomes[0]->Message_0]
                + leading_messages(rest)) by {
                assert forall|i: int| 0 < i < leading_count(outcomes) implies outcomes[i]
                    == #[trigger] rest[i - 1] by {}
            }
        } else {
            assert(leading_messages(outcomes) =~= seq![]);
        }
    } else {
        assert(leading_messages(outcomes) =~= seq![]);
    }
}

/// All that happens in a drain along `outcomes`, in order: each step is done
/// before the next attempt is made.
pub open spec fn drain_events<M>(
    drain: Drain,
    channel: Seq<char>,
    outcomes: Seq<ReceiveOutcome<M>>,
) -> Seq<DrainEvent<M>>
    decreases outcomes.len(),
{
    if outcomes.len() == 0 {
        seq![]
    } else {
        let step = drain.next(channel, outcomes[0]);
        let events = seq![DrainEvent::Attempted] + drain.next_events(channel, outcomes[0]);
        if step.done {
            events
        } else {
            events + drain_events(Drain { got: step.got }, channel, outcomes.drop_first())
        }
    }
}

/// Whether message number `j`, from 0 on, is taken out of the queue, counted
/// and handed to the handler in this order, right after the one before it.
pub open spec fn delivers_at<M>(events: Seq<DrainEvent<M>>, j: int, message: M) -> bool {
    &&& events[3 * j] == DrainEvent::<M>::Attempted
    &&& events[3 * j + 1] == DrainEvent::<M>::Counted(Counter::Received)
    &&& events[3 * j + 2] == DrainEvent::Delivered(message)
}

/// Each message is taken out of the queue, counted and handed to the handler,
/// in this order, before the next attempt is made: when the handler is given
/// the message number `j`, from 0 on, exactly `j + 1` messages are taken out
/// and counted. After the messages comes the one attempt that gave none, and a
/// warning if it failed.
pub proof fn law_messages_are_counted_then_delivered<M>(
    drain: Drain,
    channel: Seq<char>,
    outcomes: Seq<ReceiveOutcome<M>>,
)
    ensures
        ({
            let events = drain_events(drain, channel, outcomes);
            let n = leading_count(outcomes);
            &&& forall|j: int|
                0 <= j < n ==> #[trigger] delivers_at(events, j, leading_messages(outcomes)[j])
            &&& if n < outcomes.len() {
                events.skip(3 * n as int) == seq![DrainEvent::<M>::Attempted]
                    + match outcomes[n as int] {
                    ReceiveOutcome::Failed(cause) => seq![
                        DrainEvent::<M>::Warned(receive_warning(channel, cause@)),
                    ],
                    _ => seq![],
                }
            } else {
                events.len() == 3 * n
            }
            &&& events.len() >= 3 * n
        }),
    decreases outcomes.len(),
{
    lemma_leading_count(outcomes);
    let events = drain_events(drain, channel, outcomes);
    let n = leading_count(outcomes);
    if outcomes.len() > 0 {
        if outcomes[0] is Message {
            let rest = outcomes.drop_first();
            let drain2 = Drain { got: true };
            let later = drain_events(drain2, channel, rest);
            law_messages_are_counted_then_delivered(drain2, channel, rest);
            let head = seq![
                DrainEvent::<M>::Attempted,
                DrainEvent::<M>::Counted(Counter::Received),
                DrainEvent::Delivered(outcomes[0]->Message_0),
            ];
            assert(events =~= head + later);
            assert forall|j: int| 0 <= j < n implies #[trigger] delivers_at(
                events,
                j,
                leading_messages(outcomes)[j],
            ) by {
                if j > 0 {
                    let i = j - 1;
                    assert(delivers_at(later, i, leading_messages(rest)[i]));
                    assert(leading_messages(rest)[i] == leading_messages(outcomes)[j]);
                    assert(events[3 * j] == later[3 * i]);
                    assert(events[3 * j + 1] == later[3 * i + 1]);
                    assert(events[3 * j + 2] == later[3 * i + 2]);
                }
            }
            assert(leading_count(rest) == n - 1);
            assert(events.skip(3 * n as int) =~= later.skip(3 * (n - 1)));
            if n < outcomes.len() {
                assert(rest[n - 1] == outcomes[n as int]);
            }
        } else {
            assert(n == 0);
            assert(events.skip(3 * n as int) =~= events);
        }
    }
}

/// What a polling thread does next.
#[derive(Debug, Clone, Copy, PartialEq, Eq, Structural)]
pub enum PollStep {
    /// Look whether it is cancelled.
    CheckCancelled,
    /// Drain the queue.
    Drain,
    /// Tell the processor that it spins.
    Spin,
    /// End.
    Stop,
}

/// What follows the look whether the thread is cancelled.
pub open spec fn checked_step(cancelled: bool) -> PollStep {
    if cancelled {
        PollStep::Stop
    } else {
        PollStep::Drain
    }
}

/// What follows a drain: a spin exactly if it took out nothing.
pub open spec fn drained_step(got: bool) -> PollStep {
    if got {
        PollStep::CheckCancelled
    } else {
        PollStep::Spin
    }
}

/// What a polling thread starts with: the look whether it is cancelled.
pub open spec fn start_step() -> PollStep {
    PollStep::CheckCancelled
}

/// What follows a spin: the look whether the thread is cancelled.
pub open spec fn spun_step() -> PollStep {
    PollStep::CheckCancelled
}

/// What a polling thread starts with.
pub fn poll_started() -> (r: PollStep)
    ensures
        r == start_step(),
        r is CheckCancelled,
{
    PollStep::CheckCancelled
}

/// What follows a spin.
pub fn poll_spun() -> (r: PollStep)
    ensures
        r == spun_step(),
        r is CheckCancelled,
{
    PollStep::CheckCancelled
}

/// What follows the look whether the thread is cancelled.
pub fn poll_checked(cancelled: bool) -> (r: PollStep)
    ensures
        r == checked_step(cancelled),
        cancelled ==> r is Stop,
        !cancelled ==> r is Drain,
{
    if cancelled {
        PollStep::Stop
    } else {
        PollStep::Drain
    }
}

/// What follows a drain: a spin exactly if it took out nothing.
pub fn poll_drained(got: bool) -> (r: PollStep)
    ensures
        r == drained_step(got),
        got ==> r is CheckCancelled,
        !got ==> r is Spin,
{
    if got {
        PollStep::CheckCancelled
    } else {
        PollStep::Spin
    }
}

/// One round of polling.
pub struct Round<M> {
    /// Whether the thread is found cancelled.
    pub cancelled: bool,
    /// What the attempts to take messages out of the queue give, if it is not.
    pub outcomes: Seq<ReceiveOutcome<M>>,
}

/// What a polling thread does in `rounds`.
#[verifier::ext_equal]
pub struct PollRun<M> {
    /// The messages handed to the handler, in order.
    pub delivered: Seq<M>,
    /// How often the counter of received messages is incremented.
    pub received: nat,
    /// How often it looks whether it is cancelled.
    pub checks: nat,
    /// How often it drains the queue.
    pub drains: nat,
    /// How often it spins.
    pub spins: nat,
    /// Whether it ended.
    pub stopped: bool,
}

/// How many steps lead at most from `step` to the next drain.
pub open spec fn steps_to_drain(step: PollStep) -> nat {
    match step {
        PollStep::Spin => 2,
        PollStep::CheckCancelled => 1,
        _ => 0,
    }
}

/// What a polling thread does in `rounds` from `step` on, one step after the
/// other. A round ends with its drain.
pub open spec fn poll_from<M>(
    step: PollStep,
    channel: Seq<char>,
    rounds: Seq<Round<M>>,
) -> PollRun<M>
    decreases rounds.len(), steps_to_drain(step),
{
    if step is Stop || (rounds.len() == 0 && !(step is Spin)) {
        PollRun {
            delivered: seq![],
            received: 0,
            checks: 0,
            drains: 0,
            spins: 0,
            stopped: step is Stop,
        }
    } else {
        match step {
            PollStep::CheckCancelled => {
                let rest = poll_from(checked_step(rounds[0].cancelled), channel, rounds);
                PollRun { checks: rest.checks + 1, ..rest }
            },
            PollStep::Drain => {
                let drained = drain_run(Drain { got: false }, channel, rounds[0].outcomes);
                let rest = poll_from(drained_step(drained.got), channel, rounds.drop_first());
                PollRun {
                    delivered: drained.delivered + rest.delivered,
                    received: drained.received + rest.received,
                    drains: rest.drains + 1,
                    ..rest
                }
            },
            _ => {
                let rest = poll_from(spun_step(), channel, rounds);
                PollRun { spins: rest.spins + 1, ..rest }
            },
        }
    }
}

/// What a polling thread does in `rounds`.
pub open spec fn poll_run<M>(channel: Seq<char>, rounds: Seq<Round<M>>) -> PollRun<M> {
    poll_from(start_step(), channel, rounds)
}

/// The rounds whose drain takes nothing out of the queue.
pub open spec fn idle_rounds<M>(rounds: Seq<Round<M>>) -> Seq<Round<M>> {
    rounds.filter(|round: Round<M>| leading_count(round.outcomes) == 0)
}

/// One round that does not find the thread cancelled: a look, a drain, and a
/// spin exactly if the drain took out nothing.
proof fn lemma_round<M>(channel: Seq<char>, rounds: Seq<Round<M>>)
    requires
        rounds.len() > 0,
        !rounds[0].cancelled,
    ensures
        ({
            let run = poll_run(channel, rounds);
            let rest = poll_run(channel, rounds.drop_first());
            let taken = leading_messages(rounds[0].outcomes);
            &&& run.delivered == taken + rest.delivered
            &&& run.received == taken.len() + rest.received
            &&& run.checks == rest.checks + 1
            &&& run.drains == rest.drains + 1
            &&& run.spins == rest.spins + (if taken.len() == 0 {
                1nat
            } else {
                0nat
            })
            &&& run.stopped == rest.stopped
        }),
{
    law_drain_delivers_every_message_once(Drain { got: false }, channel, rounds[0].outcomes);
    let rest = rounds.drop_first();
    let got = leading_count(rounds[0].outcomes) > 0;
    assert(poll_from(PollStep::Spin, channel, rest).spins == poll_run(channel, rest).spins + 1);
    let drained = poll_from(PollStep::Drain, channel, rounds);
    assert(drained.drains == poll_from(drained_step(got), channel, rest).drains + 1);
    assert(poll_run(channel, rounds).checks == drained.checks + 1);
}

/// A thread that is not cancelled in its first `k` rounds looks for
/// cancellation once before each of their drains, delivers all that the drains
/// take out, in order, counts each message, and spins exactly after each drain
/// that took out nothing. It ends in the round that finds it cancelled, with
/// that look: nothing is drained, delivered or spun from then on. Without such
/// a round it does not end.
pub proof fn law_polling_delivers_until_cancelled<M>(
    channel: Seq<char>,
    rounds: Seq<Round<M>>,
    k: nat,
)
    requires
        k <= rounds.len(),
        forall|i: int| 0 <= i < k ==> !(#[trigger] rounds[i]).cancelled,
        k < rounds.len() ==> rounds[k as int].cancelled,
    ensures
        poll_run(channel, rounds).delivered == rounds.take(k as int).map_values(
            |round: Round<M>| leading_messages(round.outcomes),
        ).flatten(),
        poll_run(channel, rounds).received == poll_run(channel, rounds).delivered.len(),
        poll_run(channel, rounds).drains == k,
        poll_run(channel, rounds).checks == k + (if k < rounds.len() {
            1nat
        } else {
            0nat
        }),
        poll_run(channel, rounds).spins == idle_rounds(rounds.take(k as int)).len(),
        poll_run(channel, rounds).stopped == (k < rounds.len()),
    decreases k,
{
    let drained = |round: Round<M>| leading_messages(round.outcomes);
    let idle = |round: Round<M>| leading_count(round.outcomes) == 0;
    let first = rounds.take(k as int);
    let parts = first.map_values(drained);
    reveal(Seq::filter);
    if k == 0 {
        assert(parts =~= seq![]);
        assert(first =~= seq![]);
        if rounds.len() > 0 {
            assert(poll_from(PollStep::Stop, channel, rounds).stopped);
        }
    } else {
        let rest = rounds.drop_first();
        assert forall|i: int| 0 <= i < k - 1 implies !(#[trigger] rest[i]).cancelled by {
            assert(rest[i] == rounds[i + 1]);
        }
        law_polling_delivers_until_cancelled(channel, rest, (k - 1) as nat);
        lemma_round(channel, rounds);
        assert(parts.drop_first() =~= rest.take(k - 1).map_values(drained));
        assert(parts.first() == leading_messages(rounds[0].outcomes));
        assert(first =~= seq![rounds[0]] + rest.take(k - 1));
        let head = seq![rounds[0]];
        Seq::filter_distributes_over_add(head, rest.take(k - 1), idle);
        assert(head.drop_last() =~= Seq::<Round<M>>::empty());
        assert(Seq::<Round<M>>::empty().filter(idle).len() == 0);
        assert(head.last() == rounds[0]);
        assert(head.filter(idle).len() == (if idle(rounds[0]) {
            1nat
        } else {
            0nat
        }));
    }
}

/// What becomes of a message whose bytes were decoded or could not be.
#[derive(Debug)]
pub enum Decoded<T> {
    /// Hand it to the handler.
    Handle(T),
    /// Skip it.
    Skip {
        /// The counter to increment.
        count: Counter,
        /// What is worth a warning.
        warning: String,
    },
}

/// What becomes of decoded messages on one channel.
#[derive(Debug)]
pub struct Decoder {
    /// The channel, as warnings name it.
    pub label: String,
    /// The counter of messages that did not decode.
    pub deserialize_failures: CounterKey,
}

/// What becomes of a message, as far as it can be seen from outside.
#[verifier::ext_equal]
pub struct DecodeEffect<T> {
    /// The message that is handed to the handler, if any.
    pub handled: Option<T>,
    /// The counter that is incremented, if any.
    pub counted: Option<Counter>,
    /// The warning, if any.
    pub warning: Option<Seq<char>>,
}

impl<T> Decoded<T> {
    /// What can be seen of it.
    pub open spec fn effect(self) -> DecodeEffect<T> {
        match self {
            Decoded::Handle(message) => DecodeEffect {
                handled: Some(message),
                counted: None,
                warning: None,
            },
            Decoded::Skip { count, warning } => DecodeEffect {
                handled: None,
                counted: Some(count),
                warning: Some(warning@),
            },
        }
    }
}

impl Decoder {
    /// A message that decoded is handled; another is skipped, counted and
    /// warned of.
    pub open spec fn next<T>(self, result: Result<T, String>) -> DecodeEffect<T> {
        match result {
            Ok(message) => DecodeEffect { handled: Some(message), counted: None, warning: None },
            Err(cause) => DecodeEffect {
                handled: None,
                counted: Some(Counter::DeserializeFailures),
                warning: Some(
                    "win-ipc "@ + self.label@ + ": deserialize failed: "@ + cause@,
                ),
            },
        }
    }

    /// Whether this is the decoder of `channel`.
    pub open spec fn is_for(self, channel: Seq<char>) -> bool {
        &&& self.label@ == channel
        &&& self.deserialize_failures.is_for(Counter::DeserializeFailures, channel)
    }

    /// What becomes of a message: one that decoded is handled, another is
    /// skipped, counted and warned of.
    pub fn decoded<T>(&self, result: Result<T, String>) -> (r: Decoded<T>)
        ensures
            r.effect() == self.next(result),
            match result {
                Ok(message) => r == Decoded::Handle(message),
                Err(cause) => r matches Decoded::Skip { count, warning } && count
                    == Counter::DeserializeFailures && warning@ == "win-ipc "@ + self.label@
                    + ": deserialize failed: "@ + cause@,
            },
    {
        match result {
            Ok(message) => Decoded::Handle(message),
            Err(cause) => Decoded::Skip {
                count: Counter::DeserializeFailures,
                warning: join4(
                    "win-ipc ",
                    self.label.as_str(),
                    ": deserialize failed: ",
                    cause.as_str(),
                ),
            },
        }
    }
}

/// What becomes of messages that came one after the other.
#[verifier::ext_equal]
pub struct DecodeRun<T> {
    /// The messages handed to the handler, in order.
    pub handled: Seq<T>,
    /// How often the counter of messages that did not decode is incremented.
    pub failures: nat,
}

/// What becomes of messages that came one after the other.
pub open spec fn decode_run<T>(decoder: Decoder, results: Seq<Result<T, String>>) -> DecodeRun<T>
    decreases results.len(),
{
    if results.len() == 0 {
        DecodeRun { handled: seq![], failures: 0 }
    } else {
        let before = decode_run(decoder, results.drop_last());
        let effect = decoder.next(results.last());
        DecodeRun {
            handled: match effect.handled {
                Some(message) => before.handled.push(message),
                None => before.handled,
            },
            failures: if effect.counted == Some(Counter::DeserializeFailures) {
                before.failures + 1
            } else {
                before.failures
            },
        }
    }
}

/// A message that does not decode is counted and skipped and keeps no other
/// from being handled: exactly the messages that decode are handled, in order,
/// and every other is counted.
pub proof fn law_undecodable_messages_are_skipped<T>(
    decoder: Decoder,
    results: Seq<Result<T, String>>,
)
    ensures
        decode_run(decoder, results).handled == results.filter(
            |result: Result<T, String>| result is Ok,
        ).map_values(|result: Result<T, String>| result->Ok_0),
        decode_run(decoder, results).handled.len() + decode_run(decoder, results).failures
            == results.len(),
    decreases results.len(),
{
    reveal(Seq::filter);
    let good = |result: Result<T, String>| result is Ok;
    let value = |result: Result<T, String>| result->Ok_0;
    if results.len() == 0 {
        assert(results.filter(good).map_values(value) =~= seq![]);
    } else {
        law_undecodable_messages_are_skipped(decoder, results.drop_last());
        let before = results.drop_last().filter(good);
        if results.last() is Ok {
            assert(results.filter(good) == before.push(results.last()));
            assert(before.push(results.last()).map_values(value) =~= before.map_values(value).push(
                results.last()->Ok_0,
            ));
        } else {
            assert(results.filter(good) == before);
        }
    }
}

/// From the queue to the handler: of all that a thread takes out of the queue
/// until it is cancelled, exactly what decodes reaches the handler, once each
/// and in order, and every message received was either handled or counted as
/// one that did not decode.
pub proof fn law_receiver_handles_what_decodes<M, T>(
    channel: Seq<char>,
    decoder: Decoder,
    decode: spec_fn(M) -> Result<T, String>,
    rounds: Seq<Round<M>>,
    k: nat,
)
    requires
        k <= rounds.len(),
        forall|i: int| 0 <= i < k ==> !(#[trigger] rounds[i]).cancelled,
        k < rounds.len() ==> rounds[k as int].cancelled,
    ensures
        ({
            let polled = poll_run(channel, rounds);
            let taken = rounds.take(k as int).map_values(
                |round: Round<M>| leading_messages(round.outcomes),
            ).flatten();
            let run = decode_run(decoder, polled.delivered.map_values(decode));
            &&& run.handled == taken.map_values(decode).filter(
                |result: Result<T, String>| result is Ok,
            ).map_values(|result: Result<T, String>| result->Ok_0)
            &&& polled.received == run.handled.len() + run.failures
        }),
{
    law_polling_delivers_until_cancelled(channel, rounds, k);
    law_undecodable_messages_are_skipped(
        decoder,
        poll_run(channel, rounds).delivered.map_values(decode),
    );
}

/// What is sent is what is handled: where the codec gives back each of
/// `messages` as it was written, and the queue hands out their bytes until the
/// thread is cancelled, the handler gets exactly `messages`, in order, and none
/// is counted as one that did not decode.
pub proof fn law_what_is_sent_is_handled<M, T>(
    channel: Seq<char>,
    decoder: Decoder,
    encode: spec_fn(T) -> M,
    decode: spec_fn(M) -> Result<T, String>,
    messages: Seq<T>,
    rounds: Seq<Round<M>>,
    k: nat,
)
    requires
        forall|i: int|
            0 <= i < messages.len() ==> decode(encode(#[trigger] messages[i])) == Ok::<T, String>(
                messages[i],
            ),
        k <= rounds.len(),
        forall|i: int| 0 <= i < k ==> !(#[trigger] rounds[i]).cancelled,
        k < rounds.len() ==> rounds[k as int].cancelled,
        rounds.take(k as int).map_values(
            |round: Round<M>| leading_messages(round.outcomes),
        ).flatten() == messages.map_values(encode),
    ensures
        ({
            let polled = poll_run(channel, rounds);
            let run = decode_run(decoder, polled.delivered.map_values(decode));
            &&& run.handled == messages
            &&& run.failures == 0
            &&& polled.received == messages.len()
        }),
{
    law_polling_delivers_until_cancelled(channel, rounds, k);
    let results = poll_run(channel, rounds).delivered.map_values(decode);
    assert(results =~= messages.map_values(|message: T| Ok::<T, String>(message)));
    lemma_all_handled(decoder, messages);
}

proof fn lemma_all_handled<T>(decoder: Decoder, messages: Seq<T>)
    ensures
        decode_run(decoder, messages.map_values(|message: T| Ok::<T, String>(message)))
            == (DecodeRun { handled: messages, failures: 0 }),
    decreases messages.len(),
{
    let results = messages.map_values(|message: T| Ok::<T, String>(message));
    if messages.len() > 0 {
        lemma_all_handled(decoder, messages.drop_last());
        assert(results.drop_last() =~= messages.drop_last().map_values(
            |message: T| Ok::<T, String>(message),
        ));
        assert(messages.drop_last().push(messages.last()) =~= messages);
    } else {
        assert(messages =~= seq![]);
    }
}

/// What a step of a drain shows is what it asks for: a message that is to be
/// delivered is delivered after it was counted, and the drain goes on; an end
/// delivers and counts nothing, and says whether anything was taken out.
pub proof fn law_drain_step_is_what_it_shows<M>(step: DrainStep<M>)
    ensures
        step matches DrainStep::Deliver { count, message, drain } ==> {
            &&& step.effect().delivered == Some(message)
            &&& step.effect().counted == Some(count)
            &&& step.effect().warning is None
            &&& step.effect().got == drain.got
            &&& !step.effect().done
            &&& step.events().len() == 2
            &&& step.events()[0] == DrainEvent::<M>::Counted(count)
            &&& step.events()[1] == DrainEvent::Delivered(message)
        },
        step matches DrainStep::Done { got, warning } ==> {
            &&& step.effect().delivered is None
            &&& step.effect().counted is None
            &&& step.effect().warning is Some == (warning is Some)
            &&& warning matches Some(text) ==> {
                &&& step.effect().warning == Some(text@)
                &&& step.events().len() == 1
                &&& step.events()[0] == DrainEvent::<M>::Warned(text@)
            }
            &&& warning is None ==> step.events().len() == 0
            &&& step.effect().got == got
            &&& step.effect().done
        },
{
}

/// A drain goes on exactly as long as there are messages. Each is delivered and
/// counted as received; an attempt that gave none delivers and counts nothing,
/// leaves it as it was whether any was taken out, and is worth a warning, with
/// the channel and the reason, exactly if it failed.
pub proof fn law_drain_goes_on_while_there_are_messages<M>(
    drain: Drain,
    channel: Seq<char>,
    outcome: ReceiveOutcome<M>,
)
    ensures
        drain.next(channel, outcome).done <==> !(outcome is Message),
        outcome matches ReceiveOutcome::Message(message) ==> {
            &&& drain.next(channel, outcome).delivered == Some(message)
            &&& drain.next(channel, outcome).counted == Some(Counter::Received)
            &&& drain.next(channel, outcome).got
            &&& drain.next(channel, outcome).warning is None
        },
        !(outcome is Message) ==> {
            &&& drain.next(channel, outcome).delivered is None
            &&& drain.next(channel, outcome).counted is None
            &&& drain.next(channel, outcome).got == drain.got
        },
        outcome is Empty ==> drain.next(channel, outcome).warning is None,
        outcome matches ReceiveOutcome::Failed(cause) ==> drain.next(channel, outcome).warning
            == Some("win-ipc "@ + channel + ": receive failed: "@ + cause@),
{
}

/// Of a queue that gives `n` messages and then none, a drain delivers exactly
/// these, in order, counts each, ends, and says that it took something out
/// exactly if `n` is not 0.
pub proof fn law_drain_empties_the_queue<M>(
    channel: Seq<char>,
    outcomes: Seq<ReceiveOutcome<M>>,
    n: nat,
)
    requires
        n < outcomes.len(),
        forall|i: int| 0 <= i < n ==> (#[trigger] outcomes[i]) is Message,
        !(outcomes[n as int] is Message),
    ensures
        ({
            let run = drain_run(Drain { got: false }, channel, outcomes);
            &&& run.delivered.len() == n
            &&& forall|i: int|
                0 <= i < n ==> ReceiveOutcome::Message(#[trigger] run.delivered[i]) == outcomes[i]
            &&& run.received == n
            &&& run.got <==> n > 0
            &&& run.done
        }),
{
    law_drain_delivers_every_message_once(Drain { got: false }, channel, outcomes);
    lemma_leading_count(outcomes);
    assert(leading_count(outcomes) == n) by {
        if leading_count(outcomes) < n {
            assert(outcomes[leading_count(outcomes) as int] is Message);
        }
        if leading_count(outcomes) > n {
            assert(outcomes[n as int] is Message);
        }
    }
}

/// A polling thread looks for cancellation first, and again after every drain
/// and spin before it drains again; it ends exactly if it finds itself
/// cancelled, and spins exactly after a drain that took out nothing.
pub proof fn law_polling_looks_before_it_drains(cancelled: bool, got: bool)
    ensures
        start_step() is CheckCancelled,
        checked_step(cancelled) is Stop <==> cancelled,
        checked_step(cancelled) is Drain <==> !cancelled,
        drained_step(got) is Spin <==> !got,
        drained_step(got) is CheckCancelled <==> got,
        spun_step() is CheckCancelled,
{
}

/// What becomes of a message is what is asked for: it is handled, or it is
/// skipped with the counter and the warning.
pub proof fn law_decoded_is_what_it_shows<T>(decoded: Decoded<T>)
    ensures
        decoded matches Decoded::Handle(message) ==> {
            &&& decoded.effect().handled == Some(message)
            &&& decoded.effect().counted is None
            &&& decoded.effect().warning is None
        },
        decoded matches Decoded::Skip { count, warning } ==> {
            &&& decoded.effect().handled is None
            &&& decoded.effect().counted == Some(count)
            &&& decoded.effect().warning == Some(warning@)
        },
{
}

/// A message is handled exactly if it decodes, and then as it decoded; one that
/// does not is counted as such and warned of with the channel and the reason.
pub proof fn law_what_decodes_is_handled<T>(
    decoder: Decoder,
    channel: Seq<char>,
    result: Result<T, String>,
)
    requires
        decoder.is_for(channel),
    ensures
        result matches Ok(message) ==> {
            &&& decoder.next(result).handled == Some(message)
            &&& decoder.next(result).counted is None
            &&& decoder.next(result).warning is None
        },
        result matches Err(cause) ==> {
            &&& decoder.next(result).handled is None
            &&& decoder.next(result).counted == Some(Counter::DeserializeFailures)
            &&& decoder.next(result).warning == Some(
                "win-ipc "@ + channel + ": deserialize failed: "@ + cause@,
            )
        },
        decoder.deserialize_failures.counter == Counter::DeserializeFailures,
        decoder.deserialize_failures.channel@ == channel,
{
}

} // verus!
