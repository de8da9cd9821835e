//! The two halves of a bounded tokio channel, with what can be told of it from
//! the sending side: how much it holds, what it took, whether it was found
//! closed.

use vstd::prelude::*;

verus! {

/// The sending half of a bounded tokio channel.
#[verifier::external_type_specification]
#[verifier::external_body]
#[verifier::reject_recursive_types(T)]
pub struct ExTokioSender<T>(tokio::sync::mpsc::Sender<T>);

/// The receiving half of a bounded tokio channel.
#[verifier::external_type_specification]
#[verifier::external_body]
#[verifier::reject_recursive_types(T)]
pub struct ExTokioReceiver<T>(tokio::sync::mpsc::Receiver<T>);

/// What a channel did with a message that was offered to it.
#[derive(Debug)]
pub enum Offered<T> {
    /// It took it.
    Accepted,
    /// It is full and gave it back.
    Full(T),
    /// Nobody will read from it any more, and it gave it back.
    Closed(T),
}

/// The answer of a channel, without the message.
#[derive(Debug, Clone, Copy, PartialEq, Eq, Structural)]
pub enum Answer {
    /// It took the message.
    Accepted,
    /// It is full.
    Full,
    /// It is closed.
    Closed,
}

impl<T> Offered<T> {
    /// The answer, without the message.
    pub open spec fn answer(self) -> Answer {
        match self {
            Offered::Accepted => Answer::Accepted,
            Offered::Full(_) => Answer::Full,
            Offered::Closed(_) => Answer::Closed,
        }
    }

    /// Whether a message that was not accepted is given back.
    pub open spec fn gives_back(self, message: T) -> bool {
        match self {
            Offered::Accepted => true,
            Offered::Full(returned) => returned == message,
            Offered::Closed(returned) => returned == message,
        }
    }
}

/// The one sending half of a channel. Nothing else sends into the channel.
#[verifier::reject_recursive_types(T)]
pub struct Outbox<T> {
    tx: tokio::sync::mpsc::Sender<T>,
    id: Ghost<int>,
    bound: Ghost<usize>,
    taken: Ghost<Seq<T>>,
    closed: Ghost<bool>,
    log: Ghost<Seq<(T, Answer)>>,
}

/// The receiving half of a channel.
#[verifier::reject_recursive_types(T)]
pub struct Inbox<T> {
    rx: tokio::sync::mpsc::Receiver<T>,
    id: Ghost<int>,
    bound: Ghost<usize>,
}

impl<T> Inbox<T> {
    /// Which channel this is the receiving half of.
    pub closed spec fn channel_id(self) -> int {
        self.id@
    }

    /// How many messages the channel holds.
    pub closed spec fn bound_spec(self) -> usize {
        self.bound@
    }

    /// The tokio receiver.
    pub closed spec fn inner(self) -> tokio::sync::mpsc::Receiver<T> {
        self.rx
    }

    /// Hands out the tokio receiver, for a consumer to read from.
    pub fn into_inner(self) -> (r: tokio::sync::mpsc::Receiver<T>)
        ensures
            r == self.inner(),
    {
        self.rx
    }
}

impl<T> Outbox<T> {
    /// Which channel this is the sending half of.
    pub closed spec fn channel_id(self) -> int {
        self.id@
    }

    /// How many messages the channel holds.
    pub closed spec fn bound_spec(self) -> usize {
        self.bound@
    }

    /// The messages that the channel took so far, in order.
    pub closed spec fn taken_spec(self) -> Seq<T> {
        self.taken@
    }

    /// Whether the channel was found closed.
    pub closed spec fn closed_spec(self) -> bool {
        self.closed@
    }

    /// Every message that was offered so far, with the channel's answer, in
    /// order.
    pub closed spec fn log_spec(self) -> Seq<(T, Answer)> {
        self.log@
    }

    /// Calls `tokio::sync::mpsc::Sender::try_send`.
    ///
    /// Claimed of it: the message is offered and answered, which is one entry
    /// more in the log of offers. A message that is accepted goes into the
    /// channel behind those that it took before, and one that is not is given
    /// back. A channel that answers that it is full took at least as many messages as it holds.
    /// A channel that was found closed stays closed. How many of the messages
    /// were read meanwhile, and whether the channel was closed meanwhile, rests
    /// with the consumer, which runs at the same time: nothing is claimed of
    /// that.
    #[verifier::external_body]
    pub(crate) fn offer(&mut self, message: T) -> (r: Offered<T>)
        ensures
            r.gives_back(message),
            final(self).log_spec() == old(self).log_spec().push((message, r.answer())),
            final(self).taken_spec() == (if r is Accepted {
                old(self).taken_spec().push(message)
            } else {
                old(self).taken_spec()
            }),
            r is Full ==> old(self).taken_spec().len() >= old(self).bound_spec(),
            old(self).closed_spec() ==> r is Closed,
            final(self).closed_spec() == (old(self).closed_spec() || r is Closed),
            final(self).bound_spec() == old(self).bound_spec(),
            final(self).channel_id() == old(self).channel_id(),
    {
        match self.tx.try_send(message) {
            Ok(()) => Offered::Accepted,
            Err(tokio::sync::mpsc::error::TrySendError::Full(message)) => Offered::Full(message),
            Err(tokio::sync::mpsc::error::TrySendError::Closed(message)) => Offered::Closed(
                message,
            ),
        }
    }
}

/// Calls `tokio::sync::mpsc::channel`.
///
/// Claimed of it: the two halves are those of one channel, which holds as many
/// messages as asked for, was offered none and took none yet, and is open. It
/// panics on a capacity of zero and on one above an eighth of `usize::MAX`.
#[verifier::external_body]
pub(crate) fn halves<T>(capacity: usize) -> (r: (Outbox<T>, Inbox<T>))
    requires
        0 < capacity <= usize::MAX / 8,
    ensures
        r.0.channel_id() == r.1.channel_id(),
        r.0.bound_spec() == capacity,
        r.1.bound_spec() == capacity,
        r.0.taken_spec() == Seq::<T>::empty(),
        !r.0.closed_spec(),
        r.0.log_spec() == Seq::<(T, Answer)>::empty(),
{
    let (tx, rx) = tokio::sync::mpsc::channel(capacity);
    let outbox = Outbox {
        tx,
        id: Ghost(0),
        bound: Ghost(capacity),
        taken: Ghost(Seq::empty()),
        closed: Ghost(false),
        log: Ghost(Seq::empty()),
    };
    (outbox, Inbox { rx, id: Ghost(0), bound: Ghost(capacity) })
}

} // verus!
