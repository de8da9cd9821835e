//! The counters that a channel keeps, each labelled with the channel.

use vstd::prelude::*;

verus! {

/// What is counted.
#[derive(Debug, Clone, Copy, PartialEq, Eq, Structural)]
pub enum Counter {
    /// Messages sent.
    Sent,
    /// Messages refused because they are too large.
    PublishFailures,
    /// Messages taken out of the queue.
    Received,
    /// Messages whose bytes did not decode.
    DeserializeFailures,
    /// Messages dropped because the consumer's channel was full.
    ChannelFull,
}

impl Counter {
    /// The name under which the counter is recorded.
    pub open spec fn name_spec(self) -> Seq<char> {
        match self {
            Counter::Sent => "ipc_sent"@,
            Counter::PublishFailures => "ipc_publish_failures"@,
            Counter::Received => "ipc_received"@,
            Counter::DeserializeFailures => "ipc_deserialize_failures"@,
            Counter::ChannelFull => "ipc_receiver_channel_full"@,
        }
    }

    /// The name under which the counter is recorded.
    pub fn name(&self) -> (r: &'static str)
        ensures
            r@ == self.name_spec(),
    {
        match self {
            Counter::Sent => "ipc_sent",
            Counter::PublishFailures => "ipc_publish_failures",
            Counter::Received => "ipc_received",
            Counter::DeserializeFailures => "ipc_deserialize_failures",
            Counter::ChannelFull => "ipc_receiver_channel_full",
        }
    }
}

/// A counter of one channel: recorded under the counter's name, with the label
/// `channel`.
#[derive(Debug)]
pub struct CounterKey {
    /// What is counted.
    pub counter: Counter,
    /// The value of the label `channel`.
    pub channel: String,
}

impl CounterKey {
    /// Whether this is `counter` of `channel`.
    pub open spec fn is_for(self, counter: Counter, channel: Seq<char>) -> bool {
        self.counter == counter && self.channel@ == channel
    }
}

/// The counters of a receiver, looked up once when it is spawned.
#[derive(Debug)]
pub struct ReceiverMetrics {
    /// Messages taken out of the queue.
    pub received: CounterKey,
    /// Messages whose bytes did not decode.
    pub deserialize_failures: CounterKey,
    /// Messages dropped because the consumer's channel was full.
    pub channel_full: CounterKey,
}

impl ReceiverMetrics {
    /// Whether these are the counters of `channel`.
    pub open spec fn are_for(self, channel: Seq<char>) -> bool {
        &&& self.received.is_for(Counter::Received, channel)
        &&& self.deserialize_failures.is_for(Counter::DeserializeFailures, channel)
        &&& self.channel_full.is_for(Counter::ChannelFull, channel)
    }

    /// The counters of `channel`.
    pub fn new(channel: &str) -> (r: Self)
        ensures
            r.are_for(channel@),
    {
        ReceiverMetrics {
            received: CounterKey { counter: Counter::Received, channel: channel.to_owned() },
            deserialize_failures: CounterKey {
                counter: Counter::DeserializeFailures,
                channel: channel.to_owned(),
            },
            channel_full: CounterKey { counter: Counter::ChannelFull, channel: channel.to_owned() },
        }
    }
}

/// Each counter has a name of its own, and these are the names.
pub proof fn law_counters_have_their_own_names(a: Counter, b: Counter)
    ensures
        a.name_spec() == b.name_spec() <==> a == b,
        a is Sent ==> a.name_spec() == "ipc_sent"@,
        a is PublishFailures ==> a.name_spec() == "ipc_publish_failures"@,
        a is Received ==> a.name_spec() == "ipc_received"@,
        a is DeserializeFailures ==> a.name_spec() == "ipc_deserialize_failures"@,
        a is ChannelFull ==> a.name_spec() == "ipc_receiver_channel_full"@,
{
    reveal_strlit("ipc_sent");
    reveal_strlit("ipc_publish_failures");
    reveal_strlit("ipc_received");
    reveal_strlit("ipc_deserialize_failures");
    reveal_strlit("ipc_receiver_channel_full");
    assert("ipc_sent"@.len() == 8);
    assert("ipc_publish_failures"@.len() == 20);
    assert("ipc_received"@.len() == 12);
    assert("ipc_deserialize_failures"@.len() == 24);
    assert("ipc_receiver_channel_full"@.len() == 25);
}

/// The counters of a receiver are three different ones, all of its channel.
pub proof fn law_receiver_counts_on_its_channel(metrics: ReceiverMetrics, channel: Seq<char>)
    ensures
        metrics.are_for(channel) <==> {
            &&& metrics.received.counter == Counter::Received
            &&& metrics.received.channel@ == channel
            &&& metrics.deserialize_failures.counter == Counter::DeserializeFailures
            &&& metrics.deserialize_failures.channel@ == channel
            &&& metrics.channel_full.counter == Counter::ChannelFull
            &&& metrics.channel_full.channel@ == channel
        },
{
}

} // verus!
