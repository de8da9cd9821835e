//! The sending side of a channel: how it is set up, and how one message is
//! sent.

use vstd::prelude::*;

use crate::config::{IpcConfig, ServiceQos};
use crate::counters::Counter;
use crate::node::{
    create_node, create_port_with_retry, CreateAction, NodeCreation, Outcome, PortCreation,
    PortError,
};
use crate::service::{service_name, NameFault};
use crate::text::{decimal, join2, join4};

verus! {

/// What a sender knows of its channel. A slow or absent subscriber never
/// blocks it: the oldest message in a full queue is overwritten.
#[derive(Debug)]
pub struct IpcSender {
    /// The name of the channel.
    pub channel: String,
    /// The largest serialized size that a message may have.
    pub max_message_size: usize,
    /// Whether listeners of an event service are notified of each message.
    pub notifies: bool,
}

/// Why a message was not sent.
#[derive(Debug)]
pub enum SendError {
    /// Its serialized size could not be told.
    Size {
        /// Why.
        cause: String,
    },
    /// It is larger than the channel admits.
    TooLarge {
        /// Its serialized size.
        size: usize,
        /// The largest size admitted.
        max: usize,
    },
    /// No sample could be loaned.
    Loan {
        /// Why.
        cause: String,
    },
    /// It could not be written into the sample.
    Serialize {
        /// Why.
        cause: String,
    },
    /// The sample could not be sent.
    Send {
        /// Why.
        cause: String,
    },
}

impl SendError {
    /// The error in words.
    pub open spec fn message_spec(self) -> Seq<char> {
        match self {
            SendError::Size { cause } => "serialized_size: "@ + cause@,
            SendError::TooLarge { size, max } => "message size "@ + crate::text::decimal_text(
                size as nat,
            ) + " exceeds max "@ + crate::text::decimal_text(max as nat),
            SendError::Loan { cause } => "loan: "@ + cause@,
            SendError::Serialize { cause } => "serialize: "@ + cause@,
            SendError::Send { cause } => "send: "@ + cause@,
        }
    }

    /// The error in words.
    pub fn message(&self) -> (r: String)
        ensures
            r@ == self.message_spec(),
    {
        match self {
            SendError::Size { cause } => join2("serialized_size: ", cause.as_str()),
            SendError::TooLarge { size, max } => {
                let size_text = decimal(*size as u64);
                let max_text = decimal(*max as u64);
                join4("message size ", size_text.as_str(), " exceeds max ", max_text.as_str())
            },
            SendError::Loan { cause } => join2("loan: ", cause.as_str()),
            SendError::Serialize { cause } => join2("serialize: ", cause.as_str()),
            SendError::Send { cause } => join2("send: ", cause.as_str()),
        }
    }
}

/// What has to be done for a message to be sent.
#[derive(Debug, Clone, Copy, PartialEq, Eq, Structural)]
pub enum SendAction {
    /// Loan an uninitialized sample of `size` bytes.
    Loan {
        /// How many bytes.
        size: usize,
    },
    /// Write the message into the sample, which it fills.
    Serialize,
    /// Send the sample.
    Publish,
    /// Notify the listeners.
    Notify,
}

/// The sending of one message.
#[derive(Debug)]
pub enum SendState {
    /// A sample is to be loaned.
    Loaning {
        /// The serialized size of the message.
        size: usize,
        /// Whether listeners are notified in the end.
        notifies: bool,
    },
    /// The message is to be written into the sample.
    Serializing {
        /// Whether listeners are notified in the end.
        notifies: bool,
    },
    /// The sample is to be sent.
    Publishing {
        /// Whether listeners are notified in the end.
        notifies: bool,
    },
    /// The sample is sent; listeners are to be notified.
    Notifying,
    /// It is decided.
    Finished {
        /// Whether the message was sent.
        result: Result<(), SendError>,
        /// The counter to increment, if any.
        count: Option<Counter>,
    },
}

impl SendState {
    /// The end of a sending that succeeded.
    pub open spec fn sent() -> SendState {
        SendState::Finished { result: Ok(()), count: Some(Counter::Sent) }
    }

    /// The end of a sending that failed on the way.
    pub open spec fn failed(error: SendError) -> SendState {
        SendState::Finished { result: Err(error), count: None }
    }

    /// The state after the action of this one went as `outcome` says. Once the
    /// sample is sent nothing can fail: how the notification went plays no
    /// part.
    pub open spec fn next(self, outcome: Outcome) -> SendState {
        match self {
            SendState::Loaning { notifies, .. } => match outcome {
                Ok(_) => SendState::Serializing { notifies },
                Err(cause) => SendState::failed(SendError::Loan { cause }),
            },
            SendState::Serializing { notifies } => match outcome {
                Ok(_) => SendState::Publishing { notifies },
                Err(cause) => SendState::failed(SendError::Serialize { cause }),
            },
            SendState::Publishing { notifies } => match outcome {
                Ok(_) => if notifies {
                    SendState::Notifying
                } else {
                    SendState::sent()
                },
                Err(cause) => SendState::failed(SendError::Send { cause }),
            },
            SendState::Notifying => SendState::sent(),
            done => done,
        }
    }

    /// What has to be done in this state.
    pub open spec fn action_spec(self) -> Option<SendAction> {
        match self {
            SendState::Loaning { size, .. } => Some(SendAction::Loan { size }),
            SendState::Serializing { .. } => Some(SendAction::Serialize),
            SendState::Publishing { .. } => Some(SendAction::Publish),
            SendState::Notifying => Some(SendAction::Notify),
            SendState::Finished { .. } => None,
        }
    }

    /// The state after the action of this one went as `outcome` says.
    pub fn advance(self, outcome: Outcome) -> (r: SendState)
        ensures
            r == self.next(outcome),
    {
        match self {
            SendState::Loaning { size: _, notifies } => match outcome {
                Ok(_) => SendState::Serializing { notifies },
                Err(cause) => SendState::Finished {
                    result: Err(SendError::Loan { cause }),
                    count: None,
                },
            },
            SendState::Serializing { notifies } => match outcome {
                Ok(_) => SendState::Publishing { notifies },
                Err(cause) => SendState::Finished {
                    result: Err(SendError::Serialize { cause }),
                    count: None,
                },
            },
            SendState::Publishing { notifies } => match outcome {
                Ok(_) => if notifies {
                    SendState::Notifying
                } else {
                    SendState::Finished { result: Ok(()), count: Some(Counter::Sent) }
                },
                Err(cause) => SendState::Finished {
                    result: Err(SendError::Send { cause }),
                    count: None,
                },
            },
            SendState::Notifying => SendState::Finished {
                result: Ok(()),
                count: Some(Counter::Sent),
            },
            done => done,
        }
    }

    /// What has to be done in this state; nothing once it is decided.
    pub fn action(&self) -> (r: Option<SendAction>)
        ensures
            r == self.action_spec(),
    {
        match self {
            SendState::Loaning { size, notifies: _ } => Some(SendAction::Loan { size: *size }),
            SendState::Serializing { .. } => Some(SendAction::Serialize),
            SendState::Publishing { .. } => Some(SendAction::Publish),
            SendState::Notifying => Some(SendAction::Notify),
            SendState::Finished { .. } => None,
        }
    }
}

impl IpcSender {
    /// How the sending of a message starts whose serialized size is `size`.
    pub open spec fn first_send_state(self, size: Result<u64, String>) -> SendState {
        match size {
            Err(cause) => SendState::failed(SendError::Size { cause }),
            Ok(bytes) => if bytes as usize > self.max_message_size {
                SendState::Finished {
                    result: Err(
                        SendError::TooLarge { size: bytes as usize, max: self.max_message_size },
                    ),
                    count: Some(Counter::PublishFailures),
                }
            } else {
                SendState::Loaning { size: bytes as usize, notifies: self.notifies }
            },
        }
    }

    /// Starts to send a message. `size` is its serialized size, or why that
    /// could not be told. A message larger than the channel admits is refused
    /// and counted before anything is loaned.
    pub fn try_send(&self, size: Result<u64, String>) -> (r: SendState)
        ensures
            r == self.first_send_state(size),
    {
        match size {
            Err(cause) => SendState::Finished {
                result: Err(SendError::Size { cause }),
                count: None,
            },
            Ok(bytes) => {
                let size: usize = bytes as usize;
                if size > self.max_message_size {
                    SendState::Finished {
                        result: Err(SendError::TooLarge { size, max: self.max_message_size }),
                        count: Some(Counter::PublishFailures),
                    }
                } else {
                    SendState::Loaning { size, notifies: self.notifies }
                }
            },
        }
    }

    /// The state that the sending of a message of this size reaches with the
    /// first `n` outcomes.
    pub open spec fn send_reached(
        self,
        size: Result<u64, String>,
        outcomes: Seq<Outcome>,
        n: nat,
    ) -> SendState
        decreases n,
    {
        if n == 0 {
            self.first_send_state(size)
        } else {
            self.send_reached(size, outcomes, (n - 1) as nat).next(outcomes[n - 1])
        }
    }

    /// What the sending of a message comes to, where `outcomes` are those of
    /// loaning, serializing and publishing.
    pub open spec fn send_result(
        self,
        size: Result<u64, String>,
        outcomes: Seq<Outcome>,
    ) -> Result<(), SendError> {
        match size {
            Err(cause) => Err(SendError::Size { cause }),
            Ok(bytes) => if bytes as usize > self.max_message_size {
                Err(SendError::TooLarge { size: bytes as usize, max: self.max_message_size })
            } else {
                match (outcomes[0], outcomes[1], outcomes[2]) {
                    (Err(cause), _, _) => Err(SendError::Loan { cause }),
                    (Ok(_), Err(cause), _) => Err(SendError::Serialize { cause }),
                    (Ok(_), Ok(_), Err(cause)) => Err(SendError::Send { cause }),
                    _ => Ok(()),
                }
            },
        }
    }
}

/// Sending ends after at most four actions, whatever comes of them: with
/// success exactly if the message fits and was loaned a sample, written and
/// published. A message sent is counted as sent, one too large as a failure to
/// publish, and no other. The outcome of the notification, the fourth action,
/// plays no part.
pub proof fn law_send_ends_in_four_actions(
    sender: IpcSender,
    size: Result<u64, String>,
    outcomes: Seq<Outcome>,
    n: nat,
)
    requires
        4 <= n <= outcomes.len(),
    ensures
        sender.send_reached(size, outcomes, n) == (SendState::Finished {
            result: sender.send_result(size, outcomes),
            count: match sender.send_result(size, outcomes) {
                Ok(_) => Some(Counter::Sent),
                Err(SendError::TooLarge { .. }) => Some(Counter::PublishFailures),
                Err(_) => None,
            },
        }),
    decreases n,
{
    reveal_with_fuel(IpcSender::send_reached, 5);
    if n > 4 {
        law_send_ends_in_four_actions(sender, size, outcomes, (n - 1) as nat);
    }
}

/// A message whose serialized size exceeds the channel's maximum is refused
/// with nothing done for it, and no other message is refused for its size.
pub proof fn law_oversized_message_is_refused(sender: IpcSender, bytes: u64)
    requires
        bytes <= usize::MAX,
    ensures
        bytes > sender.max_message_size ==> sender.first_send_state(Ok(bytes))
            == (SendState::Finished {
            result: Err(
                SendError::TooLarge { size: bytes as usize, max: sender.max_message_size },
            ),
            count: Some(Counter::PublishFailures),
        }),
        bytes <= sender.max_message_size ==> sender.first_send_state(Ok(bytes)).action_spec()
            == Some(SendAction::Loan { size: bytes as usize }),
{
}

/// A loan never exceeds the fixed slice capacity of the channel, and has
/// exactly the serialized size of the message, so that writing the message
/// fills it.
pub proof fn law_loan_is_the_message_and_fits(
    sender: IpcSender,
    size: Result<u64, String>,
    outcomes: Seq<Outcome>,
    n: nat,
)
    requires
        n <= outcomes.len(),
        sender.send_reached(size, outcomes, n).action_spec() is Some,
        sender.send_reached(size, outcomes, n).action_spec()->Some_0 is Loan,
    ensures
        n == 0,
        size is Ok,
        sender.send_reached(size, outcomes, n).action_spec() == Some(
            SendAction::Loan { size: size->Ok_0 as usize },
        ),
        size->Ok_0 as usize <= sender.max_message_size,
{
    if n > 0 {
        let before = sender.send_reached(size, outcomes, (n - 1) as nat);
        assert(sender.send_reached(size, outcomes, n) == before.next(outcomes[n - 1]));
    }
}

/// A sample is published only after it was loaned and the message was written
/// into it without an error.
pub proof fn law_only_written_samples_are_published(
    sender: IpcSender,
    size: Result<u64, String>,
    outcomes: Seq<Outcome>,
    n: nat,
)
    requires
        n <= outcomes.len(),
        sender.send_reached(size, outcomes, n).action_spec() == Some(SendAction::Publish),
    ensures
        n == 2,
        sender.send_reached(size, outcomes, 0).action_spec() is Some,
        sender.send_reached(size, outcomes, 0).action_spec()->Some_0 is Loan,
        outcomes[0] is Ok,
        sender.send_reached(size, outcomes, 1).action_spec() == Some(SendAction::Serialize),
        outcomes[1] is Ok,
{
    reveal_with_fuel(IpcSender::send_reached, 5);
    if n >= 4 {
        law_send_ends_in_four_actions(sender, size, outcomes, n);
    }
}

/// Listeners are notified once, last of all, of a message that was published,
/// and only by a sender that was set up to do so.
pub proof fn law_notification_follows_publication(
    sender: IpcSender,
    size: Result<u64, String>,
    outcomes: Seq<Outcome>,
    n: nat,
)
    requires
        n <= outcomes.len(),
        outcomes.len() >= 3,
    ensures
        (sender.send_reached(size, outcomes, n).action_spec() == Some(SendAction::Notify)) == (n
            == 3 && sender.notifies && sender.send_result(size, outcomes) is Ok),
{
    reveal_with_fuel(IpcSender::send_reached, 5);
    if n >= 4 {
        law_send_ends_in_four_actions(sender, size, outcomes, n);
    }
}

/// Why a sender could not be set up.
#[derive(Debug)]
pub enum SenderError {
    /// The node could not be created.
    Node {
        /// Why.
        cause: String,
    },
    /// The channel's name is no service name.
    ChannelName(NameFault),
    /// The publish/subscribe service could not be opened.
    OpenPubSub {
        /// Why.
        cause: String,
    },
    /// The publisher could not be created.
    Publisher(PortError),
    /// The event service's name is no service name.
    EventName(NameFault),
    /// The event service could not be opened.
    OpenEvent {
        /// Why.
        cause: String,
    },
    /// The notifier could not be created.
    Notifier(PortError),
}

impl SenderError {
    /// The error in words; what it was caused by is told by `cause`.
    pub open spec fn message_spec(self) -> Seq<char> {
        match self {
            SenderError::Node { .. } => "creating iceoryx2 node"@,
            SenderError::ChannelName(fault) => "ServiceNameError::"@ + fault.label_spec(),
            SenderError::OpenPubSub { .. } => "opening pub/sub service"@,
            SenderError::Publisher(error) => error.message_spec(),
            SenderError::EventName(fault) => "ServiceNameError::"@ + fault.label_spec(),
            SenderError::OpenEvent { .. } => "opening event service"@,
            SenderError::Notifier(error) => error.message_spec(),
        }
    }

    /// The error in words; what it was caused by is told by `cause`.
    pub fn message(&self) -> (r: String)
        ensures
            r@ == self.message_spec(),
    {
        match self {
            SenderError::Node { .. } => "creating iceoryx2 node".to_owned(),
            SenderError::ChannelName(fault) => join2("ServiceNameError::", fault.label()),
            SenderError::OpenPubSub { .. } => "opening pub/sub service".to_owned(),
            SenderError::Publisher(error) => error.message(),
            SenderError::EventName(fault) => join2("ServiceNameError::", fault.label()),
            SenderError::OpenEvent { .. } => "opening event service".to_owned(),
            SenderError::Notifier(error) => error.message(),
        }
    }

    /// What the error was caused by, where its own words leave it out.
    pub open spec fn cause_spec(self) -> Option<Seq<char>> {
        match self {
            SenderError::Node { cause } => Some(cause@),
            SenderError::OpenPubSub { cause } => Some(cause@),
            SenderError::OpenEvent { cause } => Some(cause@),
            _ => None,
        }
    }

    /// What the error was caused by, where its own words leave it out.
    pub fn cause(&self) -> (r: Option<&str>)
        ensures
            match r {
                Some(text) => self.cause_spec() == Some(text@),
                None => self.cause_spec() is None,
            },
    {
        match self {
            SenderError::Node { cause } => Some(cause.as_str()),
            SenderError::OpenPubSub { cause } => Some(cause.as_str()),
            SenderError::OpenEvent { cause } => Some(cause.as_str()),
            _ => None,
        }
    }
}

/// How the memory of a publisher grows when a sample does not fit.
#[derive(Debug, Clone, Copy, PartialEq, Eq, Structural)]
pub enum Allocation {
    /// To the size that is needed.
    BestFit,
    /// To the next power of two.
    PowerOfTwo,
    /// Not at all: the capacity of a sample is fixed.
    Static,
}

/// What has to be done to set a sender up.
#[derive(Debug)]
pub enum SenderAction {
    /// Remove what dead nodes left behind.
    SweepDeadNodes,
    /// Create the node.
    CreateNode,
    /// Open or create the publish/subscribe service.
    OpenPubSub {
        /// The name of the service.
        service: String,
        /// What to ask for.
        qos: ServiceQos,
    },
    /// Create the publisher.
    CreatePublisher {
        /// How many bytes a sample holds.
        initial_max_slice_len: usize,
        /// How that grows.
        allocation: Allocation,
    },
    /// Open or create the event service.
    OpenEvent {
        /// The name of the service.
        service: String,
    },
    /// Create the notifier.
    CreateNotifier,
}

/// How far the setup of a sender has come.
#[derive(Debug)]
pub enum SenderStage {
    /// The node is being created.
    Node(NodeCreation),
    /// The publish/subscribe service is to be opened.
    OpeningPubSub,
    /// The publisher is being created.
    Publisher(PortCreation),
    /// The event service is to be opened.
    OpeningEvent,
    /// The notifier is being created.
    Notifier(PortCreation),
    /// All is there.
    Ready,
    /// It failed.
    Failed(SenderError),
}

/// The setup of a sender.
#[derive(Debug)]
pub struct SenderSetup {
    /// The name of the channel, and of its publish/subscribe service.
    pub channel: String,
    /// The name of the event service whose listeners are to be notified of
    /// each message, if any are.
    pub event_service: Option<String>,
    /// What to ask of the publish/subscribe service.
    pub qos: ServiceQos,
    /// The largest serialized size that a message may have.
    pub max_message_size: usize,
    /// How far it has come.
    pub stage: SenderStage,
}

/// The stage that follows a step in the creation of the node.
pub open spec fn after_node(node: NodeCreation, channel: Seq<char>) -> SenderStage {
    match node {
        NodeCreation::Created => match crate::service::name_fault(channel) {
            Some(fault) => SenderStage::Failed(SenderError::ChannelName(fault)),
            None => SenderStage::OpeningPubSub,
        },
        NodeCreation::Failed { cause } => SenderStage::Failed(SenderError::Node { cause }),
        creating => SenderStage::Node(creating),
    }
}

/// The stage that follows a step in the creation of the publisher.
pub open spec fn after_publisher(
    port: PortCreation,
    event_service: Option<Seq<char>>,
) -> SenderStage {
    match port {
        PortCreation::Created => match event_service {
            None => SenderStage::Ready,
            Some(service) => match crate::service::name_fault(service) {
                Some(fault) => SenderStage::Failed(SenderError::EventName(fault)),
                None => SenderStage::OpeningEvent,
            },
        },
        PortCreation::Failed(error) => SenderStage::Failed(SenderError::Publisher(error)),
        creating => SenderStage::Publisher(creating),
    }
}

/// The stage that follows a step in the creation of the notifier.
pub open spec fn after_notifier(port: PortCreation) -> SenderStage {
    match port {
        PortCreation::Created => SenderStage::Ready,
        PortCreation::Failed(error) => SenderStage::Failed(SenderError::Notifier(error)),
        creating => SenderStage::Notifier(creating),
    }
}

impl SenderSetup {
    /// The name of the event service, if there is one.
    pub open spec fn event_view(self) -> Option<Seq<char>> {
        match self.event_service {
            Some(service) => Some(service@),
            None => None,
        }
    }

    /// The stage after the action of this setup went as `outcome` says.
    pub open spec fn next_stage(self, outcome: Outcome) -> SenderStage {
        match self.stage {
            SenderStage::Node(node) => after_node(node.next(outcome), self.channel@),
            SenderStage::OpeningPubSub => match outcome {
                Ok(_) => SenderStage::Publisher(PortCreation::Creating),
                Err(cause) => SenderStage::Failed(SenderError::OpenPubSub { cause }),
            },
            SenderStage::Publisher(port) => after_publisher(port.next(outcome), self.event_view()),
            SenderStage::OpeningEvent => match outcome {
                Ok(_) => SenderStage::Notifier(PortCreation::Creating),
                Err(cause) => SenderStage::Failed(SenderError::OpenEvent { cause }),
            },
            SenderStage::Notifier(port) => after_notifier(port.next(outcome)),
            done => done,
        }
    }

    /// The setup after its action went as `outcome` says: at the next stage,
    /// and otherwise as it was.
    pub open spec fn next(self, outcome: Outcome) -> SenderSetup {
        SenderSetup { stage: self.next_stage(outcome), ..self }
    }

    /// What has to be done at this stage.
    pub open spec fn action_spec(self) -> Option<SenderAction> {
        match self.stage {
            SenderStage::Node(node) => match node.action_spec() {
                Some(CreateAction::SweepDeadNodes) => Some(SenderAction::SweepDeadNodes),
                Some(CreateAction::Create) => Some(SenderAction::CreateNode),
                None => None,
            },
            SenderStage::OpeningPubSub => Some(
                SenderAction::OpenPubSub { service: self.channel, qos: self.qos },
            ),
            SenderStage::Publisher(port) => match port.action_spec() {
                Some(CreateAction::SweepDeadNodes) => Some(SenderAction::SweepDeadNodes),
                Some(CreateAction::Create) => Some(
                    SenderAction::CreatePublisher {
                        initial_max_slice_len: self.max_message_size,
                        allocation: Allocation::Static,
                    },
                ),
                None => None,
            },
            SenderStage::OpeningEvent => match self.event_service {
                Some(service) => Some(SenderAction::OpenEvent { service }),
                None => None,
            },
            SenderStage::Notifier(port) => match port.action_spec() {
                Some(CreateAction::SweepDeadNodes) => Some(SenderAction::SweepDeadNodes),
                Some(CreateAction::Create) => Some(SenderAction::CreateNotifier),
                None => None,
            },
            _ => None,
        }
    }

    /// The setup after its action went as `outcome` says.
    pub fn advance(self, outcome: Outcome) -> (r: SenderSetup)
        ensures
            r == self.next(outcome),
    {
        let SenderSetup { channel, event_service, qos, max_message_size, stage } = self;
        let stage = match stage {
            SenderStage::Node(node) => match node.advance(outcome) {
                NodeCreation::Created => match service_name(channel.as_str()) {
                    Ok(_) => SenderStage::OpeningPubSub,
                    Err(fault) => SenderStage::Failed(SenderError::ChannelName(fault)),
                },
                NodeCreation::Failed { cause } => SenderStage::Failed(SenderError::Node { cause }),
                creating => SenderStage::Node(creating),
            },
            SenderStage::OpeningPubSub => match outcome {
                Ok(_) => SenderStage::Publisher(create_port_with_retry()),
                Err(cause) => SenderStage::Failed(SenderError::OpenPubSub { cause }),
            },
            SenderStage::Publisher(port) => match port.advance(outcome) {
                PortCreation::Created => match &event_service {
                    None => SenderStage::Ready,
                    Some(service) => match service_name(service.as_str()) {
                        Ok(_) => SenderStage::OpeningEvent,
                        Err(fault) => SenderStage::Failed(SenderError::EventName(fault)),
                    },
                },
                PortCreation::Failed(error) => SenderStage::Failed(SenderError::Publisher(error)),
                creating => SenderStage::Publisher(creating),
            },
            SenderStage::OpeningEvent => match outcome {
                Ok(_) => SenderStage::Notifier(create_port_with_retry()),
                Err(cause) => SenderStage::Failed(SenderError::OpenEvent { cause }),
            },
            SenderStage::Notifier(port) => match port.advance(outcome) {
                PortCreation::Created => SenderStage::Ready,
                PortCreation::Failed(error) => SenderStage::Failed(SenderError::Notifier(error)),
                creating => SenderStage::Notifier(creating),
            },
            done => done,
        };
        SenderSetup { channel, event_service, qos, max_message_size, stage }
    }

    /// What has to be done at this stage; nothing once it is decided.
    pub fn action(&self) -> (r: Option<SenderAction>)
        ensures
            r == self.action_spec(),
    {
        match &self.stage {
            SenderStage::Node(node) => match node.action() {
                Some(CreateAction::SweepDeadNodes) => Some(SenderAction::SweepDeadNodes),
                Some(CreateAction::Create) => Some(SenderAction::CreateNode),
                None => None,
            },
            SenderStage::OpeningPubSub => Some(
                SenderAction::OpenPubSub { service: self.channel.clone(), qos: self.qos },
            ),
            SenderStage::Publisher(port) => match port.action() {
                Some(CreateAction::SweepDeadNodes) => Some(SenderAction::SweepDeadNodes),
                Some(CreateAction::Create) => Some(
                    SenderAction::CreatePublisher {
                        initial_max_slice_len: self.max_message_size,
                        allocation: Allocation::Static,
                    },
                ),
                None => None,
            },
            SenderStage::OpeningEvent => match &self.event_service {
                Some(service) => Some(SenderAction::OpenEvent { service: service.clone() }),
                None => None,
            },
            SenderStage::Notifier(port) => match port.action() {
                Some(CreateAction::SweepDeadNodes) => Some(SenderAction::SweepDeadNodes),
                Some(CreateAction::Create) => Some(SenderAction::CreateNotifier),
                None => None,
            },
            _ => None,
        }
    }

    /// What the setup came to: the sender, or why there is none; nothing as
    /// long as it is not decided.
    pub open spec fn outcome_spec(self) -> Option<Result<IpcSender, SenderError>> {
        match self.stage {
            SenderStage::Ready => Some(
                Ok(
                    IpcSender {
                        channel: self.channel,
                        max_message_size: self.max_message_size,
                        notifies: self.event_service is Some,
                    },
                ),
            ),
            SenderStage::Failed(error) => Some(Err(error)),
            _ => None,
        }
    }

    /// What the setup came to: the sender, or why there is none; nothing as
    /// long as it is not decided.
    pub fn outcome(self) -> (r: Option<Result<IpcSender, SenderError>>)
        ensures
            r == self.outcome_spec(),
    {
        match self.stage {
            SenderStage::Ready => Some(
                Ok(
                    IpcSender {
                        channel: self.channel,
                        max_message_size: self.max_message_size,
                        notifies: self.event_service.is_some(),
                    },
                ),
            ),
            SenderStage::Failed(error) => Some(Err(error)),
            _ => None,
        }
    }
}

impl IpcSender {
    /// Starts to set up a sender on `channel`.
    pub fn new(channel: &str, cfg: &IpcConfig) -> (r: SenderSetup)
        ensures
            r.channel@ == channel@,
            r.event_service is None,
            r.qos == cfg.qos_spec(),
            r.max_message_size == cfg.max_message_size,
            r.is_fresh(),
    {
        SenderSetup {
            channel: channel.to_owned(),
            event_service: None,
            qos: cfg.qos(),
            max_message_size: cfg.max_message_size,
            stage: SenderStage::Node(create_node()),
        }
    }

    /// Starts to set up a sender on `channel` that notifies the listeners of
    /// an event service of each message.
    pub fn with_event_service(channel: &str, cfg: &IpcConfig, event_service: &str) -> (r:
        SenderSetup)
        ensures
            r.channel@ == channel@,
            r.event_view() == Some(event_service@),
            r.event_service matches Some(service) && service@ == event_service@,
            r.qos == cfg.qos_spec(),
            r.max_message_size == cfg.max_message_size,
            r.is_fresh(),
    {
        let mut setup = IpcSender::new(channel, cfg);
        setup.event_service = Some(event_service.to_owned());
        setup
    }
}

impl SenderSetup {
    /// Whether nothing was done yet.
    pub open spec fn is_fresh(self) -> bool {
        self.stage == SenderStage::Node(NodeCreation::Sweeping)
    }

    /// The setup that this one becomes with the first `n` outcomes.
    pub open spec fn reached(self, outcomes: Seq<Outcome>, n: nat) -> SenderSetup
        decreases n,
    {
        if n == 0 {
            self
        } else {
            self.reached(outcomes, (n - 1) as nat).next(outcomes[n - 1])
        }
    }

    /// What a fresh setup comes to, where `outcomes` are those of its actions,
    /// in order: the sweep, the node, the service, one or three for the
    /// publisher, and then, where an event service is asked for, those of
    /// `event_result`.
    pub open spec fn result(self, outcomes: Seq<Outcome>) -> Result<(), SenderError> {
        let publisher = outcomes.skip(3);
        match outcomes[1] {
            Err(cause) => Err(SenderError::Node { cause }),
            Ok(_) => match crate::service::name_fault(self.channel@) {
                Some(fault) => Err(SenderError::ChannelName(fault)),
                None => match outcomes[2] {
                    Err(cause) => Err(SenderError::OpenPubSub { cause }),
                    Ok(_) => match crate::node::port_result(publisher) {
                        Err(error) => Err(SenderError::Publisher(error)),
                        Ok(_) => self.event_result(
                            publisher.skip(crate::node::port_steps(publisher) as int),
                        ),
                    },
                },
            },
        }
    }

    /// What the rest of a setup comes to once the publisher is there, where
    /// `outcomes` are those of its actions: the event service, and one or three
    /// for the notifier.
    pub open spec fn event_result(self, outcomes: Seq<Outcome>) -> Result<(), SenderError> {
        match self.event_view() {
            None => Ok(()),
            Some(service) => match crate::service::name_fault(service) {
                Some(fault) => Err(SenderError::EventName(fault)),
                None => match outcomes[0] {
                    Err(cause) => Err(SenderError::OpenEvent { cause }),
                    Ok(_) => match crate::node::port_result(outcomes.skip(1)) {
                        Err(error) => Err(SenderError::Notifier(error)),
                        Ok(_) => Ok(()),
                    },
                },
            },
        }
    }

    /// Whether the services that this stage has to do with have names that
    /// iceoryx2 takes.
    pub open spec fn names_checked(self) -> bool {
        match self.stage {
            SenderStage::Node(_) | SenderStage::Failed(_) => true,
            SenderStage::OpeningPubSub | SenderStage::Publisher(_) => {
                crate::service::is_service_name(self.channel@)
            },
            SenderStage::OpeningEvent | SenderStage::Notifier(_) => {
                &&& crate::service::is_service_name(self.channel@)
                &&& self.event_view() matches Some(service)
                &&& crate::service::is_service_name(service)
            },
            SenderStage::Ready => {
                &&& crate::service::is_service_name(self.channel@)
                &&& self.event_view() matches Some(service)
                    ==> crate::service::is_service_name(service)
            },
        }
    }
}

proof fn lemma_reached_step(setup: SenderSetup, outcomes: Seq<Outcome>, n: nat)
    ensures
        setup.reached(outcomes, n + 1) == setup.reached(outcomes, n).next(outcomes[n as int]),
{
}

/// A decided setup stays as it is.
proof fn lemma_decided_setup_stays(setup: SenderSetup, outcomes: Seq<Outcome>, m: nat, n: nat)
    requires
        m <= n,
        setup.reached(outcomes, m).outcome_spec() is Some,
    ensures
        setup.reached(outcomes, n) == setup.reached(outcomes, m),
    decreases n,
{
    if m < n {
        lemma_decided_setup_stays(setup, outcomes, m, (n - 1) as nat);
    }
}

/// Setting up changes neither the channel nor what is asked of its services.
pub proof fn law_setup_keeps_settings(setup: SenderSetup, outcomes: Seq<Outcome>, n: nat)
    requires
        n <= outcomes.len(),
    ensures
        setup.reached(outcomes, n).channel == setup.channel,
        setup.reached(outcomes, n).event_service == setup.event_service,
        setup.reached(outcomes, n).qos == setup.qos,
        setup.reached(outcomes, n).max_message_size == setup.max_message_size,
    decreases n,
{
    if n > 0 {
        law_setup_keeps_settings(setup, outcomes, (n - 1) as nat);
    }
}

/// No service is opened and no port created under a name that iceoryx2 does
/// not take.
pub proof fn law_setup_opens_only_valid_names(setup: SenderSetup, outcomes: Seq<Outcome>, n: nat)
    requires
        n <= outcomes.len(),
        setup.names_checked(),
    ensures
        setup.reached(outcomes, n).names_checked(),
        setup.reached(outcomes, n).action_spec() matches Some(
            SenderAction::OpenPubSub { service, qos },
        ) ==> {
            &&& crate::service::is_service_name(service@)
            &&& service == setup.channel
            &&& qos == setup.qos
        },
        setup.reached(outcomes, n).action_spec() matches Some(
            SenderAction::OpenEvent { service },
        ) ==> {
            &&& crate::service::is_service_name(service@)
            &&& Some(service) == setup.event_service
        },
    decreases n,
{
    law_setup_keeps_settings(setup, outcomes, n);
    if n > 0 {
        law_setup_opens_only_valid_names(setup, outcomes, (n - 1) as nat);
    }
}

/// Dead nodes are swept before anything else is done, and the node is created
/// right after.
pub proof fn law_setup_sweeps_first(setup: SenderSetup, outcomes: Seq<Outcome>)
    requires
        setup.is_fresh(),
        outcomes.len() >= 1,
    ensures
        setup.reached(outcomes, 0).action_spec() == Some(SenderAction::SweepDeadNodes),
        setup.reached(outcomes, 1).action_spec() == Some(SenderAction::CreateNode),
{
    reveal_with_fuel(SenderSetup::reached, 2);
}

/// The creation of a port takes one action or three, and comes to what
/// `port_result` says.
proof fn lemma_publisher(setup: SenderSetup, outcomes: Seq<Outcome>, m: nat)
    requires
        m + 3 <= outcomes.len(),
        setup.reached(outcomes, m).stage == SenderStage::Publisher(PortCreation::Creating),
    ensures
        ({
            let port = outcomes.skip(m as int);
            let end = setup.reached(outcomes, m + crate::node::port_steps(port)).stage;
            match crate::node::port_result(port) {
                Ok(_) => end == after_publisher(PortCreation::Created, setup.event_view()),
                Err(error) => end == SenderStage::Failed(SenderError::Publisher(error)),
            }
        }),
{
    let port = outcomes.skip(m as int);
    law_setup_keeps_settings(setup, outcomes, m);
    law_setup_keeps_settings(setup, outcomes, m + 1);
    law_setup_keeps_settings(setup, outcomes, m + 2);
    lemma_reached_step(setup, outcomes, m);
    lemma_reached_step(setup, outcomes, m + 1);
    lemma_reached_step(setup, outcomes, m + 2);
    assert(port[0] == outcomes[m as int]);
    assert(port[2] == outcomes[(m + 2) as int]);
}

/// The like for the notifier.
proof fn lemma_notifier(setup: SenderSetup, outcomes: Seq<Outcome>, m: nat)
    requires
        m + 3 <= outcomes.len(),
        setup.reached(outcomes, m).stage == SenderStage::Notifier(PortCreation::Creating),
    ensures
        ({
            let port = outcomes.skip(m as int);
            let end = setup.reached(outcomes, m + crate::node::port_steps(port)).stage;
            match crate::node::port_result(port) {
                Ok(_) => end == SenderStage::Ready,
                Err(error) => end == SenderStage::Failed(SenderError::Notifier(error)),
            }
        }),
{
    let port = outcomes.skip(m as int);
    lemma_reached_step(setup, outcomes, m);
    lemma_reached_step(setup, outcomes, m + 1);
    lemma_reached_step(setup, outcomes, m + 2);
    assert(port[0] == outcomes[m as int]);
    assert(port[2] == outcomes[(m + 2) as int]);
}

/// Setting up a sender ends after at most ten actions, whatever comes of them,
/// and comes to what `result` says: the first thing that went wrong for good
/// is the error, and a sender is there if nothing did. A port that could not
/// be created at first and could after a sweep has not gone wrong.
pub proof fn law_setup_ends_in_ten_actions(setup: SenderSetup, outcomes: Seq<Outcome>, n: nat)
    requires
        setup.is_fresh(),
        10 <= n <= outcomes.len(),
    ensures
        setup.reached(outcomes, n).stage == match setup.result(outcomes) {
            Ok(_) => SenderStage::Ready,
            Err(error) => SenderStage::Failed(error),
        },
        setup.reached(outcomes, n).outcome_spec() == Some(
            match setup.result(outcomes) {
                Ok(_) => Ok(
                    IpcSender {
                        channel: setup.channel,
                        max_message_size: setup.max_message_size,
                        notifies: setup.event_service is Some,
                    },
                ),
                Err(error) => Err(error),
            },
        ),
        setup.reached(outcomes, n).action_spec() is None,
{
    law_setup_keeps_settings(setup, outcomes, n);
    law_setup_keeps_settings(setup, outcomes, 1);
    law_setup_keeps_settings(setup, outcomes, 2);
    lemma_reached_step(setup, outcomes, 0);
    lemma_reached_step(setup, outcomes, 1);
    lemma_reached_step(setup, outcomes, 2);
    let s2 = setup.reached(outcomes, 2);
    if s2.outcome_spec() is Some {
        lemma_decided_setup_stays(setup, outcomes, 2, n);
    } else {
        let s3 = setup.reached(outcomes, 3);
        if s3.outcome_spec() is Some {
            lemma_decided_setup_stays(setup, outcomes, 3, n);
        } else {
            lemma_publisher(setup, outcomes, 3);
            let m = 3 + crate::node::port_steps(outcomes.skip(3));
            law_setup_keeps_settings(setup, outcomes, m);
            if setup.reached(outcomes, m).outcome_spec() is Some {
                lemma_decided_setup_stays(setup, outcomes, m, n);
            } else {
                lemma_reached_step(setup, outcomes, m);
                if setup.reached(outcomes, m + 1).outcome_spec() is Some {
                    lemma_decided_setup_stays(setup, outcomes, m + 1, n);
                } else {
                    lemma_notifier(setup, outcomes, m + 1);
                    assert(outcomes.skip(3).skip((m - 3) as int).skip(1) =~= outcomes.skip(
                        (m + 1) as int,
                    ));
                    let e = m + 1 + crate::node::port_steps(outcomes.skip((m + 1) as int));
                    lemma_decided_setup_stays(setup, outcomes, e, n);
                }
            }
        }
    }
}

/// The samples of a channel hold exactly as many bytes as the largest message
/// that its sender admits, and that is fixed, so that every message that is not refused for its
/// size fits into a sample.
pub proof fn law_samples_hold_what_the_sender_admits(
    setup: SenderSetup,
    outcomes: Seq<Outcome>,
    m: nat,
    n: nat,
    size: Result<u64, String>,
)
    requires
        m <= outcomes.len(),
        n <= outcomes.len(),
        setup.reached(outcomes, m).action_spec() is Some,
        setup.reached(outcomes, m).action_spec()->Some_0 is CreatePublisher,
        setup.reached(outcomes, n).outcome_spec() is Some,
        setup.reached(outcomes, n).outcome_spec()->Some_0 is Ok,
    ensures
        ({
            let holds = setup.reached(outcomes, m).action_spec()->Some_0->initial_max_slice_len;
            let sender = setup.reached(outcomes, n).outcome_spec()->Some_0->Ok_0;
            &&& setup.reached(outcomes, m).action_spec()->Some_0->allocation is Static
            &&& sender.max_message_size == holds
            &&& sender.first_send_state(size).action_spec() matches Some(
                SendAction::Loan { size: loaned },
            ) ==> loaned <= holds
        }),
{
    law_setup_keeps_settings(setup, outcomes, m);
    law_setup_keeps_settings(setup, outcomes, n);
}

/// A sender that was set up sends on the channel that was asked for, and
/// notifies listeners exactly if an event service was asked for.
pub proof fn law_sender_is_the_one_asked_for(setup: SenderSetup, outcomes: Seq<Outcome>, n: nat)
    requires
        n <= outcomes.len(),
        setup.reached(outcomes, n).outcome_spec() is Some,
        setup.reached(outcomes, n).outcome_spec()->Some_0 is Ok,
    ensures
        setup.reached(outcomes, n).outcome_spec() == Some(
            Ok::<IpcSender, SenderError>(
                IpcSender {
                    channel: setup.channel,
                    max_message_size: setup.max_message_size,
                    notifies: setup.event_service is Some,
                },
            ),
        ),
{
    law_setup_keeps_settings(setup, outcomes, n);
}

impl SenderSetup {
    /// Whether a setup that is not decided has something to be done.
    spec fn has_a_next_step(self) -> bool {
        match self.stage {
            SenderStage::Node(node) => node.action_spec() is Some,
            SenderStage::OpeningPubSub => true,
            SenderStage::Publisher(port) => port.action_spec() is Some,
            SenderStage::OpeningEvent => self.event_service is Some,
            SenderStage::Notifier(port) => port.action_spec() is Some,
            SenderStage::Ready | SenderStage::Failed(_) => true,
        }
    }
}

/// A setup is decided exactly when nothing is left to be done for it.
pub proof fn law_setup_is_decided_when_nothing_is_left(
    setup: SenderSetup,
    outcomes: Seq<Outcome>,
    n: nat,
)
    requires
        setup.is_fresh(),
        n <= outcomes.len(),
    ensures
        setup.reached(outcomes, n).action_spec() is None <==> setup.reached(
            outcomes,
            n,
        ).outcome_spec() is Some,
{
    lemma_next_step(setup, outcomes, n);
}

proof fn lemma_next_step(setup: SenderSetup, outcomes: Seq<Outcome>, n: nat)
    requires
        setup.is_fresh(),
    ensures
        setup.reached(outcomes, n).has_a_next_step(),
    decreases n,
{
    if n > 0 {
        lemma_next_step(setup, outcomes, (n - 1) as nat);
        lemma_reached_step(setup, outcomes, (n - 1) as nat);
    }
}

/// A message that has no size, or is larger than the channel admits, is answered
/// at once: nothing is done for it then or later.
pub proof fn law_refused_message_is_left_alone(
    sender: IpcSender,
    size: Result<u64, String>,
    outcomes: Seq<Outcome>,
    n: nat,
)
    requires
        n <= outcomes.len(),
    ensures
        size matches Err(cause) ==> sender.send_reached(size, outcomes, n) == (
        SendState::Finished { result: Err(SendError::Size { cause }), count: None }),
        size matches Ok(bytes) ==> bytes as usize > sender.max_message_size
            ==> sender.send_reached(size, outcomes, n) == (SendState::Finished {
            result: Err(
                SendError::TooLarge { size: bytes as usize, max: sender.max_message_size },
            ),
            count: Some(Counter::PublishFailures),
        }),
    decreases n,
{
    if n > 0 {
        law_refused_message_is_left_alone(sender, size, outcomes, (n - 1) as nat);
    }
}

/// For a message that fits, a sample of exactly its size is loaned. If that
/// fails, this is the answer, and nothing more is done. Otherwise the message is
/// written into the sample; if that fails, this is the answer. Otherwise the
/// sample is published; if that fails, this is the answer.
pub proof fn law_send_loans_writes_and_publishes(
    sender: IpcSender,
    bytes: u64,
    outcomes: Seq<Outcome>,
    n: nat,
)
    requires
        bytes as usize <= sender.max_message_size,
        3 <= n <= outcomes.len(),
    ensures
        ({
            let at = |k: nat| sender.send_reached(Ok(bytes), outcomes, k);
            &&& at(0).action_spec() == Some(SendAction::Loan { size: bytes as usize })
            &&& outcomes[0] matches Err(cause) ==> {
                &&& at(1) == (SendState::Finished {
                    result: Err(SendError::Loan { cause }),
                    count: None,
                })
                &&& at(n) == at(1)
            }
            &&& outcomes[0] is Ok ==> at(1).action_spec() == Some(SendAction::Serialize)
            &&& outcomes[0] is Ok ==> (outcomes[1] matches Err(cause) ==> {
                &&& at(2) == (SendState::Finished {
                    result: Err(SendError::Serialize { cause }),
                    count: None,
                })
                &&& at(n) == at(2)
            })
            &&& outcomes[0] is Ok && outcomes[1] is Ok ==> at(2).action_spec() == Some(
                SendAction::Publish,
            )
            &&& outcomes[0] is Ok && outcomes[1] is Ok ==> (outcomes[2] matches Err(cause) ==> at(n)
                == (SendState::Finished { result: Err(SendError::Send { cause }), count: None }))
        }),
    decreases n,
{
    reveal_with_fuel(IpcSender::send_reached, 4);
    if n > 3 {
        law_send_loans_writes_and_publishes(sender, bytes, outcomes, (n - 1) as nat);
    }
}

/// A message that fits and was loaned a sample, written and published is sent,
/// and counted as sent. Before that the listeners are notified, exactly if the
/// sender was set up to do so, and whatever comes of it.
pub proof fn law_published_message_is_sent_and_counted(
    sender: IpcSender,
    bytes: u64,
    outcomes: Seq<Outcome>,
    n: nat,
)
    requires
        bytes as usize <= sender.max_message_size,
        4 <= n <= outcomes.len(),
        outcomes[0] is Ok,
        outcomes[1] is Ok,
        outcomes[2] is Ok,
    ensures
        ({
            let at = |k: nat| sender.send_reached(Ok(bytes), outcomes, k);
            let sent = SendState::Finished { result: Ok(()), count: Some(Counter::Sent) };
            &&& sender.notifies ==> at(3).action_spec() == Some(SendAction::Notify)
            &&& !sender.notifies ==> at(3) == sent
            &&& at(n) == sent
        }),
    decreases n,
{
    reveal_with_fuel(IpcSender::send_reached, 5);
    if n > 4 {
        law_published_message_is_sent_and_counted(sender, bytes, outcomes, (n - 1) as nat);
    }
}

/// Nothing is left to be done for a message exactly if its answer is there, and
/// an answer stays as it is, whatever is said to have happened later.
pub proof fn law_answer_is_final(state: SendState, outcome: Outcome)
    ensures
        state.action_spec() is None <==> state is Finished,
        state is Finished ==> state.next(outcome) == state,
{
}

/// A message is answered with success only after a sample of its size was
/// loaned, the message was written into it and it was published, each of which
/// succeeded; and exactly then it is counted as sent.
pub proof fn law_success_means_published(
    sender: IpcSender,
    size: Result<u64, String>,
    outcomes: Seq<Outcome>,
    n: nat,
)
    requires
        n <= outcomes.len(),
        sender.send_reached(size, outcomes, n) is Finished,
        sender.send_reached(size, outcomes, n)->result is Ok,
    ensures
        n >= 3,
        size is Ok,
        sender.send_reached(size, outcomes, 0).action_spec() == Some(
            SendAction::Loan { size: size->Ok_0 as usize },
        ),
        outcomes[0] is Ok,
        sender.send_reached(size, outcomes, 1).action_spec() == Some(SendAction::Serialize),
        outcomes[1] is Ok,
        sender.send_reached(size, outcomes, 2).action_spec() == Some(SendAction::Publish),
        outcomes[2] is Ok,
        sender.send_reached(size, outcomes, n)->count == Some(Counter::Sent),
{
    reveal_with_fuel(IpcSender::send_reached, 4);
    if size is Err || size->Ok_0 as usize > sender.max_message_size {
        law_refused_message_is_left_alone(sender, size, outcomes, n);
    } else if n >= 3 {
        law_send_loans_writes_and_publishes(sender, size->Ok_0, outcomes, n);
        if n >= 4 {
            law_published_message_is_sent_and_counted(sender, size->Ok_0, outcomes, n);
        }
    }
}

/// The words of an error in sending: what failed, and why; of a message that is
/// too large, its size and the largest that is admitted.
pub proof fn law_send_errors_say_what_failed(error: SendError)
    ensures
        error matches SendError::Size { cause } ==> error.message_spec() == "serialized_size: "@
            + cause@,
        error matches SendError::TooLarge { size, max } ==> error.message_spec() == "message size "@
            + crate::text::decimal_text(size as nat) + " exceeds max "@ + crate::text::decimal_text(
            max as nat,
        ),
        error matches SendError::Loan { cause } ==> error.message_spec() == "loan: "@ + cause@,
        error matches SendError::Serialize { cause } ==> error.message_spec() == "serialize: "@
            + cause@,
        error matches SendError::Send { cause } ==> error.message_spec() == "send: "@ + cause@,
{
}

/// The words of an error in setting up, and what it was caused by where the
/// words leave it out.
pub proof fn law_sender_errors_say_what_failed(error: SenderError)
    ensures
        error matches SenderError::Node { cause } ==> error.message_spec()
            == "creating iceoryx2 node"@ && error.cause_spec() == Some(cause@),
        error matches SenderError::OpenPubSub { cause } ==> error.message_spec()
            == "opening pub/sub service"@ && error.cause_spec() == Some(cause@),
        error matches SenderError::OpenEvent { cause } ==> error.message_spec()
            == "opening event service"@ && error.cause_spec() == Some(cause@),
        error matches SenderError::ChannelName(fault) ==> error.message_spec()
            == "ServiceNameError::"@ + fault.label_spec() && error.cause_spec() is None,
        error matches SenderError::EventName(fault) ==> error.message_spec()
            == "ServiceNameError::"@ + fault.label_spec() && error.cause_spec() is None,
        error matches SenderError::Publisher(port) ==> error.message_spec() == port.message_spec()
            && error.cause_spec() is None,
        error matches SenderError::Notifier(port) ==> error.message_spec() == port.message_spec()
            && error.cause_spec() is None,
{
}

/// A setup comes to a sender exactly once all is there, and to an error exactly
/// once it failed, with what it failed with; and a setup that came to either
/// stays as it is.
pub proof fn law_setup_answers_as_it_ended(setup: SenderSetup, outcome: Outcome)
    ensures
        setup.outcome_spec() is Some <==> setup.stage is Ready || setup.stage is Failed,
        setup.outcome_spec() matches Some(answer) ==> {
            &&& answer is Ok <==> setup.stage is Ready
            &&& answer matches Err(error) ==> setup.stage == SenderStage::Failed(error)
            &&& setup.next(outcome) == setup
            &&& setup.action_spec() is None
        },
{
}

/// The node: dead nodes are swept, then the node is created. If that fails, the
/// setup fails with it and nothing more is done.
pub proof fn law_setup_creates_the_node(setup: SenderSetup, outcomes: Seq<Outcome>, n: nat)
    requires
        setup.stage == SenderStage::Node(NodeCreation::Sweeping),
        2 <= n <= outcomes.len(),
    ensures
        setup.reached(outcomes, 0).action_spec() == Some(SenderAction::SweepDeadNodes),
        setup.reached(outcomes, 1).action_spec() == Some(SenderAction::CreateNode),
        outcomes[1] matches Err(cause) ==> {
            &&& setup.reached(outcomes, n).action_spec() is None
            &&& setup.reached(outcomes, n).outcome_spec() == Some(
                Err::<IpcSender, SenderError>(SenderError::Node { cause }),
            )
        },
{
    law_setup_keeps_settings(setup, outcomes, 1);
    lemma_reached_step(setup, outcomes, 0);
    lemma_reached_step(setup, outcomes, 1);
    if outcomes[1] is Err {
        lemma_decided_setup_stays(setup, outcomes, 2, n);
    }
}

/// The service: once the node is there, the service of the channel is opened as
/// configured, if the channel's name is one that iceoryx2 takes. If it is not,
/// or if opening fails, the setup fails with that and nothing more is done.
pub proof fn law_setup_opens_the_service(setup: SenderSetup, outcomes: Seq<Outcome>, n: nat)
    requires
        setup.stage == SenderStage::Node(NodeCreation::Sweeping),
        3 <= n <= outcomes.len(),
        outcomes[1] is Ok,
    ensures
        crate::service::name_fault(setup.channel@) matches Some(fault) ==> {
            &&& setup.reached(outcomes, 2).action_spec() is None
            &&& setup.reached(outcomes, n).action_spec() is None
            &&& setup.reached(outcomes, n).outcome_spec() == Some(
                Err::<IpcSender, SenderError>(SenderError::ChannelName(fault)),
            )
        },
        crate::service::is_service_name(setup.channel@) ==> setup.reached(
            outcomes,
            2,
        ).action_spec() == Some(
            SenderAction::OpenPubSub { service: setup.channel, qos: setup.qos },
        ),
        crate::service::is_service_name(setup.channel@) ==> (outcomes[2] matches Err(cause) ==> {
            &&& setup.reached(outcomes, n).action_spec() is None
            &&& setup.reached(outcomes, n).outcome_spec() == Some(
                Err::<IpcSender, SenderError>(SenderError::OpenPubSub { cause }),
            )
        }),
{
    law_setup_keeps_settings(setup, outcomes, 1);
    law_setup_keeps_settings(setup, outcomes, 2);
    lemma_reached_step(setup, outcomes, 0);
    lemma_reached_step(setup, outcomes, 1);
    lemma_reached_step(setup, outcomes, 2);
    if !crate::service::is_service_name(setup.channel@) {
        lemma_decided_setup_stays(setup, outcomes, 2, n);
    } else if outcomes[2] is Err {
        lemma_decided_setup_stays(setup, outcomes, 3, n);
    }
}

/// The publisher: once the service is there, the publisher is created, with
/// samples of the largest message size that do not grow. If that fails, dead
/// nodes are swept and it is created again in the same way; if that fails too,
/// the setup fails with both causes and nothing more is done.
pub proof fn law_setup_creates_the_publisher(setup: SenderSetup, outcomes: Seq<Outcome>, n: nat)
    requires
        setup.stage == SenderStage::Node(NodeCreation::Sweeping),
        6 <= n <= outcomes.len(),
        outcomes[1] is Ok,
        outcomes[2] is Ok,
        crate::service::is_service_name(setup.channel@),
    ensures
        ({
            let create = Some(
                SenderAction::CreatePublisher {
                    initial_max_slice_len: setup.max_message_size,
                    allocation: Allocation::Static,
                },
            );
            &&& setup.reached(outcomes, 3).action_spec() == create
            &&& outcomes[3] is Err ==> setup.reached(outcomes, 4).action_spec() == Some(
                SenderAction::SweepDeadNodes,
            )
            &&& outcomes[3] is Err ==> setup.reached(outcomes, 5).action_spec() == create
            &&& outcomes[3] matches Err(first) ==> (outcomes[5] matches Err(second) ==> {
                &&& setup.reached(outcomes, n).action_spec() is None
                &&& setup.reached(outcomes, n).outcome_spec() == Some(
                    Err::<IpcSender, SenderError>(
                        SenderError::Publisher(PortError { first, second }),
                    ),
                )
            })
        }),
{
    lemma_six_steps(setup, outcomes);
    if outcomes[3] is Err && outcomes[5] is Err {
        lemma_decided_setup_stays(setup, outcomes, 6, n);
    }
}

proof fn lemma_six_steps(setup: SenderSetup, outcomes: Seq<Outcome>)
    requires
        outcomes.len() >= 6,
    ensures
        setup.reached(outcomes, 0) == setup,
        setup.reached(outcomes, 1) == setup.reached(outcomes, 0).next(outcomes[0]),
        setup.reached(outcomes, 2) == setup.reached(outcomes, 1).next(outcomes[1]),
        setup.reached(outcomes, 3) == setup.reached(outcomes, 2).next(outcomes[2]),
        setup.reached(outcomes, 4) == setup.reached(outcomes, 3).next(outcomes[3]),
        setup.reached(outcomes, 5) == setup.reached(outcomes, 4).next(outcomes[4]),
        setup.reached(outcomes, 6) == setup.reached(outcomes, 5).next(outcomes[5]),
        forall|k: nat|
            k <= 6 ==> (#[trigger] setup.reached(outcomes, k)).channel == setup.channel
                && setup.reached(outcomes, k).event_service == setup.event_service
                && setup.reached(outcomes, k).qos == setup.qos && setup.reached(
                outcomes,
                k,
            ).max_message_size == setup.max_message_size,
{
    reveal_with_fuel(SenderSetup::reached, 7);
    assert forall|k: nat| k <= 6 implies (#[trigger] setup.reached(outcomes, k)).channel
        == setup.channel && setup.reached(outcomes, k).event_service == setup.event_service
        && setup.reached(outcomes, k).qos == setup.qos && setup.reached(
        outcomes,
        k,
    ).max_message_size == setup.max_message_size by {
        law_setup_keeps_settings(setup, outcomes, k);
    }
}

/// Whether the publisher of a setup is there after exactly `p` actions: created
/// at once, or at the second attempt.
pub open spec fn publisher_after(setup: SenderSetup, outcomes: Seq<Outcome>, p: nat) -> bool {
    &&& setup.stage == SenderStage::Node(NodeCreation::Sweeping)
    &&& crate::service::is_service_name(setup.channel@)
    &&& outcomes[1] is Ok
    &&& outcomes[2] is Ok
    &&& (p == 4 && outcomes[3] is Ok) || (p == 6 && outcomes[3] is Err && outcomes[5] is Ok)
}

/// The sender: once the publisher is there, at the first attempt or the second,
/// a setup without an event service is done, and hands out a sender on the
/// channel that was asked for, which notifies nobody.
pub proof fn law_setup_hands_out_the_sender(
    setup: SenderSetup,
    outcomes: Seq<Outcome>,
    p: nat,
    n: nat,
)
    requires
        publisher_after(setup, outcomes, p),
        setup.event_service is None,
        6 <= outcomes.len(),
        p <= n <= outcomes.len(),
    ensures
        setup.reached(outcomes, n).action_spec() is None,
        setup.reached(outcomes, n).outcome_spec() == Some(
            Ok::<IpcSender, SenderError>(
                IpcSender {
                    channel: setup.channel,
                    max_message_size: setup.max_message_size,
                    notifies: false,
                },
            ),
        ),
{
    lemma_six_steps(setup, outcomes);
    lemma_decided_setup_stays(setup, outcomes, p, n);
    law_setup_keeps_settings(setup, outcomes, n);
}

/// The notifier: where an event service is asked for, it is opened once the
/// publisher is there, if its name is one that iceoryx2 takes, and then the
/// notifier is created. If that fails, dead nodes are swept and it is created
/// again. If the name is not taken, or opening fails, or creating fails twice,
/// the setup fails with that; otherwise it hands out a sender that notifies.
pub proof fn law_setup_creates_the_notifier(
    setup: SenderSetup,
    outcomes: Seq<Outcome>,
    p: nat,
    n: nat,
)
    requires
        publisher_after(setup, outcomes, p),
        setup.event_service is Some,
        p + 4 <= n <= outcomes.len(),
        6 <= outcomes.len(),
    ensures
        ({
            let service = setup.event_service->Some_0;
            let valid = crate::service::is_service_name(service@);
            let at = |k: nat| setup.reached(outcomes, k);
            let open = outcomes[p as int];
            let first = outcomes[(p + 1) as int];
            let second = outcomes[(p + 3) as int];
            let ready = Some(
                Ok::<IpcSender, SenderError>(
                    IpcSender {
                        channel: setup.channel,
                        max_message_size: setup.max_message_size,
                        notifies: true,
                    },
                ),
            );
            &&& crate::service::name_fault(service@) matches Some(fault) ==> {
                &&& at(p).action_spec() is None
                &&& at(n).action_spec() is None
                &&& at(n).outcome_spec() == Some(
                    Err::<IpcSender, SenderError>(SenderError::EventName(fault)),
                )
            }
            &&& valid ==> at(p).action_spec() == Some(SenderAction::OpenEvent { service })
            &&& valid ==> (open matches Err(cause) ==> {
                &&& at(n).action_spec() is None
                &&& at(n).outcome_spec() == Some(
                    Err::<IpcSender, SenderError>(SenderError::OpenEvent { cause }),
                )
            })
            &&& valid && open is Ok ==> at(p + 1).action_spec() == Some(
                SenderAction::CreateNotifier,
            )
            &&& valid && open is Ok && first is Ok ==> {
                &&& at(p + 2).outcome_spec() == ready
                &&& at(n).action_spec() is None
                &&& at(n).outcome_spec() == ready
            }
            &&& valid && open is Ok && first is Err ==> {
                &&& at(p + 2).action_spec() == Some(SenderAction::SweepDeadNodes)
                &&& at(p + 3).action_spec() == Some(SenderAction::CreateNotifier)
                &&& at(n).action_spec() is None
                &&& second is Ok ==> at(n).outcome_spec() == ready
                &&& second matches Err(cause) ==> at(n).outcome_spec() == Some(
                    Err::<IpcSender, SenderError>(
                        SenderError::Notifier(
                            PortError { first: first->Err_0, second: cause },
                        ),
                    ),
                )
            }
        }),
{
    lemma_six_steps(setup, outcomes);
    law_setup_keeps_settings(setup, outcomes, p);
    law_setup_keeps_settings(setup, outcomes, p + 1);
    law_setup_keeps_settings(setup, outcomes, p + 2);
    law_setup_keeps_settings(setup, outcomes, p + 3);
    law_setup_keeps_settings(setup, outcomes, p + 4);
    law_setup_keeps_settings(setup, outcomes, n);
    lemma_reached_step(setup, outcomes, p);
    lemma_reached_step(setup, outcomes, p + 1);
    lemma_reached_step(setup, outcomes, p + 2);
    lemma_reached_step(setup, outcomes, p + 3);
    let service = setup.event_service->Some_0;
    if !crate::service::is_service_name(service@) {
        lemma_decided_setup_stays(setup, outcomes, p, n);
    } else if outcomes[p as int] is Err {
        lemma_decided_setup_stays(setup, outcomes, p + 1, n);
    } else if outcomes[(p + 1) as int] is Ok {
        lemma_decided_setup_stays(setup, outcomes, p + 2, n);
    } else {
        lemma_decided_setup_stays(setup, outcomes, p + 4, n);
    }
}

/// Whether, among the first `n` actions of a setup, there is one of the kind
/// `wanted` that succeeded.
pub open spec fn succeeded(
    setup: SenderSetup,
    outcomes: Seq<Outcome>,
    n: nat,
    wanted: spec_fn(SenderAction) -> bool,
) -> bool {
    exists|m: nat|
        m < n && outcomes[m as int] is Ok && (#[trigger] setup.reached(outcomes, m)).action_spec()
            is Some && wanted(setup.reached(outcomes, m).action_spec()->Some_0)
}

/// A sender is handed out only if its node was created, its service opened and
/// its publisher created, and, where an event service was asked for, that
/// service opened and the notifier created: each of these was asked for and
/// succeeded.
pub proof fn law_sender_has_all_it_needs(setup: SenderSetup, outcomes: Seq<Outcome>, n: nat)
    requires
        setup.stage == SenderStage::Node(NodeCreation::Sweeping),
        n <= outcomes.len(),
        setup.reached(outcomes, n).outcome_spec() is Some,
        setup.reached(outcomes, n).outcome_spec()->Some_0 is Ok,
    ensures
        succeeded(setup, outcomes, n, |a: SenderAction| a is CreateNode),
        succeeded(setup, outcomes, n, |a: SenderAction| a is OpenPubSub),
        succeeded(setup, outcomes, n, |a: SenderAction| a is CreatePublisher),
        setup.event_service is Some ==> succeeded(
            setup,
            outcomes,
            n,
            |a: SenderAction| a is OpenEvent,
        ),
        setup.event_service is Some ==> succeeded(
            setup,
            outcomes,
            n,
            |a: SenderAction| a is CreateNotifier,
        ),
{
    lemma_done_so_far(setup, outcomes, n);
}

proof fn lemma_done_so_far(setup: SenderSetup, outcomes: Seq<Outcome>, n: nat)
    requires
        setup.stage == SenderStage::Node(NodeCreation::Sweeping),
        n <= outcomes.len(),
    ensures
        ({
            let now = setup.reached(outcomes, n);
            let with_event = now.event_service is Some;
            let node = succeeded(setup, outcomes, n, |a: SenderAction| a is CreateNode);
            let service = succeeded(setup, outcomes, n, |a: SenderAction| a is OpenPubSub);
            let publisher = succeeded(setup, outcomes, n, |a: SenderAction| a is CreatePublisher);
            let event = succeeded(setup, outcomes, n, |a: SenderAction| a is OpenEvent);
            let notifier = succeeded(setup, outcomes, n, |a: SenderAction| a is CreateNotifier);
            &&& now.event_service == setup.event_service
            &&& match now.stage {
                SenderStage::Node(creation) => !(creation is Created),
                SenderStage::OpeningPubSub => node,
                SenderStage::Publisher(port) => node && service && !(port is Created),
                SenderStage::OpeningEvent => node && service && publisher && with_event,
                SenderStage::Notifier(port) => node && service && publisher && event && with_event
                    && !(port is Created),
                SenderStage::Ready => node && service && publisher && (with_event ==> event
                    && notifier),
                SenderStage::Failed(_) => true,
            }
        }),
    decreases n,
{
    law_setup_keeps_settings(setup, outcomes, n);
    if n > 0 {
        let m = (n - 1) as nat;
        lemma_done_so_far(setup, outcomes, m);
        law_setup_keeps_settings(setup, outcomes, m);
        lemma_reached_step(setup, outcomes, m);
        lemma_succeeded_grows(setup, outcomes, m, |a: SenderAction| a is CreateNode);
        lemma_succeeded_grows(setup, outcomes, m, |a: SenderAction| a is OpenPubSub);
        lemma_succeeded_grows(setup, outcomes, m, |a: SenderAction| a is CreatePublisher);
        lemma_succeeded_grows(setup, outcomes, m, |a: SenderAction| a is OpenEvent);
        lemma_succeeded_grows(setup, outcomes, m, |a: SenderAction| a is CreateNotifier);
    }
}

proof fn lemma_succeeded_grows(
    setup: SenderSetup,
    outcomes: Seq<Outcome>,
    m: nat,
    wanted: spec_fn(SenderAction) -> bool,
)
    ensures
        succeeded(setup, outcomes, m, wanted) ==> succeeded(setup, outcomes, m + 1, wanted),
        outcomes[m as int] is Ok && setup.reached(outcomes, m).action_spec() is Some && wanted(
            setup.reached(outcomes, m).action_spec()->Some_0,
        ) ==> succeeded(setup, outcomes, m + 1, wanted),
{
    if succeeded(setup, outcomes, m, wanted) {
        let i = choose|i: nat|
            i < m && outcomes[i as int] is Ok && (#[trigger] setup.reached(
                outcomes,
                i,
            )).action_spec() is Some && wanted(setup.reached(outcomes, i).action_spec()->Some_0);
        assert(i < m + 1 && setup.reached(outcomes, i).action_spec() is Some);
    }
}

} // verus!
