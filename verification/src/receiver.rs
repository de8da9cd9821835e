//! The receiving side of a channel: how its thread is set up, how it polls,
//! and what becomes of a message.

use vstd::prelude::*;

use crate::bridge::Bridge;
use crate::channel::Inbox;
use crate::config::{IpcConfig, ServiceQos};
use crate::counters::ReceiverMetrics;
use crate::node::{
    create_node, create_port_with_retry, CreateAction, NodeCreation, Outcome, PortCreation,
    PortError,
};
use crate::polling::Decoder;
use crate::service::{service_name, NameFault};
use crate::text::{decimal, join2, join3, join4};

verus! {

/// What kept a receiver from being set up.
#[derive(Debug)]
pub enum ReceiverFault {
    /// The thread could not be pinned to its core.
    Pin {
        /// The core.
        core: usize,
        /// Why.
        cause: String,
    },
    /// The node could not be created.
    Node {
        /// Why.
        cause: String,
    },
    /// The channel's name is no service name.
    ChannelName(NameFault),
    /// The publish/subscribe service could not be opened.
    OpenPubSub {
        /// Why.
        cause: String,
    },
    /// The subscriber could not be created.
    Subscriber(PortError),
}

/// Why a receiver could not be set up.
#[derive(Debug)]
pub struct ReceiverError {
    /// The name of the channel.
    pub channel: String,
    /// What kept it from being set up.
    pub fault: ReceiverFault,
}

impl ReceiverError {
    /// The error in words; what it was caused by is told by `causes`.
    pub open spec fn message_spec(self) -> Seq<char> {
        match self.fault {
            ReceiverFault::Pin { core, cause } => "failed to pin receiver '"@ + self.channel@
                + "' to core "@ + crate::text::decimal_text(core as nat) + ": "@ + cause@,
            ReceiverFault::Node { .. } => "receiver for channel '"@ + self.channel@ + "'"@,
            ReceiverFault::ChannelName(fault) => "invalid channel name '"@ + self.channel@ + "': "@
                + fault.label_spec(),
            ReceiverFault::OpenPubSub { cause } => "failed to open pub/sub service '"@
                + self.channel@ + "': "@ + cause@
                + " (peers must use identical IpcConfig QoS settings)"@,
            ReceiverFault::Subscriber(error) => error.message_spec(),
        }
    }

    /// The error in words; what it was caused by is told by `causes`.
    pub fn message(&self) -> (r: String)
        ensures
            r@ == self.message_spec(),
    {
        let channel = self.channel.as_str();
        match &self.fault {
            ReceiverFault::Pin { core, cause } => {
                let core_text = decimal(*core as u64);
                let head = join4(
                    "failed to pin receiver '",
                    channel,
                    "' to core ",
                    core_text.as_str(),
                );
                join3(head.as_str(), ": ", cause.as_str())
            },
            ReceiverFault::Node { .. } => join3("receiver for channel '", channel, "'"),
            ReceiverFault::ChannelName(fault) => join4(
                "invalid channel name '",
                channel,
                "': ",
                fault.label(),
            ),
            ReceiverFault::OpenPubSub { cause } => {
                let head = join4(
                    "failed to open pub/sub service '",
                    channel,
                    "': ",
                    cause.as_str(),
                );
                join2(head.as_str(), " (peers must use identical IpcConfig QoS settings)")
            },
            ReceiverFault::Subscriber(error) => error.message(),
        }
    }

    /// What the error was caused by, nearest first, where its own words leave
    /// it out.
    pub open spec fn causes_spec(self) -> Seq<Seq<char>> {
        match self.fault {
            ReceiverFault::Node { cause } => seq!["creating iceoryx2 node"@, cause@],
            _ => seq![],
        }
    }

    /// What the error was caused by, nearest first, where its own words leave
    /// it out.
    pub fn causes(&self) -> (r: Vec<&str>)
        ensures
            r@.len() == self.causes_spec().len(),
            forall|i: int| 0 <= i < r@.len() ==> (#[trigger] r@[i])@ == self.causes_spec()[i],
    {
        let mut causes: Vec<&str> = Vec::new();
        match &self.fault {
            ReceiverFault::Node { cause } => {
                causes.push("creating iceoryx2 node");
                causes.push(cause.as_str());
            },
            _ => {},
        }
        causes
    }
}

/// What has to be done, on the receiver's own thread, to set it up.
#[derive(Debug)]
pub enum ReceiverAction {
    /// Pin the thread to a core.
    PinToCore {
        /// The core.
        core: usize,
    },
    /// Remove what dead nodes left behind.
    SweepDeadNodes,
    /// Create the node.
    CreateNode,
    /// Open or create the publish/subscribe service.
    OpenPubSub {
        /// The name of the service.
        service: String,
        /// What to ask for.
        qos: ServiceQos,
    },
    /// Create the subscriber.
    CreateSubscriber,
}

/// How far the setup of a receiver has come.
#[derive(Debug)]
pub enum ReceiverStage {
    /// The thread is to be pinned.
    Pinning,
    /// The node is being created.
    Node(NodeCreation),
    /// The publish/subscribe service is to be opened.
    OpeningPubSub,
    /// The subscriber is being created.
    Subscriber(PortCreation),
    /// All is there.
    Ready,
    /// It failed.
    Failed(ReceiverFault),
}

/// The setup of a receiver.
#[derive(Debug)]
pub struct ReceiverSetup {
    /// The name of the channel, and of its publish/subscribe service.
    pub channel: String,
    /// What to ask of the publish/subscribe service.
    pub qos: ServiceQos,
    /// The core that the thread is pinned to.
    pub core: usize,
    /// How far it has come.
    pub stage: ReceiverStage,
}

/// What a thread does once its setup is decided.
#[derive(Debug)]
pub struct SetupReport {
    /// What it tells the thread that spawned it.
    pub report: Result<(), ReceiverError>,
    /// Whether it goes on to poll; otherwise it ends.
    pub polls: bool,
}

/// The stage that follows a step in the creation of the node.
pub open spec fn after_node(node: NodeCreation, channel: Seq<char>) -> ReceiverStage {
    match node {
        NodeCreation::Created => match crate::service::name_fault(channel) {
            Some(fault) => ReceiverStage::Failed(ReceiverFault::ChannelName(fault)),
            None => ReceiverStage::OpeningPubSub,
        },
        NodeCreation::Failed { cause } => ReceiverStage::Failed(ReceiverFault::Node { cause }),
        creating => ReceiverStage::Node(creating),
    }
}

/// The stage that follows a step in the creation of the subscriber.
pub open spec fn after_subscriber(port: PortCreation) -> ReceiverStage {
    match port {
        PortCreation::Created => ReceiverStage::Ready,
        PortCreation::Failed(error) => ReceiverStage::Failed(ReceiverFault::Subscriber(error)),
        creating => ReceiverStage::Subscriber(creating),
    }
}

impl ReceiverSetup {
    /// The stage after the action of this setup went as `outcome` says.
    pub open spec fn next_stage(self, outcome: Outcome) -> ReceiverStage {
        match self.stage {
            ReceiverStage::Pinning => match outcome {
                Ok(_) => ReceiverStage::Node(NodeCreation::Sweeping),
                Err(cause) => ReceiverStage::Failed(ReceiverFault::Pin { core: self.core, cause }),
            },
            ReceiverStage::Node(node) => after_node(node.next(outcome), self.channel@),
            ReceiverStage::OpeningPubSub => match outcome {
                Ok(_) => ReceiverStage::Subscriber(PortCreation::Creating),
                Err(cause) => ReceiverStage::Failed(ReceiverFault::OpenPubSub { cause }),
            },
            ReceiverStage::Subscriber(port) => after_subscriber(port.next(outcome)),
            done => done,
        }
    }

    /// The setup after its action went as `outcome` says: at the next stage,
    /// and otherwise as it was.
    pub open spec fn next(self, outcome: Outcome) -> ReceiverSetup {
        ReceiverSetup { stage: self.next_stage(outcome), ..self }
    }

    /// What has to be done at this stage.
    pub open spec fn action_spec(self) -> Option<ReceiverAction> {
        match self.stage {
            ReceiverStage::Pinning => Some(ReceiverAction::PinToCore { core: self.core }),
            ReceiverStage::Node(node) => match node.action_spec() {
                Some(CreateAction::SweepDeadNodes) => Some(ReceiverAction::SweepDeadNodes),
                Some(CreateAction::Create) => Some(ReceiverAction::CreateNode),
                None => None,
            },
            ReceiverStage::OpeningPubSub => Some(
                ReceiverAction::OpenPubSub { service: self.channel, qos: self.qos },
            ),
            ReceiverStage::Subscriber(port) => match port.action_spec() {
                Some(CreateAction::SweepDeadNodes) => Some(ReceiverAction::SweepDeadNodes),
                Some(CreateAction::Create) => Some(ReceiverAction::CreateSubscriber),
                None => None,
            },
            _ => None,
        }
    }

    /// The setup after its action went as `outcome` says.
    pub fn advance(self, outcome: Outcome) -> (r: ReceiverSetup)
        ensures
            r == self.next(outcome),
    {
        let ReceiverSetup { channel, qos, core, stage } = self;
        let stage = match stage {
            ReceiverStage::Pinning => match outcome {
                Ok(_) => ReceiverStage::Node(create_node()),
                Err(cause) => ReceiverStage::Failed(ReceiverFault::Pin { core, cause }),
            },
            ReceiverStage::Node(node) => match node.advance(outcome) {
                NodeCreation::Created => match service_name(channel.as_str()) {
                    Ok(_) => ReceiverStage::OpeningPubSub,
                    Err(fault) => ReceiverStage::Failed(ReceiverFault::ChannelName(fault)),
                },
                NodeCreation::Failed { cause } => ReceiverStage::Failed(
                    ReceiverFault::Node { cause },
                ),
                creating => ReceiverStage::Node(creating),
            },
            ReceiverStage::OpeningPubSub => match outcome {
                Ok(_) => ReceiverStage::Subscriber(create_port_with_retry()),
                Err(cause) => ReceiverStage::Failed(ReceiverFault::OpenPubSub { cause }),
            },
            ReceiverStage::Subscriber(port) => match port.advance(outcome) {
                PortCreation::Created => ReceiverStage::Ready,
                PortCreation::Failed(error) => ReceiverStage::Failed(
                    ReceiverFault::Subscriber(error),
                ),
                creating => ReceiverStage::Subscriber(creating),
            },
            done => done,
        };
        ReceiverSetup { channel, qos, core, stage }
    }

    /// What has to be done at this stage; nothing once it is decided.
    pub fn action(&self) -> (r: Option<ReceiverAction>)
        ensures
            r == self.action_spec(),
    {
        match &self.stage {
            ReceiverStage::Pinning => Some(ReceiverAction::PinToCore { core: self.core }),
            ReceiverStage::Node(node) => match node.action() {
                Some(CreateAction::SweepDeadNodes) => Some(ReceiverAction::SweepDeadNodes),
                Some(CreateAction::Create) => Some(ReceiverAction::CreateNode),
                None => None,
            },
            ReceiverStage::OpeningPubSub => Some(
                ReceiverAction::OpenPubSub { service: self.channel.clone(), qos: self.qos },
            ),
            ReceiverStage::Subscriber(port) => match port.action() {
                Some(CreateAction::SweepDeadNodes) => Some(ReceiverAction::SweepDeadNodes),
                Some(CreateAction::Create) => Some(ReceiverAction::CreateSubscriber),
                None => None,
            },
            _ => None,
        }
    }

    /// What the thread does once the setup is decided; nothing before.
    pub open spec fn outcome_spec(self) -> Option<SetupReport> {
        match self.stage {
            ReceiverStage::Ready => Some(SetupReport { report: Ok(()), polls: true }),
            ReceiverStage::Failed(fault) => Some(
                SetupReport {
                    report: Err(ReceiverError { channel: self.channel, fault }),
                    polls: false,
                },
            ),
            _ => None,
        }
    }

    /// What the thread does once the setup is decided; nothing before.
    pub fn outcome(self) -> (r: Option<SetupReport>)
        ensures
            r == self.outcome_spec(),
    {
        match self.stage {
            ReceiverStage::Ready => Some(SetupReport { report: Ok(()), polls: true }),
            ReceiverStage::Failed(fault) => Some(
                SetupReport {
                    report: Err(ReceiverError { channel: self.channel, fault }),
                    polls: false,
                },
            ),
            _ => None,
        }
    }
}

/// Starts to set up a subscription to `channel` on a thread pinned to `core`.
pub fn subscribe(channel: &str, cfg: &IpcConfig, core: usize) -> (r: ReceiverSetup)
    ensures
        r.channel@ == channel@,
        r.qos == cfg.qos_spec(),
        r.core == core,
        r.stage is Pinning,
{
    ReceiverSetup {
        channel: channel.to_owned(),
        qos: cfg.qos(),
        core,
        stage: ReceiverStage::Pinning,
    }
}

impl ReceiverSetup {
    /// The setup that this one becomes with the first `n` outcomes.
    pub open spec fn reached(self, outcomes: Seq<Outcome>, n: nat) -> ReceiverSetup
        decreases n,
    {
        if n == 0 {
            self
        } else {
            self.reached(outcomes, (n - 1) as nat).next(outcomes[n - 1])
        }
    }

    /// What a setup that was just started comes to, where `outcomes` are those
    /// of its actions, in order: the pinning, the sweep, the node, the service,
    /// and one or three for the subscriber.
    pub open spec fn result(self, outcomes: Seq<Outcome>) -> Result<(), ReceiverFault> {
        match outcomes[0] {
            Err(cause) => Err(ReceiverFault::Pin { core: self.core, cause }),
            Ok(_) => match outcomes[2] {
                Err(cause) => Err(ReceiverFault::Node { cause }),
                Ok(_) => match crate::service::name_fault(self.channel@) {
                    Some(fault) => Err(ReceiverFault::ChannelName(fault)),
                    None => match outcomes[3] {
                        Err(cause) => Err(ReceiverFault::OpenPubSub { cause }),
                        Ok(_) => match crate::node::port_result(outcomes.skip(4)) {
                            Err(error) => Err(ReceiverFault::Subscriber(error)),
                            Ok(_) => Ok(()),
                        },
                    },
                },
            },
        }
    }

    /// Whether the service that this stage has to do with has a name that
    /// iceoryx2 takes.
    pub open spec fn name_checked(self) -> bool {
        match self.stage {
            ReceiverStage::OpeningPubSub
            | ReceiverStage::Subscriber(_)
            | ReceiverStage::Ready => crate::service::is_service_name(self.channel@),
            _ => true,
        }
    }
}

proof fn lemma_reached_step(setup: ReceiverSetup, outcomes: Seq<Outcome>, n: nat)
    ensures
        setup.reached(outcomes, n + 1) == setup.reached(outcomes, n).next(outcomes[n as int]),
{
}

proof fn lemma_decided_setup_stays(setup: ReceiverSetup, outcomes: Seq<Outcome>, m: nat, n: nat)
    requires
        m <= n,
        setup.reached(outcomes, m).outcome_spec() is Some,
    ensures
        setup.reached(outcomes, n) == setup.reached(outcomes, m),
    decreases n,
{
    if m < n {
        lemma_decided_setup_stays(setup, outcomes, m, (n - 1) as nat);
    }
}

/// Setting up changes neither the channel nor what is asked of its service,
/// nor the core.
pub proof fn law_setup_keeps_settings(setup: ReceiverSetup, outcomes: Seq<Outcome>, n: nat)
    requires
        n <= outcomes.len(),
    ensures
        setup.reached(outcomes, n).channel == setup.channel,
        setup.reached(outcomes, n).qos == setup.qos,
        setup.reached(outcomes, n).core == setup.core,
    decreases n,
{
    if n > 0 {
        law_setup_keeps_settings(setup, outcomes, (n - 1) as nat);
    }
}

/// No service is opened and no port created under a name that iceoryx2 does
/// not take.
pub proof fn law_setup_opens_only_valid_names(setup: ReceiverSetup, outcomes: Seq<Outcome>, n: nat)
    requires
        n <= outcomes.len(),
        setup.name_checked(),
    ensures
        setup.reached(outcomes, n).name_checked(),
        setup.reached(outcomes, n).action_spec() matches Some(
            ReceiverAction::OpenPubSub { service, qos },
        ) ==> {
            &&& crate::service::is_service_name(service@)
            &&& service == setup.channel
            &&& qos == setup.qos
        },
    decreases n,
{
    law_setup_keeps_settings(setup, outcomes, n);
    if n > 0 {
        law_setup_opens_only_valid_names(setup, outcomes, (n - 1) as nat);
    }
}

/// The thread is pinned before anything else is done; a thread that could not
/// be pinned does nothing more. Then dead nodes are swept, and the node is
/// created right after.
pub proof fn law_setup_pins_then_sweeps(setup: ReceiverSetup, outcomes: Seq<Outcome>)
    requires
        setup.stage is Pinning,
        outcomes.len() >= 2,
    ensures
        setup.reached(outcomes, 0).action_spec() == Some(
            ReceiverAction::PinToCore { core: setup.core },
        ),
        outcomes[0] is Err ==> setup.reached(outcomes, 1).action_spec() is None,
        outcomes[0] is Ok ==> setup.reached(outcomes, 1).action_spec() == Some(
            ReceiverAction::SweepDeadNodes,
        ),
        outcomes[0] is Ok ==> setup.reached(outcomes, 2).action_spec() == Some(
            ReceiverAction::CreateNode,
        ),
{
    reveal_with_fuel(ReceiverSetup::reached, 3);
}

/// The creation of the subscriber takes one action or three, and comes to what
/// `port_result` says.
proof fn lemma_subscriber(setup: ReceiverSetup, outcomes: Seq<Outcome>, m: nat)
    requires
        m + 3 <= outcomes.len(),
        setup.reached(outcomes, m).stage == ReceiverStage::Subscriber(PortCreation::Creating),
    ensures
        ({
            let port = outcomes.skip(m as int);
            let end = setup.reached(outcomes, m + crate::node::port_steps(port)).stage;
            match crate::node::port_result(port) {
                Ok(_) => end == ReceiverStage::Ready,
                Err(error) => end == ReceiverStage::Failed(ReceiverFault::Subscriber(error)),
            }
        }),
{
    let port = outcomes.skip(m as int);
    lemma_reached_step(setup, outcomes, m);
    lemma_reached_step(setup, outcomes, m + 1);
    lemma_reached_step(setup, outcomes, m + 2);
    assert(port[0] == outcomes[m as int]);
    assert(port[2] == outcomes[(m + 2) as int]);
}

/// Setting up a receiver ends after at most seven actions, whatever comes of
/// them, and comes to what `result` says: the first thing that went wrong for
/// good is the error, and the receiver polls if nothing did. A port that could
/// not be created at first and could after a sweep has not gone wrong.
pub proof fn law_setup_ends_in_seven_actions(setup: ReceiverSetup, outcomes: Seq<Outcome>, n: nat)
    requires
        setup.stage is Pinning,
        7 <= n <= outcomes.len(),
    ensures
        setup.reached(outcomes, n).outcome_spec() == Some(
            match setup.result(outcomes) {
                Ok(_) => SetupReport { report: Ok(()), polls: true },
                Err(fault) => SetupReport {
                    report: Err(ReceiverError { channel: setup.channel, fault }),
                    polls: false,
                },
            },
        ),
        setup.reached(outcomes, n).action_spec() is None,
{
    law_setup_keeps_settings(setup, outcomes, n);
    law_setup_keeps_settings(setup, outcomes, 2);
    lemma_reached_step(setup, outcomes, 0);
    lemma_reached_step(setup, outcomes, 1);
    lemma_reached_step(setup, outcomes, 2);
    lemma_reached_step(setup, outcomes, 3);
    if setup.reached(outcomes, 1).outcome_spec() is Some {
        lemma_decided_setup_stays(setup, outcomes, 1, n);
    } else if setup.reached(outcomes, 3).outcome_spec() is Some {
        lemma_decided_setup_stays(setup, outcomes, 3, n);
    } else if setup.reached(outcomes, 4).outcome_spec() is Some {
        lemma_decided_setup_stays(setup, outcomes, 4, n);
    } else {
        lemma_subscriber(setup, outcomes, 4);
        let end = 4 + crate::node::port_steps(outcomes.skip(4));
        lemma_decided_setup_stays(setup, outcomes, end, n);
    }
}

impl ReceiverSetup {
    /// Whether a setup that is not decided has something to be done.
    spec fn has_a_next_step(self) -> bool {
        match self.stage {
            ReceiverStage::Node(node) => node.action_spec() is Some,
            ReceiverStage::Subscriber(port) => port.action_spec() is Some,
            _ => true,
        }
    }
}

/// A setup is decided exactly when nothing is left to be done for it.
pub proof fn law_setup_is_decided_when_nothing_is_left(
    setup: ReceiverSetup,
    outcomes: Seq<Outcome>,
    n: nat,
)
    requires
        setup.stage is Pinning,
        n <= outcomes.len(),
    ensures
        setup.reached(outcomes, n).action_spec() is None <==> setup.reached(
            outcomes,
            n,
        ).outcome_spec() is Some,
{
    lemma_next_step(setup, outcomes, n);
}

proof fn lemma_next_step(setup: ReceiverSetup, outcomes: Seq<Outcome>, n: nat)
    requires
        setup.stage is Pinning,
    ensures
        setup.reached(outcomes, n).has_a_next_step(),
    decreases n,
{
    if n > 0 {
        lemma_next_step(setup, outcomes, (n - 1) as nat);
        lemma_reached_step(setup, outcomes, (n - 1) as nat);
    }
}

/// A sender and a receiver that were given the same channel and settings ask
/// for the same service with the same quality of service, so that either may
/// create it and the other open it. Full queues always overflow, and nothing
/// sent earlier is handed to a late subscriber.
pub proof fn law_peers_ask_for_the_same_service(
    cfg: IpcConfig,
    sender: crate::sender::SenderSetup,
    sent: Seq<Outcome>,
    m: nat,
    receiver: ReceiverSetup,
    received: Seq<Outcome>,
    n: nat,
)
    requires
        sender.qos == cfg.qos_spec(),
        receiver.qos == cfg.qos_spec(),
        sender.channel@ == receiver.channel@,
        m <= sent.len(),
        n <= received.len(),
        sender.reached(sent, m).stage is OpeningPubSub,
        receiver.reached(received, n).stage is OpeningPubSub,
    ensures
        sender.reached(sent, m).action_spec() matches Some(
            crate::sender::SenderAction::OpenPubSub { service: sent_to, qos: asked },
        ) && receiver.reached(received, n).action_spec() matches Some(
            ReceiverAction::OpenPubSub { service: received_from, qos: expected },
        ) && sent_to@ == received_from@ && asked == expected && asked.safe_overflow
            && asked.history_size == 0 && asked.subscriber_max_buffer_size == cfg.buffer_size
            && asked.max_publishers == cfg.max_publishers && asked.max_subscribers
            == cfg.max_subscribers,
{
    crate::sender::law_setup_keeps_settings(sender, sent, m);
    law_setup_keeps_settings(receiver, received, n);
}

/// Why a receiver is not running.
#[derive(Debug)]
pub enum SpawnError {
    /// The thread could not be spawned.
    Thread {
        /// Why.
        cause: String,
    },
    /// The thread ended without a report on its setup.
    Died {
        /// Why.
        cause: String,
    },
    /// The thread reported that its setup failed.
    Setup(ReceiverError),
}

impl SpawnError {
    /// The error in words; what it was caused by is told by `causes`.
    pub open spec fn message_spec(self) -> Seq<char> {
        match self {
            SpawnError::Thread { .. } => "failed to spawn receiver thread"@,
            SpawnError::Died { .. } => "receiver thread died during setup"@,
            SpawnError::Setup(error) => error.message_spec(),
        }
    }

    /// The error in words; what it was caused by is told by `causes`.
    pub fn message(&self) -> (r: String)
        ensures
            r@ == self.message_spec(),
    {
        match self {
            SpawnError::Thread { .. } => "failed to spawn receiver thread".to_owned(),
            SpawnError::Died { .. } => "receiver thread died during setup".to_owned(),
            SpawnError::Setup(error) => error.message(),
        }
    }

    /// What the error was caused by, nearest first, where its own words leave
    /// it out.
    pub open spec fn causes_spec(self) -> Seq<Seq<char>> {
        match self {
            SpawnError::Thread { cause } => seq![cause@],
            SpawnError::Died { cause } => seq![cause@],
            SpawnError::Setup(error) => error.causes_spec(),
        }
    }

    /// What the error was caused by, nearest first, where its own words leave
    /// it out.
    pub fn causes(&self) -> (r: Vec<&str>)
        ensures
            r@.len() == self.causes_spec().len(),
            forall|i: int| 0 <= i < r@.len() ==> (#[trigger] r@[i])@ == self.causes_spec()[i],
    {
        match self {
            SpawnError::Thread { cause } => {
                let mut causes: Vec<&str> = Vec::new();
                causes.push(cause.as_str());
                causes
            },
            SpawnError::Died { cause } => {
                let mut causes: Vec<&str> = Vec::new();
                causes.push(cause.as_str());
                causes
            },
            SpawnError::Setup(error) => error.causes(),
        }
    }
}

/// What the thread that spawns a receiver makes of the spawning.
pub fn thread_spawned(outcome: Outcome) -> (r: Result<(), SpawnError>)
    ensures
        r == match outcome {
            Ok(_) => Ok(()),
            Err(cause) => Err(SpawnError::Thread { cause }),
        },
{
    match outcome {
        Ok(_) => Ok(()),
        Err(cause) => Err(SpawnError::Thread { cause }),
    }
}

/// What the thread that spawns a receiver makes of the report on its setup.
pub open spec fn spawn_result(
    report: Result<Result<(), ReceiverError>, String>,
) -> Result<(), SpawnError> {
    match report {
        Ok(Ok(_)) => Ok(()),
        Ok(Err(error)) => Err(SpawnError::Setup(error)),
        Err(cause) => Err(SpawnError::Died { cause }),
    }
}

/// What the thread that spawns a receiver makes of the report on its setup,
/// or of why none came.
pub fn setup_reported(report: Result<Result<(), ReceiverError>, String>) -> (r: Result<
    (),
    SpawnError,
>)
    ensures
        r == spawn_result(report),
        r is Ok <==> report is Ok && report->Ok_0 is Ok,
        report matches Err(cause) ==> r == Err::<(), SpawnError>(SpawnError::Died { cause }),
        report matches Ok(Err(error)) ==> r == Err::<(), SpawnError>(SpawnError::Setup(error)),
{
    match report {
        Ok(Ok(_)) => Ok(()),
        Ok(Err(error)) => Err(SpawnError::Setup(error)),
        Err(cause) => Err(SpawnError::Died { cause }),
    }
}

/// Spawning a receiver succeeds exactly if its setup does, and fails with the
/// error that the setup failed with: a receiver that was not pinned, or has no
/// service, is never handed out.
pub proof fn law_spawn_fails_with_the_setup(setup: ReceiverSetup, outcomes: Seq<Outcome>, n: nat)
    requires
        setup.stage is Pinning,
        7 <= n <= outcomes.len(),
    ensures
        setup.reached(outcomes, n).outcome_spec() matches Some(end) && spawn_result(Ok(end.report))
            == (match setup.result(outcomes) {
            Ok(_) => Ok::<(), SpawnError>(()),
            Err(fault) => Err::<(), SpawnError>(
                SpawnError::Setup(ReceiverError { channel: setup.channel, fault }),
            ),
        }) && end.polls == (spawn_result(Ok(end.report)) is Ok),
{
    law_setup_ends_in_seven_actions(setup, outcomes, n);
}

/// What a receiver's thread starts with.
#[derive(Debug)]
pub struct Launch {
    /// The name of the thread.
    pub thread_name: String,
    /// Its setup.
    pub setup: ReceiverSetup,
    /// Its counters.
    pub metrics: ReceiverMetrics,
}

impl Launch {
    /// Whether this launches a receiver on `channel`, pinned to `core`.
    pub open spec fn launches(self, channel: Seq<char>, cfg: IpcConfig, core: usize) -> bool {
        &&& self.thread_name@ == "win-ipc-"@ + channel
        &&& can_name_a_thread(self.thread_name@)
        &&& self.setup.channel@ == channel
        &&& self.setup.qos == cfg.qos_spec()
        &&& self.setup.core == core
        &&& self.setup.stage is Pinning
        &&& self.metrics.are_for(channel)
    }
}

/// Whether a thread can be named after `channel`: the name of a thread may not
/// hold a NUL, and spawning one panics if it does.
pub open spec fn can_name_a_thread(channel: Seq<char>) -> bool {
    forall|i: int| 0 <= i < channel.len() ==> #[trigger] channel[i] != '\0'
}

/// Spawns receivers. The thread of a receiver busy-spins for minimum latency
/// and must be pinned to a dedicated core.
#[derive(Debug)]
pub struct IpcReceiver;

impl IpcReceiver {
    /// Starts a receiver that hands the raw bytes of each message, where they
    /// lie in shared memory, to a handler.
    pub fn spawn_with_view_handler(channel: &str, cfg: &IpcConfig, core: usize) -> (r: Launch)
        requires
            can_name_a_thread(channel@),
        ensures
            r.launches(channel@, *cfg, core),
    {
        proof {
            reveal_strlit("win-ipc-");
        }
        Launch {
            thread_name: join2("win-ipc-", channel),
            setup: subscribe(channel, cfg, core),
            metrics: ReceiverMetrics::new(channel),
        }
    }

    /// Starts a receiver that decodes each message and hands it to a handler.
    pub fn spawn_with_handler(channel: &str, cfg: &IpcConfig, core: usize) -> (r: (
        Launch,
        Decoder,
    ))
        requires
            can_name_a_thread(channel@),
        ensures
            r.0.launches(channel@, *cfg, core),
            r.1.is_for(channel@),
    {
        let decoder = Decoder {
            label: channel.to_owned(),
            deserialize_failures: ReceiverMetrics::new(channel).deserialize_failures,
        };
        (IpcReceiver::spawn_with_view_handler(channel, cfg, core), decoder)
    }

    /// Starts a receiver that decodes each message and offers it to an
    /// asynchronous consumer, dropping it when the consumer's channel is full.
    pub fn spawn<T>(channel: &str, cfg: &IpcConfig, core: usize) -> (r: (
        Launch,
        Decoder,
        Bridge<T>,
        Inbox<T>,
    ))
        requires
            can_name_a_thread(channel@),
            0 < cfg.buffer_size <= usize::MAX / 8,
        ensures
            r.0.launches(channel@, *cfg, core),
            r.1.is_for(channel@),
            r.2.leads_to(r.3, channel@, cfg.buffer_size),
    {
        let (bridge, inbox) = Bridge::open(channel, cfg);
        let (launch, decoder) = IpcReceiver::spawn_with_handler(channel, cfg, core);
        (launch, decoder, bridge, inbox)
    }
}

/// A setup reports once all is there or it failed, and not before: it polls and
/// reports success exactly if all is there, and otherwise reports what it failed
/// with. A setup that came to a report stays as it is.
pub proof fn law_setup_reports_as_it_ended(setup: ReceiverSetup, outcome: Outcome)
    ensures
        setup.outcome_spec() is Some <==> setup.stage is Ready || setup.stage is Failed,
        setup.outcome_spec() matches Some(end) ==> {
            &&& end.polls <==> setup.stage is Ready
            &&& end.report is Ok <==> setup.stage is Ready
            &&& end.report matches Err(error) ==> {
                &&& error.channel == setup.channel
                &&& setup.stage == ReceiverStage::Failed(error.fault)
            }
            &&& setup.next(outcome) == setup
            &&& setup.action_spec() is None
        },
{
}

/// The pinning: the thread is pinned to its core before anything else. If that
/// fails, the setup fails with the core and the cause and nothing more is done.
pub proof fn law_setup_pins_the_thread(setup: ReceiverSetup, outcomes: Seq<Outcome>, n: nat)
    requires
        setup.stage is Pinning,
        1 <= n <= outcomes.len(),
    ensures
        setup.reached(outcomes, 0).action_spec() == Some(
            ReceiverAction::PinToCore { core: setup.core },
        ),
        outcomes[0] matches Err(cause) ==> {
            &&& setup.reached(outcomes, n).action_spec() is None
            &&& setup.reached(outcomes, n).outcome_spec() == Some(
                SetupReport {
                    report: Err(
                        ReceiverError {
                            channel: setup.channel,
                            fault: ReceiverFault::Pin { core: setup.core, cause },
                        },
                    ),
                    polls: false,
                },
            )
        },
{
    lemma_reached_step(setup, outcomes, 0);
    if outcomes[0] is Err {
        lemma_decided_setup_stays(setup, outcomes, 1, n);
    }
}

/// The node: once the thread is pinned, dead nodes are swept, then the node is
/// created. If that fails, the setup fails with it and nothing more is done.
pub proof fn law_setup_creates_the_node(setup: ReceiverSetup, outcomes: Seq<Outcome>, n: nat)
    requires
        setup.stage is Pinning,
        3 <= n <= outcomes.len(),
        outcomes[0] is Ok,
    ensures
        setup.reached(outcomes, 1).action_spec() == Some(ReceiverAction::SweepDeadNodes),
        setup.reached(outcomes, 2).action_spec() == Some(ReceiverAction::CreateNode),
        outcomes[2] matches Err(cause) ==> {
            &&& setup.reached(outcomes, n).action_spec() is None
            &&& setup.reached(outcomes, n).outcome_spec() == Some(
                SetupReport {
                    report: Err(
                        ReceiverError {
                            channel: setup.channel,
                            fault: ReceiverFault::Node { cause },
                        },
                    ),
                    polls: false,
                },
            )
        },
{
    lemma_reached_step(setup, outcomes, 0);
    lemma_reached_step(setup, outcomes, 1);
    lemma_reached_step(setup, outcomes, 2);
    law_setup_keeps_settings(setup, outcomes, 2);
    law_setup_keeps_settings(setup, outcomes, 3);
    if outcomes[2] is Err {
        lemma_decided_setup_stays(setup, outcomes, 3, n);
    }
}

/// The service: once the node is there, the service of the channel is opened as
/// configured, if the channel's name is one that iceoryx2 takes. If it is not,
/// or if opening fails, the setup fails with that and nothing more is done.
pub proof fn law_setup_opens_the_service(setup: ReceiverSetup, outcomes: Seq<Outcome>, n: nat)
    requires
        setup.stage is Pinning,
        4 <= n <= outcomes.len(),
        outcomes[0] is Ok,
        outcomes[2] is Ok,
    ensures
        crate::service::name_fault(setup.channel@) matches Some(fault) ==> {
            &&& setup.reached(outcomes, 3).action_spec() is None
            &&& setup.reached(outcomes, n).action_spec() is None
            &&& setup.reached(outcomes, n).outcome_spec() == Some(
                SetupReport {
                    report: Err(
                        ReceiverError {
                            channel: setup.channel,
                            fault: ReceiverFault::ChannelName(fault),
                        },
                    ),
                    polls: false,
                },
            )
        },
        crate::service::is_service_name(setup.channel@) ==> setup.reached(
            outcomes,
            3,
        ).action_spec() == Some(
            ReceiverAction::OpenPubSub { service: setup.channel, qos: setup.qos },
        ),
        crate::service::is_service_name(setup.channel@) ==> (outcomes[3] matches Err(cause) ==> {
            &&& setup.reached(outcomes, n).action_spec() is None
            &&& setup.reached(outcomes, n).outcome_spec() == Some(
                SetupReport {
                    report: Err(
                        ReceiverError {
                            channel: setup.channel,
                            fault: ReceiverFault::OpenPubSub { cause },
                        },
                    ),
                    polls: false,
                },
            )
        }),
{
    lemma_reached_step(setup, outcomes, 0);
    lemma_reached_step(setup, outcomes, 1);
    lemma_reached_step(setup, outcomes, 2);
    lemma_reached_step(setup, outcomes, 3);
    law_setup_keeps_settings(setup, outcomes, 2);
    law_setup_keeps_settings(setup, outcomes, 3);
    law_setup_keeps_settings(setup, outcomes, 4);
    if !crate::service::is_service_name(setup.channel@) {
        lemma_decided_setup_stays(setup, outcomes, 3, n);
    } else if outcomes[3] is Err {
        lemma_decided_setup_stays(setup, outcomes, 4, n);
    }
}

/// The subscriber: once the service is there, the subscriber is created. If that
/// fails, dead nodes are swept and it is created again; if that fails too, the
/// setup fails with both causes. Once it is there, at the first attempt or the
/// second, the report is good and the thread polls.
pub proof fn law_setup_creates_the_subscriber(setup: ReceiverSetup, outcomes: Seq<Outcome>, n: nat)
    requires
        setup.stage is Pinning,
        7 <= n <= outcomes.len(),
        outcomes[0] is Ok,
        outcomes[2] is Ok,
        outcomes[3] is Ok,
        crate::service::is_service_name(setup.channel@),
    ensures
        ({
            let at = |k: nat| setup.reached(outcomes, k);
            let ready = Some(SetupReport { report: Ok(()), polls: true });
            &&& at(4).action_spec() == Some(ReceiverAction::CreateSubscriber)
            &&& outcomes[4] is Ok ==> {
                &&& at(5).outcome_spec() == ready
                &&& at(n).outcome_spec() == ready
            }
            &&& outcomes[4] matches Err(first) ==> {
                &&& at(5).action_spec() == Some(ReceiverAction::SweepDeadNodes)
                &&& at(6).action_spec() == Some(ReceiverAction::CreateSubscriber)
                &&& outcomes[6] is Ok ==> at(n).outcome_spec() == ready
                &&& outcomes[6] matches Err(second) ==> at(n).outcome_spec() == Some(
                    SetupReport {
                        report: Err(
                            ReceiverError {
                                channel: setup.channel,
                                fault: ReceiverFault::Subscriber(PortError { first, second }),
                            },
                        ),
                        polls: false,
                    },
                )
            }
            &&& at(n).action_spec() is None
        }),
{
    lemma_reached_step(setup, outcomes, 0);
    lemma_reached_step(setup, outcomes, 1);
    lemma_reached_step(setup, outcomes, 2);
    lemma_reached_step(setup, outcomes, 3);
    lemma_reached_step(setup, outcomes, 4);
    lemma_reached_step(setup, outcomes, 5);
    lemma_reached_step(setup, outcomes, 6);
    law_setup_keeps_settings(setup, outcomes, 2);
    law_setup_keeps_settings(setup, outcomes, 7);
    if outcomes[4] is Ok {
        lemma_decided_setup_stays(setup, outcomes, 5, n);
    } else {
        lemma_decided_setup_stays(setup, outcomes, 7, n);
    }
}

/// Whether, among the first `n` actions of a setup, there is one of the kind
/// `wanted` that succeeded.
pub open spec fn succeeded(
    setup: ReceiverSetup,
    outcomes: Seq<Outcome>,
    n: nat,
    wanted: spec_fn(ReceiverAction) -> bool,
) -> bool {
    exists|m: nat|
        m < n && outcomes[m as int] is Ok && (#[trigger] setup.reached(outcomes, m)).action_spec()
            is Some && wanted(setup.reached(outcomes, m).action_spec()->Some_0)
}

/// A receiver polls, and its spawning succeeds, only if its thread was pinned to
/// its core, its node created, its service opened and its subscriber created:
/// each of these was asked for and succeeded. It polls exactly if the report is
/// good.
pub proof fn law_receiver_has_all_it_needs(setup: ReceiverSetup, outcomes: Seq<Outcome>, n: nat)
    requires
        setup.stage is Pinning,
        n <= outcomes.len(),
        setup.reached(outcomes, n).outcome_spec() is Some,
    ensures
        ({
            let end = setup.reached(outcomes, n).outcome_spec()->Some_0;
            &&& end.polls <==> end.report is Ok
            &&& end.report is Ok ==> {
                &&& succeeded(
                    setup,
                    outcomes,
                    n,
                    |a: ReceiverAction| a == (ReceiverAction::PinToCore { core: setup.core }),
                )
                &&& succeeded(setup, outcomes, n, |a: ReceiverAction| a is CreateNode)
                &&& succeeded(setup, outcomes, n, |a: ReceiverAction| a is OpenPubSub)
                &&& succeeded(setup, outcomes, n, |a: ReceiverAction| a is CreateSubscriber)
            }
        }),
{
    lemma_done_so_far(setup, outcomes, n);
}

proof fn lemma_done_so_far(setup: ReceiverSetup, outcomes: Seq<Outcome>, n: nat)
    requires
        setup.stage is Pinning,
        n <= outcomes.len(),
    ensures
        ({
            let pinned = succeeded(
                setup,
                outcomes,
                n,
                |a: ReceiverAction| a == (ReceiverAction::PinToCore { core: setup.core }),
            );
            let node = succeeded(setup, outcomes, n, |a: ReceiverAction| a is CreateNode);
            let service = succeeded(setup, outcomes, n, |a: ReceiverAction| a is OpenPubSub);
            let port = succeeded(setup, outcomes, n, |a: ReceiverAction| a is CreateSubscriber);
            match setup.reached(outcomes, n).stage {
                ReceiverStage::Pinning => true,
                ReceiverStage::Node(creation) => pinned && !(creation is Created),
                ReceiverStage::OpeningPubSub => pinned && node,
                ReceiverStage::Subscriber(creation) => pinned && node && service && !(
                creation is Created),
                ReceiverStage::Ready => pinned && node && service && port,
                ReceiverStage::Failed(_) => true,
            }
        }),
    decreases n,
{
    if n > 0 {
        let m = (n - 1) as nat;
        lemma_done_so_far(setup, outcomes, m);
        law_setup_keeps_settings(setup, outcomes, m);
        lemma_reached_step(setup, outcomes, m);
        lemma_succeeded_grows(
            setup,
            outcomes,
            m,
            |a: ReceiverAction| a == (ReceiverAction::PinToCore { core: setup.core }),
        );
        lemma_succeeded_grows(setup, outcomes, m, |a: ReceiverAction| a is CreateNode);
        lemma_succeeded_grows(setup, outcomes, m, |a: ReceiverAction| a is OpenPubSub);
        lemma_succeeded_grows(setup, outcomes, m, |a: ReceiverAction| a is CreateSubscriber);
    }
}

proof fn lemma_succeeded_grows(
    setup: ReceiverSetup,
    outcomes: Seq<Outcome>,
    m: nat,
    wanted: spec_fn(ReceiverAction) -> bool,
)
    ensures
        succeeded(setup, outcomes, m, wanted) ==> succeeded(setup, outcomes, m + 1, wanted),
        outcomes[m as int] is Ok && setup.reached(outcomes, m).action_spec() is Some && wanted(
            setup.reached(outcomes, m).action_spec()->Some_0,
        ) ==> succeeded(setup, outcomes, m + 1, wanted),
{
    if succeeded(setup, outcomes, m, wanted) {
        let i = choose|i: nat|
            i < m && outcomes[i as int] is Ok && (#[trigger] setup.reached(
                outcomes,
                i,
            )).action_spec() is Some && wanted(setup.reached(outcomes, i).action_spec()->Some_0);
        assert(i < m + 1 && setup.reached(outcomes, i).action_spec() is Some);
    }
}

/// Spawning succeeds exactly if a good report came; a bad report is the error,
/// and so is that none came.
pub proof fn law_spawn_answers_with_the_report(
    report: Result<Result<(), ReceiverError>, String>,
)
    ensures
        spawn_result(report) is Ok <==> report is Ok && report->Ok_0 is Ok,
        report matches Ok(Err(error)) ==> spawn_result(report) == Err::<(), SpawnError>(
            SpawnError::Setup(error),
        ),
        report matches Err(cause) ==> spawn_result(report) == Err::<(), SpawnError>(
            SpawnError::Died { cause },
        ),
{
}

/// A launch starts with a thread named after the channel that is pinned to the
/// core asked for, subscribes to the channel as configured, and counts on it.
pub proof fn law_launch_is_the_one_asked_for(
    launch: Launch,
    channel: Seq<char>,
    cfg: IpcConfig,
    core: usize,
)
    requires
        launch.launches(channel, cfg, core),
    ensures
        launch.thread_name@ == "win-ipc-"@ + channel,
        !launch.thread_name@.contains('\0'),
        launch.setup.action_spec() == Some(ReceiverAction::PinToCore { core }),
        launch.setup.stage is Pinning,
        launch.setup.core == core,
        launch.setup.channel@ == channel,
        launch.setup.qos.max_publishers == cfg.max_publishers,
        launch.setup.qos.max_subscribers == cfg.max_subscribers,
        launch.setup.qos.subscriber_max_buffer_size == cfg.buffer_size,
        launch.setup.qos.safe_overflow,
        launch.setup.qos.history_size == 0,
        launch.metrics.received.counter == crate::counters::Counter::Received,
        launch.metrics.received.channel@ == channel,
{
    if launch.thread_name@.contains('\0') {
        let i = choose|i: int|
            0 <= i < launch.thread_name@.len() && launch.thread_name@[i] == '\0';
        assert(launch.thread_name@[i] != '\0');
    }
}

/// A thread can be named after exactly the channels without a NUL.
pub proof fn law_thread_names_hold_no_nul(channel: Seq<char>)
    ensures
        can_name_a_thread(channel) <==> !channel.contains('\0'),
{
    if !can_name_a_thread(channel) {
        let i = choose|i: int| 0 <= i < channel.len() && channel[i] == '\0';
        assert(channel[i] == '\0');
    }
    if channel.contains('\0') {
        let i = choose|i: int| 0 <= i < channel.len() && channel[i] == '\0';
        assert(channel[i] == '\0');
    }
}

/// The words of an error in setting up, and what it was caused by where the
/// words leave it out.
pub proof fn law_receiver_errors_say_what_failed(error: ReceiverError)
    ensures
        error.fault matches ReceiverFault::Pin { core, cause } ==> error.message_spec()
            == "failed to pin receiver '"@ + error.channel@ + "' to core "@
            + crate::text::decimal_text(core as nat) + ": "@ + cause@,
        error.fault matches ReceiverFault::Node { cause } ==> {
            &&& error.message_spec() == "receiver for channel '"@ + error.channel@ + "'"@
            &&& error.causes_spec().len() == 2
            &&& error.causes_spec()[0] == "creating iceoryx2 node"@
            &&& error.causes_spec()[1] == cause@
        },
        error.fault matches ReceiverFault::ChannelName(fault) ==> error.message_spec()
            == "invalid channel name '"@ + error.channel@ + "': "@ + fault.label_spec(),
        error.fault matches ReceiverFault::OpenPubSub { cause } ==> error.message_spec()
            == "failed to open pub/sub service '"@ + error.channel@ + "': "@ + cause@
            + " (peers must use identical IpcConfig QoS settings)"@,
        error.fault matches ReceiverFault::Subscriber(port) ==> error.message_spec()
            == port.message_spec(),
        !(error.fault is Node) ==> error.causes_spec().len() == 0,
{
}

/// The words of an error in spawning: that no thread was spawned, or that it
/// ended without a report, each with the cause; or those of the report.
pub proof fn law_spawn_errors_say_what_failed(error: SpawnError)
    ensures
        error matches SpawnError::Thread { cause } ==> {
            &&& error.message_spec() == "failed to spawn receiver thread"@
            &&& error.causes_spec().len() == 1
            &&& error.causes_spec()[0] == cause@
        },
        error matches SpawnError::Died { cause } ==> {
            &&& error.message_spec() == "receiver thread died during setup"@
            &&& error.causes_spec().len() == 1
            &&& error.causes_spec()[0] == cause@
        },
        error matches SpawnError::Setup(inner) ==> error.message_spec() == inner.message_spec()
            && error.causes_spec() == inner.causes_spec(),
{
}

} // verus!
