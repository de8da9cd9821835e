//! The library's decisions carried out on real iceoryx2 services, with sender
//! and receiver on one thread.

use iceoryx2::node::Node;
use iceoryx2::port::publisher::Publisher;
use iceoryx2::port::subscriber::Subscriber;
use iceoryx2::prelude::{
    ipc_threadsafe, AllocationStrategy, CallbackProgression, Config, NodeBuilder, NodeState,
    ServiceName,
};
use iceoryx2::service::port_factory::publish_subscribe::PortFactory;
use win_ipc::bridge::BridgeStep;
use win_ipc::node::NodeStatus;
use win_ipc::polling::{
    poll_checked, Decoded, Decoder, Drain, DrainStep, PollStep, ReceiveOutcome,
};
use win_ipc::receiver::{Launch, ReceiverAction};
use win_ipc::sender::{Allocation, SendAction, SendState, SenderAction};
use win_ipc::{IpcConfig, IpcReceiver, IpcSender, ServiceQos};

type Service = ipc_threadsafe::Service;

/// A sequence number and a payload.
type Message = (u64, Vec<u8>);

fn cfg() -> IpcConfig {
    IpcConfig::default()
}

fn words<E: std::fmt::Debug>(e: E) -> String {
    format!("{e:?}")
}

fn keep<V, E: std::fmt::Debug>(slot: &mut Option<V>, made: Result<V, E>) -> Result<(), String> {
    *slot = Some(made.map_err(words)?);
    Ok(())
}

fn sweep_dead_nodes() {
    let _ = Node::<Service>::list(Config::global_config(), |node_state| {
        let status = match &node_state {
            NodeState::Alive(_) => NodeStatus::Alive,
            NodeState::Dead(_) => NodeStatus::Dead,
            NodeState::Inaccessible(_) => NodeStatus::Inaccessible,
            NodeState::Undefined(_) => NodeStatus::Undefined,
        };
        let visit = win_ipc::node::sweep_dead_nodes(status);
        if let (true, NodeState::Dead(view)) = (visit.remove_stale_resources, node_state) {
            let _ = view.try_remove_stale_resources();
        }
        assert!(visit.proceed);
        CallbackProgression::Continue
    });
}

fn open(node: &Option<Node<Service>>, name: &str, qos: ServiceQos) -> Result<PortFactory<Service, [u8], ()>, String> {
    let name: ServiceName = name.try_into().map_err(words)?;
    node.as_ref()
        .unwrap()
        .service_builder(&name)
        .publish_subscribe::<[u8]>()
        .subscriber_max_buffer_size(qos.subscriber_max_buffer_size)
        .enable_safe_overflow(qos.safe_overflow)
        .history_size(qos.history_size)
        .max_publishers(qos.max_publishers)
        .max_subscribers(qos.max_subscribers)
        .open_or_create()
        .map_err(words)
}

struct Sending {
    publisher: Publisher<Service, [u8], ()>,
    decisions: IpcSender,
    _node: Node<Service>,
}

impl Sending {
    fn new(channel: &str, cfg: &IpcConfig) -> Result<Self, String> {
        let mut setup = IpcSender::new(channel, cfg);
        let mut node = None;
        let mut service = None;
        let mut publisher = None;
        while let Some(action) = setup.action() {
            let outcome = match action {
                SenderAction::SweepDeadNodes => {
                    sweep_dead_nodes();
                    Ok(())
                }
                SenderAction::CreateNode => keep(&mut node, NodeBuilder::new().create::<Service>()),
                SenderAction::OpenPubSub { service: name, qos } => {
                    keep(&mut service, open(&node, &name, qos))
                }
                SenderAction::CreatePublisher { initial_max_slice_len, allocation } => keep(
                    &mut publisher,
                    service
                        .as_ref()
                        .unwrap()
                        .publisher_builder()
                        .initial_max_slice_len(initial_max_slice_len)
                        .allocation_strategy(match allocation {
                            Allocation::BestFit => AllocationStrategy::BestFit,
                            Allocation::PowerOfTwo => AllocationStrategy::PowerOfTwo,
                            Allocation::Static => AllocationStrategy::Static,
                        })
                        .create(),
                ),
                other => panic!("{other:?}"),
            };
            setup = setup.advance(outcome);
        }
        let decisions = setup.outcome().unwrap().map_err(|e| e.message())?;
        Ok(Sending { publisher: publisher.unwrap(), decisions, _node: node.unwrap() })
    }

    fn try_send(&self, msg: &Message) -> Result<(), String> {
        let mut state = self.decisions.try_send(wincode::serialized_size(msg).map_err(words));
        let mut sample = None;
        let mut bytes = None;
        while let Some(action) = state.action() {
            let outcome = match action {
                SendAction::Loan { size } => {
                    keep(&mut sample, self.publisher.loan_slice_uninit(size))
                }
                SendAction::Serialize => keep(&mut bytes, wincode::serialize(msg)),
                SendAction::Publish => sample
                    .take()
                    .unwrap()
                    .write_from_slice(bytes.as_ref().unwrap())
                    .send()
                    .map(|_| ())
                    .map_err(words),
                SendAction::Notify => panic!("no notifier"),
            };
            state = state.advance(outcome);
        }
        match state {
            SendState::Finished { result, .. } => result.map_err(|e| e.message()),
            other => panic!("{other:?}"),
        }
    }
}

struct Receiving {
    subscriber: Subscriber<Service, [u8], ()>,
    channel: String,
    decoder: Decoder,
    _node: Node<Service>,
}

impl Receiving {
    fn new(channel: &str, cfg: &IpcConfig) -> Result<Self, String> {
        let (launch, decoder) = IpcReceiver::spawn_with_handler(channel, cfg, 0);
        Self::launched(launch, decoder)
    }

    fn launched(launch: Launch, decoder: Decoder) -> Result<Self, String> {
        let channel = launch.setup.channel.clone();
        let mut setup = launch.setup;
        let mut node = None;
        let mut service = None;
        let mut subscriber = None;
        while let Some(action) = setup.action() {
            let outcome = match action {
                // the tests do not depend on where they run
                ReceiverAction::PinToCore { core } => {
                    assert_eq!(core, 0);
                    Ok(())
                }
                ReceiverAction::SweepDeadNodes => {
                    sweep_dead_nodes();
                    Ok(())
                }
                ReceiverAction::CreateNode => {
                    keep(&mut node, NodeBuilder::new().create::<Service>())
                }
                ReceiverAction::OpenPubSub { service: name, qos } => {
                    keep(&mut service, open(&node, &name, qos))
                }
                ReceiverAction::CreateSubscriber => keep(
                    &mut subscriber,
                    service.as_ref().unwrap().subscriber_builder().create(),
                ),
            };
            setup = setup.advance(outcome);
        }
        let end = setup.outcome().unwrap();
        end.report.map_err(|e| e.message())?;
        assert!(end.polls);
        Ok(Receiving { subscriber: subscriber.unwrap(), channel, decoder, _node: node.unwrap() })
    }

    /// One round of polling; gives the number of messages received.
    fn poll(&self, mut handler: impl FnMut(Message)) -> u64 {
        assert_eq!(poll_checked(false), PollStep::Drain);
        let mut received = 0;
        let mut drain = Drain::new();
        loop {
            let outcome = match self.subscriber.receive() {
                Ok(Some(sample)) => ReceiveOutcome::Message(sample),
                Ok(None) => ReceiveOutcome::Empty,
                Err(e) => ReceiveOutcome::Failed(words(e)),
            };
            match drain.received(&self.channel, outcome) {
                DrainStep::Deliver { message, drain: next, .. } => {
                    received += 1;
                    let decoded = wincode::deserialize::<Message>(message.payload());
                    match self.decoder.decoded(decoded.map_err(words)) {
                        Decoded::Handle(m) => handler(m),
                        Decoded::Skip { warning, .. } => panic!("{warning}"),
                    }
                    drain = next;
                }
                DrainStep::Done { got, warning } => {
                    assert!(warning.is_none());
                    assert_eq!(got, received > 0);
                    return received;
                }
            }
        }
    }
}

#[test]
fn delivers_messages() {
    let channel = "test-deliver";
    let receiver = Receiving::new(channel, &cfg()).unwrap();
    let sender = Sending::new(channel, &cfg()).unwrap();
    let mut received = 0;
    for seq in 0..50u64 {
        sender.try_send(&(seq, vec![1; 1232])).unwrap();
        receiver.poll(|m| {
            assert_eq!(m.1.len(), 1232);
            received += 1;
            let _ = m.0;
        });
    }
    assert!(received >= 40, "expected deliveries, got {}", received);
}

#[test]
fn receiver_restart_does_not_break_sender() {
    let channel = "test-recv-restart";
    let mut received1 = 0;
    let receiver1 = Receiving::new(channel, &cfg()).unwrap();

    let sender = Sending::new(channel, &cfg()).unwrap();
    for seq in 0..20 {
        sender.try_send(&(seq, vec![2; 64])).unwrap();
        receiver1.poll(|_| received1 += 1);
    }
    assert!(received1 >= 10);

    // kill the receiver; sender must keep sending without error
    drop(receiver1);
    for seq in 20..40 {
        sender.try_send(&(seq, vec![2; 64])).unwrap();
    }

    // restart the receiver; new messages must flow again
    let mut received2 = 0;
    let receiver2 = Receiving::new(channel, &cfg()).unwrap();
    for seq in 40..80 {
        sender.try_send(&(seq, vec![2; 64])).unwrap();
        receiver2.poll(|_| received2 += 1);
    }
    assert!(received2 >= 10, "restarted receiver got nothing");
}

#[test]
fn sender_restart_does_not_break_receiver() {
    let channel = "test-send-restart";
    let mut received = 0;
    let receiver = Receiving::new(channel, &cfg()).unwrap();

    {
        let sender1 = Sending::new(channel, &cfg()).unwrap();
        for seq in 0..20 {
            sender1.try_send(&(seq, vec![3; 64])).unwrap();
            receiver.poll(|_| received += 1);
        }
        assert!(received >= 10);
    } // sender dropped = restart

    let sender2 = Sending::new(channel, &cfg()).unwrap();
    let before = received;
    for seq in 20..60 {
        sender2.try_send(&(seq, vec![3; 64])).unwrap();
        receiver.poll(|_| received += 1);
    }
    assert!(received >= before + 10, "receiver got nothing from new sender");
}

#[test]
fn oversized_message_rejected() {
    let channel = "test-oversize";
    let sender = Sending::new(channel, &cfg()).unwrap();
    let big = (1, vec![0; 4096]);
    assert!(sender.try_send(&big).is_err());
}

#[test]
fn tokio_bridge_delivers() {
    let channel = "test-bridge";
    let (launch, decoder, mut bridge, inbox) =
        IpcReceiver::spawn::<Message>(channel, &cfg(), 0);
    let mut rx = inbox.into_inner();
    let receiver = Receiving::launched(launch, decoder).unwrap();
    let sender = Sending::new(channel, &cfg()).unwrap();

    let rt = tokio::runtime::Builder::new_current_thread().enable_all().build().unwrap();
    for seq in 0..100 {
        let _ = sender.try_send(&(seq, vec![4; 32]));
        receiver.poll(|m| assert_eq!(bridge.forward(m), BridgeStep::Delivered));
    }
    let got = rt.block_on(async move {
        tokio::time::timeout(std::time::Duration::from_secs(5), rx.recv()).await
    });
    assert!(matches!(got, Ok(Some(_))), "bridge delivered nothing");
}

#[test]
fn oldest_messages_are_overwritten() {
    let channel = "test-overflow";
    let cfg = IpcConfig { max_message_size: 64, buffer_size: 4, max_publishers: 1, max_subscribers: 1 };
    let receiver = Receiving::new(channel, &cfg).unwrap();
    let sender = Sending::new(channel, &cfg).unwrap();
    for seq in 0..10 {
        sender.try_send(&(seq, vec![5; 8])).unwrap();
    }
    let mut seen = Vec::new();
    assert_eq!(receiver.poll(|m| seen.push(m.0)), 4);
    assert_eq!(seen, vec![6, 7, 8, 9]);
}
