use win_ipc::counters::{Counter, ReceiverMetrics};
use win_ipc::node::{
    create_node, create_port_with_retry, sweep_dead_nodes, sweep_warning, CreateAction,
    NodeCreation, NodeStatus, NodeVisit, PortCreation,
};
use win_ipc::receiver::{
    setup_reported, thread_spawned, ReceiverAction, ReceiverFault, ReceiverSetup, SpawnError,
};
use win_ipc::sender::{
    Allocation, SendAction, SendError, SendState, SenderAction, SenderError, SenderSetup,
};
use win_ipc::service::{service_name, NameFault};
use win_ipc::{IpcConfig, IpcReceiver, IpcSender, ServiceQos};

fn fail(why: &str) -> Result<(), String> {
    Err(why.to_string())
}

fn run_sender(mut setup: SenderSetup, outcomes: &[Result<(), String>]) -> SenderSetup {
    for outcome in outcomes {
        setup = setup.advance(outcome.clone());
    }
    setup
}

fn run_receiver(mut setup: ReceiverSetup, outcomes: &[Result<(), String>]) -> ReceiverSetup {
    for outcome in outcomes {
        setup = setup.advance(outcome.clone());
    }
    setup
}

fn sender_error(setup: SenderSetup) -> SenderError {
    assert!(setup.action().is_none());
    setup.outcome().unwrap().unwrap_err()
}

fn receiver(channel: &str) -> ReceiverSetup {
    IpcReceiver::spawn_with_view_handler(channel, &IpcConfig::default(), 3).setup
}

fn receiver_error(setup: ReceiverSetup) -> win_ipc::receiver::ReceiverError {
    assert!(setup.action().is_none());
    let end = setup.outcome().unwrap();
    assert!(!end.polls);
    end.report.unwrap_err()
}

#[test]
fn default_settings() {
    let cfg = IpcConfig::default();
    assert_eq!(cfg.max_message_size, 2048);
    assert_eq!(cfg.buffer_size, 1024);
    assert_eq!(cfg.max_publishers, 2);
    assert_eq!(cfg.max_subscribers, 2);
    assert_eq!(
        cfg.clone().qos(),
        ServiceQos {
            subscriber_max_buffer_size: 1024,
            safe_overflow: true,
            history_size: 0,
            max_publishers: 2,
            max_subscribers: 2,
        }
    );
}

#[test]
fn service_names() {
    assert_eq!(service_name("my/channel"), Ok("my/channel".to_string()));
    assert_eq!(service_name("iox2://x"), Ok("iox2://x".to_string()));
    assert_eq!(service_name(""), Err(NameFault::InvalidContent));
    assert_eq!(service_name("a\0b"), Err(NameFault::InvalidContent));
    assert_eq!(service_name("caf\u{e9}"), Err(NameFault::InvalidContent));
    assert_eq!(service_name("\u{7f}"), Ok("\u{7f}".to_string()));
    assert_eq!(service_name("\u{80}"), Err(NameFault::InvalidContent));
    assert_eq!(service_name(&"x".repeat(255)), Ok("x".repeat(255)));
    assert_eq!(service_name(&"x".repeat(256)), Err(NameFault::ExceedsMaximumLength));
    assert_eq!(service_name(&"\u{e9}".repeat(128)), Err(NameFault::ExceedsMaximumLength));
    assert_eq!(service_name(&"\u{e9}".repeat(127)), Err(NameFault::InvalidContent));
}

#[test]
fn sweep_tries_the_dead_only() {
    let listing = [NodeStatus::Alive, NodeStatus::Dead, NodeStatus::Inaccessible, NodeStatus::Undefined];
    for status in listing {
        assert_eq!(
            sweep_dead_nodes(status),
            NodeVisit { remove_stale_resources: status == NodeStatus::Dead, proceed: true }
        );
    }
    assert_eq!(sweep_warning(&Ok(())), None);
    assert_eq!(
        sweep_warning(&fail("InternalError")).unwrap(),
        "win-ipc: failed to remove stale resources: InternalError"
    );
}

#[test]
fn node_is_created_after_a_sweep() {
    let node = create_node();
    assert_eq!(node.action(), Some(CreateAction::SweepDeadNodes));
    let node = node.advance(fail("ignored"));
    assert_eq!(node.action(), Some(CreateAction::Create));
    assert!(matches!(node.advance(Ok(())), NodeCreation::Created));

    let node = create_node().advance(Ok(())).advance(fail("no"));
    assert!(node.action().is_none());
    assert!(matches!(node, NodeCreation::Failed { ref cause } if cause == "no"));
}

#[test]
fn port_is_retried_once() {
    let port = create_port_with_retry();
    assert_eq!(port.action(), Some(CreateAction::Create));
    assert!(matches!(port.advance(Ok(())), PortCreation::Created));

    let port = create_port_with_retry().advance(fail("A"));
    assert_eq!(port.action(), Some(CreateAction::SweepDeadNodes));
    let port = port.advance(fail("ignored"));
    assert_eq!(port.action(), Some(CreateAction::Create));
    let port = port.advance(Ok(()));
    assert!(port.action().is_none());
    assert!(matches!(port, PortCreation::Created));

    let port = create_port_with_retry().advance(fail("A")).advance(Ok(())).advance(fail("B"));
    assert!(port.action().is_none());
    match port {
        PortCreation::Failed(e) => assert_eq!(e.message(), "port creation failed: A, then B"),
        other => panic!("{other:?}"),
    }
}

#[test]
fn sender_setup_without_trouble() {
    let cfg = IpcConfig { max_message_size: 77, buffer_size: 5, max_publishers: 3, max_subscribers: 4 };
    let setup = IpcSender::new("c", &cfg);
    assert!(matches!(setup.action(), Some(SenderAction::SweepDeadNodes)));
    let setup = setup.advance(Ok(()));
    assert!(matches!(setup.action(), Some(SenderAction::CreateNode)));
    let setup = setup.advance(Ok(()));
    match setup.action() {
        Some(SenderAction::OpenPubSub { service, qos }) => {
            assert_eq!(service, "c");
            assert_eq!(qos, cfg.qos());
        }
        other => panic!("{other:?}"),
    }
    let setup = setup.advance(Ok(()));
    assert!(matches!(
        setup.action(),
        Some(SenderAction::CreatePublisher {
            initial_max_slice_len: 77,
            allocation: Allocation::Static,
        })
    ));
    let setup = setup.advance(Ok(()));
    assert!(setup.action().is_none());
    let sender = setup.outcome().unwrap().unwrap();
    assert_eq!(sender.channel, "c");
    assert_eq!(sender.max_message_size, 77);
    assert!(!sender.notifies);
}

#[test]
fn sender_setup_with_events() {
    let setup = IpcSender::with_event_service("c", &IpcConfig::default(), "c/event");
    let ok = [Ok(()), Ok(()), Ok(()), Ok(())];
    let setup = run_sender(setup, &ok);
    assert!(matches!(setup.action(), Some(SenderAction::OpenEvent { ref service }) if service == "c/event"));
    let setup = setup.advance(Ok(()));
    assert!(matches!(setup.action(), Some(SenderAction::CreateNotifier)));
    let setup = setup.advance(Ok(()));
    assert!(setup.outcome().unwrap().unwrap().notifies);
}

#[test]
fn crashed_peer_does_not_block_a_restart() {
    let setup = IpcSender::with_event_service("c", &IpcConfig::default(), "e");
    let outcomes = [
        fail("sweep"), Ok(()), Ok(()),
        fail("slots taken"), Ok(()), Ok(()),
        Ok(()),
        fail("slots taken"), Ok(()), Ok(()),
    ];
    let setup = run_sender(setup, &outcomes);
    assert!(setup.outcome().unwrap().is_ok());
    let outcomes = [Ok(()), Ok(()), Ok(()), Ok(()), fail("slots taken"), Ok(()), Ok(())];
    let setup = run_receiver(receiver("c"), &outcomes);
    let end = setup.outcome().unwrap();
    assert!(end.report.is_ok());
    assert!(end.polls);
}

#[test]
fn sender_setup_errors() {
    let cfg = IpcConfig::default();
    let e = sender_error(run_sender(IpcSender::new("", &cfg), &[Ok(()), fail("n")]));
    assert_eq!(e.message(), "creating iceoryx2 node");
    assert_eq!(e.cause(), Some("n"));

    let e = sender_error(run_sender(IpcSender::new("", &cfg), &[Ok(()), Ok(())]));
    assert!(matches!(e, SenderError::ChannelName(NameFault::InvalidContent)));
    assert_eq!(e.message(), "ServiceNameError::InvalidContent");
    assert_eq!(e.cause(), None);

    let e = sender_error(run_sender(IpcSender::new("c", &cfg), &[Ok(()), Ok(()), fail("q")]));
    assert_eq!(e.message(), "opening pub/sub service");
    assert_eq!(e.cause(), Some("q"));

    let outcomes = [Ok(()), Ok(()), Ok(()), fail("A"), Ok(()), fail("B")];
    let e = sender_error(run_sender(IpcSender::new("c", &cfg), &outcomes));
    assert!(matches!(e, SenderError::Publisher(_)));
    assert_eq!(e.message(), "port creation failed: A, then B");

    let long = "x".repeat(300);
    let ok = [Ok(()), Ok(()), Ok(()), Ok(())];
    let e = sender_error(run_sender(IpcSender::with_event_service("c", &cfg, &long), &ok));
    assert!(matches!(e, SenderError::EventName(NameFault::ExceedsMaximumLength)));
    assert_eq!(e.message(), "ServiceNameError::ExceedsMaximumLength");

    let outcomes = [Ok(()), Ok(()), Ok(()), Ok(()), fail("ev")];
    let e = sender_error(run_sender(IpcSender::with_event_service("c", &cfg, "e"), &outcomes));
    assert_eq!(e.message(), "opening event service");
    assert_eq!(e.cause(), Some("ev"));

    let outcomes = [Ok(()), Ok(()), Ok(()), Ok(()), Ok(()), fail("A"), Ok(()), fail("B")];
    let e = sender_error(run_sender(IpcSender::with_event_service("c", &cfg, "e"), &outcomes));
    assert!(matches!(e, SenderError::Notifier(_)));
    assert_eq!(e.message(), "port creation failed: A, then B");
}

#[test]
fn receiver_setup_actions() {
    let launch = IpcReceiver::spawn_with_view_handler("ch", &IpcConfig::default(), 3);
    assert_eq!(launch.thread_name, "win-ipc-ch");
    let setup = launch.setup;
    assert!(matches!(setup.action(), Some(ReceiverAction::PinToCore { core: 3 })));
    let setup = setup.advance(Ok(()));
    assert!(matches!(setup.action(), Some(ReceiverAction::SweepDeadNodes)));
    let setup = setup.advance(Ok(()));
    assert!(matches!(setup.action(), Some(ReceiverAction::CreateNode)));
    let setup = setup.advance(Ok(()));
    match setup.action() {
        Some(ReceiverAction::OpenPubSub { service, qos }) => {
            assert_eq!(service, "ch");
            assert_eq!(qos, IpcConfig::default().qos());
        }
        other => panic!("{other:?}"),
    }
    let setup = setup.advance(Ok(()));
    assert!(matches!(setup.action(), Some(ReceiverAction::CreateSubscriber)));
    let setup = setup.advance(Ok(()));
    assert!(setup.action().is_none());
    assert!(setup.outcome().unwrap().polls);
}

#[test]
fn receiver_setup_errors() {
    let e = receiver_error(run_receiver(receiver("ch"), &[fail("EINVAL")]));
    assert!(matches!(e.fault, ReceiverFault::Pin { core: 3, .. }));
    assert_eq!(e.message(), "failed to pin receiver 'ch' to core 3: EINVAL");
    assert!(e.causes().is_empty());

    let e = receiver_error(run_receiver(receiver("ch"), &[Ok(()), Ok(()), fail("n")]));
    assert_eq!(e.message(), "receiver for channel 'ch'");
    assert_eq!(e.causes(), vec!["creating iceoryx2 node", "n"]);

    let e = receiver_error(run_receiver(receiver("caf\u{e9}"), &[Ok(()), Ok(()), Ok(())]));
    assert_eq!(e.message(), "invalid channel name 'caf\u{e9}': InvalidContent");

    let e = receiver_error(run_receiver(receiver("ch"), &[Ok(()), Ok(()), Ok(()), fail("Bad")]));
    assert_eq!(
        e.message(),
        "failed to open pub/sub service 'ch': Bad (peers must use identical IpcConfig QoS settings)"
    );

    let outcomes = [Ok(()), Ok(()), Ok(()), Ok(()), fail("A"), fail("s"), fail("B")];
    let e = receiver_error(run_receiver(receiver("ch"), &outcomes));
    assert!(matches!(e.fault, ReceiverFault::Subscriber(_)));
    assert_eq!(e.message(), "port creation failed: A, then B");
}

#[test]
fn spawn_fails_as_the_setup_does() {
    assert!(thread_spawned(Ok(())).is_ok());
    let e = thread_spawned(fail("EAGAIN")).unwrap_err();
    assert!(matches!(e, SpawnError::Thread { .. }));
    assert_eq!(e.message(), "failed to spawn receiver thread");
    assert_eq!(e.causes(), vec!["EAGAIN"]);

    assert!(setup_reported(Ok(Ok(()))).is_ok());
    let e = setup_reported(Err("closed".to_string())).unwrap_err();
    assert!(matches!(e, SpawnError::Died { .. }));
    assert_eq!(e.message(), "receiver thread died during setup");
    assert_eq!(e.causes(), vec!["closed"]);

    let report = run_receiver(receiver("ch"), &[Ok(()), Ok(()), fail("n")]).outcome().unwrap().report;
    let e = setup_reported(Ok(report)).unwrap_err();
    assert!(matches!(e, SpawnError::Setup(_)));
    assert_eq!(e.message(), "receiver for channel 'ch'");
    assert_eq!(e.causes(), vec!["creating iceoryx2 node", "n"]);
}

#[test]
fn setups_are_decided_when_nothing_is_left() {
    let cfg = IpcConfig::default();
    let bad = [fail("x"), fail("x"), fail("x"), fail("x"), fail("x"), fail("x"), fail("x")];
    let ok = [Ok(()), Ok(()), Ok(()), Ok(()), Ok(()), Ok(()), Ok(())];
    let mixed = [Ok(()), Ok(()), Ok(()), Ok(()), fail("x"), Ok(()), Ok(())];
    for outcomes in [bad, ok, mixed] {
        for n in 0..=outcomes.len() {
            let sender = run_sender(IpcSender::with_event_service("c", &cfg, "e"), &outcomes[..n]);
            assert_eq!(sender.action().is_none(), sender.outcome().is_some());
            let receiver = run_receiver(receiver("c"), &outcomes[..n]);
            assert_eq!(receiver.action().is_none(), receiver.outcome().is_some());
        }
    }
}

#[test]
fn peers_ask_for_the_same_service() {
    let cfg = IpcConfig { max_message_size: 9, buffer_size: 8, max_publishers: 7, max_subscribers: 6 };
    let sender = run_sender(IpcSender::new("c", &cfg), &[Ok(()), Ok(())]);
    let receiver = IpcReceiver::spawn_with_view_handler("c", &cfg, 0).setup;
    let receiver = run_receiver(receiver, &[Ok(()), Ok(()), Ok(())]);
    match (sender.action(), receiver.action()) {
        (
            Some(SenderAction::OpenPubSub { service: a, qos: x }),
            Some(ReceiverAction::OpenPubSub { service: b, qos: y }),
        ) => {
            assert_eq!(a, b);
            assert_eq!(x, y);
            assert!(x.safe_overflow);
        }
        other => panic!("{other:?}"),
    }
}

fn sender(notifies: bool) -> IpcSender {
    IpcSender { channel: "c".to_string(), max_message_size: 100, notifies }
}

fn finish(state: SendState) -> (Result<(), SendError>, Option<Counter>) {
    assert!(state.action().is_none());
    match state {
        SendState::Finished { result, count } => (result, count),
        other => panic!("{other:?}"),
    }
}

#[test]
fn send_without_trouble() {
    let state = sender(false).try_send(Ok(100));
    assert_eq!(state.action(), Some(SendAction::Loan { size: 100 }));
    let state = state.advance(Ok(()));
    assert_eq!(state.action(), Some(SendAction::Serialize));
    let state = state.advance(Ok(()));
    assert_eq!(state.action(), Some(SendAction::Publish));
    let (result, count) = finish(state.advance(Ok(())));
    assert!(result.is_ok());
    assert_eq!(count, Some(Counter::Sent));
}

#[test]
fn notification_does_not_matter() {
    for outcome in [Ok(()), fail("no listener")] {
        let state = sender(true).try_send(Ok(0)).advance(Ok(())).advance(Ok(())).advance(Ok(()));
        assert_eq!(state.action(), Some(SendAction::Notify));
        let (result, count) = finish(state.advance(outcome));
        assert!(result.is_ok());
        assert_eq!(count, Some(Counter::Sent));
    }
}

#[test]
fn send_errors() {
    let (result, count) = finish(sender(true).try_send(Err("x".to_string())));
    assert_eq!(result.unwrap_err().message(), "serialized_size: x");
    assert_eq!(count, None);

    let (result, count) = finish(sender(true).try_send(Ok(101)));
    assert_eq!(result.unwrap_err().message(), "message size 101 exceeds max 100");
    assert_eq!(count, Some(Counter::PublishFailures));

    let (result, count) = finish(sender(true).try_send(Ok(1)).advance(fail("x")));
    assert_eq!(result.unwrap_err().message(), "loan: x");
    assert_eq!(count, None);

    let (result, count) = finish(sender(true).try_send(Ok(1)).advance(Ok(())).advance(fail("x")));
    assert_eq!(result.unwrap_err().message(), "serialize: x");
    assert_eq!(count, None);

    let state = sender(true).try_send(Ok(1)).advance(Ok(())).advance(Ok(())).advance(fail("x"));
    let (result, count) = finish(state);
    assert_eq!(result.unwrap_err().message(), "send: x");
    assert_eq!(count, None);
}

#[test]
fn counters_of_a_channel() {
    let metrics = ReceiverMetrics::new("ch");
    assert_eq!(metrics.received.counter.name(), "ipc_received");
    assert_eq!(metrics.deserialize_failures.counter.name(), "ipc_deserialize_failures");
    assert_eq!(metrics.channel_full.counter.name(), "ipc_receiver_channel_full");
    assert_eq!(metrics.received.channel, "ch");
    assert_eq!(metrics.deserialize_failures.channel, "ch");
    assert_eq!(metrics.channel_full.channel, "ch");
    assert_eq!(Counter::Sent.name(), "ipc_sent");
    assert_eq!(Counter::PublishFailures.name(), "ipc_publish_failures");
}
