use win_ipc::counters::Counter;
use win_ipc::polling::{
    poll_checked, poll_drained, Decoded, Drain, DrainStep, PollStep, ReceiveOutcome,
};
use win_ipc::sender::{SendAction, SendError, SendState};
use win_ipc::{IpcConfig, IpcReceiver, IpcSender};

fn cfg() -> IpcConfig {
    IpcConfig::default()
}

/// A sender whose setup met with no trouble.
fn ready(channel: &str, cfg: &IpcConfig) -> IpcSender {
    let mut setup = IpcSender::new(channel, cfg);
    while setup.action().is_some() {
        setup = setup.advance(Ok(()));
    }
    setup.outcome().unwrap().unwrap()
}

/// A message: a sequence number and a payload.
fn message(seq: u64, fill: u8, len: usize) -> (u64, Vec<u8>) {
    (seq, vec![fill; len])
}

fn size_of(msg: &(u64, Vec<u8>)) -> Result<u64, String> {
    wincode::serialized_size(msg).map_err(|e| format!("{e:?}"))
}

/// Sends `msg` into `queue`.
fn send(sender: &IpcSender, msg: &(u64, Vec<u8>), queue: &mut Vec<Vec<u8>>) -> Result<(), String> {
    let mut state = sender.try_send(size_of(msg));
    let mut sample: Vec<u8> = Vec::new();
    loop {
        match state.action() {
            Some(SendAction::Loan { size }) => sample = vec![0; size],
            Some(SendAction::Serialize) => {
                let bytes = wincode::serialize(msg).unwrap();
                assert_eq!(bytes.len(), sample.len());
                sample = bytes;
            }
            Some(SendAction::Publish) => queue.push(std::mem::take(&mut sample)),
            Some(SendAction::Notify) => panic!("no notifier"),
            None => break,
        }
        state = state.advance(Ok(()));
    }
    match state {
        SendState::Finished { result, .. } => result.map_err(|e| e.message()),
        _ => unreachable!(),
    }
}

#[test]
fn oversized_message_is_counted_and_explained() {
    let sender = ready("test-oversize-text", &cfg());
    match sender.try_send(Ok(4112)) {
        SendState::Finished { result: Err(e), count } => {
            assert!(matches!(e, SendError::TooLarge { size: 4112, max: 2048 }));
            assert_eq!(e.message(), "message size 4112 exceeds max 2048");
            assert_eq!(count, Some(Counter::PublishFailures));
        }
        other => panic!("{other:?}"),
    }
}

#[test]
fn messages_survive_the_queue_in_order() {
    let channel = "test-deliver";
    let sender = ready(channel, &cfg());
    let mut queue = Vec::new();
    for seq in 0..50u64 {
        send(&sender, &message(seq, 1, 1232), &mut queue).unwrap();
    }
    let (launch, decoder) = IpcReceiver::spawn_with_handler(channel, &cfg(), 0);
    assert_eq!(launch.metrics.received.channel, channel);

    let mut handled: Vec<(u64, Vec<u8>)> = Vec::new();
    let mut received = 0;
    let mut attempts = queue.iter();
    let mut drain = Drain::new();
    assert_eq!(poll_checked(false), PollStep::Drain);
    let got = loop {
        let outcome = match attempts.next() {
            Some(bytes) => ReceiveOutcome::Message(bytes),
            None => ReceiveOutcome::Empty,
        };
        match drain.received(channel, outcome) {
            DrainStep::Deliver { count, message, drain: next } => {
                assert_eq!(count, Counter::Received);
                received += 1;
                let decoded = wincode::deserialize::<(u64, Vec<u8>)>(message);
                match decoder.decoded(decoded.map_err(|e| format!("{e:?}"))) {
                    Decoded::Handle(m) => handled.push(m),
                    Decoded::Skip { warning, .. } => panic!("{warning}"),
                }
                drain = next;
            }
            DrainStep::Done { got, warning } => {
                assert!(warning.is_none());
                break got;
            }
        }
    };
    assert_eq!(poll_drained(got), PollStep::CheckCancelled);
    assert_eq!(poll_checked(true), PollStep::Stop);
    assert_eq!(received, 50);
    assert_eq!(handled.len(), 50);
    for (i, m) in handled.iter().enumerate() {
        assert_eq!(m.0, i as u64);
        assert_eq!(m.1.len(), 1232);
    }
}

#[test]
fn type_mismatch_is_skipped_and_counted() {
    let (_, decoder) = IpcReceiver::spawn_with_handler("mixed", &cfg(), 0);
    let bytes = wincode::serialize(&7u8).unwrap();
    let decoded = wincode::deserialize::<(u64, Vec<u8>)>(&bytes).map_err(|_| "too short".to_string());
    match decoder.decoded(decoded) {
        Decoded::Skip { count, warning } => {
            assert_eq!(count, Counter::DeserializeFailures);
            assert_eq!(warning, "win-ipc mixed: deserialize failed: too short");
        }
        Decoded::Handle(_) => panic!("handled"),
    }
    assert!(matches!(decoder.decoded(Ok::<u8, String>(3)), Decoded::Handle(3)));
}
