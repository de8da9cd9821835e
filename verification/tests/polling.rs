use win_ipc::bridge::{after_offer, BridgeStep};
use win_ipc::channel::Offered;
use win_ipc::counters::Counter;
use win_ipc::demo::{failed_line, has_gap, received_line, sent_line, transit_us};
use win_ipc::polling::{
    poll_checked, poll_drained, poll_spun, poll_started, Drain, DrainStep, PollStep, ReceiveOutcome,
};
use win_ipc::text::{decimal, join2, join3, join4};
use win_ipc::{Bridge, IpcConfig, IpcReceiver};

fn small(buffer_size: usize) -> IpcConfig {
    IpcConfig { max_message_size: 64, buffer_size, max_publishers: 1, max_subscribers: 1 }
}

#[test]
fn drain_of_an_empty_queue() {
    match Drain::new().received("c", ReceiveOutcome::<u8>::Empty) {
        DrainStep::Done { got, warning } => {
            assert!(!got);
            assert!(warning.is_none());
        }
        other => panic!("{other:?}"),
    }
    assert_eq!(poll_drained(false), PollStep::Spin);
}

#[test]
fn drain_that_fails_keeps_what_it_got() {
    let drain = match Drain::new().received("c", ReceiveOutcome::Message(5u8)) {
        DrainStep::Deliver { count, message, drain } => {
            assert_eq!(count, Counter::Received);
            assert_eq!(message, 5);
            drain
        }
        other => panic!("{other:?}"),
    };
    match drain.received("c", ReceiveOutcome::<u8>::Failed("Oops".to_string())) {
        DrainStep::Done { got, warning } => {
            assert!(got);
            assert_eq!(warning.unwrap(), "win-ipc c: receive failed: Oops");
        }
        other => panic!("{other:?}"),
    }
}

#[test]
fn polling_ends_when_cancelled() {
    assert_eq!(poll_checked(false), PollStep::Drain);
    assert_eq!(poll_checked(true), PollStep::Stop);
    assert_eq!(poll_drained(true), PollStep::CheckCancelled);
}

/// Polls through rounds of (cancelled, number of messages): how often the
/// thread looks, spins and receives, and whether it ends.
fn poll_through(rounds: &[(bool, usize)]) -> (usize, usize, usize, bool) {
    let (mut checks, mut spins, mut received) = (0, 0, 0);
    let mut at = 0;
    let mut step = poll_started();
    loop {
        step = match step {
            PollStep::CheckCancelled => {
                if at == rounds.len() {
                    return (checks, spins, received, false);
                }
                checks += 1;
                poll_checked(rounds[at].0)
            }
            PollStep::Drain => {
                let mut drain = Drain::new();
                let mut left = rounds[at].1;
                at += 1;
                poll_drained(loop {
                    let outcome = if left > 0 {
                        left -= 1;
                        ReceiveOutcome::Message(left)
                    } else {
                        ReceiveOutcome::Empty
                    };
                    match drain.received("c", outcome) {
                        DrainStep::Deliver { drain: next, .. } => {
                            received += 1;
                            drain = next;
                        }
                        DrainStep::Done { got, .. } => break got,
                    }
                })
            }
            PollStep::Spin => {
                spins += 1;
                poll_spun()
            }
            PollStep::Stop => return (checks, spins, received, true),
        };
    }
}

#[test]
fn spins_follow_empty_drains_only() {
    assert_eq!(poll_through(&[]), (0, 0, 0, false));
    assert_eq!(poll_through(&[(false, 0), (false, 3), (false, 0)]), (3, 2, 3, false));
    assert_eq!(poll_through(&[(false, 1), (false, 0), (true, 9), (false, 9)]), (3, 1, 1, true));
    assert_eq!(poll_through(&[(true, 9)]), (1, 0, 0, true));
}

#[test]
fn offers_and_what_follows() {
    assert_eq!(after_offer(Offered::<u8>::Accepted), BridgeStep::Delivered);
    assert_eq!(after_offer(Offered::Full(1u8)), BridgeStep::Dropped { count: Counter::ChannelFull });
    assert_eq!(after_offer(Offered::Closed(1u8)), BridgeStep::Cancel);
}

#[test]
fn bridge_drops_when_full_and_recovers() {
    let (mut bridge, inbox) = Bridge::<u32>::open("c", &small(2));
    let mut rx = inbox.into_inner();
    assert_eq!(rx.max_capacity(), 2);
    assert_eq!(bridge.channel_full().counter, Counter::ChannelFull);
    assert_eq!(bridge.channel_full().channel, "c");
    assert_eq!(bridge.forward(1), BridgeStep::Delivered);
    assert_eq!(bridge.forward(2), BridgeStep::Delivered);
    assert_eq!(bridge.forward(3), BridgeStep::Dropped { count: Counter::ChannelFull });
    assert_eq!(rx.try_recv(), Ok(1));
    assert_eq!(bridge.forward(4), BridgeStep::Delivered);
    assert_eq!(rx.try_recv(), Ok(2));
    assert_eq!(rx.try_recv(), Ok(4));
    assert!(rx.try_recv().is_err());
}

#[test]
fn dropped_consumer_cancels() {
    let (_, decoder, mut bridge, inbox) = IpcReceiver::spawn::<u32>("c", &small(4), 0);
    assert_eq!(decoder.label, "c");
    let rx = inbox.into_inner();
    assert_eq!(rx.max_capacity(), 4);
    assert_eq!(bridge.forward(1), BridgeStep::Delivered);
    drop(rx);
    assert_eq!(bridge.forward(2), BridgeStep::Cancel);
    assert_eq!(bridge.forward(3), BridgeStep::Cancel);
}

#[test]
fn unread_consumer_keeps_the_first_messages() {
    let (_, _, mut bridge, inbox) = IpcReceiver::spawn::<u32>("c", &small(3), 0);
    let mut rx = inbox.into_inner();
    let mut dropped = 0;
    for m in 1..=10 {
        match bridge.forward(m) {
            BridgeStep::Delivered => {}
            BridgeStep::Dropped { count } => {
                assert_eq!(count, Counter::ChannelFull);
                dropped += 1;
            }
            BridgeStep::Cancel => panic!("cancelled"),
        }
    }
    assert_eq!(dropped, 7);
    assert_eq!(rx.try_recv(), Ok(1));
    assert_eq!(rx.try_recv(), Ok(2));
    assert_eq!(rx.try_recv(), Ok(3));
    assert!(rx.try_recv().is_err());
}

#[test]
fn numbers_and_joins() {
    assert_eq!(decimal(0), "0");
    assert_eq!(decimal(9), "9");
    assert_eq!(decimal(10), "10");
    assert_eq!(decimal(1234567890), "1234567890");
    assert_eq!(decimal(u64::MAX), "18446744073709551615");
    assert_eq!(join2("a", "b"), "ab");
    assert_eq!(join3("a", "", "c"), "ac");
    assert_eq!(join4("a", "b", "c", "d"), "abcd");
}

#[test]
fn demo_reports() {
    assert_eq!(transit_us(5_999, 1_000), 4);
    assert_eq!(transit_us(1_000, 5_000), 0);
    assert!(!has_gap(0, 17));
    assert!(!has_gap(4, 5));
    assert!(has_gap(4, 6));
    assert!(has_gap(4, 4));
    assert_eq!(sent_line(12), "sent seq=12");
    assert_eq!(failed_line(12, "loan: x"), "send failed seq=12: loan: x");
    assert_eq!(received_line(3, 40, 1232, false), "recv seq=3 transit=40us len=1232");
    assert_eq!(received_line(3, 40, 1232, true), "recv seq=3 transit=40us len=1232 GAP");
}
