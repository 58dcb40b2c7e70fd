use plm::broker::Phase;
use plm::{Address, Broker, BrokerAction, BrokerEvent, BrokerMessage, Error, Frame, ModemInfo};

fn info() -> Frame {
    Frame::ModemInfo(ModemInfo {
        address: Address([1, 2, 3]),
        category: 3,
        sub_category: 4,
        firmware_version: 5,
    })
}

fn call(frame: Frame, responder: u64) -> BrokerEvent {
    BrokerEvent::Command(Some(BrokerMessage::SendFrame { frame, responder }))
}

fn add(listener: u64) -> BrokerEvent {
    BrokerEvent::Command(Some(BrokerMessage::AddListener { listener }))
}

#[test]
fn broker_starts_idle() {
    let broker = Broker::new();
    assert_eq!(broker.phase(), Phase::Idle);
    assert!(broker.listeners().is_empty());
    assert!(broker.accepts(&add(1)));
    assert!(broker.accepts(&BrokerEvent::Inbound(None)));
    assert!(!broker.accepts(&BrokerEvent::Written(Ok(()))));
}

#[test]
fn broker_call_gets_the_next_frame() {
    let mut broker = Broker::new();
    assert_eq!(
        broker.step(call(Frame::GetModemInfo, 7)),
        BrokerAction::Write { frame: Frame::GetModemInfo }
    );
    assert_eq!(broker.phase(), Phase::Writing { responder: 7 });
    assert!(!broker.accepts(&call(Frame::Reset, 8)));
    assert!(!broker.accepts(&BrokerEvent::Inbound(None)));
    assert_eq!(broker.step(BrokerEvent::Written(Ok(()))), BrokerAction::Read);
    assert_eq!(broker.phase(), Phase::Awaiting { responder: 7 });
    assert!(!broker.accepts(&call(Frame::Reset, 8)));
    assert!(!broker.accepts(&add(1)));
    assert_eq!(
        broker.step(BrokerEvent::Inbound(Some(Ok(info())))),
        BrokerAction::Reply { responder: 7, result: Ok(info()) }
    );
    assert_eq!(broker.phase(), Phase::Idle);
}

#[test]
fn broker_two_calls_get_their_own_replies() {
    let mut broker = Broker::new();
    let mut replies = Vec::new();
    let mut writes = Vec::new();
    // Both calls are queued; the second is taken only after the first reply.
    let mut queue = vec![call(Frame::Reset, 2), call(Frame::GetModemInfo, 1)];
    let mut inbound = vec![Ok(Frame::Reset), Ok(info())];
    while let Some(command) = queue.pop() {
        assert!(broker.accepts(&command));
        match broker.step(command) {
            BrokerAction::Write { frame } => writes.push(frame),
            other => panic!("{:?}", other),
        }
        assert_eq!(broker.step(BrokerEvent::Written(Ok(()))), BrokerAction::Read);
        match broker.step(BrokerEvent::Inbound(Some(inbound.pop().unwrap()))) {
            BrokerAction::Reply { responder, result } => replies.push((responder, result)),
            other => panic!("{:?}", other),
        }
    }
    assert_eq!(writes, vec![Frame::GetModemInfo, Frame::Reset]);
    assert_eq!(replies, vec![(1, Ok(info())), (2, Ok(Frame::Reset))]);
}

#[test]
fn broker_reply_can_be_an_error() {
    let mut broker = Broker::new();
    broker.step(call(Frame::CancelAllLink, 3));
    broker.step(BrokerEvent::Written(Ok(())));
    assert_eq!(
        broker.step(BrokerEvent::Inbound(Some(Err(Error::NotAcknowledged)))),
        BrokerAction::Reply { responder: 3, result: Err(Error::NotAcknowledged) }
    );
    assert_eq!(broker.phase(), Phase::Idle);
}

#[test]
fn broker_frame_before_a_call_goes_to_listeners() {
    let mut broker = Broker::new();
    assert_eq!(broker.step(add(10)), BrokerAction::Wait);
    assert_eq!(broker.step(add(11)), BrokerAction::Wait);
    assert_eq!(
        broker.step(BrokerEvent::Inbound(Some(Ok(Frame::Reset)))),
        BrokerAction::Broadcast { frame: Frame::Reset }
    );
    assert_eq!(broker.listeners(), &vec![10, 11]);
    assert_eq!(broker.phase(), Phase::Idle);
    assert_eq!(
        broker.step(BrokerEvent::Delivered { listener: 10, ok: true }),
        BrokerAction::Wait
    );
    assert_eq!(
        broker.step(BrokerEvent::Delivered { listener: 11, ok: true }),
        BrokerAction::Wait
    );
    assert_eq!(
        broker.step(call(Frame::GetModemInfo, 1)),
        BrokerAction::Write { frame: Frame::GetModemInfo }
    );
}

#[test]
fn broker_drops_listeners_that_are_gone() {
    let mut broker = Broker::new();
    for listener in [5u64, 6, 7, 6] {
        assert_eq!(broker.step(add(listener)), BrokerAction::Wait);
    }
    assert_eq!(broker.listeners(), &vec![5, 6, 7]);
    broker.step(BrokerEvent::Inbound(Some(Ok(Frame::Reset))));
    broker.step(BrokerEvent::Delivered { listener: 5, ok: true });
    broker.step(BrokerEvent::Delivered { listener: 6, ok: false });
    broker.step(BrokerEvent::Delivered { listener: 7, ok: true });
    assert_eq!(broker.listeners(), &vec![5, 7]);
    broker.step(BrokerEvent::Delivered { listener: 9, ok: false });
    assert_eq!(broker.listeners(), &vec![5, 7]);
    assert_eq!(broker.listen(6), Ok(()));
    assert_eq!(broker.listeners(), &vec![5, 7, 6]);
}

#[test]
fn broker_write_failure_goes_to_the_caller() {
    let mut broker = Broker::new();
    broker.step(call(Frame::Reset, 4));
    let failure = Error::IoError(std::io::ErrorKind::BrokenPipe);
    assert_eq!(
        broker.step(BrokerEvent::Written(Err(failure))),
        BrokerAction::Reply { responder: 4, result: Err(failure) }
    );
    assert_eq!(broker.phase(), Phase::Idle);
    assert_eq!(
        broker.step(call(Frame::Reset, 5)),
        BrokerAction::Write { frame: Frame::Reset }
    );
}

#[test]
fn broker_stream_end_during_a_call() {
    let mut broker = Broker::new();
    broker.step(call(Frame::Reset, 4));
    broker.step(BrokerEvent::Written(Ok(())));
    assert_eq!(
        broker.step(BrokerEvent::Inbound(None)),
        BrokerAction::Disconnect { responder: 4 }
    );
    assert_eq!(broker.phase(), Phase::Stopped);
    assert_eq!(
        broker.step(call(Frame::Reset, 5)),
        BrokerAction::Disconnect { responder: 5 }
    );
    assert_eq!(broker.send(Frame::Reset, 6), BrokerAction::Disconnect { responder: 6 });
    assert_eq!(broker.listen(1), Err(Error::Disconnected));
    assert_eq!(broker.step(add(1)), BrokerAction::Stop);
    assert!(broker.listeners().is_empty());
    assert_eq!(broker.step(BrokerEvent::Command(None)), BrokerAction::Stop);
}

#[test]
fn broker_stops_when_idle_stream_fails() {
    let mut broker = Broker::new();
    assert_eq!(broker.step(BrokerEvent::Inbound(Some(Err(Error::Parse)))), BrokerAction::Stop);
    assert_eq!(broker.phase(), Phase::Stopped);
    let mut broker = Broker::new();
    assert_eq!(broker.step(BrokerEvent::Inbound(None)), BrokerAction::Stop);
    assert_eq!(broker.phase(), Phase::Stopped);
    let mut broker = Broker::new();
    assert_eq!(broker.step(BrokerEvent::Command(None)), BrokerAction::Stop);
    assert_eq!(broker.phase(), Phase::Stopped);
    assert!(!broker.accepts(&BrokerEvent::Inbound(None)));
    assert!(broker.accepts(&BrokerEvent::Command(None)));
}

#[test]
fn broker_passes_over_events_out_of_turn() {
    let mut broker = Broker::new();
    assert_eq!(broker.try_step(BrokerEvent::Written(Ok(()))), None);
    assert_eq!(broker.phase(), Phase::Idle);
    assert_eq!(
        broker.try_step(call(Frame::Reset, 1)),
        Some(BrokerAction::Write { frame: Frame::Reset })
    );
    assert_eq!(broker.try_step(call(Frame::Reset, 2)), None);
    assert_eq!(broker.try_step(add(3)), None);
    assert_eq!(broker.phase(), Phase::Writing { responder: 1 });
    assert!(broker.listeners().is_empty());
    assert_eq!(broker.try_step(BrokerEvent::Written(Ok(()))), Some(BrokerAction::Read));
}
