use quicksocket::collector::CollectAction;
use quicksocket::collector::CollectEvent;
use quicksocket::collector::Collector;
use quicksocket::forwarder::lag_notice;
use quicksocket::forwarder::Delivery;
use quicksocket::forwarder::DeliveryStep;
use quicksocket::forwarder::ForwardAction;
use quicksocket::forwarder::ForwardEvent;
use quicksocket::forwarder::Forwarder;
use quicksocket::message::Frame;
use quicksocket::message::MessagePayload;
use quicksocket::supervisor::AcceptAction;
use quicksocket::supervisor::AcceptEvent;
use quicksocket::supervisor::Phase;
use quicksocket::supervisor::Supervisor;

fn text(s: &str) -> Frame {
    Frame::Text(s.to_string())
}

#[test]
fn supervisor_starts_listening() {
    let supervisor = Supervisor::new();
    assert_eq!(supervisor.phase(), Phase::Listening);
    assert_eq!(supervisor.live(), 0);
    assert!(supervisor.is_listening());
}

#[test]
fn supervisor_launches_each_accepted_connection() {
    let mut supervisor = Supervisor::new();
    assert_eq!(
        supervisor.step(AcceptEvent::Accepted("127.0.0.1:5000".to_string())),
        AcceptAction::Launch("127.0.0.1:5000".to_string())
    );
    assert_eq!(
        supervisor.step(AcceptEvent::Accepted("127.0.0.1:5001".to_string())),
        AcceptAction::Launch("127.0.0.1:5001".to_string())
    );
    assert_eq!(supervisor.live(), 2);
    assert_eq!(supervisor.step(AcceptEvent::Closed), AcceptAction::Nothing);
    assert_eq!(supervisor.live(), 1);
    assert_eq!(supervisor.phase(), Phase::Listening);
}

#[test]
fn supervisor_ignores_a_signal_that_is_not_raised() {
    let mut supervisor = Supervisor::new();
    assert_eq!(supervisor.step(AcceptEvent::Signal(false)), AcceptAction::Nothing);
    assert_eq!(supervisor.phase(), Phase::Listening);
}

#[test]
fn supervisor_ignores_a_stray_close() {
    let mut supervisor = Supervisor::new();
    assert_eq!(supervisor.step(AcceptEvent::Closed), AcceptAction::Nothing);
    assert_eq!(supervisor.live(), 0);
    assert_eq!(supervisor.phase(), Phase::Listening);
}

#[test]
fn idle_supervisor_finishes_at_once() {
    let mut supervisor = Supervisor::new();
    assert_eq!(supervisor.step(AcceptEvent::Signal(true)), AcceptAction::Finish);
    assert_eq!(supervisor.phase(), Phase::Stopped);
    assert_eq!(supervisor.live(), 0);
}

#[test]
fn lost_signal_counts_as_shutdown() {
    let mut supervisor = Supervisor::new();
    assert_eq!(supervisor.step(AcceptEvent::SignalLost), AcceptAction::Finish);
    assert_eq!(supervisor.phase(), Phase::Stopped);
}

#[test]
fn busy_supervisor_drains_before_it_finishes() {
    let mut supervisor = Supervisor::new();
    supervisor.step(AcceptEvent::Accepted("a".to_string()));
    supervisor.step(AcceptEvent::Accepted("b".to_string()));
    assert_eq!(
        supervisor.step(AcceptEvent::Signal(true)),
        AcceptAction::StopAccepting
    );
    assert_eq!(supervisor.phase(), Phase::Draining);
    assert!(!supervisor.is_listening());
    assert_eq!(supervisor.step(AcceptEvent::Closed), AcceptAction::Nothing);
    assert_eq!(supervisor.phase(), Phase::Draining);
    assert_eq!(supervisor.step(AcceptEvent::Closed), AcceptAction::Finish);
    assert_eq!(supervisor.phase(), Phase::Stopped);
    assert_eq!(supervisor.live(), 0);
}

#[test]
fn no_connection_is_launched_after_shutdown() {
    let mut supervisor = Supervisor::new();
    supervisor.step(AcceptEvent::Accepted("a".to_string()));
    supervisor.step(AcceptEvent::Signal(true));
    assert_eq!(
        supervisor.step(AcceptEvent::Accepted("late".to_string())),
        AcceptAction::Refuse
    );
    assert_eq!(supervisor.live(), 1);
    supervisor.step(AcceptEvent::Closed);
    assert_eq!(
        supervisor.step(AcceptEvent::Accepted("later".to_string())),
        AcceptAction::Refuse
    );
    assert_eq!(supervisor.phase(), Phase::Stopped);
}

#[test]
fn second_shutdown_request_changes_nothing() {
    let mut supervisor = Supervisor::new();
    supervisor.step(AcceptEvent::Accepted("a".to_string()));
    supervisor.step(AcceptEvent::Signal(true));
    let before = supervisor;
    assert_eq!(supervisor.step(AcceptEvent::Signal(true)), AcceptAction::Nothing);
    assert_eq!(supervisor, before);
    assert_eq!(supervisor.step(AcceptEvent::SignalLost), AcceptAction::Nothing);
    assert_eq!(supervisor, before);
}

#[test]
fn stopped_supervisor_stays_stopped() {
    let mut supervisor = Supervisor::new();
    supervisor.step(AcceptEvent::Signal(true));
    assert_eq!(supervisor.step(AcceptEvent::Closed), AcceptAction::Nothing);
    assert_eq!(supervisor.step(AcceptEvent::Signal(true)), AcceptAction::Nothing);
    assert_eq!(supervisor.step(AcceptEvent::Signal(false)), AcceptAction::Nothing);
    assert_eq!(supervisor.phase(), Phase::Stopped);
}

#[test]
fn forwarder_delivers_batches_in_order() {
    let mut forwarder = Forwarder::new();
    let mut written: Vec<Frame> = Vec::new();
    let batches = vec![
        vec![text("a"), text("b")],
        vec![],
        vec![Frame::Binary(vec![1, 2]), text("c")],
    ];
    for batch in batches {
        match forwarder.step(ForwardEvent::Batch(batch)) {
            ForwardAction::Deliver(frames) => written.extend(frames),
            other => panic!("unexpected action {:?}", other),
        }
    }
    assert_eq!(
        written,
        vec![text("a"), text("b"), Frame::Binary(vec![1, 2]), text("c")]
    );
    assert!(forwarder.is_active());
}

#[test]
fn forwarder_counts_skipped_batches_and_goes_on() {
    let mut forwarder = Forwarder::new();
    assert_eq!(forwarder.step(ForwardEvent::Lagged(3)), ForwardAction::ReportLag(3));
    assert_eq!(forwarder.step(ForwardEvent::Lagged(4)), ForwardAction::ReportLag(7));
    assert_eq!(forwarder.missed(), 7);
    assert!(forwarder.is_active());
    assert_eq!(
        forwarder.step(ForwardEvent::Batch(vec![text("next")])),
        ForwardAction::Deliver(vec![text("next")])
    );
}

#[test]
fn delivery_writes_in_order_and_flushes_once() {
    let mut delivery = Delivery::new(vec![text("a"), Frame::Binary(vec![1]), text("b")]);
    assert_eq!(delivery.next(true), DeliveryStep::Write(text("a")));
    assert_eq!(delivery.next(true), DeliveryStep::Write(Frame::Binary(vec![1])));
    assert_eq!(delivery.next(true), DeliveryStep::Write(text("b")));
    assert_eq!(delivery.next(true), DeliveryStep::Flush);
    assert_eq!(delivery.next(true), DeliveryStep::Done);
    assert_eq!(delivery.next(true), DeliveryStep::Done);
}

#[test]
fn delivery_of_an_empty_batch_only_flushes() {
    let mut delivery = Delivery::new(Vec::new());
    assert_eq!(delivery.next(true), DeliveryStep::Flush);
    assert_eq!(delivery.next(true), DeliveryStep::Done);
}

#[test]
fn delivery_stops_at_the_first_failed_write() {
    let mut delivery = Delivery::new(vec![text("a"), text("b")]);
    assert_eq!(delivery.next(true), DeliveryStep::Write(text("a")));
    assert_eq!(delivery.next(false), DeliveryStep::Failed);
    assert_eq!(delivery.next(true), DeliveryStep::Failed);
}

#[test]
fn delivery_fails_when_the_flush_fails() {
    let mut delivery = Delivery::new(vec![text("a")]);
    assert_eq!(delivery.next(true), DeliveryStep::Write(text("a")));
    assert_eq!(delivery.next(true), DeliveryStep::Flush);
    assert_eq!(delivery.next(false), DeliveryStep::Failed);
}

#[test]
fn lag_has_a_notice() {
    assert_eq!(
        lag_notice(),
        "A client fell behind the broadcast and missed batches."
    );
}

#[test]
fn forwarder_count_of_skipped_batches_saturates() {
    let mut forwarder = Forwarder::new();
    forwarder.step(ForwardEvent::Lagged(u64::MAX - 1));
    assert_eq!(
        forwarder.step(ForwardEvent::Lagged(5)),
        ForwardAction::ReportLag(u64::MAX)
    );
    assert_eq!(forwarder.missed(), u64::MAX);
}

#[test]
fn forwarder_stops_when_the_peer_is_gone() {
    let mut forwarder = Forwarder::new();
    forwarder.step(ForwardEvent::Batch(vec![text("a")]));
    assert_eq!(forwarder.step(ForwardEvent::DeliveryFailed), ForwardAction::Stop);
    assert!(!forwarder.is_active());
    assert_eq!(
        forwarder.step(ForwardEvent::Batch(vec![text("b")])),
        ForwardAction::Stop
    );
}

#[test]
fn forwarder_closes_on_request_and_on_shutdown() {
    let mut on_request = Forwarder::new();
    assert_eq!(on_request.step(ForwardEvent::CloseRequested), ForwardAction::Close);
    assert!(!on_request.is_active());

    let mut on_shutdown = Forwarder::new();
    assert_eq!(on_shutdown.step(ForwardEvent::Signal(false)), ForwardAction::Continue);
    assert!(on_shutdown.is_active());
    assert_eq!(on_shutdown.step(ForwardEvent::Signal(true)), ForwardAction::Close);
    assert!(!on_shutdown.is_active());

    let mut on_loss = Forwarder::new();
    assert_eq!(on_loss.step(ForwardEvent::SignalLost), ForwardAction::Close);

    let mut on_end_of_source = Forwarder::new();
    assert_eq!(on_end_of_source.step(ForwardEvent::SourceClosed), ForwardAction::Close);
    assert_eq!(on_end_of_source.step(ForwardEvent::CloseRequested), ForwardAction::Stop);
}

#[test]
fn collector_forwards_three_messages_in_order() {
    let mut collector = Collector::new();
    let mut pushed: Vec<MessagePayload> = Vec::new();
    let events = vec![
        CollectEvent::Received(text("one")),
        CollectEvent::Received(Frame::Ping(vec![1])),
        CollectEvent::Received(Frame::Binary(vec![2])),
        CollectEvent::Received(Frame::Pong(vec![1])),
        CollectEvent::Received(text("three")),
        CollectEvent::Received(Frame::Close),
        CollectEvent::EndOfStream,
        CollectEvent::Received(text("too late")),
    ];
    let mut last = CollectAction::Continue;
    for event in events {
        last = collector.step(event);
        if let CollectAction::Forward(payload) = &last {
            pushed.push(payload.clone());
        }
    }
    assert_eq!(
        pushed,
        vec![
            MessagePayload::Text("one".to_string()),
            MessagePayload::Binary(vec![2]),
            MessagePayload::Text("three".to_string()),
        ]
    );
    assert_eq!(last, CollectAction::Stop);
    assert!(!collector.is_active());
}

#[test]
fn collector_skips_control_frames() {
    let mut collector = Collector::new();
    assert_eq!(
        collector.step(CollectEvent::Received(Frame::Ping(vec![]))),
        CollectAction::Continue
    );
    assert_eq!(
        collector.step(CollectEvent::Received(Frame::Pong(vec![7]))),
        CollectAction::Continue
    );
    assert_eq!(
        collector.step(CollectEvent::Received(Frame::Close)),
        CollectAction::Continue
    );
    assert!(collector.is_active());
}

#[test]
fn collector_asks_for_the_close_when_the_stream_ends() {
    let mut ended = Collector::new();
    assert_eq!(ended.step(CollectEvent::EndOfStream), CollectAction::NotifyAndStop);
    assert!(!ended.is_active());

    let mut failed = Collector::new();
    assert_eq!(failed.step(CollectEvent::ReadFailed), CollectAction::NotifyAndStop);

    let mut orphaned = Collector::new();
    assert_eq!(orphaned.step(CollectEvent::QueueClosed), CollectAction::NotifyAndStop);
}

#[test]
fn collector_stops_on_shutdown() {
    let mut collector = Collector::new();
    assert_eq!(collector.step(CollectEvent::Signal(false)), CollectAction::Continue);
    assert_eq!(collector.step(CollectEvent::Signal(true)), CollectAction::Stop);
    assert!(!collector.is_active());
    assert_eq!(collector.step(CollectEvent::EndOfStream), CollectAction::Stop);

    let mut lost = Collector::new();
    assert_eq!(lost.step(CollectEvent::SignalLost), CollectAction::Stop);
}
