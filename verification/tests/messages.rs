use quicksocket::message::outbound_batch;
use quicksocket::message::Frame;
use quicksocket::message::MessagePayload;

#[test]
fn text_payload_becomes_text_frame() {
    let frame = MessagePayload::Text("hello".to_string()).into_frame();
    assert_eq!(frame, Frame::Text("hello".to_string()));
}

#[test]
fn binary_payload_becomes_binary_frame() {
    let frame = MessagePayload::Binary(vec![0, 1, 255]).into_frame();
    assert_eq!(frame, Frame::Binary(vec![0, 1, 255]));
}

#[test]
fn data_frames_carry_a_payload() {
    assert!(Frame::Text("a".to_string()).is_data());
    assert!(Frame::Binary(vec![1]).is_data());
    assert_eq!(
        Frame::Text("a".to_string()).into_payload(),
        Some(MessagePayload::Text("a".to_string()))
    );
    assert_eq!(
        Frame::Binary(vec![9, 8]).into_payload(),
        Some(MessagePayload::Binary(vec![9, 8]))
    );
}

#[test]
fn control_frames_carry_none() {
    assert!(!Frame::Ping(vec![1]).is_data());
    assert!(!Frame::Pong(vec![1]).is_data());
    assert!(!Frame::Close.is_data());
    assert_eq!(Frame::Ping(vec![1]).into_payload(), None);
    assert_eq!(Frame::Pong(vec![]).into_payload(), None);
    assert_eq!(Frame::Close.into_payload(), None);
}

#[test]
fn outbound_batch_keeps_order_and_kind() {
    let batch = vec![
        MessagePayload::Text("one".to_string()),
        MessagePayload::Binary(vec![2]),
        MessagePayload::Text("three".to_string()),
    ];
    let frames = outbound_batch(batch);
    assert_eq!(
        frames,
        vec![
            Frame::Text("one".to_string()),
            Frame::Binary(vec![2]),
            Frame::Text("three".to_string()),
        ]
    );
}

#[test]
fn outbound_batch_of_nothing_is_empty() {
    assert_eq!(outbound_batch(Vec::new()), Vec::<Frame>::new());
}

#[test]
fn payload_round_trips_through_a_frame() {
    let payloads = vec![
        MessagePayload::Text("".to_string()),
        MessagePayload::Binary(vec![]),
        MessagePayload::Text("ünïcödé".to_string()),
    ];
    for payload in payloads {
        assert_eq!(payload.clone().into_frame().into_payload(), Some(payload));
    }
}
