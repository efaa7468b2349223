//! Application payloads and the frames that travel on a connection.

use vstd::prelude::*;

verus! {

/// What a host sends to, and receives from, its clients: text or raw bytes.
#[derive(Clone, Debug, PartialEq, Eq)]
pub enum MessagePayload {
    Text(String),
    Binary(Vec<u8>),
}

/// The mathematical value of a [`MessagePayload`].
pub enum PayloadView {
    Text(Seq<char>),
    Binary(Seq<u8>),
}

impl View for MessagePayload {
    type V = PayloadView;

    open spec fn view(&self) -> PayloadView {
        match self {
            MessagePayload::Text(text) => PayloadView::Text(text@),
            MessagePayload::Binary(bytes) => PayloadView::Binary(bytes@),
        }
    }
}

/// One message as a connection carries it: the two data kinds, and the
/// control kinds that never reach the host.
#[derive(Clone, Debug, PartialEq, Eq)]
pub enum Frame {
    Text(String),
    Binary(Vec<u8>),
    Ping(Vec<u8>),
    Pong(Vec<u8>),
    Close,
}

/// The mathematical value of a [`Frame`].
pub enum FrameView {
    Text(Seq<char>),
    Binary(Seq<u8>),
    Ping(Seq<u8>),
    Pong(Seq<u8>),
    Close,
}

impl View for Frame {
    type V = FrameView;

    open spec fn view(&self) -> FrameView {
        match self {
            Frame::Text(text) => FrameView::Text(text@),
            Frame::Binary(bytes) => FrameView::Binary(bytes@),
            Frame::Ping(bytes) => FrameView::Ping(bytes@),
            Frame::Pong(bytes) => FrameView::Pong(bytes@),
            Frame::Close => FrameView::Close,
        }
    }
}

/// The values of a sequence of payloads, one for one.
pub open spec fn payload_views(payloads: Seq<MessagePayload>) -> Seq<PayloadView> {
    payloads.map_values(|p: MessagePayload| p@)
}

/// The values of a sequence of frames, one for one.
pub open spec fn frame_views(frames: Seq<Frame>) -> Seq<FrameView> {
    frames.map_values(|f: Frame| f@)
}

/// The data frame that carries a payload.
pub open spec fn frame_of_payload(payload: PayloadView) -> FrameView {
    match payload {
        PayloadView::Text(text) => FrameView::Text(text),
        PayloadView::Binary(bytes) => FrameView::Binary(bytes),
    }
}

/// The payload of a data frame; a control frame has none.
pub open spec fn payload_of_frame(frame: FrameView) -> Option<PayloadView> {
    match frame {
        FrameView::Text(text) => Some(PayloadView::Text(text)),
        FrameView::Binary(bytes) => Some(PayloadView::Binary(bytes)),
        FrameView::Ping(_) => None,
        FrameView::Pong(_) => None,
        FrameView::Close => None,
    }
}

/// The frames of a batch of payloads, in the order of the batch.
pub open spec fn frames_of_payloads(payloads: Seq<PayloadView>) -> Seq<FrameView> {
    payloads.map_values(|p: PayloadView| frame_of_payload(p))
}

/// The payloads of the data frames among `frames`, in the order of `frames`.
pub open spec fn data_payloads(frames: Seq<FrameView>) -> Seq<PayloadView>
    decreases frames.len(),
{
    if frames.len() == 0 {
        Seq::empty()
    } else {
        let earlier = data_payloads(frames.drop_last());
        match payload_of_frame(frames.last()) {
            Some(payload) => earlier.push(payload),
            None => earlier,
        }
    }
}

impl MessagePayload {
    /// Wraps the payload in the data frame of its kind.
    pub fn into_frame(self) -> (frame: Frame)
        ensures
            frame@ == frame_of_payload(self@),
    {
        match self {
            MessagePayload::Text(text) => Frame::Text(text),
            MessagePayload::Binary(bytes) => Frame::Binary(bytes),
        }
    }
}

impl Frame {
    /// Whether the frame carries application data.
    pub fn is_data(&self) -> (data: bool)
        ensures
            data == payload_of_frame(self@).is_some(),
    {
        match self {
            Frame::Text(_) => true,
            Frame::Binary(_) => true,
            Frame::Ping(_) => false,
            Frame::Pong(_) => false,
            Frame::Close => false,
        }
    }

    /// Unwraps a data frame; a control frame gives nothing.
    pub fn into_payload(self) -> (payload: Option<MessagePayload>)
        ensures
            match payload {
                Some(p) => payload_of_frame(self@) == Some(p@),
                None => payload_of_frame(self@).is_none(),
            },
    {
        match self {
            Frame::Text(text) => Some(MessagePayload::Text(text)),
            Frame::Binary(bytes) => Some(MessagePayload::Binary(bytes)),
            Frame::Ping(_) => None,
            Frame::Pong(_) => None,
            Frame::Close => None,
        }
    }
}

/// Turns a batch of host payloads into the frames to broadcast, keeping the
/// order of the batch.
pub fn outbound_batch(messages: Vec<MessagePayload>) -> (frames: Vec<Frame>)
    ensures
        frame_views(frames@) == frames_of_payloads(payload_views(messages@)),
{
    let mut frames: Vec<Frame> = Vec::new();
    for message in it: messages
        invariant
            it.seq() == messages@,
            frames@.len() == it.index(),
            forall|k: int| 0 <= k < frames@.len() ==> (#[trigger] frames@[k])@ == frame_of_payload(
                messages@[k]@,
            ),
    {
        frames.push(message.into_frame());
    }
    assert(frame_views(frames@) =~= frames_of_payloads(payload_views(messages@)));
    frames
}

/// One frame alone gives its payload, if it has one.
pub proof fn lemma_data_payloads_of_one(frame: FrameView)
    ensures
        data_payloads(seq![frame]) == match payload_of_frame(frame) {
            Some(payload) => seq![payload],
            None => Seq::<PayloadView>::empty(),
        },
{
    let one = seq![frame];
    assert(one.drop_last() =~= Seq::<FrameView>::empty());
    assert(data_payloads(one.drop_last()) =~= Seq::<PayloadView>::empty());
    assert(one.last() == frame);
    match payload_of_frame(frame) {
        Some(payload) => {
            assert(data_payloads(one) =~= seq![payload]);
        },
        None => {},
    }
}

/// Filtering a concatenation filters each part: data payloads keep the order
/// of their frames, whatever is interleaved with them.
pub proof fn lemma_data_payloads_concat(first: Seq<FrameView>, second: Seq<FrameView>)
    ensures
        data_payloads(first + second) == data_payloads(first) + data_payloads(second),
    decreases second.len(),
{
    if second.len() == 0 {
        assert(first + second =~= first);
        assert(data_payloads(first) + data_payloads(second) =~= data_payloads(first));
    } else {
        let whole = first + second;
        assert(whole.drop_last() =~= first + second.drop_last());
        assert(whole.last() == second.last());
        lemma_data_payloads_concat(first, second.drop_last());
        match payload_of_frame(second.last()) {
            Some(payload) => {
                assert(data_payloads(whole) =~= data_payloads(first) + data_payloads(second));
            },
            None => {},
        }
    }
}

/// A batch of payloads sent as frames is read back as the same payloads.
pub proof fn lemma_frames_round_trip(payloads: Seq<PayloadView>)
    ensures
        data_payloads(frames_of_payloads(payloads)) == payloads,
    decreases payloads.len(),
{
    let frames = frames_of_payloads(payloads);
    if payloads.len() == 0 {
        assert(data_payloads(frames) =~= payloads);
    } else {
        assert(frames.drop_last() =~= frames_of_payloads(payloads.drop_last()));
        lemma_frames_round_trip(payloads.drop_last());
        assert(payload_of_frame(frames.last()) == Some(payloads.last()));
        assert(payloads.drop_last().push(payloads.last()) =~= payloads);
    }
}

} // verus!
