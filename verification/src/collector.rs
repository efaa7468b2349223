//! The inbound half of a connection: what to pass on to the host, and when
//! to stop.
//!
//! The task that owns a connection's stream waits for the next event (a
//! frame from the client, the end of the stream, the shutdown signal), hands
//! it to [`Collector::step`], and performs the action that comes back.

use crate::message::data_payloads;
use crate::message::lemma_data_payloads_concat;
use crate::message::lemma_data_payloads_of_one;
use crate::message::payload_of_frame;
use crate::message::Frame;
use crate::message::FrameView;
use crate::message::MessagePayload;
use crate::message::PayloadView;
use vstd::prelude::*;

verus! {

/// What the inbound half of a connection can observe.
#[derive(Clone, Debug, PartialEq, Eq)]
pub enum CollectEvent {
    /// The client sent a frame.
    Received(Frame),
    /// Reading from the connection failed.
    ReadFailed,
    /// The stream ended: the peer closed the connection.
    EndOfStream,
    /// The host's queue is gone; the last payload could not be passed on.
    QueueClosed,
    /// The shutdown signal changed; the flag says whether shutdown is requested.
    Signal(bool),
    /// The host's end of the shutdown signal is gone.
    SignalLost,
}

/// The mathematical value of a [`CollectEvent`].
pub enum CollectEventView {
    Received(FrameView),
    ReadFailed,
    EndOfStream,
    QueueClosed,
    Signal(bool),
    SignalLost,
}

impl View for CollectEvent {
    type V = CollectEventView;

    open spec fn view(&self) -> CollectEventView {
        match self {
            CollectEvent::Received(frame) => CollectEventView::Received(frame@),
            CollectEvent::ReadFailed => CollectEventView::ReadFailed,
            CollectEvent::EndOfStream => CollectEventView::EndOfStream,
            CollectEvent::QueueClosed => CollectEventView::QueueClosed,
            CollectEvent::Signal(requested) => CollectEventView::Signal(*requested),
            CollectEvent::SignalLost => CollectEventView::SignalLost,
        }
    }
}

/// What the inbound half of a connection is told to do.
#[derive(Clone, Debug, PartialEq, Eq)]
pub enum CollectAction {
    /// Push the payload into the host's queue.
    Forward(MessagePayload),
    /// Go on waiting.
    Continue,
    /// Ask the outbound half for the close handshake, then end the task.
    NotifyAndStop,
    /// End the task.
    Stop,
}

/// The mathematical value of a [`CollectAction`].
pub enum CollectActionView {
    Forward(PayloadView),
    Continue,
    NotifyAndStop,
    Stop,
}

impl View for CollectAction {
    type V = CollectActionView;

    open spec fn view(&self) -> CollectActionView {
        match self {
            CollectAction::Forward(payload) => CollectActionView::Forward(payload@),
            CollectAction::Continue => CollectActionView::Continue,
            CollectAction::NotifyAndStop => CollectActionView::NotifyAndStop,
            CollectAction::Stop => CollectActionView::Stop,
        }
    }
}

/// The state of the inbound half: whether it still collects.
#[derive(Clone, Copy, Debug, PartialEq, Eq)]
pub struct Collector {
    active: bool,
}

impl View for Collector {
    type V = bool;

    closed spec fn view(&self) -> bool {
        self.active
    }
}

/// Whether an event ends an active collector.
pub open spec fn ends_collecting(event: CollectEventView) -> bool {
    match event {
        CollectEventView::Received(_) => false,
        CollectEventView::Signal(requested) => requested,
        _ => true,
    }
}

/// One transition: whether the collector is active after `event`, and the
/// action to perform.
pub open spec fn transition(active: bool, event: CollectEventView) -> (bool, CollectActionView) {
    if !active {
        (false, CollectActionView::Stop)
    } else {
        match event {
            CollectEventView::Received(frame) => match payload_of_frame(frame) {
                Some(payload) => (true, CollectActionView::Forward(payload)),
                None => (true, CollectActionView::Continue),
            },
            CollectEventView::Signal(false) => (true, CollectActionView::Continue),
            CollectEventView::Signal(true) => (false, CollectActionView::Stop),
            CollectEventView::SignalLost => (false, CollectActionView::Stop),
            _ => (false, CollectActionView::NotifyAndStop),
        }
    }
}

/// Whether the collector is active after a sequence of events, taken in order.
pub open spec fn run(active: bool, events: Seq<CollectEventView>) -> bool
    decreases events.len(),
{
    if events.len() == 0 {
        active
    } else {
        run(transition(active, events.first()).0, events.drop_first())
    }
}

/// The actions that a sequence of events gives, one for each event.
pub open spec fn trace(active: bool, events: Seq<CollectEventView>) -> Seq<CollectActionView>
    decreases events.len(),
{
    if events.len() == 0 {
        Seq::empty()
    } else {
        let (next, action) = transition(active, events.first());
        seq![action] + trace(next, events.drop_first())
    }
}

/// The payloads that a sequence of actions pushes to the host, in order.
pub open spec fn forwarded(actions: Seq<CollectActionView>) -> Seq<PayloadView>
    decreases actions.len(),
{
    if actions.len() == 0 {
        Seq::empty()
    } else {
        match actions.first() {
            CollectActionView::Forward(payload) => seq![payload] + forwarded(actions.drop_first()),
            _ => forwarded(actions.drop_first()),
        }
    }
}

/// The frames that the client sent before the first event that ends the
/// collecting, in order.
pub open spec fn received(events: Seq<CollectEventView>) -> Seq<FrameView>
    decreases events.len(),
{
    if events.len() == 0 {
        Seq::empty()
    } else if ends_collecting(events.first()) {
        Seq::empty()
    } else {
        match events.first() {
            CollectEventView::Received(frame) => seq![frame] + received(events.drop_first()),
            _ => received(events.drop_first()),
        }
    }
}

impl Collector {
    /// The inbound half of a connection that was just accepted.
    pub fn new() -> (collector: Collector)
        ensures
            collector@,
    {
        Collector { active: true }
    }

    /// Whether the task still collects.
    pub fn is_active(&self) -> (active: bool)
        ensures
            active == self@,
    {
        self.active
    }

    /// Takes one event and says what to do about it.
    pub fn step(&mut self, event: CollectEvent) -> (action: CollectAction)
        ensures
            (final(self)@, action@) == transition(old(self)@, event@),
    {
        if !self.active {
            return CollectAction::Stop;
        }
        match event {
            CollectEvent::Received(frame) => match frame.into_payload() {
                Some(payload) => CollectAction::Forward(payload),
                None => CollectAction::Continue,
            },
            CollectEvent::Signal(false) => CollectAction::Continue,
            CollectEvent::Signal(true) => {
                self.active = false;
                CollectAction::Stop
            },
            CollectEvent::SignalLost => {
                self.active = false;
                CollectAction::Stop
            },
            _ => {
                self.active = false;
                CollectAction::NotifyAndStop
            },
        }
    }
}

/// A collector that has ended passes nothing on, whatever happens.
pub proof fn lemma_ended_collector_is_silent(events: Seq<CollectEventView>)
    ensures
        !run(false, events),
        forwarded(trace(false, events)) == Seq::<PayloadView>::empty(),
    decreases events.len(),
{
    if events.len() > 0 {
        assert(trace(false, events).drop_first() =~= trace(false, events.drop_first()));
        lemma_ended_collector_is_silent(events.drop_first());
    }
}

/// Whatever the events, an active collector passes on to the host exactly
/// the payloads of the data frames that its client sent before the
/// collecting ended: each once, in the order in which the client sent them,
/// and no control frame.
pub proof fn lemma_forwards_what_was_received(events: Seq<CollectEventView>)
    ensures
        forwarded(trace(true, events)) == data_payloads(received(events)),
    decreases events.len(),
{
    if events.len() == 0 {
    } else {
        let (next, action) = transition(true, events.first());
        let rest = events.drop_first();
        assert(trace(true, events).drop_first() =~= trace(next, rest));
        assert(trace(true, events).first() == action);
        if next {
            lemma_forwards_what_was_received(rest);
            match events.first() {
                CollectEventView::Received(frame) => {
                    assert(received(events) =~= seq![frame] + received(rest));
                    lemma_data_payloads_concat(seq![frame], received(rest));
                    lemma_data_payloads_of_one(frame);
                    assert(forwarded(trace(true, events)) =~= data_payloads(received(events)));
                },
                _ => {},
            }
        } else {
            lemma_ended_collector_is_silent(rest);
            assert(received(events) =~= Seq::<FrameView>::empty());
            assert(forwarded(trace(true, events)) =~= data_payloads(received(events)));
        }
    }
}

} // verus!
