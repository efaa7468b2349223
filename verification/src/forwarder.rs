//! The outbound half of a connection: what to write to the client, and when
//! to stop.
//!
//! The task that owns a connection's sink waits for the next event (a
//! published batch, a close request from the inbound half, the shutdown
//! signal), hands it to [`Forwarder::step`], and performs the action that
//! comes back.  A batch is written step by step as a [`Delivery`] says; when
//! that fails, the task reports it as the next event.

use crate::message::frame_views;
use crate::message::Frame;
use crate::message::FrameView;
use vstd::prelude::*;
use vstd::string::StringExecFns;

verus! {

/// What the outbound half of a connection can observe.
#[derive(Clone, Debug, PartialEq, Eq)]
pub enum ForwardEvent {
    /// The subscription handed out the next published batch.
    Batch(Vec<Frame>),
    /// The subscription fell behind and skipped this many batches.
    Lagged(u64),
    /// The publishing side is gone; no batch will follow.
    SourceClosed,
    /// Writing or flushing the last batch failed: the peer is gone.
    DeliveryFailed,
    /// The inbound half saw the peer close and asks for the close handshake.
    CloseRequested,
    /// The shutdown signal changed; the flag says whether shutdown is requested.
    Signal(bool),
    /// The host's end of the shutdown signal is gone.
    SignalLost,
}

/// The mathematical value of a [`ForwardEvent`].
pub enum ForwardEventView {
    Batch(Seq<FrameView>),
    Lagged(u64),
    SourceClosed,
    DeliveryFailed,
    CloseRequested,
    Signal(bool),
    SignalLost,
}

impl View for ForwardEvent {
    type V = ForwardEventView;

    open spec fn view(&self) -> ForwardEventView {
        match self {
            ForwardEvent::Batch(frames) => ForwardEventView::Batch(frame_views(frames@)),
            ForwardEvent::Lagged(skipped) => ForwardEventView::Lagged(*skipped),
            ForwardEvent::SourceClosed => ForwardEventView::SourceClosed,
            ForwardEvent::DeliveryFailed => ForwardEventView::DeliveryFailed,
            ForwardEvent::CloseRequested => ForwardEventView::CloseRequested,
            ForwardEvent::Signal(requested) => ForwardEventView::Signal(*requested),
            ForwardEvent::SignalLost => ForwardEventView::SignalLost,
        }
    }
}

/// What the outbound half of a connection is told to do.
#[derive(Clone, Debug, PartialEq, Eq)]
pub enum ForwardAction {
    /// Write each frame in order, then flush once, as a [`Delivery`] of the
    /// batch says step by step.
    Deliver(Vec<Frame>),
    /// Record that the subscription has skipped batches, this many so far,
    /// and go on waiting.
    ReportLag(u64),
    /// Go on waiting.
    Continue,
    /// Attempt the close handshake on the connection, then end the task.
    Close,
    /// End the task.
    Stop,
}

/// The mathematical value of a [`ForwardAction`].
pub enum ForwardActionView {
    Deliver(Seq<FrameView>),
    ReportLag(nat),
    Continue,
    Close,
    Stop,
}

impl View for ForwardAction {
    type V = ForwardActionView;

    open spec fn view(&self) -> ForwardActionView {
        match self {
            ForwardAction::Deliver(frames) => ForwardActionView::Deliver(frame_views(frames@)),
            ForwardAction::ReportLag(missed) => ForwardActionView::ReportLag(*missed as nat),
            ForwardAction::Continue => ForwardActionView::Continue,
            ForwardAction::Close => ForwardActionView::Close,
            ForwardAction::Stop => ForwardActionView::Stop,
        }
    }
}

/// The state of the outbound half: whether it still forwards, and how many
/// batches its subscription has skipped so far.
#[derive(Clone, Copy, Debug, PartialEq, Eq)]
pub struct Forwarder {
    active: bool,
    missed: u64,
}

/// The mathematical value of a [`Forwarder`].
pub struct ForwarderView {
    pub active: bool,
    pub missed: nat,
}

impl View for Forwarder {
    type V = ForwarderView;

    closed spec fn view(&self) -> ForwarderView {
        ForwarderView { active: self.active, missed: self.missed as nat }
    }
}

/// The state in which a connection's outbound half starts.
pub open spec fn initial() -> ForwarderView {
    ForwarderView { active: true, missed: 0 }
}

/// Whether an event ends an active forwarder.
pub open spec fn ends_forwarding(event: ForwardEventView) -> bool {
    match event {
        ForwardEventView::Batch(_) => false,
        ForwardEventView::Lagged(_) => false,
        ForwardEventView::Signal(requested) => requested,
        _ => true,
    }
}

/// The sum of two counts of skipped batches, held at the largest count that
/// the machine keeps.
pub open spec fn saturating_sum(missed: nat, skipped: u64) -> nat {
    if missed + skipped > u64::MAX {
        u64::MAX as nat
    } else {
        (missed + skipped) as nat
    }
}

/// One transition: the state after `event`, and the action to perform.
pub open spec fn transition(state: ForwarderView, event: ForwardEventView) -> (
    ForwarderView,
    ForwardActionView,
) {
    if !state.active {
        (state, ForwardActionView::Stop)
    } else {
        match event {
            ForwardEventView::Batch(frames) => (state, ForwardActionView::Deliver(frames)),
            ForwardEventView::Lagged(skipped) => (
                ForwarderView { active: true, missed: saturating_sum(state.missed, skipped) },
                ForwardActionView::ReportLag(saturating_sum(state.missed, skipped)),
            ),
            ForwardEventView::Signal(false) => (state, ForwardActionView::Continue),
            ForwardEventView::DeliveryFailed => (
                ForwarderView { active: false, missed: state.missed },
                ForwardActionView::Stop,
            ),
            _ => (ForwarderView { active: false, missed: state.missed }, ForwardActionView::Close),
        }
    }
}

/// The state after a sequence of events, taken in order.
pub open spec fn run(state: ForwarderView, events: Seq<ForwardEventView>) -> ForwarderView
    decreases events.len(),
{
    if events.len() == 0 {
        state
    } else {
        run(transition(state, events.first()).0, events.drop_first())
    }
}

/// The actions that a sequence of events gives, one for each event.
pub open spec fn trace(state: ForwarderView, events: Seq<ForwardEventView>) -> Seq<
    ForwardActionView,
>
    decreases events.len(),
{
    if events.len() == 0 {
        Seq::empty()
    } else {
        let (next, action) = transition(state, events.first());
        seq![action] + trace(next, events.drop_first())
    }
}

/// The frames that a sequence of actions writes to the client, in order.
pub open spec fn delivered(actions: Seq<ForwardActionView>) -> Seq<FrameView>
    decreases actions.len(),
{
    if actions.len() == 0 {
        Seq::empty()
    } else {
        match actions.first() {
            ForwardActionView::Deliver(frames) => frames + delivered(actions.drop_first()),
            _ => delivered(actions.drop_first()),
        }
    }
}

/// The frames of the batches that the subscription hands out before the
/// first event that ends the forwarding, in order.
pub open spec fn handed_out(events: Seq<ForwardEventView>) -> Seq<FrameView>
    decreases events.len(),
{
    if events.len() == 0 {
        Seq::empty()
    } else if ends_forwarding(events.first()) {
        Seq::empty()
    } else {
        match events.first() {
            ForwardEventView::Batch(frames) => frames + handed_out(events.drop_first()),
            _ => handed_out(events.drop_first()),
        }
    }
}

/// The notice recorded when a connection's subscription has skipped batches.
pub open spec fn lag_notice_text() -> Seq<char> {
    "A client fell behind the broadcast and missed batches."@
}

/// Writes the notice for a subscription that has skipped batches.
pub fn lag_notice() -> (notice: String)
    ensures
        notice@ == lag_notice_text(),
{
    String::from_str("A client fell behind the broadcast and missed batches.")
}

impl Forwarder {
    /// The outbound half of a connection that was just accepted.
    pub fn new() -> (forwarder: Forwarder)
        ensures
            forwarder@ == initial(),
    {
        Forwarder { active: true, missed: 0 }
    }

    /// Whether the task still forwards.
    pub fn is_active(&self) -> (active: bool)
        ensures
            active == self@.active,
    {
        self.active
    }

    /// How many batches the subscription has skipped, as far as counted.
    pub fn missed(&self) -> (missed: u64)
        ensures
            missed == self@.missed,
    {
        self.missed
    }

    /// Takes one event and says what to do about it.
    pub fn step(&mut self, event: ForwardEvent) -> (action: ForwardAction)
        ensures
            (final(self)@, action@) == transition(old(self)@, event@),
    {
        if !self.active {
            return ForwardAction::Stop;
        }
        match event {
            ForwardEvent::Batch(frames) => ForwardAction::Deliver(frames),
            ForwardEvent::Lagged(skipped) => {
                self.missed = if skipped > u64::MAX - self.missed {
                    u64::MAX
                } else {
                    self.missed + skipped
                };
                ForwardAction::ReportLag(self.missed)
            },
            ForwardEvent::Signal(false) => ForwardAction::Continue,
            ForwardEvent::DeliveryFailed => {
                self.active = false;
                ForwardAction::Stop
            },
            _ => {
                self.active = false;
                ForwardAction::Close
            },
        }
    }
}

/// A forwarder that has ended writes nothing more, whatever happens.
pub proof fn lemma_ended_forwarder_is_silent(state: ForwarderView, events: Seq<ForwardEventView>)
    requires
        !state.active,
    ensures
        run(state, events) == state,
        delivered(trace(state, events)) == Seq::<FrameView>::empty(),
    decreases events.len(),
{
    if events.len() > 0 {
        let (next, action) = transition(state, events.first());
        assert(trace(state, events).drop_first() =~= trace(next, events.drop_first()));
        lemma_ended_forwarder_is_silent(next, events.drop_first());
    }
}

/// Whatever the events, an active forwarder writes to its client exactly the
/// frames of the batches that its subscription handed out before the
/// forwarding ended: each batch once, in the order of publication, each
/// batch's frames in their own order, and nothing else.
pub proof fn lemma_delivers_what_was_handed_out(
    state: ForwarderView,
    events: Seq<ForwardEventView>,
)
    requires
        state.active,
    ensures
        delivered(trace(state, events)) == handed_out(events),
    decreases events.len(),
{
    if events.len() > 0 {
        let (next, action) = transition(state, events.first());
        let rest = events.drop_first();
        assert(trace(state, events).drop_first() =~= trace(next, rest));
        assert(trace(state, events).first() == action);
        if next.active {
            lemma_delivers_what_was_handed_out(next, rest);
        } else {
            lemma_ended_forwarder_is_silent(next, rest);
            assert(delivered(trace(state, events)) =~= handed_out(events));
        }
    }
}

/// One step of writing a batch to a client.
#[derive(Clone, Debug, PartialEq, Eq)]
pub enum DeliveryStep {
    /// Hand this frame to the connection, without flushing.
    Write(Frame),
    /// Flush the connection.
    Flush,
    /// The batch is written and flushed.
    Done,
    /// A step failed: the peer is gone, and nothing more is written.
    Failed,
}

/// The mathematical value of a [`DeliveryStep`].
pub enum DeliveryStepView {
    Write(FrameView),
    Flush,
    Done,
    Failed,
}

impl View for DeliveryStep {
    type V = DeliveryStepView;

    open spec fn view(&self) -> DeliveryStepView {
        match self {
            DeliveryStep::Write(frame) => DeliveryStepView::Write(frame@),
            DeliveryStep::Flush => DeliveryStepView::Flush,
            DeliveryStep::Done => DeliveryStepView::Done,
            DeliveryStep::Failed => DeliveryStepView::Failed,
        }
    }
}

/// The writing of one batch: the frames still to write, whether the flush
/// that follows them was asked for, and whether a step has failed.
pub struct Delivery {
    pending: Vec<Frame>,
    flushed: bool,
    failed: bool,
}

/// The mathematical value of a [`Delivery`].
pub struct DeliveryView {
    pub pending: Seq<FrameView>,
    pub flushed: bool,
    pub failed: bool,
}

impl View for Delivery {
    type V = DeliveryView;

    closed spec fn view(&self) -> DeliveryView {
        DeliveryView {
            pending: frame_views(self.pending@),
            flushed: self.flushed,
            failed: self.failed,
        }
    }
}

/// The next step of a delivery, given whether the step before it succeeded:
/// the frames one by one in their order, then one flush, then nothing; and
/// nothing but failure from the first step that failed.
pub open spec fn next_step(state: DeliveryView, last_ok: bool) -> (DeliveryView, DeliveryStepView) {
    if state.failed || !last_ok {
        (
            DeliveryView { pending: state.pending, flushed: state.flushed, failed: true },
            DeliveryStepView::Failed,
        )
    } else if state.pending.len() > 0 {
        (
            DeliveryView {
                pending: state.pending.drop_first(),
                flushed: state.flushed,
                failed: false,
            },
            DeliveryStepView::Write(state.pending.first()),
        )
    } else if !state.flushed {
        (
            DeliveryView { pending: state.pending, flushed: true, failed: false },
            DeliveryStepView::Flush,
        )
    } else {
        (state, DeliveryStepView::Done)
    }
}

/// The steps of a delivery on which every step succeeds, up to the one that
/// says it is done.
pub open spec fn steps_when_all_succeed(state: DeliveryView) -> Seq<DeliveryStepView>
    decreases state.pending.len(), (if state.flushed { 0nat } else { 1nat }),
{
    let (next, step) = next_step(state, true);
    if state.failed || (state.pending.len() == 0 && state.flushed) {
        seq![step]
    } else {
        seq![step] + steps_when_all_succeed(next)
    }
}

/// The writes that hand over `frames`, one for each, in their order.
pub open spec fn writes_of(frames: Seq<FrameView>) -> Seq<DeliveryStepView> {
    frames.map_values(|frame: FrameView| DeliveryStepView::Write(frame))
}

impl Delivery {
    /// The delivery of a batch, with nothing written yet.
    pub fn new(frames: Vec<Frame>) -> (delivery: Delivery)
        ensures
            delivery@ == (DeliveryView {
                pending: frame_views(frames@),
                flushed: false,
                failed: false,
            }),
    {
        Delivery { pending: frames, flushed: false, failed: false }
    }

    /// Says what to do next, given whether the step before succeeded; at
    /// the first call nothing has failed yet, and `last_ok` is true.
    pub fn next(&mut self, last_ok: bool) -> (step: DeliveryStep)
        ensures
            (final(self)@, step@) == next_step(old(self)@, last_ok),
    {
        if self.failed || !last_ok {
            self.failed = true;
            DeliveryStep::Failed
        } else if self.pending.len() > 0 {
            let ghost before = self.pending@;
            let frame = self.pending.remove(0);
            proof {
                assert(frame_views(self.pending@) =~= frame_views(before).drop_first());
            }
            DeliveryStep::Write(frame)
        } else if !self.flushed {
            self.flushed = true;
            DeliveryStep::Flush
        } else {
            DeliveryStep::Done
        }
    }
}

/// While every step succeeds, a delivery writes the frames of its batch,
/// each once and in the order of the batch, then flushes once, and is done.
pub proof fn lemma_delivery_writes_then_flushes_once(state: DeliveryView)
    requires
        !state.failed,
        !state.flushed,
    ensures
        steps_when_all_succeed(state) == writes_of(state.pending) + seq![
            DeliveryStepView::Flush,
            DeliveryStepView::Done,
        ],
    decreases state.pending.len(),
{
    let (next, step) = next_step(state, true);
    let tail = seq![DeliveryStepView::Flush, DeliveryStepView::Done];
    if state.pending.len() > 0 {
        lemma_delivery_writes_then_flushes_once(next);
        assert(writes_of(state.pending) =~= seq![step] + writes_of(next.pending));
        assert(seq![step] + (writes_of(next.pending) + tail) =~= writes_of(state.pending) + tail);
    } else {
        let (last, done) = next_step(next, true);
        assert(steps_when_all_succeed(next) =~= seq![DeliveryStepView::Done]);
        assert(writes_of(state.pending) =~= Seq::<DeliveryStepView>::empty());
        assert(seq![step] + seq![DeliveryStepView::Done] =~= writes_of(state.pending) + tail);
    }
}

/// A step that failed ends the delivery: from then on it asks for nothing
/// more, whatever it is told.
pub proof fn lemma_failed_delivery_stays_failed(state: DeliveryView, last_ok: bool, later_ok: bool)
    requires
        state.failed || !last_ok,
    ensures
        next_step(state, last_ok).1 == DeliveryStepView::Failed,
        next_step(next_step(state, last_ok).0, later_ok).1 == DeliveryStepView::Failed,
        next_step(state, last_ok).0.pending == state.pending,
{
}

} // verus!
