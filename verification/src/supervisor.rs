//! The accept loop and the shutdown coordinator, as one state machine.
//!
//! The program around the library waits for the next event (a connection was
//! accepted, a connection's tasks have both ended, the shutdown signal
//! changed), hands it to [`Supervisor::step`], and performs the action that
//! comes back.

use vstd::prelude::*;

verus! {

/// Where the engine stands between start and full stop.
#[derive(Clone, Copy, Debug, PartialEq, Eq, Structural)]
pub enum Phase {
    /// Accepting connections.
    Listening,
    /// Shutdown was requested; waiting for the live connections to end.
    Draining,
    /// Nothing runs any more.
    Stopped,
}

/// What the accept loop can observe.
#[derive(Clone, Debug, PartialEq, Eq)]
pub enum AcceptEvent {
    /// The listener accepted a connection from the given peer address.
    Accepted(String),
    /// Both tasks of one launched connection have ended.
    Closed,
    /// The shutdown signal changed; the flag says whether shutdown is requested.
    Signal(bool),
    /// The host's end of the shutdown signal is gone.
    SignalLost,
}

/// The mathematical value of an [`AcceptEvent`].
pub enum AcceptEventView {
    Accepted(Seq<char>),
    Closed,
    Signal(bool),
    SignalLost,
}

impl View for AcceptEvent {
    type V = AcceptEventView;

    open spec fn view(&self) -> AcceptEventView {
        match self {
            AcceptEvent::Accepted(peer) => AcceptEventView::Accepted(peer@),
            AcceptEvent::Closed => AcceptEventView::Closed,
            AcceptEvent::Signal(requested) => AcceptEventView::Signal(*requested),
            AcceptEvent::SignalLost => AcceptEventView::SignalLost,
        }
    }
}

/// What the accept loop is told to do.
#[derive(Clone, Debug, PartialEq, Eq)]
pub enum AcceptAction {
    /// Report the peer to the host as far as its queue has room, subscribe
    /// the connection to the broadcast and start its two tasks.
    Launch(String),
    /// Drop the connection that was just accepted.
    Refuse,
    /// Stop accepting; the live connections end by the signal they share.
    StopAccepting,
    /// Stop accepting if that is still to do, report the engine as no longer
    /// alive, and return.
    Finish,
    /// Go on waiting.
    Nothing,
}

/// The mathematical value of an [`AcceptAction`].
pub enum AcceptActionView {
    Launch(Seq<char>),
    Refuse,
    StopAccepting,
    Finish,
    Nothing,
}

impl View for AcceptAction {
    type V = AcceptActionView;

    open spec fn view(&self) -> AcceptActionView {
        match self {
            AcceptAction::Launch(peer) => AcceptActionView::Launch(peer@),
            AcceptAction::Refuse => AcceptActionView::Refuse,
            AcceptAction::StopAccepting => AcceptActionView::StopAccepting,
            AcceptAction::Finish => AcceptActionView::Finish,
            AcceptAction::Nothing => AcceptActionView::Nothing,
        }
    }
}

/// The state of the accept loop: its phase, and how many launched
/// connections have not ended yet.
#[derive(Clone, Copy, Debug, PartialEq, Eq)]
pub struct Supervisor {
    phase: Phase,
    live: usize,
}

/// The mathematical value of a [`Supervisor`].
pub struct SupervisorView {
    pub phase: Phase,
    pub live: nat,
}

impl View for Supervisor {
    type V = SupervisorView;

    closed spec fn view(&self) -> SupervisorView {
        SupervisorView { phase: self.phase, live: self.live as nat }
    }
}

/// The state in which an engine starts: listening, with no connection.
pub open spec fn initial() -> SupervisorView {
    SupervisorView { phase: Phase::Listening, live: 0 }
}

/// A stopped engine has no live connection, and the count of live
/// connections fits the machine.
pub open spec fn well_formed(state: SupervisorView) -> bool {
    &&& state.live <= usize::MAX
    &&& state.phase == Phase::Stopped ==> state.live == 0
}

/// Whether an event asks for shutdown.
pub open spec fn asks_shutdown(event: AcceptEventView) -> bool {
    event == AcceptEventView::Signal(true) || event == AcceptEventView::SignalLost
}

/// One transition: the state after `event`, and the action to perform.
pub open spec fn transition(state: SupervisorView, event: AcceptEventView) -> (
    SupervisorView,
    AcceptActionView,
) {
    match state.phase {
        Phase::Listening => match event {
            AcceptEventView::Accepted(peer) => if state.live < usize::MAX {
                (
                    SupervisorView { phase: Phase::Listening, live: state.live + 1 },
                    AcceptActionView::Launch(peer),
                )
            } else {
                (state, AcceptActionView::Refuse)
            },
            AcceptEventView::Closed => (
                SupervisorView {
                    phase: Phase::Listening,
                    live: if state.live > 0 {
                        (state.live - 1) as nat
                    } else {
                        0
                    },
                },
                AcceptActionView::Nothing,
            ),
            AcceptEventView::Signal(false) => (state, AcceptActionView::Nothing),
            _ => if state.live == 0 {
                (SupervisorView { phase: Phase::Stopped, live: 0 }, AcceptActionView::Finish)
            } else {
                (
                    SupervisorView { phase: Phase::Draining, live: state.live },
                    AcceptActionView::StopAccepting,
                )
            },
        },
        Phase::Draining => match event {
            AcceptEventView::Accepted(_) => (state, AcceptActionView::Refuse),
            AcceptEventView::Closed => if state.live <= 1 {
                (SupervisorView { phase: Phase::Stopped, live: 0 }, AcceptActionView::Finish)
            } else {
                (
                    SupervisorView { phase: Phase::Draining, live: (state.live - 1) as nat },
                    AcceptActionView::Nothing,
                )
            },
            _ => (state, AcceptActionView::Nothing),
        },
        Phase::Stopped => match event {
            AcceptEventView::Accepted(_) => (state, AcceptActionView::Refuse),
            _ => (state, AcceptActionView::Nothing),
        },
    }
}

/// The state after a sequence of events, taken in order.
pub open spec fn run(state: SupervisorView, events: Seq<AcceptEventView>) -> SupervisorView
    decreases events.len(),
{
    if events.len() == 0 {
        state
    } else {
        run(transition(state, events.first()).0, events.drop_first())
    }
}

/// The actions that a sequence of events gives, one for each event.
pub open spec fn trace(state: SupervisorView, events: Seq<AcceptEventView>) -> Seq<
    AcceptActionView,
>
    decreases events.len(),
{
    if events.len() == 0 {
        Seq::empty()
    } else {
        let (next, action) = transition(state, events.first());
        seq![action] + trace(next, events.drop_first())
    }
}

/// How many of `events` report the end of a connection.
pub open spec fn closings(events: Seq<AcceptEventView>) -> nat
    decreases events.len(),
{
    if events.len() == 0 {
        0
    } else if events.first() == AcceptEventView::Closed {
        1 + closings(events.drop_first())
    } else {
        closings(events.drop_first())
    }
}

/// How many of `actions` are `Finish`.
pub open spec fn finishes(actions: Seq<AcceptActionView>) -> nat
    decreases actions.len(),
{
    if actions.len() == 0 {
        0
    } else if actions.first() == AcceptActionView::Finish {
        1 + finishes(actions.drop_first())
    } else {
        finishes(actions.drop_first())
    }
}

impl Supervisor {
    /// A supervisor that listens and has launched nothing.
    pub fn new() -> (supervisor: Supervisor)
        ensures
            supervisor@ == initial(),
    {
        Supervisor { phase: Phase::Listening, live: 0 }
    }

    /// The current phase.
    pub fn phase(&self) -> (phase: Phase)
        ensures
            phase == self@.phase,
    {
        self.phase
    }

    /// The number of launched connections that have not ended.
    pub fn live(&self) -> (live: usize)
        ensures
            live == self@.live,
    {
        self.live
    }

    /// Whether the engine still accepts connections.
    pub fn is_listening(&self) -> (listening: bool)
        ensures
            listening == (self@.phase == Phase::Listening),
    {
        match self.phase {
            Phase::Listening => true,
            _ => false,
        }
    }

    /// Takes one event and says what to do about it.
    pub fn step(&mut self, event: AcceptEvent) -> (action: AcceptAction)
        ensures
            (final(self)@, action@) == transition(old(self)@, event@),
    {
        match self.phase {
            Phase::Listening => match event {
                AcceptEvent::Accepted(peer) => {
                    if self.live < usize::MAX {
                        self.live = self.live + 1;
                        AcceptAction::Launch(peer)
                    } else {
                        AcceptAction::Refuse
                    }
                },
                AcceptEvent::Closed => {
                    if self.live > 0 {
                        self.live = self.live - 1;
                    }
                    AcceptAction::Nothing
                },
                AcceptEvent::Signal(false) => AcceptAction::Nothing,
                _ => {
                    if self.live == 0 {
                        self.phase = Phase::Stopped;
                        AcceptAction::Finish
                    } else {
                        self.phase = Phase::Draining;
                        AcceptAction::StopAccepting
                    }
                },
            },
            Phase::Draining => match event {
                AcceptEvent::Accepted(_) => AcceptAction::Refuse,
                AcceptEvent::Closed => {
                    if self.live <= 1 {
                        self.phase = Phase::Stopped;
                        self.live = 0;
                        AcceptAction::Finish
                    } else {
                        self.live = self.live - 1;
                        AcceptAction::Nothing
                    }
                },
                _ => AcceptAction::Nothing,
            },
            Phase::Stopped => match event {
                AcceptEvent::Accepted(_) => AcceptAction::Refuse,
                _ => AcceptAction::Nothing,
            },
        }
    }
}

/// Every transition keeps a well-formed state well formed.
pub proof fn lemma_transition_well_formed(state: SupervisorView, event: AcceptEventView)
    requires
        well_formed(state),
    ensures
        well_formed(transition(state, event).0),
{
}

/// A request for shutdown ends the listening for good: whatever the state,
/// the engine does not listen after it.
pub proof fn lemma_shutdown_stops_listening(state: SupervisorView, event: AcceptEventView)
    requires
        asks_shutdown(event),
    ensures
        transition(state, event).0.phase != Phase::Listening,
{
}

/// Requesting shutdown twice is the same as requesting it once: the second
/// request changes nothing and asks for nothing.
pub proof fn lemma_shutdown_idempotent(
    state: SupervisorView,
    first: AcceptEventView,
    second: AcceptEventView,
)
    requires
        asks_shutdown(first),
        asks_shutdown(second),
    ensures
        transition(transition(state, first).0, second) == (
            transition(state, first).0,
            AcceptActionView::Nothing,
        ),
{
}

/// Once the engine has stopped listening it never listens again and never
/// launches a connection: every later connection is refused.
pub proof fn lemma_no_launch_after_shutdown(state: SupervisorView, events: Seq<AcceptEventView>)
    requires
        state.phase != Phase::Listening,
    ensures
        run(state, events).phase != Phase::Listening,
        trace(state, events).len() == events.len(),
        forall|i: int|
            0 <= i < events.len() ==> !(#[trigger] trace(state, events)[i] is Launch) && (
            events[i] is Accepted ==> trace(state, events)[i] == AcceptActionView::Refuse),
    decreases events.len(),
{
    if events.len() > 0 {
        let (next, action) = transition(state, events.first());
        lemma_no_launch_after_shutdown(next, events.drop_first());
        let rest = trace(next, events.drop_first());
        assert forall|i: int| 0 <= i < events.len() implies !(#[trigger] trace(state, events)[i]
            is Launch) && (events[i] is Accepted ==> trace(state, events)[i]
            == AcceptActionView::Refuse) by {
            if i > 0 {
                assert(trace(state, events)[i] == rest[i - 1]);
                assert(events[i] == events.drop_first()[i - 1]);
            }
        }
    }
}

/// A draining engine stops as soon as its live connections have ended: after
/// any events among which at least as many connections end as were live, the
/// engine is stopped, and it was told to finish exactly once.
pub proof fn lemma_drain_finishes(state: SupervisorView, events: Seq<AcceptEventView>)
    requires
        well_formed(state),
        state.phase == Phase::Draining,
        state.live > 0,
        closings(events) >= state.live,
    ensures
        run(state, events).phase == Phase::Stopped,
        run(state, events).live == 0,
        finishes(trace(state, events)) == 1,
    decreases events.len(),
{
    assert(events.len() > 0);
    let (next, action) = transition(state, events.first());
    let rest = events.drop_first();
    assert(trace(state, events).drop_first() =~= trace(next, rest));
    if next.phase == Phase::Stopped {
        lemma_stopped_stays(next, rest);
    } else {
        lemma_drain_finishes(next, rest);
    }
}

/// A stopped engine stays stopped and is never told to finish again.
pub proof fn lemma_stopped_stays(state: SupervisorView, events: Seq<AcceptEventView>)
    requires
        state.phase == Phase::Stopped,
    ensures
        run(state, events) == state,
        finishes(trace(state, events)) == 0,
    decreases events.len(),
{
    if events.len() > 0 {
        let (next, action) = transition(state, events.first());
        assert(trace(state, events).drop_first() =~= trace(next, events.drop_first()));
        lemma_stopped_stays(next, events.drop_first());
    }
}

} // verus!
