//! The control surface: what a host calls, from any thread, to start the
//! engine, to ask whether it runs, to publish to its clients, to drain what
//! they sent, and to stop it.
//!
//! Every function works on the endpoints that the registry holds and returns
//! at once with a definite answer.  Where the registry cannot be reached, or
//! holds no server, the answer is "nothing" and the reason goes to the error
//! slot.

use crate::channels::broadcast_sender;
use crate::channels::poll_payload;
use crate::channels::poll_peer;
use crate::channels::polled;
use crate::channels::polled_payload;
use crate::channels::polled_peer;
use crate::channels::publish;
use crate::channels::queued_payloads;
use crate::channels::queued_peers;
use crate::channels::queue_channel;
use crate::channels::share_sender;
use crate::channels::watch_channel;
use crate::channels::watch_send;
use crate::channels::watched;
use crate::collector::ends_collecting;
use crate::collector::CollectEventView;
use crate::errors::try_get_last_error;
use crate::errors::weakly_record_error;
use crate::errors::ErrorSlot;
use crate::forwarder::ends_forwarding;
use crate::forwarder::ForwardEventView;
use crate::message::outbound_batch;
use crate::message::payload_views;
use crate::message::Frame;
use crate::message::MessagePayload;
use crate::message::PayloadView;
use crate::registry::installed;
use crate::registry::mutate;
use crate::registry::read;
use crate::registry::read_or_fault;
use crate::registry::replace_value;
use crate::registry::Fault;
use crate::registry::StateCell;
use crate::supervisor::asks_shutdown;
use crate::supervisor::AcceptEventView;
use tokio::sync::broadcast;
use tokio::sync::mpsc;
use tokio::sync::watch;
use vstd::prelude::*;
use vstd::string::StringExecFns;

verus! {

/// How many messages each channel buffers.
pub const CHANNEL_CAPACITY: usize = 16;

/// The most that one drain takes out of a queue.  It bounds the work of a
/// call while clients keep sending; what is left comes with the next call.
pub const DRAIN_LIMIT: usize = 0xFFFF;

/// The host's ends of the channels that join it to a running engine.
pub struct ConsumerState {
    /// Whether the engine is alive; written by the engine alone.
    pub ser_thread_alive_rx: watch::Receiver<bool>,
    /// The peer addresses of newly connected clients.
    pub cli_conn_rx: mpsc::Receiver<String>,
    /// The publishing end of the broadcast to all clients.
    pub ser_msg_tx: broadcast::Sender<Vec<Frame>>,
    /// The payloads that clients sent, from all connections together.
    pub cli_msg_rx: mpsc::Receiver<MessagePayload>,
    /// The trigger of the shutdown signal.
    pub ser_req_shutdown_tx: watch::Sender<bool>,
}

/// The engine's ends of the same channels, for the runtime that serves the
/// connections.
pub struct EngineEndpoints {
    /// Reports whether the engine is alive.
    pub alive_tx: watch::Sender<bool>,
    /// Reports the peer address of each accepted connection.
    pub conn_tx: mpsc::Sender<String>,
    /// The broadcast to which each connection subscribes.
    pub msg_tx: broadcast::Sender<Vec<Frame>>,
    /// Carries the clients' payloads to the host.
    pub cli_msg_tx: mpsc::Sender<MessagePayload>,
    /// The shutdown signal, as the accept loop and every connection watch it.
    pub shutdown_rx: watch::Receiver<bool>,
}

/// Everything that the host's threads and the engine share: the registry
/// and the error slot.
pub struct ServerContext {
    state: StateCell<ConsumerState>,
    errors: ErrorSlot,
}

/// The notice recorded when a start is refused because a server runs.
pub open spec fn already_running_notice() -> Seq<char> {
    "Server is already running, can't invoke start_server()."@
}

/// The notice recorded when a port number is no port.
pub open spec fn bad_port_notice() -> Seq<char> {
    "Port is out of range, can't invoke start_server()."@
}

/// The port to listen on, where `port` is one.
pub open spec fn port_of(port: u32) -> Option<u16> {
    if port <= u16::MAX {
        Some(port as u16)
    } else {
        None
    }
}

/// Narrows a port number to the sixteen bits of a port, or to nothing
/// where it does not fit.
pub fn listen_port(port: u32) -> (narrowed: Option<u16>)
    ensures
        narrowed == port_of(port),
{
    if port <= 0xFFFF {
        Some(port as u16)
    } else {
        None
    }
}

/// Whether a server runs, from what the registry gave: nothing, or the
/// liveness flag of the server it holds.
pub open spec fn runs(observed: Option<bool>) -> bool {
    observed == Some(true)
}

/// The answer to "does the server run?", from what the registry gave:
/// nothing, or the liveness flag of the server it holds.
pub fn running_of(observed: Option<bool>) -> (running: bool)
    ensures
        running == runs(observed),
{
    match observed {
        Some(alive) => alive,
        None => false,
    }
}

/// Whether a start may take the place of the server that the registry
/// holds, from that server's liveness flag: only once it has ended.
pub fn may_replace(alive: bool) -> (gone: bool)
    ensures
        gone == !alive,
{
    !alive
}

/// The values with which a server's two flags start out: the liveness flag,
/// which makes the server count as running, and the shutdown signal, which
/// asks nothing of the accept loop or of a connection.
pub fn initial_flags() -> (flags: (bool, bool))
    ensures
        runs(Some(flags.0)),
        !asks_shutdown(AcceptEventView::Signal(flags.1)),
        !ends_forwarding(ForwardEventView::Signal(flags.1)),
        !ends_collecting(CollectEventView::Signal(flags.1)),
{
    (true, false)
}

/// The value that asks for shutdown when it is put on the shutdown signal:
/// the one on which the accept loop stops listening and both halves of a
/// connection end.
pub fn shutdown_request() -> (value: bool)
    ensures
        asks_shutdown(AcceptEventView::Signal(value)),
        ends_forwarding(ForwardEventView::Signal(value)),
        ends_collecting(CollectEventView::Signal(value)),
{
    true
}

/// The number of recipients of a batch, from what the registry and the
/// broadcast gave: the registry's fault where no server could be reached,
/// else the broadcast's count of subscribers, or nothing where it has none.
/// A broadcast without subscribers is a success with no recipient.
pub open spec fn recipients(sent: Result<Option<usize>, Fault>) -> Result<usize, Fault> {
    match sent {
        Err(fault) => Err(fault),
        Ok(None) => Ok(0usize),
        Ok(Some(count)) => Ok(count),
    }
}

/// Turns what the registry and the broadcast gave into the number of
/// recipients of a batch.
pub fn recipients_of(sent: Result<Option<usize>, Fault>) -> (outcome: Result<usize, Fault>)
    ensures
        outcome == recipients(sent),
{
    match sent {
        Err(fault) => Err(fault),
        Ok(None) => Ok(0),
        Ok(Some(count)) => Ok(count),
    }
}

/// The second notice that a failed start records, from the registry's
/// fault: that a server is running where the registry kept its occupant,
/// and none for any other fault.
pub fn start_notice(fault: Fault) -> (notice: Option<String>)
    ensures
        notice.is_some() == (fault == Fault::Occupied),
        notice matches Some(text) ==> text@ == already_running_notice(),
{
    match fault {
        Fault::Occupied => Some(
            String::from_str("Server is already running, can't invoke start_server()."),
        ),
        _ => None,
    }
}

/// Takes what is pending out of a server's payload queue, at most
/// `DRAIN_LIMIT` messages, and leaves the server's other endpoints alone.
pub fn take_client_messages(server: &mut ConsumerState) -> (taken: Vec<MessagePayload>)
    ensures
        taken@.len() <= DRAIN_LIMIT,
        exists|arrived: Seq<PayloadView>|
            drained(
                queued_payloads(old(server).cli_msg_rx),
                arrived,
                payload_views(taken@),
                queued_payloads(final(server).cli_msg_rx),
            ),
        taken@.len() < DRAIN_LIMIT ==> queued_payloads(final(server).cli_msg_rx).len() == 0,
        final(server).ser_thread_alive_rx == old(server).ser_thread_alive_rx,
        final(server).cli_conn_rx == old(server).cli_conn_rx,
        final(server).ser_msg_tx == old(server).ser_msg_tx,
        final(server).ser_req_shutdown_tx == old(server).ser_req_shutdown_tx,
{
    let ghost before = queued_payloads(server.cli_msg_rx);
    let taken = drain_pending(&mut server.cli_msg_rx, DRAIN_LIMIT);
    proof {
        let arrived = choose|arrived: Seq<PayloadView>|
            drained(before, arrived, payload_views(taken@), queued_payloads(server.cli_msg_rx));
        assert(drained(
            before,
            arrived,
            payload_views(taken@),
            queued_payloads(server.cli_msg_rx),
        ));
    }
    taken
}

/// Takes what is pending out of a server's queue of connection reports, at
/// most `DRAIN_LIMIT` reports, and leaves the server's other endpoints alone.
pub fn take_client_events(server: &mut ConsumerState) -> (taken: Vec<String>)
    ensures
        taken@.len() <= DRAIN_LIMIT,
        exists|arrived: Seq<Seq<char>>|
            drained(
                queued_peers(old(server).cli_conn_rx),
                arrived,
                peer_views(taken@),
                queued_peers(final(server).cli_conn_rx),
            ),
        taken@.len() < DRAIN_LIMIT ==> queued_peers(final(server).cli_conn_rx).len() == 0,
        final(server).ser_thread_alive_rx == old(server).ser_thread_alive_rx,
        final(server).cli_msg_rx == old(server).cli_msg_rx,
        final(server).ser_msg_tx == old(server).ser_msg_tx,
        final(server).ser_req_shutdown_tx == old(server).ser_req_shutdown_tx,
{
    let ghost before = queued_peers(server.cli_conn_rx);
    let taken = drain_reports(&mut server.cli_conn_rx, DRAIN_LIMIT);
    proof {
        let arrived = choose|arrived: Seq<Seq<char>>|
            drained(before, arrived, peer_views(taken@), queued_peers(server.cli_conn_rx));
        assert(drained(before, arrived, peer_views(taken@), queued_peers(server.cli_conn_rx)));
    }
    taken
}

/// What a drain holds after one more poll of its queue: what it held, and
/// behind that the message that the poll gave, if it gave one.
pub open spec fn kept<T>(taken: Seq<T>, polled: Option<T>) -> Seq<T> {
    match polled {
        Some(item) => taken.push(item),
        None => taken,
    }
}

/// One drain of a queue that held `before` when its receiver last left it
/// and to which `arrived` was added while the drain went on: what the drain
/// took, followed by what it left, is what was there, followed by what
/// arrived.  Nothing is lost, nothing comes twice, and the order stays.
pub open spec fn drained<V>(before: Seq<V>, arrived: Seq<V>, taken: Seq<V>, after: Seq<V>) -> bool {
    before + arrived == taken + after
}

/// The values of a sequence of peer addresses, one for one.
pub open spec fn peer_views(peers: Seq<String>) -> Seq<Seq<char>> {
    peers.map_values(|peer: String| peer@)
}

/// Adds to `taken` what one poll of a queue gave, and says whether the queue
/// is worth another poll: it is, unless the poll gave nothing.
pub fn take_polled<T>(taken: &mut Vec<T>, polled: Option<T>) -> (more: bool)
    ensures
        more == polled.is_some(),
        final(taken)@ == kept(old(taken)@, polled),
{
    match polled {
        Some(item) => {
            taken.push(item);
            true
        },
        None => false,
    }
}

/// One more poll goes into a drain: the drain that took `taken` and left
/// `left`, followed by a poll that finds `left` and what `arrived` since,
/// is a drain of the same queue that takes what the poll gave as well.
pub proof fn lemma_poll_extends_drain<V>(
    before: Seq<V>,
    so_far: Seq<V>,
    taken: Seq<V>,
    left: Seq<V>,
    arrived: Seq<V>,
    item: Option<V>,
    after: Seq<V>,
)
    requires
        drained(before, so_far, taken, left),
        polled(left, arrived, item, after),
    ensures
        drained(before, so_far + arrived, kept(taken, item), after),
{
    assert(before + (so_far + arrived) =~= (before + so_far) + arrived);
    assert((taken + left) + arrived =~= taken + (left + arrived));
    match item {
        Some(oldest) => {
            assert(taken + (seq![oldest] + after) =~= taken.push(oldest) + after);
        },
        None => {
            assert(taken + Seq::<V>::empty() =~= taken + after);
        },
    }
}

/// A drain while no client sends takes what the queue held, in the order
/// of the queue, and leaves the queue empty, as long as the limit allows.
pub proof fn lemma_quiet_drain_takes_all<V>(
    before: Seq<V>,
    taken: Seq<V>,
    after: Seq<V>,
    limit: nat,
)
    requires
        drained(before, Seq::<V>::empty(), taken, after),
        before.len() <= limit,
        taken.len() < limit ==> after.len() == 0,
    ensures
        taken == before,
        after == Seq::<V>::empty(),
{
    assert(before + Seq::<V>::empty() =~= before);
    assert((taken + after).len() == taken.len() + after.len());
    assert(after =~= Seq::<V>::empty());
    assert(taken + after =~= taken);
}

/// Two drains in a row, with nothing queued before the first and no client
/// sending, take nothing both times.
pub proof fn lemma_quiet_drains_stay_empty<V>(
    first: Seq<V>,
    between: Seq<V>,
    second: Seq<V>,
    after: Seq<V>,
)
    requires
        drained(Seq::<V>::empty(), Seq::<V>::empty(), first, between),
        drained(between, Seq::<V>::empty(), second, after),
    ensures
        first == Seq::<V>::empty(),
        second == Seq::<V>::empty(),
        after == Seq::<V>::empty(),
{
    assert(Seq::<V>::empty() + Seq::<V>::empty() =~= Seq::<V>::empty());
    assert((first + between).len() == first.len() + between.len());
    assert(first =~= Seq::<V>::empty());
    assert(between =~= Seq::<V>::empty());
    assert((second + after).len() == second.len() + after.len());
    assert(second =~= Seq::<V>::empty());
    assert(after =~= Seq::<V>::empty());
}

/// Drains in a row add up: what two drains took, one after the other,
/// followed by what the second left, is what the queue held before the
/// first, followed by all that arrived.  Each message is taken once, in the
/// order of the queue, whatever other messages stand between.
pub proof fn lemma_drains_add_up<V>(
    before: Seq<V>,
    arrived_first: Seq<V>,
    first: Seq<V>,
    between: Seq<V>,
    arrived_second: Seq<V>,
    second: Seq<V>,
    after: Seq<V>,
)
    requires
        drained(before, arrived_first, first, between),
        drained(between, arrived_second, second, after),
    ensures
        drained(before, arrived_first + arrived_second, first + second, after),
{
    assert(before + (arrived_first + arrived_second) =~= (before + arrived_first)
        + arrived_second);
    assert((first + between) + arrived_second =~= first + (between + arrived_second));
    assert(first + (second + after) =~= (first + second) + after);
}

/// Takes out of the payload queue what is pending now, oldest first, and
/// at most `limit` messages.  Never waits for a message to arrive.  The
/// drain ends at the limit or at the first poll that finds the queue empty.
pub fn drain_pending(queue: &mut mpsc::Receiver<MessagePayload>, limit: usize) -> (taken: Vec<
    MessagePayload,
>)
    ensures
        taken@.len() <= limit,
        exists|arrived: Seq<PayloadView>|
            drained(
                queued_payloads(*old(queue)),
                arrived,
                payload_views(taken@),
                queued_payloads(*final(queue)),
            ),
        taken@.len() < limit ==> queued_payloads(*final(queue)).len() == 0,
{
    let mut taken: Vec<MessagePayload> = Vec::new();
    let mut more = true;
    let ghost mut so_far: Seq<PayloadView> = Seq::empty();
    proof {
        assert(queued_payloads(*queue) + so_far =~= payload_views(taken@) + queued_payloads(
            *queue,
        ));
    }
    while more && taken.len() < limit
        invariant
            taken@.len() <= limit,
            drained(
                queued_payloads(*old(queue)),
                so_far,
                payload_views(taken@),
                queued_payloads(*queue),
            ),
            !more ==> queued_payloads(*queue).len() == 0,
        decreases limit - taken@.len() + if more { 1int } else { 0int },
    {
        let ghost left = queued_payloads(*queue);
        let ghost held = payload_views(taken@);
        let polled_item = poll_payload(queue);
        proof {
            let arrived = choose|arrived: Seq<PayloadView>|
                polled(left, arrived, polled_payload(polled_item), queued_payloads(*queue));
            lemma_poll_extends_drain(
                queued_payloads(*old(queue)),
                so_far,
                held,
                left,
                arrived,
                polled_payload(polled_item),
                queued_payloads(*queue),
            );
            so_far = so_far + arrived;
        }
        more = take_polled(&mut taken, polled_item);
        proof {
            assert(payload_views(taken@) =~= kept(held, polled_payload(polled_item)));
        }
    }
    taken
}

/// Takes out of the queue of connection reports what is pending now, oldest
/// first, and at most `limit` reports, in the same way.
pub fn drain_reports(queue: &mut mpsc::Receiver<String>, limit: usize) -> (taken: Vec<String>)
    ensures
        taken@.len() <= limit,
        exists|arrived: Seq<Seq<char>>|
            drained(
                queued_peers(*old(queue)),
                arrived,
                peer_views(taken@),
                queued_peers(*final(queue)),
            ),
        taken@.len() < limit ==> queued_peers(*final(queue)).len() == 0,
{
    let mut taken: Vec<String> = Vec::new();
    let mut more = true;
    let ghost mut so_far: Seq<Seq<char>> = Seq::empty();
    proof {
        assert(queued_peers(*queue) + so_far =~= peer_views(taken@) + queued_peers(*queue));
    }
    while more && taken.len() < limit
        invariant
            taken@.len() <= limit,
            drained(queued_peers(*old(queue)), so_far, peer_views(taken@), queued_peers(*queue)),
            !more ==> queued_peers(*queue).len() == 0,
        decreases limit - taken@.len() + if more { 1int } else { 0int },
    {
        let ghost left = queued_peers(*queue);
        let ghost held = peer_views(taken@);
        let polled_item = poll_peer(queue);
        proof {
            let arrived = choose|arrived: Seq<Seq<char>>|
                polled(left, arrived, polled_peer(polled_item), queued_peers(*queue));
            lemma_poll_extends_drain(
                queued_peers(*old(queue)),
                so_far,
                held,
                left,
                arrived,
                polled_peer(polled_item),
                queued_peers(*queue),
            );
            so_far = so_far + arrived;
        }
        more = take_polled(&mut taken, polled_item);
        proof {
            assert(peer_views(taken@) =~= kept(held, polled_peer(polled_item)));
        }
    }
    taken
}

/// The port on which a start may go ahead, from whether a server is alive:
/// none while one is, else the port that `port` names, if it names one.
pub open spec fn admitted(running: bool, port: u32) -> Option<u16> {
    if running {
        None
    } else {
        port_of(port)
    }
}

/// Decides whether a start on `port` may go ahead, given whether a server is
/// alive.
pub fn admitted_port(running: bool, port: u32) -> (narrowed: Option<u16>)
    ensures
        narrowed == admitted(running, port),
{
    if running {
        None
    } else {
        listen_port(port)
    }
}

/// Why a start on `port` may not go ahead, given whether a server is alive:
/// nothing where it may, else the notice to record.
pub fn refusal_notice(running: bool, port: u32) -> (notice: Option<String>)
    ensures
        notice.is_none() == admitted(running, port).is_some(),
        notice matches Some(text) ==> text@ == if running {
            already_running_notice()
        } else {
            bad_port_notice()
        },
{
    if running {
        Some(String::from_str("Server is already running, can't invoke start_server()."))
    } else if listen_port(port).is_none() {
        Some(String::from_str("Port is out of range, can't invoke start_server()."))
    } else {
        None
    }
}

/// A start judges the server in the registry by its liveness flag: while
/// that server is alive it stays and the start fails, and once it has ended
/// the new server takes its place.
pub proof fn lemma_start_keeps_a_live_server<T>(occupant: T, fresh: T, alive: bool)
    ensures
        installed(Some(occupant), !alive, fresh) == if alive {
            (Some(occupant), Err::<(), Fault>(Fault::Occupied))
        } else {
            (Some(fresh), Ok::<(), Fault>(()))
        },
{
}

impl ServerContext {
    /// The registry of a context.
    pub closed spec fn registry(&self) -> StateCell<ConsumerState> {
        self.state
    }

    /// The error slot of a context.
    pub closed spec fn error_slot(&self) -> ErrorSlot {
        self.errors
    }

    /// A context that holds no server and no error.  Notices speak of its
    /// registry as "the server state".
    pub fn new() -> (ctx: ServerContext)
        ensures
            ctx.registry().label() == "the server state"@,
    {
        ServerContext { state: StateCell::new("the server state"), errors: ErrorSlot::new() }
    }

    /// The registry of this context.
    pub fn state(&self) -> (cell: &StateCell<ConsumerState>)
        ensures
            *cell == self.registry(),
    {
        &self.state
    }

    /// The error slot of this context.
    pub fn errors(&self) -> (slot: &ErrorSlot)
        ensures
            *slot == self.error_slot(),
    {
        &self.errors
    }
}

/// Registers a new server in `ctx` and hands out the engine's ends of its
/// channels, for the caller to run the engine on.  The server counts as
/// alive from this moment until its engine reports otherwise.
///
/// Fails, and records why, where the registry cannot be reached at once or
/// holds a server that is still alive; that server is left as it is.  A
/// server whose engine has reported its end is replaced.
pub fn start(ctx: &ServerContext) -> (outcome: Result<EngineEndpoints, Fault>)
    ensures
        outcome matches Err(fault) ==> fault != Fault::Vacant,
{
    let (alive, requested) = initial_flags();
    let (alive_tx, alive_rx) = watch_channel(alive);
    let (conn_tx, conn_rx) = queue_channel::<String>(CHANNEL_CAPACITY);
    let msg_tx = broadcast_sender::<Vec<Frame>>(CHANNEL_CAPACITY);
    let host_msg_tx = share_sender(&msg_tx);
    let (cli_msg_tx, cli_msg_rx) = queue_channel::<MessagePayload>(CHANNEL_CAPACITY);
    let (shutdown_tx, shutdown_rx) = watch_channel(requested);
    let host = ConsumerState {
        ser_thread_alive_rx: alive_rx,
        cli_conn_rx: conn_rx,
        ser_msg_tx: host_msg_tx,
        cli_msg_rx: cli_msg_rx,
        ser_req_shutdown_tx: shutdown_tx,
    };
    let ended = |occupant: &ConsumerState| -> (gone: bool) {
        may_replace(watched(&occupant.ser_thread_alive_rx))
    };
    match replace_value(&ctx.state, &ctx.errors, host, ended) {
        Ok(()) => Ok(
            EngineEndpoints {
                alive_tx: alive_tx,
                conn_tx: conn_tx,
                msg_tx: msg_tx,
                cli_msg_tx: cli_msg_tx,
                shutdown_rx: shutdown_rx,
            },
        ),
        Err(fault) => {
            match start_notice(fault) {
                Some(notice) => {
                    weakly_record_error(&ctx.errors, notice);
                },
                None => {},
            }
            Err(fault)
        },
    }
}

/// Checks that a start on `port` can go ahead: the port is one, and no
/// server is alive.  Gives the port to bind, or nothing with the reason
/// recorded.  The caller binds the port and then calls [`start`].
pub fn start_server(ctx: &ServerContext, port: u32) -> (admitted: Option<u16>)
    ensures
        admitted matches Some(narrowed) ==> port_of(port) == Some(narrowed),
        port_of(port).is_none() ==> admitted.is_none(),
{
    let running = is_server_running(ctx);
    match refusal_notice(running, port) {
        Some(notice) => {
            weakly_record_error(&ctx.errors, notice);
        },
        None => {},
    }
    admitted_port(running, port)
}

/// Whether the server of `ctx` is alive.  False where there is none, or the
/// registry cannot be reached at once.
pub fn is_server_running(ctx: &ServerContext) -> (running: bool) {
    let alive = |server: &ConsumerState| -> (alive: bool) { watched(&server.ser_thread_alive_rx) };
    running_of(read(&ctx.state, &ctx.errors, alive))
}

/// Asks the engine to shut down, and returns without waiting for it.  The
/// engine stops accepting, ends its connections and then reports that it is
/// no longer alive.  Asking again changes nothing.
pub fn shutdown_server(ctx: &ServerContext) {
    let raise = |server: &ConsumerState| -> (sent: bool) {
        watch_send(&server.ser_req_shutdown_tx, shutdown_request())
    };
    let _ = read(&ctx.state, &ctx.errors, raise);
}

/// The last recorded error, left in place.
pub fn get_last_error_string(ctx: &ServerContext) -> (answer: Option<String>) {
    try_get_last_error(&ctx.errors)
}

/// The peer addresses of the clients that connected since the last call,
/// in the order in which they were accepted.  Never waits.
pub fn drain_new_client_events(ctx: &ServerContext) -> (peers: Vec<String>)
    ensures
        peers@.len() <= DRAIN_LIMIT,
{
    let take = |server: &mut ConsumerState| -> (taken: Vec<String>)
        ensures
            taken@.len() <= DRAIN_LIMIT,
        { take_client_events(server) };
    match mutate(&ctx.state, &ctx.errors, take) {
        Some(peers) => peers,
        None => Vec::new(),
    }
}

/// Publishes a batch to every connected client, in the order given, without
/// waiting for any of them.  Gives the number of clients that the batch was
/// handed to, which is zero where none is connected.  Fails where no server
/// could be reached: the registry was busy, or holds none.
pub fn try_send_messages(ctx: &ServerContext, messages: Vec<MessagePayload>) -> (outcome: Result<
    usize,
    Fault,
>)
    ensures
        outcome matches Err(fault) ==> fault == Fault::Unavailable || fault == Fault::Vacant,
{
    let frames = outbound_batch(messages);
    let send = move |server: &ConsumerState| -> (sent: Option<usize>) {
        publish(&server.ser_msg_tx, frames)
    };
    recipients_of(read_or_fault(&ctx.state, &ctx.errors, send))
}

/// The payloads that clients sent since the last call, each connection's in
/// the order in which it sent them.  Never waits; empty where nothing is
/// pending or no server could be reached.
pub fn drain_client_messages(ctx: &ServerContext) -> (payloads: Vec<MessagePayload>)
    ensures
        payloads@.len() <= DRAIN_LIMIT,
{
    let take = |server: &mut ConsumerState| -> (taken: Vec<MessagePayload>)
        ensures
            taken@.len() <= DRAIN_LIMIT,
        { take_client_messages(server) };
    match mutate(&ctx.state, &ctx.errors, take) {
        Some(payloads) => payloads,
        None => Vec::new(),
    }
}

} // verus!
