//! The channel endpoints that join the host's threads to the engine's
//! runtime.  What a channel hands out depends on what the other side did in
//! the meantime: the contracts of the two queues allow for what arrived, and
//! the others do not speak of a channel's content.

use crate::message::MessagePayload;
use crate::message::PayloadView;
use tokio::sync::broadcast;
use tokio::sync::mpsc;
use tokio::sync::watch;
use vstd::prelude::*;

verus! {

/// `tokio::sync::watch::Sender`, carried as an opaque value.
#[verifier::external_type_specification]
#[verifier::external_body]
#[verifier::reject_recursive_types(T)]
pub struct ExWatchSender<T>(watch::Sender<T>);

/// `tokio::sync::watch::Receiver`, carried as an opaque value.
#[verifier::external_type_specification]
#[verifier::external_body]
#[verifier::reject_recursive_types(T)]
pub struct ExWatchReceiver<T>(watch::Receiver<T>);

/// `tokio::sync::mpsc::Sender`, carried as an opaque value.
#[verifier::external_type_specification]
#[verifier::external_body]
#[verifier::reject_recursive_types(T)]
pub struct ExQueueSender<T>(mpsc::Sender<T>);

/// `tokio::sync::mpsc::Receiver`, carried as an opaque value.
#[verifier::external_type_specification]
#[verifier::external_body]
#[verifier::reject_recursive_types(T)]
pub struct ExQueueReceiver<T>(mpsc::Receiver<T>);

/// `tokio::sync::broadcast::Sender`, carried as an opaque value.
#[verifier::external_type_specification]
#[verifier::external_body]
#[verifier::reject_recursive_types(T)]
pub struct ExBroadcastSender<T>(broadcast::Sender<T>);

/// `tokio::sync::watch::channel`: a single-value channel that starts out
/// holding `initial`.
#[verifier::external_body]
pub(crate) fn watch_channel(initial: bool) -> (ends: (watch::Sender<bool>, watch::Receiver<bool>)) {
    watch::channel(initial)
}

/// `tokio::sync::mpsc::channel`: a bounded many-to-one queue of `capacity`
/// messages.  The call panics on a capacity of zero or above an eighth of
/// `usize::MAX`, which the precondition leaves out.
#[verifier::external_body]
pub(crate) fn queue_channel<T>(capacity: usize) -> (ends: (mpsc::Sender<T>, mpsc::Receiver<T>))
    requires
        0 < capacity <= usize::MAX / 8,
{
    mpsc::channel(capacity)
}

/// `tokio::sync::broadcast::Sender::new`: the publishing end of a broadcast
/// channel of `capacity` batches, with no subscriber yet.  The call panics on
/// a capacity of zero or above half of `usize::MAX`, which the precondition
/// leaves out.
#[verifier::external_body]
pub(crate) fn broadcast_sender<T: Clone>(capacity: usize) -> (tx: broadcast::Sender<T>)
    requires
        0 < capacity <= usize::MAX / 2,
{
    broadcast::Sender::new(capacity)
}

/// `Clone::clone` of a broadcast sender: another handle on the same channel.
#[verifier::external_body]
pub(crate) fn share_sender<T>(tx: &broadcast::Sender<T>) -> (other: broadcast::Sender<T>) {
    tx.clone()
}

/// `tokio::sync::watch::Receiver::borrow`, copied out at once: the value most
/// recently sent on the channel.
#[verifier::external_body]
pub(crate) fn watched(rx: &watch::Receiver<bool>) -> (value: bool) {
    *rx.borrow()
}

/// `tokio::sync::watch::Sender::send`: stores `value` and wakes the
/// receivers.  False where every receiver is gone, and nothing was stored.
#[verifier::external_body]
pub(crate) fn watch_send(tx: &watch::Sender<bool>, value: bool) -> (sent: bool) {
    tx.send(value).is_ok()
}

/// `tokio::sync::broadcast::Sender::send`: hands `value` to every current
/// subscriber without waiting for any of them.  The result is the number of
/// subscribers, at least one, or nothing where there is none.
#[verifier::external_body]
pub(crate) fn publish<T>(tx: &broadcast::Sender<T>, value: T) -> (subscribers: Option<usize>)
    ensures
        subscribers matches Some(count) ==> count >= 1,
{
    match tx.send(value) {
        Ok(count) => Some(count),
        Err(_) => None,
    }
}

/// What the queue of clients' payloads holds, oldest first, as its receiver
/// last left it.
pub uninterp spec fn queued_payloads(rx: mpsc::Receiver<MessagePayload>) -> Seq<PayloadView>;

/// What the queue of connection reports holds, oldest first, as its receiver
/// last left it.
pub uninterp spec fn queued_peers(rx: mpsc::Receiver<String>) -> Seq<Seq<char>>;

/// One poll of a queue that held `before` when its receiver last left it
/// and to which `arrived` was added since: the poll takes the oldest
/// message and leaves the rest, or finds the queue empty and leaves it so.
pub open spec fn polled<V>(before: Seq<V>, arrived: Seq<V>, item: Option<V>, after: Seq<V>) -> bool {
    match item {
        Some(oldest) => before + arrived == seq![oldest] + after,
        None => before + arrived == Seq::<V>::empty() && after == Seq::<V>::empty(),
    }
}

/// The value of what a poll of the payload queue gave.
pub open spec fn polled_payload(item: Option<MessagePayload>) -> Option<PayloadView> {
    match item {
        Some(payload) => Some(payload@),
        None => None,
    }
}

/// The value of what a poll of the queue of connection reports gave.
pub open spec fn polled_peer(item: Option<String>) -> Option<Seq<char>> {
    match item {
        Some(peer) => Some(peer@),
        None => None,
    }
}

/// `tokio::sync::mpsc::Receiver::try_recv` on the payload queue: the oldest
/// queued message, which leaves the queue, or nothing where the queue is
/// empty or closed.  The call does not wait for a message to arrive; at most
/// it lets a send that is under way complete.  Senders in other threads may
/// have added to the queue since the receiver was last used, so the contract
/// holds for some sequence of arrivals and says nothing of which.
#[verifier::external_body]
pub(crate) fn poll_payload(rx: &mut mpsc::Receiver<MessagePayload>) -> (item: Option<
    MessagePayload,
>)
    ensures
        exists|arrived: Seq<PayloadView>|
            polled(
                queued_payloads(*old(rx)),
                arrived,
                polled_payload(item),
                queued_payloads(*final(rx)),
            ),
{
    match rx.try_recv() {
        Ok(item) => Some(item),
        Err(_) => None,
    }
}

/// `tokio::sync::mpsc::Receiver::try_recv` on the queue of connection
/// reports, with the same contract as for the payload queue.
#[verifier::external_body]
pub(crate) fn poll_peer(rx: &mut mpsc::Receiver<String>) -> (item: Option<String>)
    ensures
        exists|arrived: Seq<Seq<char>>|
            polled(queued_peers(*old(rx)), arrived, polled_peer(item), queued_peers(*final(rx))),
{
    match rx.try_recv() {
        Ok(item) => Some(item),
        Err(_) => None,
    }
}

} // verus!
