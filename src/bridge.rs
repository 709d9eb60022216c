//! The bounded message bridge: two bounded FIFO channels per session, one for
//! outbound commands and one for inbound events.
//!
//! The channels themselves are tokio's bounded `mpsc` channels, shared with
//! tasks on other threads, so what a call on an endpoint returns depends on
//! those threads. The contracts here state what each end has done: what the
//! sending end had accepted, what the receiving end has taken, and whether
//! the other side is gone. `ChannelModel` describes a whole channel when no
//! other thread acts during the calls; its lemmas hold of that model only.
use vstd::prelude::*;
use tokio::sync::mpsc::{Receiver, Sender};
use crate::protocol::{InboundEvent, OutboundCommand};

verus! {

/// Number of values that each channel of a session buffers.
pub const CHANNEL_CAPACITY: usize = 1000;

#[verifier::external_type_specification]
#[verifier::external_body]
#[verifier::reject_recursive_types(T)]
pub struct ExSender<T>(Sender<T>);

#[verifier::external_type_specification]
#[verifier::external_body]
#[verifier::reject_recursive_types(T)]
pub struct ExReceiver<T>(Receiver<T>);

/// Why a non-blocking receive produced no value.
#[derive(Clone, Copy, Debug, PartialEq, Eq, Structural)]
pub enum ReceiveError {
    /// Nothing is buffered now, but a sender still exists.
    Empty,
    /// Nothing is buffered and every sender is gone: no value will ever come.
    Closed,
}

/// Every command that the outbound channel accepted through this sending end,
/// in order of acceptance.
pub uninterp spec fn accepted(tx: Sender<OutboundCommand>) -> Seq<OutboundCommand>;

/// The buffer that the inbound channel was made with.
pub uninterp spec fn inbound_bound(rx: Receiver<InboundEvent>) -> nat;

/// How many non-blocking receives were made through this receiving end.
pub uninterp spec fn polls(rx: Receiver<InboundEvent>) -> nat;

/// Whether this sending end has seen its channel's receiver gone. The
/// receiver never comes back, so every later send is refused too.
pub uninterp spec fn refused(tx: Sender<OutboundCommand>) -> bool;

/// The buffer that the outbound channel was made with.
pub uninterp spec fn bound(tx: Sender<OutboundCommand>) -> nat;

/// Every event taken out through this receiving end, in order of taking.
pub uninterp spec fn taken(rx: Receiver<InboundEvent>) -> Seq<InboundEvent>;

/// Whether the last non-blocking receive on this end found nothing buffered.
pub uninterp spec fn exhausted(rx: Receiver<InboundEvent>) -> bool;

/// Whether this receiving end has found its channel empty with every sender
/// gone: from then on no value can arrive.
pub uninterp spec fn disconnected(rx: Receiver<InboundEvent>) -> bool;

/// Relies on tokio::sync::mpsc::channel, called once per direction: each call
/// returns the two ends of a new, empty channel with the given buffer, and
/// panics on a buffer of zero or above tokio's permit limit.
#[verifier::external_body]
fn open_channels(capacity: usize) -> (r: BridgeEnds)
    requires
        0 < capacity <= usize::MAX / 8,
    ensures
        accepted(r.outbound_tx) == Seq::<OutboundCommand>::empty(),
        !refused(r.outbound_tx),
        bound(r.outbound_tx) == capacity,
        taken(r.inbound_rx) == Seq::<InboundEvent>::empty(),
        !disconnected(r.inbound_rx),
        inbound_bound(r.inbound_rx) == capacity,
        polls(r.inbound_rx) == 0,
{
    let (outbound_tx, outbound_rx) = tokio::sync::mpsc::channel(capacity);
    let (inbound_tx, inbound_rx) = tokio::sync::mpsc::channel(capacity);
    BridgeEnds { outbound_tx, outbound_rx, inbound_tx, inbound_rx }
}

/// Evidence that the current thread is not inside a tokio runtime, where a
/// blocking send would panic. Only `outside_runtime` makes one, and it is
/// used at once, on the same thread.
pub struct OutsideRuntime {
    marker: (),
}

/// Relies on tokio's Handle::try_current: it fails exactly when no runtime
/// handle is set on this thread, and entering a runtime always sets one, so
/// a failure means that blocking here is allowed.
#[verifier::external_body]
pub(crate) fn outside_runtime() -> Option<OutsideRuntime> {
    match tokio::runtime::Handle::try_current() {
        Ok(_) => None,
        Err(_) => Some(OutsideRuntime { marker: () }),
    }
}

/// Relies on tokio's Sender::blocking_send: it waits for a free slot and
/// buffers the value at the channel's tail, or hands the value back when the
/// receiver is gone, which is final. It panics only inside a runtime, which
/// the `OutsideRuntime` evidence rules out.
#[verifier::external_body]
pub(crate) fn send_blocking(
    tx: &mut Sender<OutboundCommand>,
    value: OutboundCommand,
    outside: &OutsideRuntime,
) -> (r: Result<(), OutboundCommand>)
    ensures
        r is Ok ==> accepted(*final(tx)) == accepted(*old(tx)).push(value),
        r matches Err(v) ==> v == value && accepted(*final(tx)) == accepted(*old(tx))
            && refused(*final(tx)),
        refused(*old(tx)) ==> r is Err,
        bound(*final(tx)) == bound(*old(tx)),
{
    match tx.blocking_send(value) {
        Ok(()) => Ok(()),
        Err(e) => Err(e.0),
    }
}

/// Relies on tokio's Receiver::try_recv: it takes the oldest buffered value
/// without waiting, or says that the channel is empty, or empty with every
/// sender gone, after which it never yields a value again.
#[verifier::external_body]
pub(crate) fn receive_now(rx: &mut Receiver<InboundEvent>) -> (r: Result<InboundEvent, ReceiveError>)
    ensures
        r matches Ok(v) ==> taken(*final(rx)) == taken(*old(rx)).push(v) && !exhausted(*final(rx)),
        r is Err ==> taken(*final(rx)) == taken(*old(rx)) && exhausted(*final(rx)),
        r matches Err(ReceiveError::Closed) ==> disconnected(*final(rx)),
        disconnected(*old(rx)) ==> (r matches Err(ReceiveError::Closed)),
        polls(*final(rx)) == polls(*old(rx)) + 1,
        inbound_bound(*final(rx)) == inbound_bound(*old(rx)),
{
    match rx.try_recv() {
        Ok(v) => Ok(v),
        Err(tokio::sync::mpsc::error::TryRecvError::Empty) => Err(ReceiveError::Empty),
        Err(tokio::sync::mpsc::error::TryRecvError::Disconnected) => Err(ReceiveError::Closed),
    }
}

/// The state of one bounded channel: what it buffers, in order of sending,
/// its capacity, and which of its ends are still open.
pub struct ChannelModel<T> {
    pub queue: Seq<T>,
    pub capacity: nat,
    pub sender_open: bool,
    pub receiver_open: bool,
}

impl<T> ChannelModel<T> {
    /// A freshly made channel: empty, both ends open.
    pub open spec fn fresh(capacity: nat) -> ChannelModel<T> {
        ChannelModel { queue: Seq::empty(), capacity, sender_open: true, receiver_open: true }
    }

    pub open spec fn wf(self) -> bool {
        self.queue.len() <= self.capacity && self.capacity > 0
    }

    pub open spec fn is_full(self) -> bool {
        self.queue.len() >= self.capacity
    }

    /// What a sender observes when it offers a value.
    pub open spec fn send_outcome(self) -> SendOutcome {
        if !self.receiver_open {
            SendOutcome::Rejected
        } else if self.is_full() {
            SendOutcome::MustWait
        } else {
            SendOutcome::Accepted
        }
    }

    /// The channel after a value was offered.
    pub open spec fn after_send(self, v: T) -> ChannelModel<T> {
        if self.send_outcome() == SendOutcome::Accepted {
            ChannelModel { queue: self.queue.push(v), ..self }
        } else {
            self
        }
    }

    /// What a non-blocking receive returns.
    pub open spec fn receive_outcome(self) -> Result<T, ReceiveError> {
        if self.queue.len() > 0 {
            Ok(self.queue[0])
        } else if self.sender_open {
            Err(ReceiveError::Empty)
        } else {
            Err(ReceiveError::Closed)
        }
    }

    /// The channel after a non-blocking receive.
    pub open spec fn after_receive(self) -> ChannelModel<T> {
        if self.queue.len() > 0 {
            ChannelModel { queue: self.queue.drop_first(), ..self }
        } else {
            self
        }
    }

    /// The channel once its sending end is dropped.
    pub open spec fn close_sender(self) -> ChannelModel<T> {
        ChannelModel { sender_open: false, ..self }
    }

    /// The channel once its receiving end is dropped.
    pub open spec fn close_receiver(self) -> ChannelModel<T> {
        ChannelModel { receiver_open: false, ..self }
    }

    /// The batch that repeated non-blocking receives collect, each outcome
    /// handled as `absorb` handles it, until one yields no value; and the
    /// channel after them.
    pub open spec fn drain(self) -> (Seq<T>, ChannelModel<T>)
        decreases self.queue.len(),
    {
        let out = self.receive_outcome();
        if absorbed(Seq::empty(), out) == Seq::<T>::empty() {
            (Seq::empty(), self.after_receive())
        } else {
            let (rest, ch) = self.after_receive().drain();
            (absorbed(Seq::empty(), out) + rest, ch)
        }
    }
}

/// What a sender observes when it offers a value to a bounded channel.
#[derive(Clone, Copy, Debug, PartialEq, Eq, Structural)]
pub enum SendOutcome {
    /// The value was buffered.
    Accepted,
    /// The buffer is full: a blocking send waits for a slot.
    MustWait,
    /// The receiver is gone: the value is handed back.
    Rejected,
}

/// The batch after one receive outcome is taken in.
pub open spec fn absorbed<T>(batch: Seq<T>, outcome: Result<T, ReceiveError>) -> Seq<T> {
    match outcome {
        Ok(v) => batch.push(v),
        Err(_) => batch,
    }
}

/// Takes one receive outcome into a batch; returns whether to receive again.
pub fn absorb<T>(batch: &mut Vec<T>, outcome: Result<T, ReceiveError>) -> (more: bool)
    ensures
        final(batch)@ == absorbed(old(batch)@, outcome),
        more == outcome is Ok,
{
    match outcome {
        Ok(v) => {
            batch.push(v);
            true
        },
        Err(_) => false,
    }
}

/// Whether an offered value was buffered.
pub fn was_delivered<T>(outcome: Result<(), T>) -> (delivered: bool)
    ensures
        delivered == outcome is Ok,
{
    match outcome {
        Ok(()) => true,
        Err(_) => false,
    }
}

/// The four endpoints of a session's two channels, each made with
/// `CHANNEL_CAPACITY` slots: commands go from `outbound_tx` to `outbound_rx`,
/// events from `inbound_tx` to `inbound_rx`.
pub struct BridgeEnds {
    pub outbound_tx: Sender<OutboundCommand>,
    pub outbound_rx: Receiver<OutboundCommand>,
    pub inbound_tx: Sender<InboundEvent>,
    pub inbound_rx: Receiver<InboundEvent>,
}

/// Makes the outbound and the inbound channel of a session, each with
/// `CHANNEL_CAPACITY` slots, both empty.
pub fn open_bridge() -> (r: BridgeEnds)
    ensures
        accepted(r.outbound_tx) == Seq::<OutboundCommand>::empty(),
        !refused(r.outbound_tx),
        bound(r.outbound_tx) == CHANNEL_CAPACITY,
        taken(r.inbound_rx) == Seq::<InboundEvent>::empty(),
        !disconnected(r.inbound_rx),
        inbound_bound(r.inbound_rx) == CHANNEL_CAPACITY,
        polls(r.inbound_rx) == 0,
{
    open_channels(CHANNEL_CAPACITY)
}

/// What a drain did to a receiving end: the batch is exactly what it took,
/// in order; unless the batch reached the largest possible length, the drain
/// made one receive per value and one more, which found nothing; and a receiver whose senders were
/// already gone with nothing buffered yields an empty batch.
pub open spec fn drained(before: Receiver<InboundEvent>, after: Receiver<InboundEvent>, batch: Seq<InboundEvent>) -> bool {
    &&& taken(after) == taken(before) + batch
    &&& batch.len() < usize::MAX ==> exhausted(after)
        && polls(after) == polls(before) + batch.len() + 1
    &&& inbound_bound(after) == inbound_bound(before)
    &&& disconnected(before) ==> batch.len() == 0 && disconnected(after)
}

/// Receives every event that is buffered now, in order, without waiting:
/// non-blocking receives until one finds nothing.
pub fn drain_now(rx: &mut Receiver<InboundEvent>) -> (batch: Vec<InboundEvent>)
    ensures
        drained(*old(rx), *final(rx), batch@),
{
    let ghost start = *rx;
    let mut batch: Vec<InboundEvent> = Vec::new();
    assert(taken(start) + batch@ =~= taken(start));
    loop
        invariant_except_break
            taken(*rx) == taken(start) + batch@,
            polls(*rx) == polls(start) + batch@.len(),
            inbound_bound(*rx) == inbound_bound(start),
            disconnected(start) ==> batch@.len() == 0 && *rx == start,
        ensures
            drained(start, *rx, batch@),
        decreases usize::MAX - batch.len(),
    {
        if batch.len() == usize::MAX {
            break;
        }
        let ghost before = batch@;
        let outcome = receive_now(rx);
        if !absorb(&mut batch, outcome) {
            assert(batch@ == before);
            break;
        }
        assert(taken(*rx) =~= taken(start) + batch@);
    }
    batch
}

/// In the model, where no other thread acts during the calls: draining a
/// channel yields exactly what it buffered, in order, and leaves it empty, so that a second drain right after yields nothing.
pub proof fn lemma_drain_yields_queue_in_order<T>(ch: ChannelModel<T>)
    ensures
        ch.drain().0 == ch.queue,
        ch.drain().1.queue.len() == 0,
        ch.drain().1.drain().0 == Seq::<T>::empty(),
        ch.drain().1.sender_open == ch.sender_open,
    decreases ch.queue.len(),
{
    if ch.queue.len() > 0 {
        let next = ch.after_receive();
        lemma_drain_yields_queue_in_order(next);
        assert(absorbed(Seq::empty(), ch.receive_outcome()) == seq![ch.queue[0]]);
        assert(seq![ch.queue[0]] + next.queue =~= ch.queue);
    } else {
        let done = ch.drain().1;
        assert(done == ch);
    }
}

/// In the model: once the sending side is gone, a drain still yields everything that was
/// buffered before, in order, and the receive that ends it reports the
/// closure as an outcome rather than failing; every later drain yields
/// nothing.
pub proof fn lemma_drain_after_sender_closed<T>(ch: ChannelModel<T>)
    ensures
        ch.close_sender().drain().0 == ch.queue,
        ch.close_sender().drain().1.receive_outcome() == Err::<T, ReceiveError>(ReceiveError::Closed),
        ch.close_sender().drain().1.drain().0 == Seq::<T>::empty(),
{
    lemma_drain_yields_queue_in_order(ch.close_sender());
}

/// In the model: when the buffer is full and the receiver is still there, a blocking send
/// waits; once the receiver takes one value the same send is accepted, and
/// the value joins the end of the buffer.
pub proof fn lemma_full_channel_accepts_after_one_receive<T>(ch: ChannelModel<T>, v: T)
    requires
        ch.wf(),
        ch.is_full(),
        ch.receiver_open,
    ensures
        ch.send_outcome() == SendOutcome::MustWait,
        ch.after_receive().send_outcome() == SendOutcome::Accepted,
        ch.after_receive().after_send(v).queue == ch.queue.drop_first().push(v),
{
}

} // verus!
