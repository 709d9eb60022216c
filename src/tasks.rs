//! The decisions of the two background tasks of a session. The tasks
//! themselves run on the asynchronous runtime and perform the reads, writes and
//! channel operations; after each of those they ask these functions what to do
//! next.
use vstd::prelude::*;
use crate::bridge::{ChannelModel, SendOutcome};

verus! {

/// What one read of the transport's reader half produced.
#[derive(Debug)]
pub enum ReadOutcome<T> {
    /// A decoded event.
    Message(T),
    /// A frame with no event in it, such as a heartbeat.
    Empty,
    /// The read failed; the transport is unusable.
    Failed,
}

/// What the reader task does after a read.
#[derive(Debug)]
pub enum ReaderAction<T> {
    /// Send the event into the inbound channel.
    Forward(T),
    /// Read again.
    Skip,
    /// End the task, which drops the inbound channel's sending end.
    Stop,
}

/// What the writer task does after waiting on the outbound channel.
#[derive(Debug)]
pub enum WriterAction<T> {
    /// Write the command to the transport.
    Write(T),
    /// End the task: the channel is closed and empty.
    Shutdown,
}

pub open spec fn reader_decision<T>(read: ReadOutcome<T>) -> ReaderAction<T> {
    match read {
        ReadOutcome::Message(v) => ReaderAction::Forward(v),
        ReadOutcome::Empty => ReaderAction::Skip,
        ReadOutcome::Failed => ReaderAction::Stop,
    }
}

pub open spec fn writer_decision<T>(next: Option<T>) -> WriterAction<T> {
    match next {
        Some(v) => WriterAction::Write(v),
        None => WriterAction::Shutdown,
    }
}

/// The reader's next step after a read: forward an event, read past an empty
/// frame, stop on a failed read.
pub fn reader_step<T>(read: ReadOutcome<T>) -> (action: ReaderAction<T>)
    ensures
        action == reader_decision(read),
{
    match read {
        ReadOutcome::Message(v) => ReaderAction::Forward(v),
        ReadOutcome::Empty => ReaderAction::Skip,
        ReadOutcome::Failed => ReaderAction::Stop,
    }
}

/// Whether the reader goes on after forwarding: only while the inbound channel
/// still has its receiver.
pub fn reader_continues(delivered: bool) -> (go_on: bool)
    ensures
        go_on == delivered,
{
    delivered
}

/// The writer's next step after waiting on the outbound channel: write a
/// command, or shut down when the channel yields nothing more.
pub fn writer_step<T>(next: Option<T>) -> (action: WriterAction<T>)
    ensures
        action == writer_decision(next),
{
    match next {
        Some(v) => WriterAction::Write(v),
        None => WriterAction::Shutdown,
    }
}

/// Whether the writer goes on after a write: only while the transport takes
/// what it is given.
pub fn writer_continues(written: bool) -> (go_on: bool)
    ensures
        go_on == written,
{
    written
}

/// What an awaited receive on a channel yields: the oldest buffered value, or
/// nothing when the channel is empty and its senders are gone. (While a sender
/// remains, an awaited receive on an empty channel waits instead.)
pub open spec fn awaited_receive<T>(ch: ChannelModel<T>) -> Option<T> {
    if ch.queue.len() > 0 {
        Some(ch.queue[0])
    } else {
        None
    }
}

/// The channel after `n` receives.
pub open spec fn received_n<T>(ch: ChannelModel<T>, n: nat) -> ChannelModel<T>
    decreases n,
{
    if n == 0 {
        ch
    } else {
        received_n(ch, (n - 1) as nat).after_receive()
    }
}

proof fn lemma_received_n<T>(ch: ChannelModel<T>, n: nat)
    requires
        n <= ch.queue.len(),
    ensures
        received_n(ch, n).queue == ch.queue.skip(n as int),
        received_n(ch, n).sender_open == ch.sender_open,
    decreases n,
{
    if n > 0 {
        lemma_received_n(ch, (n - 1) as nat);
        assert(ch.queue.skip((n - 1) as int).drop_first() =~= ch.queue.skip(n as int));
    } else {
        assert(ch.queue.skip(0) =~= ch.queue);
    }
}

/// Once the session drops the outbound channel's sending end, the writer
/// writes each command that is still buffered, in order, one per iteration,
/// and shuts down in the iteration after: the closure bounds it to one more
/// iteration than there are buffered commands.
pub proof fn lemma_writer_stops_after_closure<T>(ch: ChannelModel<T>)
    ensures
        forall|i: nat| i < ch.queue.len() ==>
            writer_decision(awaited_receive(#[trigger] received_n(ch.close_sender(), i)))
                == WriterAction::Write(ch.queue[i as int]),
        writer_decision(awaited_receive(received_n(ch.close_sender(), ch.queue.len())))
            == WriterAction::<T>::Shutdown,
{
    let closed = ch.close_sender();
    assert forall|i: nat| i < ch.queue.len() implies
        writer_decision(awaited_receive(#[trigger] received_n(closed, i)))
            == WriterAction::Write(ch.queue[i as int]) by {
        lemma_received_n(closed, i);
    }
    lemma_received_n(closed, ch.queue.len());
}

/// Once the session drops the inbound channel's receiving end, the reader's
/// next forward is refused and the reader stops in that same iteration; a
/// failed read stops it as well.
pub proof fn lemma_reader_stops_after_closure<T>(ch: ChannelModel<T>, event: T)
    ensures
        ch.close_receiver().send_outcome() == SendOutcome::Rejected,
        ch.close_receiver().after_send(event) == ch.close_receiver(),
        reader_decision(ReadOutcome::<T>::Failed) == ReaderAction::<T>::Stop,
{
}

} // verus!
