//! The decisions of the tasks that serve one connection.
//!
//! A connection is served by a reader and a writer that share one shutdown
//! signal and one outbound queue; a server also runs an acceptor. The tasks
//! wait, on a socket, a queue or the signal, and then ask here what to do
//! with what woke them.

use crate::error::{ErrorKind, SessionError};
use crate::text::join3;
use vstd::prelude::*;

verus! {

/// What woke a reader.
#[derive(Debug)]
pub enum ReadOutcome {
    /// The shutdown signal.
    Shutdown,
    /// A read of length zero: the peer closed the stream.
    Closed,
    /// A read of these bytes.
    Data(Vec<u8>),
    /// A failed read, with the reason in words.
    Failed(String),
}

impl ReadOutcome {
    /// What a read on a stream means: a failure is a failure; a read that
    /// brought no bytes means that the peer closed the stream; any other
    /// read brought data.
    pub fn of_read(read: Result<Vec<u8>, String>) -> (outcome: ReadOutcome)
        ensures
            match read {
                Ok(bytes) => if bytes@.len() == 0 {
                    outcome is Closed
                } else {
                    outcome == ReadOutcome::Data(bytes)
                },
                Err(reason) => outcome == ReadOutcome::Failed(reason),
            },
    {
        match read {
            Ok(bytes) => if bytes.len() == 0 {
                ReadOutcome::Closed
            } else {
                ReadOutcome::Data(bytes)
            },
            Err(reason) => ReadOutcome::Failed(reason),
        }
    }
}

/// What woke a writer. `T` is what the queue carries.
#[derive(Debug)]
pub enum WriterWake<T> {
    /// The shutdown signal.
    Shutdown,
    /// The next item of the outbound queue.
    Item(T),
    /// The outbound queue was closed and is empty.
    QueueClosed,
    /// The last write failed.
    WriteFailed,
}

/// What a writer does next.
#[derive(Debug)]
pub enum WriterAction<T> {
    /// Write this item in full, then wait again.
    Write(T),
    /// Leave the loop.
    Exit,
}

/// The writer's decision: an item is written, anything else ends the loop.
pub fn writer_step<T>(wake: WriterWake<T>) -> (action: WriterAction<T>)
    ensures
        match wake {
            WriterWake::Item(item) => action == WriterAction::Write(item),
            _ => action is Exit,
        },
{
    match wake {
        WriterWake::Item(item) => WriterAction::Write(item),
        WriterWake::Shutdown => WriterAction::Exit,
        WriterWake::QueueClosed => WriterAction::Exit,
        WriterWake::WriteFailed => WriterAction::Exit,
    }
}

/// What woke an acceptor.
#[derive(Clone, Copy, Debug, PartialEq, Eq, Structural)]
pub enum AcceptWake {
    /// The shutdown signal.
    Shutdown,
    /// A peer was accepted.
    Accepted,
    /// An accept failed.
    Failed,
}

/// What an acceptor does next.
#[derive(Clone, Copy, Debug, PartialEq, Eq, Structural)]
pub enum AcceptAction {
    /// Leave the loop.
    Exit,
    /// Hand the peer to a connection handler, then accept again.
    Serve,
    /// Note the failure and accept again.
    Retry,
}

/// The acceptor's decision: only the shutdown signal ends the loop.
pub fn acceptor_step(wake: AcceptWake) -> (action: AcceptAction)
    ensures
        action == match wake {
            AcceptWake::Shutdown => AcceptAction::Exit,
            AcceptWake::Accepted => AcceptAction::Serve,
            AcceptWake::Failed => AcceptAction::Retry,
        },
{
    match wake {
        AcceptWake::Shutdown => AcceptAction::Exit,
        AcceptWake::Accepted => AcceptAction::Serve,
        AcceptWake::Failed => AcceptAction::Retry,
    }
}

/// Whether `r` is what a send to the peer `client` reports when the peer's
/// queue answered `outcome`: success when the queue took the message, and a
/// failure of that send alone, with the queue's reason, when it did not.
pub open spec fn delivery_reported(
    client: Seq<char>,
    outcome: Result<(), String>,
    r: Result<(), SessionError>,
) -> bool {
    match outcome {
        Ok(()) => r is Ok,
        Err(reason) => {
            &&& r matches Err(e)
            &&& e.kind == ErrorKind::SendFailure
            &&& e.message@ == "Failed to send message to client "@ + client + ": "@ + reason@
        },
    }
}

/// What a send to one peer reports, given the answer of the peer's queue.
pub fn delivery_report(client_id: &str, outcome: Result<(), String>) -> (r: Result<
    (),
    SessionError,
>)
    ensures
        delivery_reported(client_id@, outcome, r),
{
    match outcome {
        Ok(()) => Ok(()),
        Err(reason) => {
            let mut message = join3("Failed to send message to client ", client_id, ": ");
            message.append(reason.as_str());
            Err(SessionError::new(ErrorKind::SendFailure, message))
        },
    }
}

/// How many of `outcomes` are acceptances.
pub open spec fn accepted(outcomes: Seq<bool>) -> nat
    decreases outcomes.len(),
{
    if outcomes.len() == 0 {
        0
    } else {
        accepted(outcomes.drop_last()) + if outcomes.last() {
            1nat
        } else {
            0nat
        }
    }
}

/// There are never more acceptances than outcomes.
pub proof fn lemma_accepted_bound(outcomes: Seq<bool>)
    ensures
        accepted(outcomes) <= outcomes.len(),
    decreases outcomes.len(),
{
    if outcomes.len() > 0 {
        lemma_accepted_bound(outcomes.drop_last());
    }
}

/// The count that a broadcast reports: the number of queues that took the
/// message.
pub fn count_accepted(outcomes: &Vec<bool>) -> (sent_count: usize)
    ensures
        sent_count == accepted(outcomes@),
{
    let mut sent_count: usize = 0;
    let mut i: usize = 0;
    assert(outcomes@.take(0) =~= Seq::<bool>::empty());
    while i < outcomes.len()
        invariant
            i <= outcomes.len(),
            sent_count == accepted(outcomes@.take(i as int)),
            sent_count <= i,
        decreases outcomes.len() - i,
    {
        assert(outcomes@.take(i + 1).drop_last() =~= outcomes@.take(i as int));
        if outcomes[i] {
            sent_count += 1;
        }
        i += 1;
    }
    assert(outcomes@.take(outcomes.len() as int) =~= outcomes@);
    sent_count
}

/// A broadcast that every one of N queues takes reports N.
pub proof fn lemma_all_accepted(outcomes: Seq<bool>)
    requires
        forall|i: int| 0 <= i < outcomes.len() ==> outcomes[i],
    ensures
        accepted(outcomes) == outcomes.len(),
    decreases outcomes.len(),
{
    if outcomes.len() > 0 {
        lemma_all_accepted(outcomes.drop_last());
    }
}

} // verus!
