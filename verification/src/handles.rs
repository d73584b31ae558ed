//! What the async runtime lends a session: queues, task handles, signals,
//! fresh ids and the time.
//!
//! The sessions keep these values and hand them on; they never look inside
//! one. The few calls made on them sit here, each behind a function whose
//! contract is trusted rather than proved.

use vstd::prelude::*;

verus! {

/// tokio's `mpsc::UnboundedSender`: the sending end of an outbound queue.
#[verifier::external_type_specification]
#[verifier::external_body]
#[verifier::reject_recursive_types(T)]
pub struct ExUnboundedSender<T>(tokio::sync::mpsc::UnboundedSender<T>);

/// tokio's `broadcast::Sender`: the sending end of a shutdown signal.
#[verifier::external_type_specification]
#[verifier::external_body]
#[verifier::reject_recursive_types(T)]
pub struct ExBroadcastSender<T>(tokio::sync::broadcast::Sender<T>);

/// tokio's `JoinHandle`: a spawned task, to wait for.
#[verifier::external_type_specification]
#[verifier::external_body]
#[verifier::reject_recursive_types(T)]
pub struct ExJoinHandle<T>(tokio::task::JoinHandle<T>);

/// tokio's `JoinError`: what waiting for a task gives when the task did not
/// run to its end. Declared because the type of a `JoinHandle` names it.
#[verifier::external_type_specification]
#[verifier::external_body]
pub struct ExJoinError(tokio::task::JoinError);

/// Puts `item` on an unbounded queue with `UnboundedSender::send`.
///
/// Nothing is claimed of whether the queue takes the item: that depends on
/// whether its receiving end is still open, which can change at any moment.
/// A refusal comes back as the sentence in which tokio's error displays
/// itself, which is the same for every refusal. (The call ends the process
/// should the queue ever count more messages than a machine word holds.)
#[verifier::external_body]
pub(crate) fn offer<T>(queue: &tokio::sync::mpsc::UnboundedSender<T>, item: T) -> (outcome: Result<
    (),
    String,
>)
    ensures
        outcome matches Err(reason) ==> reason@ == "channel closed"@,
{
    match queue.send(item) {
        Ok(()) => Ok(()),
        Err(refused) => Err(refused.to_string()),
    }
}

/// Raises a shutdown signal with `broadcast::Sender::send`.
///
/// Nothing is claimed of the outcome: it tells whether any task was still
/// listening, which depends on the tasks.
#[verifier::external_body]
pub(crate) fn announce(signal: &tokio::sync::broadcast::Sender<()>) -> (heard: bool) {
    signal.send(()).is_ok()
}

/// A random id, from `Uuid::new_v4`, in the hyphenated form that the `uuid`
/// crate displays. Which id it is, is random; trusted is only its length,
/// the 32 digits and 4 hyphens of that form.
#[verifier::external_body]
pub(crate) fn random_id() -> (id: String)
    ensures
        id@.len() == 36,
{
    uuid::Uuid::new_v4().to_string()
}

/// The present moment in UTC as RFC 3339 text, from `chrono::Utc::now` and
/// `DateTime::to_rfc3339`. Nothing is claimed of it: it is the time.
#[verifier::external_body]
pub(crate) fn clock_text() -> (now: String) {
    chrono::Utc::now().to_rfc3339()
}

/// The id to use for a new session or connection: the one asked for, or a
/// random one where none was asked for.
pub fn resolve_id(requested: Option<String>) -> (id: String)
    ensures
        requested matches Some(asked) ==> id == asked,
        requested is None ==> id@.len() == 36,
{
    match requested {
        Some(asked) => asked,
        None => random_id(),
    }
}

} // verus!
