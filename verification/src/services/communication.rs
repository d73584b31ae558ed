//! What the window-bound server says to its window.

use vstd::prelude::*;

verus! {

/// The kinds of line in the window's log.
#[derive(Clone, Copy, Debug, PartialEq, Eq, Structural)]
pub enum MessageType {
    Log,
    Send,
    Receive,
}

/// One line for the window's log.
#[derive(Clone, Debug)]
pub struct MessageItem {
    pub content: String,
    pub msg_type: MessageType,
}

/// How a command of the window ended: with success, or with the reason why
/// not.
#[derive(Clone, Debug)]
pub struct ActionResult {
    pub success: bool,
    pub error_message: String,
}

/// The line that shows `message` in the window's log as a line of kind
/// `msg_type`.
pub fn show_message(message: &str, msg_type: MessageType) -> (item: MessageItem)
    ensures
        item.content@ == message@,
        item.msg_type == msg_type,
{
    MessageItem { content: String::from_str(message), msg_type }
}

impl ActionResult {
    /// The result of a command that succeeded: no error message.
    pub fn succeeded() -> (result: ActionResult)
        ensures
            result.success,
            result.error_message@ == Seq::<char>::empty(),
    {
        ActionResult { success: true, error_message: String::new() }
    }

    /// The result of a command that failed for the reason `error_message`.
    pub fn failed(error_message: String) -> (result: ActionResult)
        ensures
            !result.success,
            result.error_message == error_message,
    {
        ActionResult { success: false, error_message }
    }
}

} // verus!
