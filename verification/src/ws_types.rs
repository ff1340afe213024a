//! Plain shapes of the websocket protocol, and the constructors for the
//! frames the dialog sends: the typing notice, the answer, and the error
//! notice.

use vstd::prelude::*;
use vstd::string::StringExecFns;

verus! {

/// Who a websocket frame speaks for.
#[derive(Clone, Copy, Debug, PartialEq, Eq, Structural)]
pub enum MessageType {
    UserMessage,
    BotResponse,
    Typing,
    Error,
}

/// One websocket frame.
#[derive(Debug)]
pub struct ChatMessage {
    pub user_id: String,
    pub message: String,
    pub message_type: MessageType,
}

impl ChatMessage {
    /// The typing notice sent back while an answer is being computed.
    pub fn typing(user_id: String) -> (r: Self)
        ensures
            r.user_id == user_id,
            r.message@ == "..."@,
            r.message_type == MessageType::Typing,
    {
        ChatMessage {
            user_id,
            message: String::from_str("..."),
            message_type: MessageType::Typing,
        }
    }

    /// The answer frame carrying the dialog's reply.
    pub fn bot_response(user_id: String, message: String) -> (r: Self)
        ensures
            r.user_id == user_id,
            r.message == message,
            r.message_type == MessageType::BotResponse,
    {
        ChatMessage { user_id, message, message_type: MessageType::BotResponse }
    }

    /// The error notice sent when a message cannot be handled.
    pub fn error_notice(message: String) -> (r: Self)
        ensures
            r.user_id@ == "system"@,
            r.message == message,
            r.message_type == MessageType::Error,
    {
        ChatMessage {
            user_id: String::from_str("system"),
            message,
            message_type: MessageType::Error,
        }
    }
}

} // verus!
