//! Plain request and response shapes of the HTTP endpoints.  The
//! embedding program decodes the wire format into these values and
//! encodes them back; the library only defines the shapes.

use vstd::prelude::*;

verus! {

/// One incoming chat message.
#[derive(Debug)]
pub struct ChatRequest {
    pub user_id: String,
    pub message: String,
}

/// One chat answer, with the computed suggestions when there are any.
#[derive(Debug)]
pub struct ChatResponse {
    pub message: String,
    pub recommendations: Option<Vec<String>>,
}

/// Query bounds of a history request.
#[derive(Debug)]
pub struct HistoryParams {
    pub user_id: String,
    pub limit: Option<i32>,
}

/// One archived exchange.
#[derive(Debug)]
pub struct ChatMessage {
    pub user_id: String,
    pub message: String,
    pub response: String,
    pub timestamp: i64,
}

/// A recommendation request as the HTTP endpoint shapes it.
#[derive(Debug)]
pub struct RecommendationRequest {
    pub gift_type: String,
    pub price_range: String,
    pub relationship: String,
    pub event_type: String,
    pub additional_notes: Option<String>,
}

impl ChatResponse {
    /// A plain text answer with no suggestions attached.
    pub fn of_text(message: String) -> (r: Self)
        ensures
            r.message == message,
            r.recommendations is None,
    {
        ChatResponse { message, recommendations: Option::None }
    }
}

} // verus!
