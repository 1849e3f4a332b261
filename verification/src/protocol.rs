//! What the bot answers with.

use crate::json::{Json, JsonValue};
use vstd::prelude::*;

verus! {

/// The answer to a request that was not streamed.
#[derive(Debug)]
pub struct ChatResponse {
    pub session_id: String,
    pub message: String,
    pub events: Option<Vec<JsonValue>>,
}

/// One event of a streamed answer.
#[derive(Debug)]
pub struct ChatStreamEvent {
    /// The kind of event: "reasoning", "tool_call", "tool_result", "response", ...
    pub event: String,
    pub data: JsonValue,
    pub timestamp: Option<String>,
}

/// The model of a [`ChatResponse`].
pub struct ResponseView {
    pub session_id: Seq<char>,
    pub message: Seq<char>,
    pub events: Option<Seq<Json>>,
}

/// The model of a [`ChatStreamEvent`].
pub struct StreamEventView {
    pub event: Seq<char>,
    pub data: Json,
    pub timestamp: Option<Seq<char>>,
}

impl View for ChatResponse {
    type V = ResponseView;

    open spec fn view(&self) -> ResponseView {
        ResponseView {
            session_id: self.session_id@,
            message: self.message@,
            events: self.events.deep_view(),
        }
    }
}

impl View for ChatStreamEvent {
    type V = StreamEventView;

    open spec fn view(&self) -> StreamEventView {
        StreamEventView {
            event: self.event@,
            data: self.data@,
            timestamp: self.timestamp.deep_view(),
        }
    }
}

impl DeepView for ChatStreamEvent {
    type V = StreamEventView;

    open spec fn deep_view(&self) -> StreamEventView {
        self@
    }
}

} // verus!
