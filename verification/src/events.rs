//! What travels between the relay and its viewers.

use vstd::prelude::*;
use crate::json::json_text;

verus! {

/// An event that every connected viewer receives.
#[derive(Clone, Debug, PartialEq)]
pub enum ViewerEvent {
    /// The assistant starts an answer.
    Start,
    /// A visible piece of the answer.
    Chunk { content: String },
    /// The tools named are about to run, in this order.
    ToolStart { tools: Vec<String> },
    /// One tool has run.
    ToolResult { tool: String, result: serde_json::Value, success: bool },
    /// The turn is over.
    End,
}

/// The content of a [`ViewerEvent`], with JSON values as compact text.
pub enum ViewerEventView {
    Start,
    Chunk { content: Seq<char> },
    ToolStart { tools: Seq<Seq<char>> },
    ToolResult { tool: Seq<char>, result: Seq<char>, success: bool },
    End,
}

impl View for ViewerEvent {
    type V = ViewerEventView;

    open spec fn view(&self) -> ViewerEventView {
        match self {
            ViewerEvent::Start => ViewerEventView::Start,
            ViewerEvent::Chunk { content } => ViewerEventView::Chunk { content: content@ },
            ViewerEvent::ToolStart { tools } => ViewerEventView::ToolStart {
                tools: tools@.map_values(|t: String| t@),
            },
            ViewerEvent::ToolResult { tool, result, success } => ViewerEventView::ToolResult {
                tool: tool@,
                result: json_text(*result),
                success: *success,
            },
            ViewerEvent::End => ViewerEventView::End,
        }
    }
}

/// The contents of a list of events, in order.
pub open spec fn event_views(events: Seq<ViewerEvent>) -> Seq<ViewerEventView> {
    events.map_values(|e: ViewerEvent| e@)
}

/// A message that a viewer sends to the relay.
#[derive(Clone, Debug, PartialEq, Eq)]
pub enum ClientMessage {
    /// The viewer says something to the assistant.
    SendMessage { content: String },
}

impl View for ClientMessage {
    type V = Seq<char>;

    open spec fn view(&self) -> Seq<char> {
        match self {
            ClientMessage::SendMessage { content } => content@,
        }
    }
}

} // verus!
