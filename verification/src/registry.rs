//! The edge of the tool registry: a call as the model wrote it becomes a
//! request with checked arguments, or the fault that keeps it from running.

use vstd::prelude::*;
use vstd::string::StringExecFns;
use crate::json::{json_integer, json_member, json_string, json_text, member};
use crate::tools::{kind_of, tool_kind, MathOp, ToolCall, ToolKind, ToolResult, ToolResultView};

verus! {

/// A call that may run, with the arguments that it runs on.
#[derive(Clone, Debug, PartialEq)]
pub enum ToolRequest {
    /// An arithmetic operation. Its operands are numbers inside `arguments`.
    Arithmetic { operation: MathOp, arguments: serde_json::Value },
    ConversationSummary { conversation_id: i32, message_limit: i32 },
    SearchConversation { conversation_id: i32, search_term: String },
    SendMessage { conversation_id: i32, username: String, content: String },
    UserConversations { username: String },
    ConversationStats { conversation_id: i32 },
    ListAllConversations,
    FindUser { search_term: String },
}

/// The content of a [`ToolRequest`].
pub enum ToolRequestView {
    Arithmetic { operation: MathOp, arguments: Seq<char> },
    ConversationSummary { conversation_id: i32, message_limit: i32 },
    SearchConversation { conversation_id: i32, search_term: Seq<char> },
    SendMessage { conversation_id: i32, username: Seq<char>, content: Seq<char> },
    UserConversations { username: Seq<char> },
    ConversationStats { conversation_id: i32 },
    ListAllConversations,
    FindUser { search_term: Seq<char> },
}

impl View for ToolRequest {
    type V = ToolRequestView;

    open spec fn view(&self) -> ToolRequestView {
        match self {
            ToolRequest::Arithmetic { operation, arguments } => ToolRequestView::Arithmetic {
                operation: *operation,
                arguments: json_text(*arguments),
            },
            ToolRequest::ConversationSummary {
                conversation_id,
                message_limit,
            } => ToolRequestView::ConversationSummary {
                conversation_id: *conversation_id,
                message_limit: *message_limit,
            },
            ToolRequest::SearchConversation {
                conversation_id,
                search_term,
            } => ToolRequestView::SearchConversation {
                conversation_id: *conversation_id,
                search_term: search_term@,
            },
            ToolRequest::SendMessage {
                conversation_id,
                username,
                content,
            } => ToolRequestView::SendMessage {
                conversation_id: *conversation_id,
                username: username@,
                content: content@,
            },
            ToolRequest::UserConversations { username } => ToolRequestView::UserConversations {
                username: username@,
            },
            ToolRequest::ConversationStats { conversation_id } => ToolRequestView::ConversationStats {
                conversation_id: *conversation_id,
            },
            ToolRequest::ListAllConversations => ToolRequestView::ListAllConversations,
            ToolRequest::FindUser { search_term } => ToolRequestView::FindUser {
                search_term: search_term@,
            },
        }
    }
}

/// Why a call did not run, or ran and failed.
#[derive(Clone, Debug, PartialEq, Eq)]
pub enum ToolFault {
    /// The catalogue has no tool of that name.
    UnknownTool(String),
    /// An operand of an arithmetic operation is missing or not a number.
    InvalidArguments(MathOp),
    DivisionByZero,
    NegativeSquareRoot,
    /// A message needs both a sender and a text.
    MissingSender,
    MissingUsername,
    MissingSearchTerm,
    /// No user goes by that name.
    UserNotFound(String),
    /// The conversation store could not be reached.
    Connection(String),
    /// A lookup in the conversation store failed.
    Database(String),
    Search(String),
    Send(String),
    Conversations(String),
    Statistics(String),
    Listing(String),
}

/// The content of a [`ToolFault`].
pub enum ToolFaultView {
    UnknownTool(Seq<char>),
    InvalidArguments(MathOp),
    DivisionByZero,
    NegativeSquareRoot,
    MissingSender,
    MissingUsername,
    MissingSearchTerm,
    UserNotFound(Seq<char>),
    Connection(Seq<char>),
    Database(Seq<char>),
    Search(Seq<char>),
    Send(Seq<char>),
    Conversations(Seq<char>),
    Statistics(Seq<char>),
    Listing(Seq<char>),
}

impl View for ToolFault {
    type V = ToolFaultView;

    open spec fn view(&self) -> ToolFaultView {
        match self {
            ToolFault::UnknownTool(name) => ToolFaultView::UnknownTool(name@),
            ToolFault::InvalidArguments(operation) => ToolFaultView::InvalidArguments(*operation),
            ToolFault::DivisionByZero => ToolFaultView::DivisionByZero,
            ToolFault::NegativeSquareRoot => ToolFaultView::NegativeSquareRoot,
            ToolFault::MissingSender => ToolFaultView::MissingSender,
            ToolFault::MissingUsername => ToolFaultView::MissingUsername,
            ToolFault::MissingSearchTerm => ToolFaultView::MissingSearchTerm,
            ToolFault::UserNotFound(name) => ToolFaultView::UserNotFound(name@),
            ToolFault::Connection(detail) => ToolFaultView::Connection(detail@),
            ToolFault::Database(detail) => ToolFaultView::Database(detail@),
            ToolFault::Search(detail) => ToolFaultView::Search(detail@),
            ToolFault::Send(detail) => ToolFaultView::Send(detail@),
            ToolFault::Conversations(detail) => ToolFaultView::Conversations(detail@),
            ToolFault::Statistics(detail) => ToolFaultView::Statistics(detail@),
            ToolFault::Listing(detail) => ToolFaultView::Listing(detail@),
        }
    }
}

impl ToolFaultView {
    /// The error text that the model and the viewers get to see.
    pub open spec fn message(self) -> Seq<char> {
        match self {
            ToolFaultView::UnknownTool(name) => "Unknown tool: "@ + name,
            ToolFaultView::InvalidArguments(operation) => if operation == MathOp::Sqrt {
                "Invalid argument for sqrt"@
            } else {
                "Invalid arguments for "@ + operation.name()
            },
            ToolFaultView::DivisionByZero => "Division by zero"@,
            ToolFaultView::NegativeSquareRoot => "Cannot calculate square root of negative number"@,
            ToolFaultView::MissingSender => "Username and content are required"@,
            ToolFaultView::MissingUsername => "Username is required"@,
            ToolFaultView::MissingSearchTerm => "Search term is required"@,
            ToolFaultView::UserNotFound(name) => "User '"@ + name + "' not found"@,
            ToolFaultView::Connection(detail) => "Failed to connect to database: "@ + detail,
            ToolFaultView::Database(detail) => "Database error: "@ + detail,
            ToolFaultView::Search(detail) => "Search error: "@ + detail,
            ToolFaultView::Send(detail) => "Failed to send message: "@ + detail,
            ToolFaultView::Conversations(detail) => "Failed to get conversations: "@ + detail,
            ToolFaultView::Statistics(detail) => "Failed to get statistics: "@ + detail,
            ToolFaultView::Listing(detail) => "Failed to list conversations: "@ + detail,
        }
    }
}

fn prefixed(prefix: &str, detail: &str) -> (text: String)
    ensures
        text@ == prefix@ + detail@,
{
    let mut text = String::from_str(prefix);
    text.append(detail);
    text
}

impl ToolFault {
    /// Writes the error text that the model and the viewers get to see.
    pub fn message(&self) -> (text: String)
        ensures
            text@ == self@.message(),
    {
        match self {
            ToolFault::UnknownTool(name) => prefixed("Unknown tool: ", name.as_str()),
            ToolFault::InvalidArguments(operation) => match operation {
                MathOp::Sqrt => String::from_str("Invalid argument for sqrt"),
                _ => prefixed("Invalid arguments for ", operation.as_str()),
            },
            ToolFault::DivisionByZero => String::from_str("Division by zero"),
            ToolFault::NegativeSquareRoot => String::from_str(
                "Cannot calculate square root of negative number",
            ),
            ToolFault::MissingSender => String::from_str("Username and content are required"),
            ToolFault::MissingUsername => String::from_str("Username is required"),
            ToolFault::MissingSearchTerm => String::from_str("Search term is required"),
            ToolFault::UserNotFound(name) => {
                let mut text = prefixed("User '", name.as_str());
                text.append("' not found");
                text
            },
            ToolFault::Connection(detail) => prefixed(
                "Failed to connect to database: ",
                detail.as_str(),
            ),
            ToolFault::Database(detail) => prefixed("Database error: ", detail.as_str()),
            ToolFault::Search(detail) => prefixed("Search error: ", detail.as_str()),
            ToolFault::Send(detail) => prefixed("Failed to send message: ", detail.as_str()),
            ToolFault::Conversations(detail) => prefixed(
                "Failed to get conversations: ",
                detail.as_str(),
            ),
            ToolFault::Statistics(detail) => prefixed("Failed to get statistics: ", detail.as_str()),
            ToolFault::Listing(detail) => prefixed("Failed to list conversations: ", detail.as_str()),
        }
    }

    /// The outcome of the call that met this fault: a failure without a value
    /// that carries the error text.
    pub fn outcome(&self) -> (outcome: ToolResult)
        ensures
            outcome@ == (ToolResultView {
                success: false,
                result: "null"@,
                error: Some(self@.message()),
            }),
    {
        ToolResult::failed(self.message())
    }
}

/// The whole number that the arguments hold under `key`, cut down to 32 bits;
/// `default` where they hold none.
pub open spec fn integer_argument(arguments: Seq<char>, key: Seq<char>, default: i64) -> i32 {
    let wide: i64 = match json_member(arguments, key) {
        Some(found) => match json_integer(found) {
            Some(n) => n,
            None => default,
        },
        None => default,
    };
    wide as i32
}

/// The text that the arguments hold under `key`; empty where they hold none.
pub open spec fn text_argument(arguments: Seq<char>, key: Seq<char>) -> Seq<char> {
    match json_member(arguments, key) {
        Some(found) => match json_string(found) {
            Some(text) => text,
            None => Seq::empty(),
        },
        None => Seq::empty(),
    }
}

/// Reads a whole number from the arguments of a call.
pub fn read_integer(arguments: &serde_json::Value, key: &str, default: i64) -> (n: i32)
    ensures
        n == integer_argument(json_text(*arguments), key@, default),
{
    let wide: i64 = match member(arguments, key) {
        Some(found) => match found.as_i64() {
            Some(n) => n,
            None => default,
        },
        None => default,
    };
    #[verifier::truncate]
    (wide as i32)
}

/// Reads a text from the arguments of a call.
pub fn read_text(arguments: &serde_json::Value, key: &str) -> (text: String)
    ensures
        text@ == text_argument(json_text(*arguments), key@),
{
    match member(arguments, key) {
        Some(found) => match found.as_str() {
            Some(text) => text.to_string(),
            None => String::new(),
        },
        None => String::new(),
    }
}

/// The arguments that the tools of the conversation store take, as far as a
/// call holds them.
#[derive(Clone, Debug, PartialEq, Eq)]
pub struct CallFields {
    pub conversation_id: i32,
    pub message_limit: i32,
    pub username: String,
    pub content: String,
    pub search_term: String,
}

/// The content of a [`CallFields`].
pub struct CallFieldsView {
    pub conversation_id: i32,
    pub message_limit: i32,
    pub username: Seq<char>,
    pub content: Seq<char>,
    pub search_term: Seq<char>,
}

impl View for CallFields {
    type V = CallFieldsView;

    open spec fn view(&self) -> CallFieldsView {
        CallFieldsView {
            conversation_id: self.conversation_id,
            message_limit: self.message_limit,
            username: self.username@,
            content: self.content@,
            search_term: self.search_term@,
        }
    }
}

/// The fields that the arguments with the given compact text hold. A
/// conversation that is not named is conversation 0, a limit that is not
/// given is 50, and a text that is not given is empty.
pub open spec fn fields_of(arguments: Seq<char>) -> CallFieldsView {
    CallFieldsView {
        conversation_id: integer_argument(arguments, "conversation_id"@, 0),
        message_limit: integer_argument(arguments, "message_limit"@, 50),
        username: text_argument(arguments, "username"@),
        content: text_argument(arguments, "content"@),
        search_term: text_argument(arguments, "search_term"@),
    }
}

/// Reads the fields from the arguments of a call.
pub fn read_fields(arguments: &serde_json::Value) -> (fields: CallFields)
    ensures
        fields@ == fields_of(json_text(*arguments)),
{
    CallFields {
        conversation_id: read_integer(arguments, "conversation_id", 0),
        message_limit: read_integer(arguments, "message_limit", 50),
        username: read_text(arguments, "username"),
        content: read_text(arguments, "content"),
        search_term: read_text(arguments, "search_term"),
    }
}

/// The request that a tool of kind `kind` gets from the given fields, or the
/// fault in them. An arithmetic tool gets the arguments as they are.
pub open spec fn assembled(
    kind: ToolKind,
    fields: CallFieldsView,
    arguments: Seq<char>,
) -> Result<ToolRequestView, ToolFaultView> {
    match kind {
        ToolKind::Math(operation) => Ok(ToolRequestView::Arithmetic { operation, arguments }),
        ToolKind::GetConversationSummary => Ok(
            ToolRequestView::ConversationSummary {
                conversation_id: fields.conversation_id,
                message_limit: fields.message_limit,
            },
        ),
        ToolKind::SearchConversation => Ok(
            ToolRequestView::SearchConversation {
                conversation_id: fields.conversation_id,
                search_term: fields.search_term,
            },
        ),
        ToolKind::SendMessage => if fields.username.len() == 0 || fields.content.len() == 0 {
            Err(ToolFaultView::MissingSender)
        } else {
            Ok(
                ToolRequestView::SendMessage {
                    conversation_id: fields.conversation_id,
                    username: fields.username,
                    content: fields.content,
                },
            )
        },
        ToolKind::GetUserConversations => if fields.username.len() == 0 {
            Err(ToolFaultView::MissingUsername)
        } else {
            Ok(ToolRequestView::UserConversations { username: fields.username })
        },
        ToolKind::GetConversationStats => Ok(
            ToolRequestView::ConversationStats { conversation_id: fields.conversation_id },
        ),
        ToolKind::ListAllConversations => Ok(ToolRequestView::ListAllConversations),
        ToolKind::FindUser => if fields.search_term.len() == 0 {
            Err(ToolFaultView::MissingSearchTerm)
        } else {
            Ok(ToolRequestView::FindUser { search_term: fields.search_term })
        },
    }
}

/// The request that a call for a tool of kind `kind` with the given
/// arguments makes, or the fault in its arguments.
pub open spec fn request_for(kind: ToolKind, arguments: Seq<char>) -> Result<
    ToolRequestView,
    ToolFaultView,
> {
    assembled(kind, fields_of(arguments), arguments)
}

/// The request that the call makes, or the fault that keeps it from running.
pub open spec fn checked(call: crate::tools::ToolCallView) -> Result<ToolRequestView, ToolFaultView> {
    match kind_of(call.name) {
        Some(kind) => request_for(kind, call.arguments),
        None => Err(ToolFaultView::UnknownTool(call.name)),
    }
}

/// The views of a checked call.
pub open spec fn checked_view(result: Result<ToolRequest, ToolFault>) -> Result<
    ToolRequestView,
    ToolFaultView,
> {
    match result {
        Ok(request) => Ok(request@),
        Err(fault) => Err(fault@),
    }
}

/// Makes the request for a tool of kind `kind` from the fields that were
/// read, or names the fault in them: a message needs a sender and a text, a
/// lookup of conversations a user, and a search for users a term.
pub fn assemble_request(
    kind: ToolKind,
    fields: CallFields,
    arguments: &serde_json::Value,
) -> (result: Result<ToolRequest, ToolFault>)
    ensures
        checked_view(result) == assembled(kind, fields@, json_text(*arguments)),
{
    match kind {
        ToolKind::Math(operation) => Ok(
            ToolRequest::Arithmetic { operation, arguments: arguments.clone() },
        ),
        ToolKind::GetConversationSummary => Ok(
            ToolRequest::ConversationSummary {
                conversation_id: fields.conversation_id,
                message_limit: fields.message_limit,
            },
        ),
        ToolKind::SearchConversation => Ok(
            ToolRequest::SearchConversation {
                conversation_id: fields.conversation_id,
                search_term: fields.search_term,
            },
        ),
        ToolKind::SendMessage => {
            if fields.username.as_str().is_empty() || fields.content.as_str().is_empty() {
                Err(ToolFault::MissingSender)
            } else {
                Ok(
                    ToolRequest::SendMessage {
                        conversation_id: fields.conversation_id,
                        username: fields.username,
                        content: fields.content,
                    },
                )
            }
        },
        ToolKind::GetUserConversations => {
            if fields.username.as_str().is_empty() {
                Err(ToolFault::MissingUsername)
            } else {
                Ok(ToolRequest::UserConversations { username: fields.username })
            }
        },
        ToolKind::GetConversationStats => Ok(
            ToolRequest::ConversationStats { conversation_id: fields.conversation_id },
        ),
        ToolKind::ListAllConversations => Ok(ToolRequest::ListAllConversations),
        ToolKind::FindUser => {
            if fields.search_term.as_str().is_empty() {
                Err(ToolFault::MissingSearchTerm)
            } else {
                Ok(ToolRequest::FindUser { search_term: fields.search_term })
            }
        },
    }
}

/// Reads and checks the arguments of a call for a tool of kind `kind`.
pub fn read_request(kind: ToolKind, arguments: &serde_json::Value) -> (result: Result<
    ToolRequest,
    ToolFault,
>)
    ensures
        checked_view(result) == request_for(kind, json_text(*arguments)),
{
    assemble_request(kind, read_fields(arguments), arguments)
}

/// Finds the tool that the call names and checks the arguments for it.
pub fn check_call(call: &ToolCall) -> (result: Result<ToolRequest, ToolFault>)
    ensures
        checked_view(result) == checked(call@),
{
    match tool_kind(call.name.as_str()) {
        Some(kind) => read_request(kind, &call.arguments),
        None => Err(ToolFault::UnknownTool(call.name.clone())),
    }
}

} // verus!
