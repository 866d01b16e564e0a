//! The catalogue of tools that the model may request, and its rendering as
//! the instructions that are placed in the system prompt.

use vstd::prelude::*;
use vstd::string::StringExecFns;
use crate::json::{json_null, json_text, render};
use crate::text::{lemma_occurs_in_chain, lemma_occurs_in_the_middle, occurs_in, same_text};

verus! {

/// One parameter of a tool.
#[derive(Clone, Debug, PartialEq, Eq)]
pub struct Parameter {
    pub name: String,
    pub param_type: String,
    pub description: String,
}

/// A tool that the model may request by name.
#[derive(Clone, Debug, PartialEq, Eq)]
pub struct Tool {
    pub name: String,
    pub description: String,
    pub parameters: Vec<Parameter>,
}

/// The mathematical content of a [`Parameter`].
pub struct ParameterView {
    pub name: Seq<char>,
    pub param_type: Seq<char>,
    pub description: Seq<char>,
}

/// The mathematical content of a [`Tool`].
pub struct ToolView {
    pub name: Seq<char>,
    pub description: Seq<char>,
    pub parameters: Seq<ParameterView>,
}

impl View for Parameter {
    type V = ParameterView;

    open spec fn view(&self) -> ParameterView {
        ParameterView {
            name: self.name@,
            param_type: self.param_type@,
            description: self.description@,
        }
    }
}

impl View for Tool {
    type V = ToolView;

    open spec fn view(&self) -> ToolView {
        ToolView {
            name: self.name@,
            description: self.description@,
            parameters: self.parameters@.map_values(|p: Parameter| p@),
        }
    }
}

/// The views of a list of tools, in order.
pub open spec fn tool_views(tools: Seq<Tool>) -> Seq<ToolView> {
    tools.map_values(|t: Tool| t@)
}

/// A parameter, written down by its three texts.
pub open spec fn parameter(name: &str, param_type: &str, description: &str) -> ParameterView {
    ParameterView { name: name@, param_type: param_type@, description: description@ }
}

/// A tool, written down by its texts and parameters.
pub open spec fn tool(name: &str, description: &str, parameters: Seq<ParameterView>) -> ToolView {
    ToolView { name: name@, description: description@, parameters }
}

/// The six arithmetic tools, in catalogue order.
pub open spec fn math_catalogue() -> Seq<ToolView> {
    seq![
        tool(
            "add",
            "Add two numbers together",
            seq![
                parameter("a", "number", "First number"),
                parameter("b", "number", "Second number"),
            ],
        ),
        tool(
            "subtract",
            "Subtract second number from first number",
            seq![
                parameter("a", "number", "First number"),
                parameter("b", "number", "Second number"),
            ],
        ),
        tool(
            "multiply",
            "Multiply two numbers together",
            seq![
                parameter("a", "number", "First number"),
                parameter("b", "number", "Second number"),
            ],
        ),
        tool(
            "divide",
            "Divide first number by second number",
            seq![
                parameter("a", "number", "Numerator"),
                parameter("b", "number", "Denominator"),
            ],
        ),
        tool(
            "power",
            "Raise first number to the power of second number",
            seq![
                parameter("base", "number", "Base number"),
                parameter("exponent", "number", "Exponent"),
            ],
        ),
        tool(
            "sqrt",
            "Calculate square root of a number",
            seq![parameter("value", "number", "Number to find square root of")],
        ),
    ]
}

/// The seven conversation-store tools, in catalogue order.
pub open spec fn store_catalogue() -> Seq<ToolView> {
    seq![
        tool(
            "get_conversation_summary",
            "Get a summary of messages in a conversation",
            seq![
                parameter("conversation_id", "number", "ID of the conversation to summarize"),
                parameter(
                    "message_limit",
                    "number",
                    "Number of recent messages to include (default: 50)",
                ),
            ],
        ),
        tool(
            "search_conversation",
            "Search for messages in a conversation",
            seq![
                parameter("conversation_id", "number", "ID of the conversation to search"),
                parameter("search_term", "string", "Text to search for in messages"),
            ],
        ),
        tool(
            "send_message",
            "Send a message to a conversation as a specific user",
            seq![
                parameter("conversation_id", "number", "ID of the conversation"),
                parameter("username", "string", "Username of the sender"),
                parameter("content", "string", "Message content"),
            ],
        ),
        tool(
            "get_user_conversations",
            "Get all conversations for a specific user",
            seq![parameter("username", "string", "Username to get conversations for")],
        ),
        tool(
            "get_conversation_stats",
            "Get statistics about a conversation",
            seq![parameter("conversation_id", "number", "ID of the conversation")],
        ),
        tool("list_all_conversations", "List all conversations in the database", seq![]),
        tool(
            "find_user",
            "Find a user by username or email",
            seq![parameter("search_term", "string", "Username or email to search for")],
        ),
    ]
}

/// Every tool on offer: the arithmetic tools, then the conversation-store tools.
pub open spec fn catalogue() -> Seq<ToolView> {
    math_catalogue() + store_catalogue()
}

fn make_parameter(name: &str, param_type: &str, description: &str) -> (p: Parameter)
    ensures
        p@ == parameter(name, param_type, description),
{
    Parameter {
        name: String::from_str(name),
        param_type: String::from_str(param_type),
        description: String::from_str(description),
    }
}

fn make_tool(name: &str, description: &str, parameters: Vec<Parameter>) -> (t: Tool)
    ensures
        t@ == tool(name, description, parameters@.map_values(|p: Parameter| p@)),
{
    Tool { name: String::from_str(name), description: String::from_str(description), parameters }
}

fn one_parameter(p0: Parameter) -> (v: Vec<Parameter>)
    ensures
        v@.map_values(|p: Parameter| p@) == seq![p0@],
{
    let mut v: Vec<Parameter> = Vec::new();
    v.push(p0);
    assert(v@.map_values(|p: Parameter| p@) =~= seq![p0@]);
    v
}

fn two_parameters(p0: Parameter, p1: Parameter) -> (v: Vec<Parameter>)
    ensures
        v@.map_values(|p: Parameter| p@) == seq![p0@, p1@],
{
    let mut v: Vec<Parameter> = Vec::new();
    v.push(p0);
    v.push(p1);
    assert(v@.map_values(|p: Parameter| p@) =~= seq![p0@, p1@]);
    v
}

fn three_parameters(p0: Parameter, p1: Parameter, p2: Parameter) -> (v: Vec<Parameter>)
    ensures
        v@.map_values(|p: Parameter| p@) == seq![p0@, p1@, p2@],
{
    let mut v: Vec<Parameter> = Vec::new();
    v.push(p0);
    v.push(p1);
    v.push(p2);
    assert(v@.map_values(|p: Parameter| p@) =~= seq![p0@, p1@, p2@]);
    v
}

fn math_tools() -> (tools: Vec<Tool>)
    ensures
        tool_views(tools@) == math_catalogue(),
{
    let mut tools: Vec<Tool> = Vec::new();
    tools.push(
        make_tool(
            "add",
            "Add two numbers together",
            two_parameters(
                make_parameter("a", "number", "First number"),
                make_parameter("b", "number", "Second number"),
            ),
        ),
    );
    tools.push(
        make_tool(
            "subtract",
            "Subtract second number from first number",
            two_parameters(
                make_parameter("a", "number", "First number"),
                make_parameter("b", "number", "Second number"),
            ),
        ),
    );
    tools.push(
        make_tool(
            "multiply",
            "Multiply two numbers together",
            two_parameters(
                make_parameter("a", "number", "First number"),
                make_parameter("b", "number", "Second number"),
            ),
        ),
    );
    tools.push(
        make_tool(
            "divide",
            "Divide first number by second number",
            two_parameters(
                make_parameter("a", "number", "Numerator"),
                make_parameter("b", "number", "Denominator"),
            ),
        ),
    );
    tools.push(
        make_tool(
            "power",
            "Raise first number to the power of second number",
            two_parameters(
                make_parameter("base", "number", "Base number"),
                make_parameter("exponent", "number", "Exponent"),
            ),
        ),
    );
    tools.push(
        make_tool(
            "sqrt",
            "Calculate square root of a number",
            one_parameter(make_parameter("value", "number", "Number to find square root of")),
        ),
    );
    assert(tool_views(tools@) =~= math_catalogue());
    tools
}

fn store_tools() -> (tools: Vec<Tool>)
    ensures
        tool_views(tools@) == store_catalogue(),
{
    let mut tools: Vec<Tool> = Vec::new();
    tools.push(
        make_tool(
            "get_conversation_summary",
            "Get a summary of messages in a conversation",
            two_parameters(
                make_parameter("conversation_id", "number", "ID of the conversation to summarize"),
                make_parameter(
                    "message_limit",
                    "number",
                    "Number of recent messages to include (default: 50)",
                ),
            ),
        ),
    );
    tools.push(
        make_tool(
            "search_conversation",
            "Search for messages in a conversation",
            two_parameters(
                make_parameter("conversation_id", "number", "ID of the conversation to search"),
                make_parameter("search_term", "string", "Text to search for in messages"),
            ),
        ),
    );
    tools.push(
        make_tool(
            "send_message",
            "Send a message to a conversation as a specific user",
            three_parameters(
                make_parameter("conversation_id", "number", "ID of the conversation"),
                make_parameter("username", "string", "Username of the sender"),
                make_parameter("content", "string", "Message content"),
            ),
        ),
    );
    tools.push(
        make_tool(
            "get_user_conversations",
            "Get all conversations for a specific user",
            one_parameter(
                make_parameter("username", "string", "Username to get conversations for"),
            ),
        ),
    );
    tools.push(
        make_tool(
            "get_conversation_stats",
            "Get statistics about a conversation",
            one_parameter(make_parameter("conversation_id", "number", "ID of the conversation")),
        ),
    );
    let none: Vec<Parameter> = Vec::new();
    assert(none@.map_values(|p: Parameter| p@) =~= seq![]);
    tools.push(make_tool("list_all_conversations", "List all conversations in the database", none));
    tools.push(
        make_tool(
            "find_user",
            "Find a user by username or email",
            one_parameter(make_parameter("search_term", "string", "Username or email to search for")),
        ),
    );
    assert(tool_views(tools@) =~= store_catalogue());
    tools
}

/// Lists every tool on offer, in catalogue order.
pub fn get_available_tools() -> (tools: Vec<Tool>)
    ensures
        tool_views(tools@) == catalogue(),
{
    let mut tools = math_tools();
    let mut rest = store_tools();
    let ghost first = tools@;
    let ghost second = rest@;
    tools.append(&mut rest);
    assert(tools@ == first + second);
    assert(tool_views(tools@) =~= tool_views(first) + tool_views(second));
    tools
}

/// A request to run one tool.
#[derive(Clone, Debug, PartialEq)]
pub struct ToolCall {
    pub name: String,
    pub arguments: serde_json::Value,
}

/// The content of a [`ToolCall`]: its name, and its arguments as compact JSON.
pub struct ToolCallView {
    pub name: Seq<char>,
    pub arguments: Seq<char>,
}

impl View for ToolCall {
    type V = ToolCallView;

    open spec fn view(&self) -> ToolCallView {
        ToolCallView { name: self.name@, arguments: json_text(self.arguments) }
    }
}

/// What running one tool gave. A failed run carries the reason in `error`.
#[derive(Clone, Debug, PartialEq)]
pub struct ToolResult {
    pub success: bool,
    pub result: serde_json::Value,
    pub error: Option<String>,
}

/// The content of a [`ToolResult`], with the result as compact JSON.
pub struct ToolResultView {
    pub success: bool,
    pub result: Seq<char>,
    pub error: Option<Seq<char>>,
}

impl View for ToolResult {
    type V = ToolResultView;

    open spec fn view(&self) -> ToolResultView {
        ToolResultView {
            success: self.success,
            result: json_text(self.result),
            error: match self.error {
                Some(e) => Some(e@),
                None => None,
            },
        }
    }
}

/// The arithmetic tools.
#[derive(Clone, Copy, Debug, PartialEq, Eq, Structural)]
pub enum MathOp {
    Add,
    Subtract,
    Multiply,
    Divide,
    Power,
    Sqrt,
}

/// The tools by what they do.
#[derive(Clone, Copy, Debug, PartialEq, Eq, Structural)]
pub enum ToolKind {
    Math(MathOp),
    GetConversationSummary,
    SearchConversation,
    SendMessage,
    GetUserConversations,
    GetConversationStats,
    ListAllConversations,
    FindUser,
}

impl MathOp {
    /// The name under which the catalogue offers the operation.
    pub open spec fn name(self) -> Seq<char> {
        match self {
            MathOp::Add => "add"@,
            MathOp::Subtract => "subtract"@,
            MathOp::Multiply => "multiply"@,
            MathOp::Divide => "divide"@,
            MathOp::Power => "power"@,
            MathOp::Sqrt => "sqrt"@,
        }
    }

    /// Returns the name under which the catalogue offers the operation.
    pub fn as_str(&self) -> (name: &'static str)
        ensures
            name@ == self.name(),
    {
        match self {
            MathOp::Add => "add",
            MathOp::Subtract => "subtract",
            MathOp::Multiply => "multiply",
            MathOp::Divide => "divide",
            MathOp::Power => "power",
            MathOp::Sqrt => "sqrt",
        }
    }
}

/// The tool that goes by `name`, if there is one.
pub open spec fn kind_of(name: Seq<char>) -> Option<ToolKind> {
    if name == "add"@ {
        Some(ToolKind::Math(MathOp::Add))
    } else if name == "subtract"@ {
        Some(ToolKind::Math(MathOp::Subtract))
    } else if name == "multiply"@ {
        Some(ToolKind::Math(MathOp::Multiply))
    } else if name == "divide"@ {
        Some(ToolKind::Math(MathOp::Divide))
    } else if name == "power"@ {
        Some(ToolKind::Math(MathOp::Power))
    } else if name == "sqrt"@ {
        Some(ToolKind::Math(MathOp::Sqrt))
    } else if name == "get_conversation_summary"@ {
        Some(ToolKind::GetConversationSummary)
    } else if name == "search_conversation"@ {
        Some(ToolKind::SearchConversation)
    } else if name == "send_message"@ {
        Some(ToolKind::SendMessage)
    } else if name == "get_user_conversations"@ {
        Some(ToolKind::GetUserConversations)
    } else if name == "get_conversation_stats"@ {
        Some(ToolKind::GetConversationStats)
    } else if name == "list_all_conversations"@ {
        Some(ToolKind::ListAllConversations)
    } else if name == "find_user"@ {
        Some(ToolKind::FindUser)
    } else {
        None
    }
}

/// Finds the tool that a call names.
pub fn tool_kind(name: &str) -> (kind: Option<ToolKind>)
    ensures
        kind == kind_of(name@),
{
    if same_text(name, "add") {
        Some(ToolKind::Math(MathOp::Add))
    } else if same_text(name, "subtract") {
        Some(ToolKind::Math(MathOp::Subtract))
    } else if same_text(name, "multiply") {
        Some(ToolKind::Math(MathOp::Multiply))
    } else if same_text(name, "divide") {
        Some(ToolKind::Math(MathOp::Divide))
    } else if same_text(name, "power") {
        Some(ToolKind::Math(MathOp::Power))
    } else if same_text(name, "sqrt") {
        Some(ToolKind::Math(MathOp::Sqrt))
    } else if same_text(name, "get_conversation_summary") {
        Some(ToolKind::GetConversationSummary)
    } else if same_text(name, "search_conversation") {
        Some(ToolKind::SearchConversation)
    } else if same_text(name, "send_message") {
        Some(ToolKind::SendMessage)
    } else if same_text(name, "get_user_conversations") {
        Some(ToolKind::GetUserConversations)
    } else if same_text(name, "get_conversation_stats") {
        Some(ToolKind::GetConversationStats)
    } else if same_text(name, "list_all_conversations") {
        Some(ToolKind::ListAllConversations)
    } else if same_text(name, "find_user") {
        Some(ToolKind::FindUser)
    } else {
        None
    }
}

/// Every tool that the catalogue offers is one that a call can name.
pub proof fn lemma_catalogue_is_served(i: int)
    requires
        0 <= i < catalogue().len(),
    ensures
        kind_of(catalogue()[i].name) is Some,
{
}

impl ToolResult {
    /// The result of a run that worked.
    pub fn succeeded(result: serde_json::Value) -> (outcome: ToolResult)
        ensures
            outcome@ == (ToolResultView {
                success: true,
                result: json_text(result),
                error: None,
            }),
    {
        ToolResult { success: true, result, error: None }
    }

    /// The result of a run that failed for the given reason: no value, and
    /// the reason as the error.
    pub fn failed(reason: String) -> (outcome: ToolResult)
        ensures
            outcome@ == (ToolResultView {
                success: false,
                result: "null"@,
                error: Some(reason@),
            }),
    {
        ToolResult { success: false, result: json_null(), error: Some(reason) }
    }
}

impl ToolResultView {
    /// A failed run says why it failed.
    pub open spec fn explained(self) -> bool {
        self.success || self.error is Some
    }
}

/// The line that reports the outcome of tool `name` to the model.
pub open spec fn outcome_line(name: Seq<char>, outcome: ToolResultView) -> Seq<char> {
    if outcome.success {
        "Tool '"@ + name + "' returned: "@ + outcome.result
    } else {
        "Tool '"@ + name + "' error: "@ + outcome.error.unwrap()
    }
}

/// `lines` with a line feed between each two neighbours.
pub open spec fn joined(lines: Seq<Seq<char>>) -> Seq<char>
    decreases lines.len(),
{
    if lines.len() == 0 {
        Seq::empty()
    } else if lines.len() == 1 {
        lines[0]
    } else {
        joined(lines.drop_last()) + "\n"@ + lines.last()
    }
}

/// The transcript entry that reports all outcomes of one round to the model.
pub open spec fn results_entry(lines: Seq<Seq<char>>) -> Seq<char> {
    "<tool_results>\n"@ + joined(lines) + "\n</tool_results>"@
}

/// Writes the line that reports the outcome of tool `name` to the model.
pub fn describe_outcome(name: &str, outcome: &ToolResult) -> (line: String)
    requires
        outcome@.explained(),
    ensures
        line@ == outcome_line(name@, outcome@),
{
    let mut line = String::from_str("Tool '");
    line.append(name);
    if outcome.success {
        line.append("' returned: ");
        let text = render(&outcome.result);
        line.append(text.as_str());
    } else {
        line.append("' error: ");
        match &outcome.error {
            Some(reason) => line.append(reason.as_str()),
            None => {},
        }
    }
    line
}

/// Writes the transcript entry that reports all outcomes of one round.
pub fn format_results(lines: &Vec<String>) -> (entry: String)
    ensures
        entry@ == results_entry(lines@.map_values(|l: String| l@)),
{
    let ghost all = lines@.map_values(|l: String| l@);
    let mut body = String::new();
    let mut i: usize = 0;
    while i < lines.len()
        invariant
            i <= lines.len(),
            all == lines@.map_values(|l: String| l@),
            body@ == joined(all.take(i as int)),
        decreases lines.len() - i,
    {
        proof {
            assert(all.take(i + 1).drop_last() =~= all.take(i as int));
            assert(all.take(i + 1).last() == lines[i as int]@);
            if i == 0 {
                assert(all.take(0).len() == 0);
                assert(all.take(1)[0] == lines[0]@);
            }
        }
        if i > 0 {
            body.append("\n");
        }
        body.append(lines[i].as_str());
        i += 1;
    }
    assert(all.take(i as int) =~= all);
    let mut entry = String::from_str("<tool_results>\n");
    entry.append(body.as_str());
    entry.append("\n</tool_results>");
    entry
}

/// Each line occurs in the lines joined.
pub proof fn lemma_line_occurs_in_joined(lines: Seq<Seq<char>>, i: int)
    requires
        0 <= i < lines.len(),
    ensures
        occurs_in(lines[i], joined(lines)),
    decreases lines.len(),
{
    if lines.len() == 1 {
        lemma_occurs_in_the_middle(Seq::empty(), lines[0], Seq::empty());
        assert(Seq::<char>::empty() + lines[0] + Seq::<char>::empty() =~= lines[0]);
    } else if i == lines.len() - 1 {
        lemma_occurs_in_the_middle(joined(lines.drop_last()) + "\n"@, lines.last(), Seq::empty());
        assert(joined(lines.drop_last()) + "\n"@ + lines.last() + Seq::<char>::empty() =~= joined(
            lines,
        ));
    } else {
        lemma_line_occurs_in_joined(lines.drop_last(), i);
        lemma_occurs_in_the_middle(Seq::empty(), joined(lines.drop_last()), "\n"@ + lines.last());
        assert(Seq::<char>::empty() + joined(lines.drop_last()) + ("\n"@ + lines.last()) =~= joined(
            lines,
        ));
        lemma_occurs_in_chain(lines[i], joined(lines.drop_last()), joined(lines));
    }
}

/// The reason of a failed run occurs in the transcript entry that reports
/// the round to the model.
pub proof fn lemma_failure_is_reported(
    lines: Seq<Seq<char>>,
    i: int,
    name: Seq<char>,
    outcome: ToolResultView,
)
    requires
        0 <= i < lines.len(),
        lines[i] == outcome_line(name, outcome),
        !outcome.success,
        outcome.error is Some,
    ensures
        occurs_in(outcome.error.unwrap(), results_entry(lines)),
{
    let reason = outcome.error.unwrap();
    lemma_occurs_in_the_middle("Tool '"@ + name + "' error: "@, reason, Seq::empty());
    assert("Tool '"@ + name + "' error: "@ + reason + Seq::<char>::empty() =~= lines[i]);
    lemma_line_occurs_in_joined(lines, i);
    lemma_occurs_in_chain(reason, lines[i], joined(lines));
    lemma_occurs_in_the_middle("<tool_results>\n"@, joined(lines), "\n</tool_results>"@);
    lemma_occurs_in_chain(reason, joined(lines), results_entry(lines));
}

} // verus!
