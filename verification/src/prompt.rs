//! The rendering of the tool catalogue as instructions for the model.

use vstd::prelude::*;
use vstd::string::StringExecFns;
use crate::tools::{catalogue, get_available_tools, tool_views, Parameter, ParameterView, Tool, ToolView};

verus! {

/// The sentence that opens the tool instructions.
pub open spec fn prompt_header() -> Seq<char> {
    "\n\nYou have access to the following tools:\n\n"@
}

/// The three sentences that close the tool instructions.
pub open spec fn prompt_footer() -> Seq<char> {
    "To use a tool, respond with: <tool_request>[{\"name\": \"tool_name\", \"arguments\": {\"param\": value}}]</tool_request>\n"@
        + "You can call multiple tools by including multiple objects in the array.\n"@
        + "After receiving tool results, provide your final answer to the user.\n"@
}

/// The line that describes one parameter.
pub open spec fn parameter_line(p: ParameterView) -> Seq<char> {
    "  - "@ + p.name + " ("@ + p.param_type + "): "@ + p.description + "\n"@
}

/// The lines that describe the parameters `ps`, in order.
pub open spec fn parameter_lines(ps: Seq<ParameterView>) -> Seq<char>
    decreases ps.len(),
{
    if ps.len() == 0 {
        Seq::empty()
    } else {
        parameter_lines(ps.drop_last()) + parameter_line(ps.last())
    }
}

/// The block that describes one tool, closed by an empty line.
pub open spec fn tool_block(t: ToolView) -> Seq<char> {
    "Tool: "@ + t.name + "\n"@ + "Description: "@ + t.description + "\n"@ + "Parameters:\n"@
        + parameter_lines(t.parameters) + "\n"@
}

/// The blocks that describe the tools `ts`, in order.
pub open spec fn tool_blocks(ts: Seq<ToolView>) -> Seq<char>
    decreases ts.len(),
{
    if ts.len() == 0 {
        Seq::empty()
    } else {
        tool_blocks(ts.drop_last()) + tool_block(ts.last())
    }
}

/// The tool instructions for the tools `ts`.
pub open spec fn tools_prompt(ts: Seq<ToolView>) -> Seq<char> {
    prompt_header() + tool_blocks(ts) + prompt_footer()
}

fn append_parameters(text: &mut String, parameters: &Vec<Parameter>)
    ensures
        final(text)@ == old(text)@ + parameter_lines(parameters@.map_values(|p: Parameter| p@)),
{
    let ghost all = parameters@.map_values(|p: Parameter| p@);
    let ghost start = text@;
    let mut i: usize = 0;
    assert(start + parameter_lines(all.take(0)) =~= start);
    while i < parameters.len()
        invariant
            i <= parameters.len(),
            all == parameters@.map_values(|p: Parameter| p@),
            text@ == start + parameter_lines(all.take(i as int)),
        decreases parameters.len() - i,
    {
        let p = &parameters[i];
        proof {
            assert(all.take(i + 1).drop_last() =~= all.take(i as int));
            assert(all.take(i + 1).last() == p@);
        }
        let ghost before = text@;
        text.append("  - ");
        text.append(p.name.as_str());
        text.append(" (");
        text.append(p.param_type.as_str());
        text.append("): ");
        text.append(p.description.as_str());
        text.append("\n");
        assert(text@ =~= before + parameter_line(p@));
        assert(text@ =~= start + parameter_lines(all.take(i + 1)));
        i += 1;
    }
    assert(all.take(i as int) =~= all);
}

fn append_tool(text: &mut String, tool: &Tool)
    ensures
        final(text)@ == old(text)@ + tool_block(tool@),
{
    let ghost start = text@;
    text.append("Tool: ");
    text.append(tool.name.as_str());
    text.append("\n");
    text.append("Description: ");
    text.append(tool.description.as_str());
    text.append("\n");
    text.append("Parameters:\n");
    append_parameters(text, &tool.parameters);
    text.append("\n");
    assert(text@ =~= start + tool_block(tool@));
}

/// Renders the given tools as instructions for the model.
pub fn format_tools(tools: &Vec<Tool>) -> (text: String)
    ensures
        text@ == tools_prompt(tool_views(tools@)),
{
    let ghost all = tool_views(tools@);
    let mut text = String::from_str("\n\nYou have access to the following tools:\n\n");
    let mut i: usize = 0;
    assert(prompt_header() + tool_blocks(all.take(0)) =~= prompt_header());
    while i < tools.len()
        invariant
            i <= tools.len(),
            all == tool_views(tools@),
            text@ == prompt_header() + tool_blocks(all.take(i as int)),
        decreases tools.len() - i,
    {
        proof {
            assert(all.take(i + 1).drop_last() =~= all.take(i as int));
            assert(all.take(i + 1).last() == tools[i as int]@);
        }
        append_tool(&mut text, &tools[i]);
        assert(text@ =~= prompt_header() + tool_blocks(all.take(i + 1)));
        i += 1;
    }
    assert(all.take(i as int) =~= all);
    text.append(
        "To use a tool, respond with: <tool_request>[{\"name\": \"tool_name\", \"arguments\": {\"param\": value}}]</tool_request>\n",
    );
    text.append("You can call multiple tools by including multiple objects in the array.\n");
    text.append("After receiving tool results, provide your final answer to the user.\n");
    assert(text@ =~= tools_prompt(all));
    text
}

/// The system instructions: who the assistant is, the tool instructions for
/// the tools `ts`, and when to use them.
pub open spec fn system_instructions(ts: Seq<ToolView>) -> Seq<char> {
    "You are a helpful AI assistant with access to mathematical tools."@ + tools_prompt(ts)
        + "\n\nWhen users ask mathematical questions that require calculations, you should use the appropriate tools. After using tools and receiving results, provide a clear answer to the user."@
}

/// Writes the system instructions with which every conversation begins.
pub fn system_prompt() -> (text: String)
    ensures
        text@ == system_instructions(catalogue()),
{
    let mut text = String::from_str(
        "You are a helpful AI assistant with access to mathematical tools.",
    );
    let tools = format_tools_for_prompt();
    text.append(tools.as_str());
    text.append(
        "\n\nWhen users ask mathematical questions that require calculations, you should use the appropriate tools. After using tools and receiving results, provide a clear answer to the user.",
    );
    text
}

/// Renders the whole catalogue as instructions for the model.
pub fn format_tools_for_prompt() -> (text: String)
    ensures
        text@ == tools_prompt(catalogue()),
{
    let tools = get_available_tools();
    format_tools(&tools)
}

} // verus!
