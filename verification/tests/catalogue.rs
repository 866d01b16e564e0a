use chat_relay::prompt::{format_tools, format_tools_for_prompt, system_prompt};
use chat_relay::tools::{
    describe_outcome, format_results, get_available_tools, Parameter, Tool, ToolResult,
};

#[test]
fn catalogue_lists_thirteen_tools_in_order() {
    let tools = get_available_tools();
    let names: Vec<&str> = tools.iter().map(|t| t.name.as_str()).collect();
    assert_eq!(
        names,
        vec![
            "add",
            "subtract",
            "multiply",
            "divide",
            "power",
            "sqrt",
            "get_conversation_summary",
            "search_conversation",
            "send_message",
            "get_user_conversations",
            "get_conversation_stats",
            "list_all_conversations",
            "find_user",
        ]
    );
}

#[test]
fn catalogue_entries_carry_their_texts() {
    let tools = get_available_tools();
    assert_eq!(
        tools[3],
        Tool {
            name: "divide".to_string(),
            description: "Divide first number by second number".to_string(),
            parameters: vec![
                Parameter {
                    name: "a".to_string(),
                    param_type: "number".to_string(),
                    description: "Numerator".to_string(),
                },
                Parameter {
                    name: "b".to_string(),
                    param_type: "number".to_string(),
                    description: "Denominator".to_string(),
                },
            ],
        }
    );
    assert_eq!(tools[8].parameters.len(), 3);
    assert_eq!(tools[8].parameters[1].param_type, "string");
    assert!(tools[11].parameters.is_empty());
    assert_eq!(tools[12].parameters[0].description, "Username or email to search for");
}

#[test]
fn prompt_of_a_small_catalogue_is_exact() {
    let tools = vec![
        Tool {
            name: "sqrt".to_string(),
            description: "Square root".to_string(),
            parameters: vec![Parameter {
                name: "value".to_string(),
                param_type: "number".to_string(),
                description: "The number".to_string(),
            }],
        },
        Tool { name: "ping".to_string(), description: "Ping".to_string(), parameters: vec![] },
    ];
    let expected = "\n\nYou have access to the following tools:\n\n\
Tool: sqrt\nDescription: Square root\nParameters:\n  - value (number): The number\n\n\
Tool: ping\nDescription: Ping\nParameters:\n\n\
To use a tool, respond with: <tool_request>[{\"name\": \"tool_name\", \"arguments\": {\"param\": value}}]</tool_request>\n\
You can call multiple tools by including multiple objects in the array.\n\
After receiving tool results, provide your final answer to the user.\n";
    assert_eq!(format_tools(&tools), expected);
}

#[test]
fn prompt_of_no_tools_is_header_and_footer() {
    let expected = "\n\nYou have access to the following tools:\n\n\
To use a tool, respond with: <tool_request>[{\"name\": \"tool_name\", \"arguments\": {\"param\": value}}]</tool_request>\n\
You can call multiple tools by including multiple objects in the array.\n\
After receiving tool results, provide your final answer to the user.\n";
    assert_eq!(format_tools(&vec![]), expected);
}

#[test]
fn prompt_of_the_catalogue_describes_every_tool() {
    let text = format_tools_for_prompt();
    assert!(text.starts_with(
        "\n\nYou have access to the following tools:\n\nTool: add\nDescription: Add two numbers together\nParameters:\n  - a (number): First number\n  - b (number): Second number\n\nTool: subtract\n"
    ));
    assert!(text.contains(
        "Tool: list_all_conversations\nDescription: List all conversations in the database\nParameters:\n\nTool: find_user\n"
    ));
    assert!(text.ends_with("After receiving tool results, provide your final answer to the user.\n"));
    assert_eq!(text.matches("Tool: ").count(), 13);
    assert_eq!(text, format_tools(&get_available_tools()));
}

#[test]
fn outcome_lines_are_exact() {
    let ok = ToolResult { success: true, result: serde_json::Value::from(5.0), error: None };
    assert_eq!(describe_outcome("add", &ok), "Tool 'add' returned: 5.0");
    let text = ToolResult {
        success: true,
        result: serde_json::from_str("{\"found\":1,\"users\":[\"ann\"]}").unwrap(),
        error: Some("ignored".to_string()),
    };
    assert_eq!(
        describe_outcome("find_user", &text),
        "Tool 'find_user' returned: {\"found\":1,\"users\":[\"ann\"]}"
    );
    let failed = ToolResult {
        success: false,
        result: serde_json::Value::Null,
        error: Some("Division by zero".to_string()),
    };
    assert_eq!(describe_outcome("divide", &failed), "Tool 'divide' error: Division by zero");
}

#[test]
fn results_entry_joins_lines_with_line_feeds() {
    assert_eq!(format_results(&vec![]), "<tool_results>\n\n</tool_results>");
    assert_eq!(format_results(&vec!["one".to_string()]), "<tool_results>\none\n</tool_results>");
    assert_eq!(
        format_results(&vec!["one".to_string(), "two".to_string(), "three".to_string()]),
        "<tool_results>\none\ntwo\nthree\n</tool_results>"
    );
}

#[test]
fn system_prompt_wraps_the_tool_instructions() {
    let expected = format!(
        "You are a helpful AI assistant with access to mathematical tools.{}\n\nWhen users ask mathematical questions that require calculations, you should use the appropriate tools. After using tools and receiving results, provide a clear answer to the user.",
        format_tools_for_prompt()
    );
    assert_eq!(system_prompt(), expected);
}
