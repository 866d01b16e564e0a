use chat_relay::tools::{tool_kind, MathOp, ToolKind, ToolResult};
use chat_relay::transcript::{Role, Transcript, TranscriptEntry};

#[test]
fn roles_have_wire_names() {
    assert_eq!(Role::System.as_str(), "system");
    assert_eq!(Role::User.as_str(), "user");
    assert_eq!(Role::Assistant.as_str(), "assistant");
    assert_eq!(Role::Tool.as_str(), "tool");
}

#[test]
fn roles_are_found_by_their_wire_names() {
    for role in [Role::System, Role::User, Role::Assistant, Role::Tool] {
        assert_eq!(Role::from_name(role.as_str()), Some(role));
    }
    assert_eq!(Role::from_name("System"), None);
    assert_eq!(Role::from_name(""), None);
    assert_eq!(Role::from_name("function"), None);
}

#[test]
fn transcript_starts_with_the_system_entry_and_only_grows() {
    let mut t = Transcript::new("rules".to_string());
    assert_eq!(t.len(), 1);
    assert_eq!(t.get(0), &TranscriptEntry { role: Role::System, content: "rules".to_string() });
    t.append(Role::User, "hi".to_string());
    t.append(Role::Assistant, "hello".to_string());
    assert_eq!(t.len(), 3);
    assert_eq!(
        t.snapshot(),
        vec![
            TranscriptEntry { role: Role::System, content: "rules".to_string() },
            TranscriptEntry { role: Role::User, content: "hi".to_string() },
            TranscriptEntry { role: Role::Assistant, content: "hello".to_string() },
        ]
    );
}

#[test]
fn tool_names_select_their_kind() {
    assert_eq!(tool_kind("add"), Some(ToolKind::Math(MathOp::Add)));
    assert_eq!(tool_kind("subtract"), Some(ToolKind::Math(MathOp::Subtract)));
    assert_eq!(tool_kind("multiply"), Some(ToolKind::Math(MathOp::Multiply)));
    assert_eq!(tool_kind("divide"), Some(ToolKind::Math(MathOp::Divide)));
    assert_eq!(tool_kind("power"), Some(ToolKind::Math(MathOp::Power)));
    assert_eq!(tool_kind("sqrt"), Some(ToolKind::Math(MathOp::Sqrt)));
    assert_eq!(tool_kind("get_conversation_summary"), Some(ToolKind::GetConversationSummary));
    assert_eq!(tool_kind("search_conversation"), Some(ToolKind::SearchConversation));
    assert_eq!(tool_kind("send_message"), Some(ToolKind::SendMessage));
    assert_eq!(tool_kind("get_user_conversations"), Some(ToolKind::GetUserConversations));
    assert_eq!(tool_kind("get_conversation_stats"), Some(ToolKind::GetConversationStats));
    assert_eq!(tool_kind("list_all_conversations"), Some(ToolKind::ListAllConversations));
    assert_eq!(tool_kind("find_user"), Some(ToolKind::FindUser));
    assert_eq!(tool_kind("Add"), None);
    assert_eq!(tool_kind(""), None);
    assert_eq!(tool_kind("add "), None);
}

#[test]
fn operations_have_catalogue_names() {
    assert_eq!(MathOp::Add.as_str(), "add");
    assert_eq!(MathOp::Subtract.as_str(), "subtract");
    assert_eq!(MathOp::Multiply.as_str(), "multiply");
    assert_eq!(MathOp::Divide.as_str(), "divide");
    assert_eq!(MathOp::Power.as_str(), "power");
    assert_eq!(MathOp::Sqrt.as_str(), "sqrt");
}

#[test]
fn result_constructors_fill_the_fields() {
    assert_eq!(
        ToolResult::succeeded(serde_json::Value::from(1.5)),
        ToolResult { success: true, result: serde_json::Value::from(1.5), error: None }
    );
    assert_eq!(
        ToolResult::failed("Division by zero".to_string()),
        ToolResult {
            success: false,
            result: serde_json::Value::Null,
            error: Some("Division by zero".to_string()),
        }
    );
}
