use chat_relay::events::ViewerEvent;
use chat_relay::tools::{ToolCall, ToolResult};
use chat_relay::transcript::{Role, TranscriptEntry};
use chat_relay::turn::{
    Directive, Phase, TurnInput, TurnOrchestrator, TurnOutput, DEFAULT_MAX_ROUNDS,
};

fn json(text: &str) -> serde_json::Value {
    serde_json::from_str(text).unwrap()
}

fn entry(role: Role, content: &str) -> TranscriptEntry {
    TranscriptEntry { role, content: content.to_string() }
}

fn call(name: &str, arguments: &str) -> ToolCall {
    ToolCall { name: name.to_string(), arguments: json(arguments) }
}

fn number(value: f64) -> ToolResult {
    ToolResult { success: true, result: serde_json::Value::from(value), error: None }
}

fn failure(reason: &str) -> ToolResult {
    ToolResult { success: false, result: serde_json::Value::Null, error: Some(reason.to_string()) }
}

fn machine(cap: usize) -> TurnOrchestrator {
    TurnOrchestrator::new("You are helpful.".to_string(), cap)
}

const TWO_TOOLS: &str = "<tool_request>[{\"name\":\"divide\",\"arguments\":{\"a\":9,\"b\":0}},{\"name\":\"add\",\"arguments\":{\"a\":2,\"b\":3}}]</tool_request>";

const ONE_TOOL: &str = "<tool_request>[{\"name\":\"add\",\"arguments\":{\"a\":1,\"b\":1}}]</tool_request>";

#[test]
fn new_machine_waits_for_a_user() {
    let m = machine(5);
    assert_eq!(m.phase(), Phase::AwaitingUser);
    assert_eq!(m.max_rounds(), 5);
    assert_eq!(m.rounds(), 0);
    assert_eq!(m.transcript().snapshot(), vec![entry(Role::System, "You are helpful.")]);
}

#[test]
fn user_message_starts_a_turn() {
    let mut m = machine(5);
    let out = m.step(TurnInput::UserMessage("hi".to_string()));
    assert_eq!(
        out,
        TurnOutput {
            events: vec![ViewerEvent::Start],
            directive: Directive::CallModel(vec![
                entry(Role::System, "You are helpful."),
                entry(Role::User, "hi"),
            ]),
        }
    );
    assert_eq!(m.phase(), Phase::Streaming);
    assert_eq!(m.rounds(), 1);
}

#[test]
fn plain_answer_is_streamed_and_ends_the_turn() {
    let mut m = machine(5);
    m.step(TurnInput::UserMessage("hi".to_string()));
    let first = m.step(TurnInput::Fragment("Hel".to_string()));
    assert_eq!(
        first,
        TurnOutput {
            events: vec![ViewerEvent::Chunk { content: "Hel".to_string() }],
            directive: Directive::AwaitFragment,
        }
    );
    let second = m.step(TurnInput::Fragment("lo".to_string()));
    assert_eq!(second.events, vec![ViewerEvent::Chunk { content: "lo".to_string() }]);
    let end = m.step(TurnInput::StreamEnd);
    assert_eq!(end, TurnOutput { events: vec![ViewerEvent::End], directive: Directive::AwaitUser });
    assert_eq!(m.phase(), Phase::AwaitingUser);
    assert_eq!(
        m.transcript().snapshot(),
        vec![
            entry(Role::System, "You are helpful."),
            entry(Role::User, "hi"),
            entry(Role::Assistant, "Hello"),
        ]
    );
}

#[test]
fn division_by_zero_then_addition_scenario() {
    let mut m = machine(5);
    let out = m.step(TurnInput::UserMessage("what is 9 divided by 0 then add 2 and 3?".to_string()));
    assert_eq!(out.events, vec![ViewerEvent::Start]);

    let hidden = m.step(TurnInput::Fragment(TWO_TOOLS.to_string()));
    assert_eq!(hidden, TurnOutput { events: vec![], directive: Directive::AwaitFragment });

    let announced = m.step(TurnInput::StreamEnd);
    assert_eq!(
        announced,
        TurnOutput {
            events: vec![ViewerEvent::ToolStart {
                tools: vec!["divide".to_string(), "add".to_string()],
            }],
            directive: Directive::Execute(call("divide", "{\"a\":9,\"b\":0}")),
        }
    );
    assert_eq!(m.phase(), Phase::ToolDispatch);

    let divided = m.step(TurnInput::ToolOutcome(failure("Division by zero")));
    assert_eq!(
        divided,
        TurnOutput {
            events: vec![ViewerEvent::ToolResult {
                tool: "divide".to_string(),
                result: serde_json::Value::Null,
                success: false,
            }],
            directive: Directive::Execute(call("add", "{\"a\":2,\"b\":3}")),
        }
    );
    assert_eq!(m.phase(), Phase::ToolDispatch);

    let added = m.step(TurnInput::ToolOutcome(number(5.0)));
    let context = vec![
        entry(Role::System, "You are helpful."),
        entry(Role::User, "what is 9 divided by 0 then add 2 and 3?"),
        entry(Role::Assistant, TWO_TOOLS),
        entry(
            Role::Tool,
            "<tool_results>\nTool 'divide' error: Division by zero\nTool 'add' returned: 5.0\n</tool_results>",
        ),
    ];
    assert_eq!(
        added,
        TurnOutput {
            events: vec![
                ViewerEvent::ToolResult {
                    tool: "add".to_string(),
                    result: serde_json::Value::from(5.0),
                    success: true,
                },
                ViewerEvent::Start,
            ],
            directive: Directive::CallModel(context.clone()),
        }
    );
    assert_eq!(m.phase(), Phase::Streaming);
    assert_eq!(m.rounds(), 2);

    let shown = m.step(TurnInput::Fragment("Dividing by zero is undefined; 2 + 3 = 5.".to_string()));
    assert_eq!(
        shown.events,
        vec![ViewerEvent::Chunk { content: "Dividing by zero is undefined; 2 + 3 = 5.".to_string() }]
    );
    let end = m.step(TurnInput::StreamEnd);
    assert_eq!(end, TurnOutput { events: vec![ViewerEvent::End], directive: Directive::AwaitUser });
    assert_eq!(m.phase(), Phase::AwaitingUser);

    let mut whole = context;
    whole.push(entry(Role::Assistant, "Dividing by zero is undefined; 2 + 3 = 5."));
    assert_eq!(m.transcript().snapshot(), whole);
}

#[test]
fn model_that_always_asks_for_tools_is_cut_off_at_the_cap() {
    assert_eq!(DEFAULT_MAX_ROUNDS, 5);
    let mut m = machine(DEFAULT_MAX_ROUNDS);
    let mut calls = 0;
    let mut out = m.step(TurnInput::UserMessage("loop".to_string()));
    let mut steps = 0;
    while out.directive != Directive::AwaitUser {
        steps += 1;
        assert!(steps < 100);
        out = match out.directive {
            Directive::CallModel(_) => {
                calls += 1;
                m.step(TurnInput::Fragment(ONE_TOOL.to_string()));
                m.step(TurnInput::StreamEnd)
            }
            Directive::Execute(_) => m.step(TurnInput::ToolOutcome(number(2.0))),
            _ => unreachable!(),
        };
    }
    assert_eq!(calls, 5);
    assert_eq!(
        out.events,
        vec![
            ViewerEvent::ToolResult {
                tool: "add".to_string(),
                result: serde_json::Value::from(2.0),
                success: true,
            },
            ViewerEvent::End,
        ]
    );
    assert_eq!(m.phase(), Phase::AwaitingUser);
    assert_eq!(m.transcript().len(), 2 + 2 * 5);
    assert_eq!(m.transcript().get(11).role, Role::Tool);
}

#[test]
fn cap_of_one_allows_one_model_call() {
    let mut m = machine(1);
    m.step(TurnInput::UserMessage("x".to_string()));
    m.step(TurnInput::Fragment(ONE_TOOL.to_string()));
    let announced = m.step(TurnInput::StreamEnd);
    assert_eq!(announced.directive, Directive::Execute(call("add", "{\"a\":1,\"b\":1}")));
    let out = m.step(TurnInput::ToolOutcome(number(2.0)));
    assert_eq!(out.directive, Directive::AwaitUser);
    assert_eq!(out.events.last(), Some(&ViewerEvent::End));
}

#[test]
fn cap_of_zero_ends_the_turn_at_once() {
    let mut m = machine(0);
    let out = m.step(TurnInput::UserMessage("x".to_string()));
    assert_eq!(
        out,
        TurnOutput {
            events: vec![ViewerEvent::Start, ViewerEvent::End],
            directive: Directive::AwaitUser,
        }
    );
    assert_eq!(m.phase(), Phase::AwaitingUser);
    assert_eq!(m.transcript().len(), 2);
}

#[test]
fn empty_request_closes_the_round_without_running_a_tool() {
    let mut m = machine(5);
    m.step(TurnInput::UserMessage("x".to_string()));
    m.step(TurnInput::Fragment("<tool_request>[]</tool_request>".to_string()));
    let out = m.step(TurnInput::StreamEnd);
    assert_eq!(
        out.events,
        vec![ViewerEvent::ToolStart { tools: vec![] }, ViewerEvent::Start]
    );
    assert_eq!(m.phase(), Phase::Streaming);
    assert_eq!(m.rounds(), 2);
    assert_eq!(m.transcript().get(3), &entry(Role::Tool, "<tool_results>\n\n</tool_results>"));
}

#[test]
fn broken_stream_ends_the_turn_without_an_end_event() {
    let mut m = machine(5);
    m.step(TurnInput::UserMessage("x".to_string()));
    m.step(TurnInput::Fragment("partial".to_string()));
    let out = m.step(TurnInput::StreamFailed);
    assert_eq!(out, TurnOutput { events: vec![], directive: Directive::AwaitUser });
    assert_eq!(m.phase(), Phase::AwaitingUser);
    assert_eq!(
        m.transcript().snapshot(),
        vec![entry(Role::System, "You are helpful."), entry(Role::User, "x")]
    );
    let again = m.step(TurnInput::UserMessage("y".to_string()));
    assert_eq!(again.events, vec![ViewerEvent::Start]);
    assert_eq!(m.rounds(), 1);
}

#[test]
fn input_out_of_place_changes_nothing() {
    let mut m = machine(5);
    let idle = m.step(TurnInput::Fragment("stray".to_string()));
    assert_eq!(idle, TurnOutput { events: vec![], directive: Directive::AwaitUser });
    assert_eq!(m.step(TurnInput::StreamEnd).directive, Directive::AwaitUser);
    assert_eq!(m.step(TurnInput::ToolOutcome(number(1.0))).directive, Directive::AwaitUser);
    assert_eq!(m.transcript().len(), 1);

    m.step(TurnInput::UserMessage("x".to_string()));
    let second = m.step(TurnInput::UserMessage("meanwhile".to_string()));
    assert_eq!(second, TurnOutput { events: vec![], directive: Directive::AwaitFragment });
    assert_eq!(m.transcript().len(), 2);

    m.step(TurnInput::Fragment(ONE_TOOL.to_string()));
    m.step(TurnInput::StreamEnd);
    let waiting = m.step(TurnInput::Fragment("late".to_string()));
    assert_eq!(
        waiting,
        TurnOutput {
            events: vec![],
            directive: Directive::Execute(call("add", "{\"a\":1,\"b\":1}")),
        }
    );
    assert_eq!(m.conclude_answer(None).directive, Directive::Execute(call("add", "{\"a\":1,\"b\":1}")));
    assert_eq!(m.phase(), Phase::ToolDispatch);
}

#[test]
fn conclude_answer_takes_given_invocations() {
    let mut m = machine(5);
    m.step(TurnInput::UserMessage("x".to_string()));
    m.step(TurnInput::Fragment("raw text".to_string()));
    let found = vec![
        chat_relay::extract::CustomToolRequest { name: "sqrt".to_string(), arguments: json("{\"value\":4}") },
        chat_relay::extract::CustomToolRequest { name: "power".to_string(), arguments: json("{}") },
    ];
    let out = m.conclude_answer(Some(found));
    assert_eq!(
        out,
        TurnOutput {
            events: vec![ViewerEvent::ToolStart {
                tools: vec!["sqrt".to_string(), "power".to_string()],
            }],
            directive: Directive::Execute(call("sqrt", "{\"value\":4}")),
        }
    );
    assert_eq!(m.transcript().get(2), &entry(Role::Assistant, "raw text"));
}

#[test]
fn tools_run_and_report_in_the_order_requested() {
    let mut m = machine(5);
    m.step(TurnInput::UserMessage("x".to_string()));
    m.step(TurnInput::Fragment(
        "<tool_request>[{\"name\":\"c\",\"arguments\":{}},{\"name\":\"a\",\"arguments\":{}},{\"name\":\"b\",\"arguments\":{}}]</tool_request>".to_string(),
    ));
    let mut out = m.step(TurnInput::StreamEnd);
    let mut executed = Vec::new();
    let mut reported = Vec::new();
    let mut value = 0.0;
    while let Directive::Execute(next) = out.directive {
        executed.push(next.name.clone());
        value += 1.0;
        out = m.step(TurnInput::ToolOutcome(number(value)));
        match &out.events[0] {
            ViewerEvent::ToolResult { tool, result, success } => {
                assert!(*success);
                assert_eq!(*result, serde_json::Value::from(value));
                reported.push(tool.clone());
            }
            other => panic!("unexpected event {:?}", other),
        }
    }
    assert_eq!(executed, vec!["c", "a", "b"]);
    assert_eq!(reported, vec!["c", "a", "b"]);
    assert_eq!(
        m.transcript().get(3).content,
        "<tool_results>\nTool 'c' returned: 1.0\nTool 'a' returned: 2.0\nTool 'b' returned: 3.0\n</tool_results>"
    );
}

#[test]
fn failed_tool_is_reported_to_the_next_round() {
    let mut m = machine(5);
    m.step(TurnInput::UserMessage("x".to_string()));
    m.step(TurnInput::Fragment(ONE_TOOL.to_string()));
    m.step(TurnInput::StreamEnd);
    let out = m.step(TurnInput::ToolOutcome(failure("Division by zero")));
    assert_eq!(m.phase(), Phase::Streaming);
    match out.directive {
        Directive::CallModel(context) => {
            let last = context.last().unwrap();
            assert_eq!(last.role, Role::Tool);
            assert!(last.content.contains("Division by zero"));
        }
        other => panic!("unexpected directive {:?}", other),
    }
}
