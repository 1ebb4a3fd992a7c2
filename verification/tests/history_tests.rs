use copilot_rs::duplicate_messages;
use copilot_rs::try_append_tool_message;
use copilot_rs::unescape_quotes;
use copilot_rs::Function;
use copilot_rs::IntoPrompt;
use copilot_rs::PromptMessage;
use copilot_rs::Role;
use copilot_rs::ToolCall;

fn assistant_with_call(id: &str) -> PromptMessage {
    PromptMessage {
        role: Role::Assistant,
        content: String::new(),
        tool_calls: Some(vec![ToolCall {
            id: id.to_string(),
            ty: "function".to_string(),
            function: Function {
                name: "Add".to_string(),
                arguments: "{\"first\":2,\"second\":3}".to_string(),
            },
        }]),
        tool_call_id: None,
    }
}

#[test]
fn appending_a_tool_message_without_matching_assistant_is_refused() {
    let mut history = vec!["hello".user()];
    let appended = try_append_tool_message(&mut history, "call-1".to_string(), "5".to_string());
    assert!(!appended, "there is no assistant message carrying call-1");
    assert_eq!(history.len(), 1);
}

#[test]
fn appending_a_tool_message_with_wrong_call_id_is_refused() {
    let mut history = vec!["hello".user(), assistant_with_call("call-1")];
    let appended = try_append_tool_message(&mut history, "call-2".to_string(), "5".to_string());
    assert!(!appended);
    assert_eq!(history.len(), 2);
}

#[test]
fn appending_a_tool_message_under_its_assistant_call_succeeds() {
    let mut history = vec!["hello".user(), assistant_with_call("call-1")];
    let appended = try_append_tool_message(&mut history, "call-1".to_string(), "5".to_string());
    assert!(appended);
    assert_eq!(history.len(), 3);
    assert_eq!(history[2].role, Role::Tool);
    assert_eq!(history[2].content, "5");
    assert_eq!(history[2].tool_call_id.as_deref(), Some("call-1"));
    assert!(history[2].tool_calls.is_none());
}

#[test]
fn duplicated_messages_equal_the_originals() {
    let history = vec!["a".system(), "b".user(), assistant_with_call("call-1")];
    let copy = duplicate_messages(&history);
    assert_eq!(copy, history);
}

#[test]
fn prompt_constructors_set_role_content_and_call_id() {
    let s = "sys".system();
    assert_eq!(s.role, Role::System);
    assert_eq!(s.content, "sys");
    assert!(s.tool_calls.is_none() && s.tool_call_id.is_none());

    let u = "use".to_string().user();
    assert_eq!(u.role, Role::User);
    assert_eq!(u.content, "use");

    let a = "ans".assistant();
    assert_eq!(a.role, Role::Assistant);
    assert_eq!(a.content, "ans");

    let t = "5".to_string().tool("call-7".to_string());
    assert_eq!(t.role, Role::Tool);
    assert_eq!(t.content, "5");
    assert_eq!(t.tool_call_id.as_deref(), Some("call-7"));
}

#[test]
fn unescape_quotes_collapses_each_escaped_quote() {
    assert_eq!(unescape_quotes("{\\\"a\\\":1}"), "{\"a\":1}");
    assert_eq!(unescape_quotes("plain"), "plain");
    assert_eq!(unescape_quotes(""), "");
    assert_eq!(unescape_quotes("\\\\\"x"), "\\\"x");
    assert_eq!(unescape_quotes("end\\"), "end\\");
}
