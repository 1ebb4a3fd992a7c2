use copilot_rs::final_content;
use copilot_rs::interpret;
use copilot_rs::ChatCompletion;
use copilot_rs::ChatError;
use copilot_rs::Choice;
use copilot_rs::Delta;
use copilot_rs::Function;
use copilot_rs::Interpretation;
use copilot_rs::PromptMessage;
use copilot_rs::Role;
use copilot_rs::ToolCall;

fn completion(choices: Vec<Choice>) -> ChatCompletion {
    ChatCompletion {
        choices,
        created: 0,
        id: "resp".to_string(),
        model: "m".to_string(),
        object: "chat.completion".to_string(),
    }
}

fn assistant_text(content: &str) -> PromptMessage {
    PromptMessage {
        role: Role::Assistant,
        content: content.to_string(),
        tool_calls: None,
        tool_call_id: None,
    }
}

fn call(id: &str, name: &str, arguments: &str) -> ToolCall {
    ToolCall {
        id: id.to_string(),
        ty: "function".to_string(),
        function: Function { name: name.to_string(), arguments: arguments.to_string() },
    }
}

fn choice_of(message: Option<PromptMessage>) -> Choice {
    Choice { delta: None, message, finish_reason: None, index: 0 }
}

#[test]
fn interpret_zero_choices_yields_the_sentinel_none() {
    let c = completion(Vec::new());
    match interpret(&c) {
        Interpretation::FinalAnswer(s) => assert_eq!(s, "none"),
        Interpretation::ToolRequested(_) => panic!("no tool was requested"),
    }
}

#[test]
fn interpret_choice_without_message_yields_the_sentinel_none() {
    let c = completion(vec![choice_of(None)]);
    match interpret(&c) {
        Interpretation::FinalAnswer(s) => assert_eq!(s, "none"),
        Interpretation::ToolRequested(_) => panic!("no tool was requested"),
    }
}

#[test]
fn interpret_plain_message_yields_its_content() {
    let c = completion(vec![choice_of(Some(assistant_text("the answer")))]);
    match interpret(&c) {
        Interpretation::FinalAnswer(s) => assert_eq!(s, "the answer"),
        Interpretation::ToolRequested(_) => panic!("no tool was requested"),
    }
}

#[test]
fn interpret_two_tool_calls_returns_only_the_first() {
    let mut message = assistant_text("");
    message.tool_calls = Some(vec![
        call("call-1", "Add", "{\"first\":1,\"second\":2}"),
        call("call-2", "GetCurrentWeather", "{\"location\":\"SF\"}"),
    ]);
    let c = completion(vec![choice_of(Some(message))]);
    match interpret(&c) {
        Interpretation::ToolRequested(picked) => {
            assert_eq!(picked.id, "call-1");
            assert_eq!(picked.function.name, "Add");
        },
        Interpretation::FinalAnswer(_) => panic!("a tool was requested"),
    }
}

#[test]
fn interpret_empty_tool_call_list_is_a_final_answer() {
    let mut message = assistant_text("plain");
    message.tool_calls = Some(Vec::new());
    let c = completion(vec![choice_of(Some(message))]);
    match interpret(&c) {
        Interpretation::FinalAnswer(s) => assert_eq!(s, "plain"),
        Interpretation::ToolRequested(_) => panic!("the call list is empty"),
    }
}

#[test]
fn final_content_without_choices_is_a_missing_choice_error() {
    let c = completion(Vec::new());
    assert_eq!(final_content(&c), Err(ChatError::MissingChoice));
}

#[test]
fn final_content_without_message_is_a_missing_message_error() {
    let c = completion(vec![choice_of(None)]);
    assert_eq!(final_content(&c), Err(ChatError::MissingMessage));
}

#[test]
fn final_content_reads_the_message_content() {
    let c = completion(vec![choice_of(Some(assistant_text("done")))]);
    assert_eq!(final_content(&c), Ok("done".to_string()));
}

#[test]
fn get_content_prefers_the_delta_content() {
    let mut choice = choice_of(Some(assistant_text("from message")));
    choice.delta = Some(Delta { content: Some("from delta".to_string()) });
    let c = completion(vec![choice]);
    assert_eq!(c.get_content(), "from delta");
}

#[test]
fn get_content_falls_back_to_the_message_content() {
    let mut choice = choice_of(Some(assistant_text("from message")));
    choice.delta = Some(Delta { content: None });
    let c = completion(vec![choice]);
    assert_eq!(c.get_content(), "from message");
}

#[test]
fn get_content_of_a_bare_choice_is_empty() {
    let c = completion(vec![choice_of(None)]);
    assert_eq!(c.get_content(), "");
}
