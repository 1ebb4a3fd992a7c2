use copilot_rs::build;
use copilot_rs::Client;
use copilot_rs::FieldDecl;
use copilot_rs::function_tool;
use copilot_rs::IntoPrompt;
use copilot_rs::DEFAULT_MAX_TOKENS;
use copilot_rs::DEFAULT_TEMPERATURE_MILLI;

fn client() -> Client {
    Client {
        api_base: "http://localhost:9000/v1".to_string(),
        api_key: "k".to_string(),
        model_default: "base-model".to_string(),
    }
}

fn add_tool() -> copilot_rs::ToolImpl {
    let fields = vec![
        FieldDecl {
            name: "first".to_string(),
            ty: "number".to_string(),
            description: "first number".to_string(),
            choices: Vec::new(),
        },
        FieldDecl {
            name: "second".to_string(),
            ty: "number".to_string(),
            description: "second number".to_string(),
            choices: Vec::new(),
        },
    ];
    function_tool("Add".to_string(), "add two number".to_string(), &fields)
}

#[test]
fn build_substitutes_default_model_for_empty_name() {
    let req = build(&client(), Vec::new(), "", 700, 64, Vec::new());
    assert_eq!(req.model, "base-model");
}

#[test]
fn build_keeps_explicit_model_name() {
    let req = build(&client(), Vec::new(), "fancy-model", 700, 64, Vec::new());
    assert_eq!(req.model, "fancy-model");
}

#[test]
fn build_omits_tools_for_empty_catalog() {
    let req = build(&client(), Vec::new(), "m", 700, 64, Vec::new());
    assert!(req.tools.is_none());
}

#[test]
fn build_keeps_tools_for_nonempty_catalog() {
    let req = build(&client(), Vec::new(), "m", 700, 64, vec![add_tool()]);
    let tools = req.tools.expect("tools field must be present");
    assert_eq!(tools.len(), 1);
}

#[test]
fn build_carries_messages_and_parameters() {
    let messages = vec!["be brief".system(), "hello".user()];
    let req = build(&client(), messages, "m", 350, 99, Vec::new());
    assert_eq!(req.messages.len(), 2);
    assert_eq!(req.messages[1].content, "hello");
    assert_eq!(req.temperature_milli, 350);
    assert_eq!(req.max_tokens, 99);
    assert!(!req.stream);
}

#[test]
fn default_parameters_match_the_documented_values() {
    assert_eq!(DEFAULT_TEMPERATURE_MILLI, 700);
    assert_eq!(DEFAULT_MAX_TOKENS, 1024);
}
