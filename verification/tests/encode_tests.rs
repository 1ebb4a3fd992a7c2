use copilot_rs::build;
use copilot_rs::request_to_json;
use copilot_rs::Client;
use copilot_rs::FieldDecl;
use copilot_rs::function_tool;
use copilot_rs::IntoPrompt;

fn client() -> Client {
    Client {
        api_base: "http://localhost:9000/v1".to_string(),
        api_key: "k".to_string(),
        model_default: "base-model".to_string(),
    }
}

fn weather_tool() -> copilot_rs::ToolImpl {
    let fields = vec![
        FieldDecl {
            name: "location".to_string(),
            ty: "string".to_string(),
            description: "The city and state".to_string(),
            choices: Vec::new(),
        },
        FieldDecl {
            name: "unit".to_string(),
            ty: "string".to_string(),
            description: "The temperature unit".to_string(),
            choices: vec!["celsius".to_string(), "fahrenheit".to_string()],
        },
    ];
    function_tool(
        "GetCurrentWeather".to_string(),
        "Get weather of an location".to_string(),
        &fields,
    )
}

#[test]
fn encoded_request_is_the_exact_expected_text() {
    let req = build(&client(), vec!["hi".user()], "m", 700, 64, Vec::new());
    let body = request_to_json(&req);
    assert_eq!(
        body,
        "{\"model\":\"m\",\"messages\":[{\"role\":\"user\",\"content\":\"hi\"}],\
         \"max_tokens\":64,\"temperature\":0.700,\"stream\":false}"
    );
}

#[test]
fn encoded_request_without_tools_has_no_tools_key() {
    let req = build(&client(), vec!["hi".user()], "m", 700, 64, Vec::new());
    let body = request_to_json(&req);
    let parsed: serde_json::Value = serde_json::from_str(&body).expect("body must be valid JSON");
    assert!(parsed.get("tools").is_none());
    assert_eq!(parsed["stream"], serde_json::Value::Bool(false));
}

#[test]
fn encoded_request_with_tools_carries_schema_and_required() {
    let req = build(&client(), vec!["hi".user()], "m", 700, 64, vec![weather_tool()]);
    let body = request_to_json(&req);
    let parsed: serde_json::Value = serde_json::from_str(&body).expect("body must be valid JSON");
    let tools = parsed["tools"].as_array().expect("tools must be a list");
    assert_eq!(tools.len(), 1);
    assert_eq!(tools[0]["type"], "function");
    let function = &tools[0]["function"];
    assert_eq!(function["name"], "GetCurrentWeather");
    let parameters = &function["parameters"];
    assert_eq!(parameters["type"], "object");
    let properties = parameters["properties"].as_object().expect("properties object");
    assert_eq!(properties.len(), 2);
    assert!(properties.contains_key("location"));
    assert!(properties.contains_key("unit"));
    assert_eq!(properties["unit"]["enum"].as_array().unwrap().len(), 2);
    let required = parameters["required"].as_array().expect("required list");
    assert_eq!(required.len(), 1);
    assert_eq!(required[0], "location");
}

#[test]
fn encoded_content_escapes_and_round_trips() {
    let tricky = "a \"quoted\" back\\slash\nnew\tline\r end".to_string();
    let req = build(&client(), vec![tricky.clone().user()], "m", 700, 64, Vec::new());
    let body = request_to_json(&req);
    let parsed: serde_json::Value = serde_json::from_str(&body).expect("body must be valid JSON");
    assert_eq!(parsed["messages"][0]["content"].as_str().unwrap(), tricky);
}

#[test]
fn encoded_control_character_uses_unicode_escape() {
    let req = build(&client(), vec!["a\u{1}b".user()], "m", 700, 64, Vec::new());
    let body = request_to_json(&req);
    assert!(body.contains("a\\u0001b"));
    let parsed: serde_json::Value = serde_json::from_str(&body).expect("body must be valid JSON");
    assert_eq!(parsed["messages"][0]["content"].as_str().unwrap(), "a\u{1}b");
}

#[test]
fn encoded_temperature_has_three_fractional_digits() {
    let req = build(&client(), Vec::new(), "m", 0, 1, Vec::new());
    assert!(request_to_json(&req).contains("\"temperature\":0.000"));
    let req = build(&client(), Vec::new(), "m", 1234, 1, Vec::new());
    assert!(request_to_json(&req).contains("\"temperature\":1.234"));
    let req = build(&client(), Vec::new(), "m", 705, 1, Vec::new());
    assert!(request_to_json(&req).contains("\"temperature\":0.705"));
}

#[test]
fn encoded_tool_message_carries_call_id() {
    let tool_msg = "5".tool("call-1".to_string());
    let req = build(&client(), vec![tool_msg], "m", 700, 64, Vec::new());
    let body = request_to_json(&req);
    let parsed: serde_json::Value = serde_json::from_str(&body).expect("body must be valid JSON");
    assert_eq!(parsed["messages"][0]["role"], "tool");
    assert_eq!(parsed["messages"][0]["tool_call_id"], "call-1");
    assert!(parsed["messages"][0].get("tool_calls").is_none());
}

#[test]
fn encoded_assistant_tool_calls_round_trip() {
    let assistant = copilot_rs::PromptMessage {
        role: copilot_rs::Role::Assistant,
        content: String::new(),
        tool_calls: Some(vec![copilot_rs::ToolCall {
            id: "call-1".to_string(),
            ty: "function".to_string(),
            function: copilot_rs::Function {
                name: "Add".to_string(),
                arguments: "{\"first\":2,\"second\":3}".to_string(),
            },
        }]),
        tool_call_id: None,
    };
    let req = build(&client(), vec![assistant], "m", 700, 64, Vec::new());
    let body = request_to_json(&req);
    let parsed: serde_json::Value = serde_json::from_str(&body).expect("body must be valid JSON");
    let message = &parsed["messages"][0];
    assert_eq!(message["role"], "assistant");
    let calls = message["tool_calls"].as_array().expect("tool call list");
    assert_eq!(calls.len(), 1);
    assert_eq!(calls[0]["id"], "call-1");
    assert_eq!(calls[0]["type"], "function");
    assert_eq!(calls[0]["function"]["name"], "Add");
    assert_eq!(calls[0]["function"]["arguments"], "{\"first\":2,\"second\":3}");
    assert!(message.get("tool_call_id").is_none());
}
