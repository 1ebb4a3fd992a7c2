//! The request builder: from conversation, parameters, and tool catalog to
//! an outbound request body.

use vstd::prelude::*;
use crate::schema::ToolImpl;
use crate::types::Client;
use crate::types::OpenAIRequest;
use crate::types::PromptMessage;

verus! {

/// The sampling temperature sent when the caller names none, in
/// thousandths: seven tenths.
pub const DEFAULT_TEMPERATURE_MILLI: u32 = 700;

/// The token budget sent when the caller names none.
pub const DEFAULT_MAX_TOKENS: u32 = 1024;

/// Assembles an outbound request. An empty `chat_model` name falls back to
/// the client's configured default model, never onto the wire. The `tools`
/// field is omitted entirely — not sent as an empty list — when no tool
/// schema is supplied, because the wire format tells "no tools offered"
/// apart from "an empty tool list".
pub fn build(
    client: &Client,
    messages: Vec<PromptMessage>,
    chat_model: &str,
    temperature_milli: u32,
    max_tokens: u32,
    tools: Vec<ToolImpl>,
) -> (r: OpenAIRequest)
    ensures
        r@.model == if chat_model@.len() == 0 {
            client.model_default@
        } else {
            chat_model@
        },
        r@.messages == messages.deep_view(),
        r.max_tokens == max_tokens,
        r.temperature_milli == temperature_milli,
        r.stream == false,
        tools@.len() == 0 ==> r.tools is None,
        tools@.len() > 0 ==> r@.tools == Option::Some(tools.deep_view()),
{
    let model = if chat_model.is_empty() {
        client.model_default.clone()
    } else {
        chat_model.to_owned()
    };
    let tools_field = if tools.len() == 0 {
        Option::None
    } else {
        Option::Some(tools)
    };
    OpenAIRequest {
        model,
        messages,
        max_tokens,
        temperature_milli,
        stream: false,
        tools: tools_field,
    }
}

} // verus!
