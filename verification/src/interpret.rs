//! The response interpreter: is a completion a final answer, or a request
//! that one tool be run?

use vstd::prelude::*;
use crate::errors::ChatError;
use crate::types::ChatCompletion;
use crate::types::PromptMessage;
use crate::types::ToolCall;

verus! {

/// What a completion response asks of the client.
#[derive(Clone, Debug, PartialEq)]
pub enum Interpretation {
    /// The conversation is over; this is the answer text.
    FinalAnswer(String),
    /// The model asks that this tool call be executed locally.
    ToolRequested(ToolCall),
}

/// Whether the message carries at least one tool call.
pub open spec fn requests_tool(m: PromptMessage) -> bool {
    m.tool_calls matches Option::Some(tcs) && tcs@.len() > 0
}

/// The message of the first choice, where both exist.
pub open spec fn first_message(c: ChatCompletion) -> Option<PromptMessage> {
    if c.choices@.len() > 0 {
        c.choices@[0].message
    } else {
        Option::None
    }
}

/// Classifies a completion response. Only the first choice is consulted.
/// A response without a choice, or without a message in it, yields the
/// sentinel answer `"none"` — an explicit value, not an error. Of several
/// tool calls in one message, only the first is taken; the rest are
/// dropped by design.
pub fn interpret(c: &ChatCompletion) -> (r: Interpretation)
    ensures
        first_message(*c) is None ==> (r matches Interpretation::FinalAnswer(s) && s@ == "none"@),
        first_message(*c) is Some && requests_tool(first_message(*c)->0) ==> r
            == Interpretation::ToolRequested(first_message(*c)->0.tool_calls->0@[0]),
        first_message(*c) is Some && !requests_tool(first_message(*c)->0) ==> (r
            matches Interpretation::FinalAnswer(s) && s == first_message(*c)->0.content),
{
    if c.choices.len() == 0 {
        return Interpretation::FinalAnswer("none".to_owned());
    }
    match &c.choices[0].message {
        Option::None => Interpretation::FinalAnswer("none".to_owned()),
        Option::Some(m) => {
            match &m.tool_calls {
                Option::Some(tcs) => {
                    if tcs.len() > 0 {
                        Interpretation::ToolRequested(tcs[0].duplicate())
                    } else {
                        Interpretation::FinalAnswer(m.content.clone())
                    }
                },
                Option::None => Interpretation::FinalAnswer(m.content.clone()),
            }
        },
    }
}

/// Reads the answer of a follow-up response, where a choice and a message
/// are owed: their absence is a hard error, not a sentinel.
pub fn final_content(c: &ChatCompletion) -> (r: Result<String, ChatError>)
    ensures
        c.choices@.len() == 0 ==> r == Result::<String, ChatError>::Err(ChatError::MissingChoice),
        c.choices@.len() > 0 && c.choices@[0].message is None ==> r == Result::<
            String,
            ChatError,
        >::Err(ChatError::MissingMessage),
        first_message(*c) is Some ==> (r matches Result::Ok(s) && s == first_message(
            *c,
        )->0.content),
{
    if c.choices.len() == 0 {
        return Result::Err(ChatError::MissingChoice);
    }
    match &c.choices[0].message {
        Option::None => Result::Err(ChatError::MissingMessage),
        Option::Some(m) => Result::Ok(m.content.clone()),
    }
}

} // verus!
