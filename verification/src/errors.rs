//! The error taxonomy of a chat round trip.

use vstd::prelude::*;

verus! {

/// Everything that can go wrong between sending a request and handing
/// back a final answer. Transport and decode failures arise at the HTTP
/// edge and are carried in; the rest are decided here.
#[derive(Clone, Debug, PartialEq)]
pub enum ChatError {
    /// The HTTP exchange itself failed.
    Transport(String),
    /// The response body was not a well-formed completion.
    Decode(String),
    /// The response carried no choice where one was owed.
    MissingChoice,
    /// The chosen choice carried no message where one was owed.
    MissingMessage,
    /// The model asked for a tool name that is not registered.
    UnknownTool(String),
    /// The tool call's arguments are not a JSON object.
    ArgumentDecode(String),
}

impl ChatError {
    /// The display text of the error.
    pub open spec fn describe_spec(self) -> Seq<char> {
        match self {
            ChatError::Transport(d) => "transport error: "@ + d@,
            ChatError::Decode(d) => "decode error: "@ + d@,
            ChatError::MissingChoice => "no choices"@,
            ChatError::MissingMessage => "no message"@,
            ChatError::UnknownTool(n) => "unknown tool: "@ + n@,
            ChatError::ArgumentDecode(d) => "tool arguments not a JSON object: "@ + d@,
        }
    }

    /// The display text of the error, as a top-level caller would show it
    /// in place of an answer.
    pub fn describe(&self) -> (r: String)
        ensures
            r@ == self.describe_spec(),
    {
        match self {
            ChatError::Transport(d) => {
                let mut s = "transport error: ".to_owned();
                s.append(d.as_str());
                s
            },
            ChatError::Decode(d) => {
                let mut s = "decode error: ".to_owned();
                s.append(d.as_str());
                s
            },
            ChatError::MissingChoice => "no choices".to_owned(),
            ChatError::MissingMessage => "no message".to_owned(),
            ChatError::UnknownTool(n) => {
                let mut s = "unknown tool: ".to_owned();
                s.append(n.as_str());
                s
            },
            ChatError::ArgumentDecode(d) => {
                let mut s = "tool arguments not a JSON object: ".to_owned();
                s.append(d.as_str());
                s
            },
        }
    }
}

} // verus!
