//! Message model and wire-level value objects of a chat exchange.

use vstd::prelude::*;
use crate::schema::ToolImpl;
use crate::schema::ToolV;

verus! {

/// Who issued a message of the conversation.
#[derive(Clone, Copy, Debug, PartialEq, Eq, Structural)]
pub enum Role {
    System,
    User,
    Assistant,
    Tool,
}

/// The call of one declared function, as the remote model requests it.
#[derive(Clone, Debug, PartialEq)]
pub struct Function {
    pub name: String,
    pub arguments: String,
}

/// A model-issued request that one tool be run locally.
#[derive(Clone, Debug, PartialEq)]
pub struct ToolCall {
    pub id: String,
    pub ty: String,
    pub function: Function,
}

/// The mathematical value of a [`ToolCall`]: its identifier, its kind tag,
/// and the name and argument text of the requested function.
#[verifier::ext_equal]
pub struct ToolCallV {
    pub id: Seq<char>,
    pub ty: Seq<char>,
    pub name: Seq<char>,
    pub arguments: Seq<char>,
}

impl View for ToolCall {
    type V = ToolCallV;

    open spec fn view(&self) -> ToolCallV {
        ToolCallV {
            id: self.id@,
            ty: self.ty@,
            name: self.function.name@,
            arguments: self.function.arguments@,
        }
    }
}

impl DeepView for ToolCall {
    type V = ToolCallV;

    open spec fn deep_view(&self) -> ToolCallV {
        self.view()
    }
}

impl ToolCall {
    /// An exact duplicate of the tool call.
    pub fn duplicate(&self) -> (r: ToolCall)
        ensures
            r == *self,
    {
        ToolCall {
            id: self.id.clone(),
            ty: self.ty.clone(),
            function: Function {
                name: self.function.name.clone(),
                arguments: self.function.arguments.clone(),
            },
        }
    }
}

/// One message of a conversation; insertion order is chronological order.
/// `tool_call_id` is set exactly on `Tool`-role messages.
#[derive(Clone, Debug, PartialEq)]
pub struct PromptMessage {
    pub role: Role,
    pub content: String,
    pub tool_calls: Option<Vec<ToolCall>>,
    pub tool_call_id: Option<String>,
}

/// The mathematical value of a [`PromptMessage`].
#[verifier::ext_equal]
pub struct MessageV {
    pub role: Role,
    pub content: Seq<char>,
    pub tool_calls: Option<Seq<ToolCallV>>,
    pub tool_call_id: Option<Seq<char>>,
}

impl View for PromptMessage {
    type V = MessageV;

    open spec fn view(&self) -> MessageV {
        MessageV {
            role: self.role,
            content: self.content@,
            tool_calls: match self.tool_calls {
                Option::None => Option::None,
                Option::Some(calls) => Option::Some(calls.deep_view()),
            },
            tool_call_id: match self.tool_call_id {
                Option::None => Option::None,
                Option::Some(id) => Option::Some(id@),
            },
        }
    }
}

impl DeepView for PromptMessage {
    type V = MessageV;

    open spec fn deep_view(&self) -> MessageV {
        self.view()
    }
}

impl MessageV {
    /// The role/`tool_call_id` invariant of the message model.
    pub open spec fn wf(self) -> bool {
        self.tool_call_id is Some <==> self.role is Tool
    }
}

impl PromptMessage {
    /// An exact duplicate of the message, usable where the original must
    /// also be kept.
    pub fn duplicate(&self) -> (r: PromptMessage)
        ensures
            r@ == self@,
            r.role == self.role,
    {
        let r = PromptMessage {
            role: self.role,
            content: self.content.clone(),
            tool_calls: match &self.tool_calls {
                Option::None => Option::None,
                Option::Some(calls) => Option::Some(duplicate_tool_calls(calls)),
            },
            tool_call_id: match &self.tool_call_id {
                Option::None => Option::None,
                Option::Some(id) => Option::Some(id.clone()),
            },
        };
        assert(r@ =~= self@);
        r
    }
}

/// An exact duplicate of a list of tool calls.
fn duplicate_tool_calls(calls: &Vec<ToolCall>) -> (r: Vec<ToolCall>)
    ensures
        r@ == calls@,
{
    let mut out: Vec<ToolCall> = Vec::new();
    let mut i: usize = 0;
    while i < calls.len()
        invariant
            i <= calls.len(),
            out@ =~= calls@.take(i as int),
        decreases calls.len() - i,
    {
        out.push(calls[i].duplicate());
        i = i + 1;
    }
    assert(out@ =~= calls@);
    out
}

/// The streamed fragment of a choice; only its optional content is read.
#[derive(Clone, Debug, PartialEq)]
pub struct Delta {
    pub content: Option<String>,
}

/// One alternative completion of a response.
#[derive(Clone, Debug, PartialEq)]
pub struct Choice {
    pub delta: Option<Delta>,
    pub message: Option<PromptMessage>,
    pub finish_reason: Option<String>,
    pub index: u32,
}

/// A parsed chat-completion response body.
#[derive(Clone, Debug, PartialEq)]
pub struct ChatCompletion {
    pub choices: Vec<Choice>,
    pub created: u64,
    pub id: String,
    pub model: String,
    pub object: String,
}

impl ChatCompletion {
    /// The text of the first choice: its delta content if streamed, else
    /// its message content, else the empty string.
    pub open spec fn content_of_first_choice(self) -> Seq<char> {
        if self.choices[0].delta is Some && self.choices[0].delta->0.content is Some {
            self.choices[0].delta->0.content->0@
        } else if self.choices[0].message is Some {
            self.choices[0].message->0.content@
        } else {
            Seq::<char>::empty()
        }
    }

    /// The content carried by the first choice of the response.
    pub fn get_content(&self) -> (r: std::borrow::Cow<'_, str>)
        requires
            self.choices@.len() > 0,
        ensures
            r@ == self.content_of_first_choice(),
    {
        let first = &self.choices[0];
        match &first.delta {
            Option::Some(delta) => {
                match &delta.content {
                    Option::Some(content) => {
                        return std::borrow::Cow::Borrowed(content.as_str());
                    },
                    Option::None => {},
                }
            },
            Option::None => {},
        }
        match &first.message {
            Option::Some(message) => std::borrow::Cow::Borrowed(message.content.as_str()),
            Option::None => {
                let empty = String::new();
                proof {
                    assert(empty@ =~= self.content_of_first_choice());
                }
                std::borrow::Cow::Owned(empty)
            },
        }
    }
}

/// The connection settings of the remote endpoint: where to send, how to
/// authenticate, and which model to fall back to.
#[derive(Clone, Debug, PartialEq)]
pub struct Client {
    pub api_base: String,
    pub api_key: String,
    pub model_default: String,
}

/// An outbound chat-completion request body. `temperature_milli` carries
/// the sampling temperature in thousandths, so a value of 700 goes on the
/// wire as `0.700`. A `tools` value of `None` means the field is absent
/// from the wire body altogether, which differs from an empty list.
#[derive(Clone, Debug, PartialEq)]
pub struct OpenAIRequest {
    pub model: String,
    pub messages: Vec<PromptMessage>,
    pub max_tokens: u32,
    pub temperature_milli: u32,
    pub stream: bool,
    pub tools: Option<Vec<ToolImpl>>,
}

/// The mathematical value of an [`OpenAIRequest`].
#[verifier::ext_equal]
pub struct RequestV {
    pub model: Seq<char>,
    pub messages: Seq<MessageV>,
    pub max_tokens: u32,
    pub temperature_milli: u32,
    pub stream: bool,
    pub tools: Option<Seq<ToolV>>,
}

impl View for OpenAIRequest {
    type V = RequestV;

    open spec fn view(&self) -> RequestV {
        RequestV {
            model: self.model@,
            messages: self.messages.deep_view(),
            max_tokens: self.max_tokens,
            temperature_milli: self.temperature_milli,
            stream: self.stream,
            tools: match self.tools {
                Option::None => Option::None,
                Option::Some(ts) => Option::Some(ts.deep_view()),
            },
        }
    }
}

} // verus!
