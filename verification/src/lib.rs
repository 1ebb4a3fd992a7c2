//! Core of a chat-completion client with tool calling.
//!
//! The library models a conversation with an OpenAI-compatible
//! chat-completion endpoint in which the remote model may ask for one of a
//! set of locally declared "tools" to be run. It covers the message model,
//! the tool registry and its wire-format schemas, the request builder, the
//! JSON encoding of outbound requests, the response interpreter, and the
//! two-phase round-trip orchestration. The HTTP transport itself is left to
//! the caller: every function here is a pure decision step from plain values
//! to plain values.

mod builder;
mod encode;
mod errors;
mod interpret;
mod orchestrate;
mod prompt;
mod registry;
mod schema;
mod text;
mod types;

pub use builder::build;
pub use builder::DEFAULT_MAX_TOKENS;
pub use builder::DEFAULT_TEMPERATURE_MILLI;

pub use encode::request_json;
pub use encode::request_to_json;

pub use errors::ChatError;

pub use interpret::final_content;
pub use interpret::first_message;
pub use interpret::interpret;
pub use interpret::Interpretation;
pub use interpret::requests_tool;

pub use orchestrate::assistant_carries;
pub use orchestrate::conversation_wf;
pub use orchestrate::duplicate_messages;
pub use orchestrate::FirstOutcome;
pub use orchestrate::FirstRound;
pub use orchestrate::lemma_push_matched_tool_preserves_wf;
pub use orchestrate::lemma_requesting_assistant_carries;
pub use orchestrate::lemma_push_non_tool_preserves_wf;
pub use orchestrate::matching_assistant_exists;
pub use orchestrate::parses_as_json_object;
pub use orchestrate::requested_call;
pub use orchestrate::start;
pub use orchestrate::tool_message_v;
pub use orchestrate::ToolDispatch;
pub use orchestrate::ToolInvocation;
pub use orchestrate::try_append_tool_message;

pub use prompt::FunctionImplTrait;
pub use prompt::FunctionTool;
pub use prompt::IntoPrompt;
pub use prompt::Structure;

pub use registry::has_tool;
pub use registry::ToolRegistry;

pub use text::unescape_quotes;
pub use text::unescaped_quotes;

pub use schema::check_distinct_field_names;
pub use schema::default_type;
pub use schema::FieldDecl;
pub use schema::function_tool;
pub use schema::Parameters;
pub use schema::Property;
pub use schema::ToolImpl;

pub use types::ChatCompletion;
pub use types::Choice;
pub use types::Client;
pub use types::Delta;
pub use types::Function;
pub use types::MessageV;
pub use types::OpenAIRequest;
pub use types::PromptMessage;
pub use types::RequestV;
pub use types::Role;
pub use types::ToolCall;
pub use types::ToolCallV;

pub use schema::FieldDeclV;
pub use schema::ParametersV;
pub use schema::PropertyV;
pub use schema::ToolV;
