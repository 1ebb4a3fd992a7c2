//! Prompt construction, and the traits a caller's tools implement.

use vstd::prelude::*;
use crate::schema::ToolImpl;
use crate::types::MessageV;
use crate::types::PromptMessage;
use crate::types::Role;

verus! {

/// Marks a caller's type as a structured answer form.
pub trait Structure {

}

/// A runnable tool implementation: executes the tool's own logic and
/// hands back its textual result.
pub trait FunctionImplTrait {
    /// Runs the tool.
    fn exec(&self) -> String;
}

/// One declared tool, as the registry consumes it: a stable key, a wire
/// schema, and an executable entry taking the normalised JSON object text
/// of the call's arguments.
pub trait FunctionTool {
    /// The stable unique name used on the wire and for dispatch.
    fn key(&self) -> String;

    /// The wire-format schema offered to the remote model.
    fn desc(&self) -> ToolImpl;

    /// Decodes the argument text and runs the tool.
    fn inject(&self, args: &str) -> String;
}

/// Turns plain text into each role's message of a conversation.
pub trait IntoPrompt {
    /// The text the message will carry.
    spec fn prompt_text(&self) -> Seq<char>;

    /// A system message of this text.
    fn system(&self) -> (r: PromptMessage)
        ensures
            r@ == (MessageV {
                role: Role::System,
                content: self.prompt_text(),
                tool_calls: Option::None,
                tool_call_id: Option::None,
            }),
    ;

    /// A user message of this text.
    fn user(&self) -> (r: PromptMessage)
        ensures
            r@ == (MessageV {
                role: Role::User,
                content: self.prompt_text(),
                tool_calls: Option::None,
                tool_call_id: Option::None,
            }),
    ;

    /// An assistant message of this text.
    fn assistant(&self) -> (r: PromptMessage)
        ensures
            r@ == (MessageV {
                role: Role::Assistant,
                content: self.prompt_text(),
                tool_calls: Option::None,
                tool_call_id: Option::None,
            }),
    ;

    /// A tool-result message of this text, answering the given call.
    fn tool(&self, id: String) -> (r: PromptMessage)
        ensures
            r@ == (MessageV {
                role: Role::Tool,
                content: self.prompt_text(),
                tool_calls: Option::None,
                tool_call_id: Option::Some(id@),
            }),
    ;
}

impl IntoPrompt for String {
    open spec fn prompt_text(&self) -> Seq<char> {
        self@
    }

    fn system(&self) -> (r: PromptMessage) {
        PromptMessage {
            role: Role::System,
            content: self.clone(),
            tool_calls: Option::None,
            tool_call_id: Option::None,
        }
    }

    fn user(&self) -> (r: PromptMessage) {
        PromptMessage {
            role: Role::User,
            content: self.clone(),
            tool_calls: Option::None,
            tool_call_id: Option::None,
        }
    }

    fn assistant(&self) -> (r: PromptMessage) {
        PromptMessage {
            role: Role::Assistant,
            content: self.clone(),
            tool_calls: Option::None,
            tool_call_id: Option::None,
        }
    }

    fn tool(&self, id: String) -> (r: PromptMessage) {
        PromptMessage {
            role: Role::Tool,
            content: self.clone(),
            tool_calls: Option::None,
            tool_call_id: Option::Some(id),
        }
    }
}

impl IntoPrompt for str {
    open spec fn prompt_text(&self) -> Seq<char> {
        self@
    }

    fn system(&self) -> (r: PromptMessage) {
        PromptMessage {
            role: Role::System,
            content: self.to_owned(),
            tool_calls: Option::None,
            tool_call_id: Option::None,
        }
    }

    fn user(&self) -> (r: PromptMessage) {
        PromptMessage {
            role: Role::User,
            content: self.to_owned(),
            tool_calls: Option::None,
            tool_call_id: Option::None,
        }
    }

    fn assistant(&self) -> (r: PromptMessage) {
        PromptMessage {
            role: Role::Assistant,
            content: self.to_owned(),
            tool_calls: Option::None,
            tool_call_id: Option::None,
        }
    }

    fn tool(&self, id: String) -> (r: PromptMessage) {
        PromptMessage {
            role: Role::Tool,
            content: self.to_owned(),
            tool_calls: Option::None,
            tool_call_id: Option::Some(id),
        }
    }
}

} // verus!
