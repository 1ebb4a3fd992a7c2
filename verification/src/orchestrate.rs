//! The round-trip orchestrator: the two-phase tool-calling protocol as a
//! chain of pure decision steps.
//!
//! One chat invocation runs `Sending -> AwaitingFirstResponse`, then either
//! ends with a final answer or passes `DispatchingTool ->
//! AwaitingSecondResponse` once, and ends. The caller performs the HTTP
//! exchanges and the tool execution; every decision between them is taken
//! here. Tools are single-shot by design: the follow-up request offers no
//! tool catalog, so the model cannot ask for a second tool in the same
//! invocation.

use vstd::prelude::*;
use crate::errors::ChatError;
use crate::interpret::Interpretation;
use crate::interpret::first_message;
use crate::interpret::interpret;
use crate::interpret::requests_tool;
use crate::registry::ToolRegistry;
use crate::registry::has_tool;
use crate::text::unescape_quotes;
use crate::text::unescaped_quotes;
use crate::types::ChatCompletion;
use crate::types::Client;
use crate::types::MessageV;
use crate::types::OpenAIRequest;
use crate::types::PromptMessage;
use crate::types::Role;
use crate::types::ToolCall;
use crate::builder::build;

verus! {

/// Whether the given text parses as a JSON object, that is, as a map from
/// string keys to JSON values. The outcome depends on the text alone.
pub uninterp spec fn parses_as_json_object(s: Seq<char>) -> bool;

/// Relies on `serde_json::from_str`: deserialising into a map of `String`
/// to `Value` succeeds exactly when the text is a JSON object, and the
/// outcome is a function of the text alone.
#[verifier::external_body]
fn json_object_check(s: &str) -> (r: bool)
    ensures
        r == parses_as_json_object(s@),
{
    serde_json::from_str::<serde_json::Map<String, serde_json::Value>>(s).is_ok()
}

/// Whether the message is an assistant message carrying a tool call of
/// the given identifier.
pub open spec fn assistant_carries(m: MessageV, id: Seq<char>) -> bool {
    &&& m.role is Assistant
    &&& m.tool_calls matches Option::Some(tcs) && exists|k: int|
        0 <= k < tcs.len() && tcs[k].id == id
}

/// Whether some message of the conversation is an assistant message
/// carrying a tool call of the given identifier.
pub open spec fn matching_assistant_exists(ms: Seq<MessageV>, id: Seq<char>) -> bool {
    exists|j: int| 0 <= j < ms.len() && assistant_carries(#[trigger] ms[j], id)
}

/// Whether an assistant message carrying the matching call identifier
/// stands somewhere before place `i`.
pub open spec fn matching_assistant_before(ms: Seq<MessageV>, i: int) -> bool {
    exists|j: int| 0 <= j < i && assistant_carries(#[trigger] ms[j], ms[i].tool_call_id->0)
}

/// The model invariant of a conversation: every `Tool`-role message names
/// a call identifier, and an assistant message carrying that identifier
/// precedes it.
pub open spec fn conversation_wf(ms: Seq<MessageV>) -> bool {
    forall|i: int|
        0 <= i < ms.len() && (#[trigger] ms[i]).role is Tool ==> ms[i].tool_call_id is Some
            && matching_assistant_before(ms, i)
}

/// The mathematical value of a `Tool`-role message answering one call.
pub open spec fn tool_message_v(content: Seq<char>, id: Seq<char>) -> MessageV {
    MessageV {
        role: Role::Tool,
        content: content,
        tool_calls: Option::None,
        tool_call_id: Option::Some(id),
    }
}

/// Appending a non-`Tool` message cannot break the conversation
/// invariant.
///
/// Law: the invariant is preserved under appending any assistant, user,
/// or system message.
pub proof fn lemma_push_non_tool_preserves_wf(ms: Seq<MessageV>, a: MessageV)
    requires
        conversation_wf(ms),
        !(a.role is Tool),
    ensures
        conversation_wf(ms.push(a)),
{
    let ms2 = ms.push(a);
    assert forall|i: int| 0 <= i < ms2.len() && (#[trigger] ms2[i]).role is Tool implies ms2[i].tool_call_id
        is Some && matching_assistant_before(ms2, i) by {
        assert(i < ms.len());
        assert(ms2[i] == ms[i]);
        let j = choose|j: int| 0 <= j < i && assistant_carries(#[trigger] ms[j], ms[i].tool_call_id->0);
        assert(ms2[j] == ms[j]);
        assert(assistant_carries(ms2[j], ms2[i].tool_call_id->0));
    }
}

/// Appending a `Tool` message whose call identifier some earlier
/// assistant message carries preserves the conversation invariant.
///
/// Law: a tool result may be appended exactly under a matching assistant
/// tool call.
pub proof fn lemma_push_matched_tool_preserves_wf(ms: Seq<MessageV>, t: MessageV)
    requires
        conversation_wf(ms),
        t.role is Tool,
        t.tool_call_id is Some,
        matching_assistant_exists(ms, t.tool_call_id->0),
    ensures
        conversation_wf(ms.push(t)),
{
    let ms2 = ms.push(t);
    assert forall|i: int| 0 <= i < ms2.len() && (#[trigger] ms2[i]).role is Tool implies ms2[i].tool_call_id
        is Some && matching_assistant_before(ms2, i) by {
        if i < ms.len() {
            assert(ms2[i] == ms[i]);
            let j = choose|j: int|
                0 <= j < i && assistant_carries(#[trigger] ms[j], ms[i].tool_call_id->0);
            assert(ms2[j] == ms[j]);
            assert(assistant_carries(ms2[j], ms2[i].tool_call_id->0));
        } else {
            assert(ms2[i] == t);
            let j = choose|j: int|
                0 <= j < ms.len() && assistant_carries(#[trigger] ms[j], t.tool_call_id->0);
            assert(ms2[j] == ms[j]);
            assert(assistant_carries(ms2[j], ms2[i].tool_call_id->0));
        }
    }
}

/// An assistant message that requests a tool carries the identifier of
/// its first call.
///
/// Law: the message a dispatch stems from itself satisfies the assistant
/// side of the conversation invariant, so the two messages the dispatch
/// appends keep a well-formed conversation well-formed.
pub proof fn lemma_requesting_assistant_carries(m: PromptMessage)
    requires
        m.role is Assistant,
        requests_tool(m),
    ensures
        assistant_carries(m@, m.tool_calls->0@[0]@.id),
{
    let tcs = m.tool_calls->0;
    assert(m@.tool_calls == Option::Some(tcs.deep_view()));
    assert(tcs.deep_view()[0] == tcs@[0]@);
    assert(m@.tool_calls->0[0].id == tcs@[0]@.id);
    assert(0 <= 0 < m@.tool_calls->0.len());
}

/// Whether the message is an assistant message carrying a tool call of
/// the given identifier.
fn message_carries(m: &PromptMessage, id: &String) -> (r: bool)
    ensures
        r == assistant_carries(m@, id@),
{
    let is_assistant = match m.role {
        Role::Assistant => true,
        _ => false,
    };
    if !is_assistant {
        return false;
    }
    match &m.tool_calls {
        Option::None => false,
        Option::Some(tcs) => {
            proof {
                assert(m@.tool_calls matches Option::Some(v) && v == tcs.deep_view());
            }
            let mut k: usize = 0;
            while k < tcs.len()
                invariant
                    k <= tcs.len(),
                    m@.tool_calls matches Option::Some(v) && v == tcs.deep_view(),
                    m@.role is Assistant,
                    forall|b: int| 0 <= b < k ==> (#[trigger] tcs@[b])@.id != id@,
                decreases tcs.len() - k,
            {
                if tcs[k].id == *id {
                    proof {
                        assert(tcs.deep_view()[k as int] == tcs@[k as int]@);
                        assert(tcs.deep_view()[k as int].id == id@);
                    }
                    return true;
                }
                k = k + 1;
            }
            proof {
                assert forall|b: int| 0 <= b < tcs.deep_view().len() implies (#[trigger] tcs.deep_view()[b]).id
                    != id@ by {
                    assert(tcs.deep_view()[b] == tcs@[b]@);
                }
            }
            false
        },
    }
}

/// Appends a `Tool`-role message answering the given call, but only under
/// a preceding assistant message that carries the call identifier:
/// without one, the conversation is left untouched and the append is
/// refused, since it would break the model invariant.
pub fn try_append_tool_message(history: &mut Vec<PromptMessage>, call_id: String, content: String) -> (ok:
    bool)
    ensures
        ok == matching_assistant_exists(old(history).deep_view(), call_id@),
        ok ==> final(history).deep_view() == old(history).deep_view().push(
            tool_message_v(content@, call_id@),
        ),
        !ok ==> final(history)@ == old(history)@,
        ok && conversation_wf(old(history).deep_view()) ==> conversation_wf(
            final(history).deep_view(),
        ),
{
    let ghost hv = history.deep_view();
    let mut j: usize = 0;
    let mut found = false;
    while j < history.len()
        invariant
            j <= history.len(),
            hv == history.deep_view(),
            hv.len() == history.len(),
            !found ==> forall|b: int| 0 <= b < j ==> !assistant_carries(#[trigger] hv[b], call_id@),
            found ==> matching_assistant_exists(hv, call_id@),
        decreases history.len() - j,
    {
        proof {
            assert(hv[j as int] == history@[j as int]@);
        }
        if message_carries(&history[j], &call_id) {
            found = true;
        }
        j = j + 1;
    }
    if !found {
        proof {
            assert forall|b: int| 0 <= b < hv.len() implies !assistant_carries(
                #[trigger] hv[b],
                call_id@,
            ) by {}
        }
        return false;
    }
    let msg = PromptMessage {
        role: Role::Tool,
        content,
        tool_calls: Option::None,
        tool_call_id: Option::Some(call_id),
    };
    proof {
        assert(msg@ == tool_message_v(msg.content@, msg.tool_call_id->0@));
        if conversation_wf(hv) {
            lemma_push_matched_tool_preserves_wf(hv, msg@);
        }
    }
    history.push(msg);
    proof {
        assert(history.deep_view() =~= hv.push(tool_message_v(content@, call_id@)));
    }
    true
}

/// One decided tool invocation: which call to answer, which registered
/// tool to run, and the normalised JSON object text of its arguments.
#[derive(Clone, Debug, PartialEq)]
pub struct ToolInvocation {
    pub id: String,
    pub name: String,
    pub arguments: String,
}

/// The orchestration between the first request and the first response.
pub struct FirstRound {
    pub model: String,
    pub temperature_milli: u32,
    pub max_tokens: u32,
    pub history: Vec<PromptMessage>,
    pub registry: ToolRegistry,
}

/// The orchestration between the decided tool dispatch and the tool's
/// result.
pub struct ToolDispatch {
    pub model: String,
    pub temperature_milli: u32,
    pub max_tokens: u32,
    pub history: Vec<PromptMessage>,
    pub assistant: PromptMessage,
    pub call_id: String,
}

/// What the first response decides: a terminal answer, a terminal error,
/// or one tool to run before a second round trip.
pub enum FirstOutcome {
    Done(String),
    Failed(ChatError),
    Dispatch(ToolDispatch, ToolInvocation),
}

/// Exact duplicates of a list of messages.
pub fn duplicate_messages(ms: &Vec<PromptMessage>) -> (r: Vec<PromptMessage>)
    ensures
        r.deep_view() == ms.deep_view(),
{
    let mut out: Vec<PromptMessage> = Vec::new();
    let mut i: usize = 0;
    while i < ms.len()
        invariant
            i <= ms.len(),
            out@.len() == i,
            forall|k: int| 0 <= k < i ==> (#[trigger] out@[k])@ == ms@[k]@,
        decreases ms.len() - i,
    {
        out.push(ms[i].duplicate());
        i = i + 1;
    }
    proof {
        assert forall|k: int| 0 <= k < ms.deep_view().len() implies out.deep_view()[k]
            == ms.deep_view()[k] by {
            assert(out@[k]@ == ms@[k]@);
        }
        assert(out.deep_view() =~= ms.deep_view());
    }
    out
}

/// Opens one chat invocation: keeps the history and the registry for the
/// round trip, and assembles the first request, with the full message
/// history and — exactly when the registry is non-empty — the tool
/// catalog.
pub fn start(
    client: &Client,
    messages: Vec<PromptMessage>,
    chat_model: &str,
    temperature_milli: u32,
    max_tokens: u32,
    registry: ToolRegistry,
) -> (r: (FirstRound, OpenAIRequest))
    ensures
        r.0.model@ == if chat_model@.len() == 0 {
            client.model_default@
        } else {
            chat_model@
        },
        r.0.temperature_milli == temperature_milli,
        r.0.max_tokens == max_tokens,
        r.0.history.deep_view() == messages.deep_view(),
        r.0.registry@ == registry@,
        r.1@.model == if chat_model@.len() == 0 {
            client.model_default@
        } else {
            chat_model@
        },
        r.1@.messages == messages.deep_view(),
        r.1.max_tokens == max_tokens,
        r.1.temperature_milli == temperature_milli,
        r.1.stream == false,
        registry@.len() == 0 ==> r.1.tools is None,
        registry@.len() > 0 ==> r.1@.tools == Option::Some(registry@),
{
    let history = duplicate_messages(&messages);
    let schemas = registry.schemas();
    let model = if chat_model.is_empty() {
        client.model_default.clone()
    } else {
        chat_model.to_owned()
    };
    let request = build(client, messages, chat_model, temperature_milli, max_tokens, schemas);
    let round = FirstRound { model, temperature_milli, max_tokens, history, registry };
    (round, request)
}

/// The first tool call of the first message, where one stands.
pub open spec fn requested_call(c: ChatCompletion) -> ToolCall
    recommends
        first_message(c) is Some,
        requests_tool(first_message(c)->0),
{
    first_message(c)->0.tool_calls->0@[0]
}

impl FirstRound {
    /// Decides on the first response, through the response interpreter: a
    /// final answer is terminal — a response without choice or message is
    /// the terminal sentinel `"none"` — and a tool request is dispatched
    /// against the registry: an unregistered name or argument text that
    /// does not normalise to a JSON object is a terminal error, and
    /// otherwise the matching registered tool is to be run.
    pub fn on_response(self, c: &ChatCompletion) -> (r: FirstOutcome)
        ensures
            first_message(*c) is None ==> (r matches FirstOutcome::Done(s) && s@ == "none"@),
            first_message(*c) is Some && !requests_tool(first_message(*c)->0) ==> (r
                matches FirstOutcome::Done(s) && s == first_message(*c)->0.content),
            first_message(*c) is Some && requests_tool(first_message(*c)->0) && !has_tool(
                self.registry@,
                requested_call(*c)@.name,
            ) ==> (r matches FirstOutcome::Failed(e) && e matches ChatError::UnknownTool(n) && n@
                == requested_call(*c)@.name),
            first_message(*c) is Some && requests_tool(first_message(*c)->0) && has_tool(
                self.registry@,
                requested_call(*c)@.name,
            ) && !parses_as_json_object(unescaped_quotes(requested_call(*c)@.arguments)) ==> (r
                matches FirstOutcome::Failed(e) && e matches ChatError::ArgumentDecode(a) && a@
                == unescaped_quotes(requested_call(*c)@.arguments)),
            first_message(*c) is Some && requests_tool(first_message(*c)->0) && has_tool(
                self.registry@,
                requested_call(*c)@.name,
            ) && parses_as_json_object(unescaped_quotes(requested_call(*c)@.arguments)) ==> (r
                matches FirstOutcome::Dispatch(d, inv) && {
                &&& inv.id@ == requested_call(*c)@.id
                &&& inv.name@ == requested_call(*c)@.name
                &&& inv.arguments@ == unescaped_quotes(requested_call(*c)@.arguments)
                &&& d.model@ == self.model@
                &&& d.temperature_milli == self.temperature_milli
                &&& d.max_tokens == self.max_tokens
                &&& d.history.deep_view() == self.history.deep_view()
                &&& d.assistant@ == first_message(*c)->0@
                &&& d.call_id@ == requested_call(*c)@.id
            }),
            first_message(*c) is Some && first_message(*c)->0.role is Assistant && requests_tool(
                first_message(*c)->0,
            ) && has_tool(self.registry@, requested_call(*c)@.name) && parses_as_json_object(
                unescaped_quotes(requested_call(*c)@.arguments),
            ) ==> (r matches FirstOutcome::Dispatch(d, inv) && assistant_carries(
                d.assistant@,
                d.call_id@,
            )),
    {
        let answer = interpret(c);
        match answer {
            Interpretation::FinalAnswer(s) => FirstOutcome::Done(s),
            Interpretation::ToolRequested(call) => {
                let assistant = clone_first_message(c);
                let found = match self.registry.find(&call.function.name) {
                    Option::Some(_) => true,
                    Option::None => false,
                };
                if !found {
                    return FirstOutcome::Failed(ChatError::UnknownTool(call.function.name));
                }
                let arguments = unescape_quotes(call.function.arguments.as_str());
                if !json_object_check(arguments.as_str()) {
                    return FirstOutcome::Failed(ChatError::ArgumentDecode(arguments));
                }
                let invocation = ToolInvocation {
                    id: call.id.clone(),
                    name: call.function.name,
                    arguments,
                };
                let dispatch = ToolDispatch {
                    model: self.model,
                    temperature_milli: self.temperature_milli,
                    max_tokens: self.max_tokens,
                    history: self.history,
                    assistant,
                    call_id: call.id,
                };
                proof {
                    let fm = first_message(*c)->0;
                    if fm.role is Assistant {
                        lemma_requesting_assistant_carries(fm);
                    }
                }
                FirstOutcome::Dispatch(dispatch, invocation)
            },
        }
    }
}

/// A duplicate of the message of the first choice.
fn clone_first_message(c: &ChatCompletion) -> (m: PromptMessage)
    requires
        first_message(*c) is Some,
    ensures
        m@ == first_message(*c)->0@,
{
    match &c.choices[0].message {
        Option::Some(m) => m.duplicate(),
        Option::None => unreached(),
    }
}

impl ToolDispatch {
    /// Closes the dispatch once the tool has run: appends, in order, the
    /// assistant message that carried the call and a `Tool`-role message
    /// holding the result under the call identifier, and assembles the
    /// follow-up request — the same model and parameters as the first,
    /// and no tool catalog at all, so the model cannot ask again.
    pub fn on_tool_result(self, result: String) -> (req: OpenAIRequest)
        ensures
            req@.model == self.model@,
            req.temperature_milli == self.temperature_milli,
            req.max_tokens == self.max_tokens,
            req.stream == false,
            req.tools is None,
            req@.messages == self.history.deep_view().push(self.assistant@).push(
                tool_message_v(result@, self.call_id@),
            ),
            conversation_wf(self.history.deep_view()) && assistant_carries(
                self.assistant@,
                self.call_id@,
            ) ==> conversation_wf(req@.messages),
    {
        let ghost hv = self.history.deep_view();
        let ghost av = self.assistant@;
        let ghost idv = self.call_id@;
        let mut messages = self.history;
        messages.push(self.assistant);
        let tool_msg = PromptMessage {
            role: Role::Tool,
            content: result,
            tool_calls: Option::None,
            tool_call_id: Option::Some(self.call_id),
        };
        proof {
            assert(tool_msg@ == tool_message_v(tool_msg.content@, idv));
        }
        messages.push(tool_msg);
        proof {
            assert(messages.deep_view() =~= hv.push(av).push(tool_message_v(tool_msg.content@, idv)));
            if conversation_wf(hv) && assistant_carries(av, idv) {
                assert(!(av.role is Tool));
                lemma_push_non_tool_preserves_wf(hv, av);
                assert(matching_assistant_exists(hv.push(av), idv)) by {
                    assert(hv.push(av)[hv.len() as int] == av);
                }
                lemma_push_matched_tool_preserves_wf(hv.push(av), tool_message_v(tool_msg.content@, idv));
            }
        }
        OpenAIRequest {
            model: self.model,
            messages,
            max_tokens: self.max_tokens,
            temperature_milli: self.temperature_milli,
            stream: false,
            tools: Option::None,
        }
    }
}

} // verus!
