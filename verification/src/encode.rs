//! The JSON encoding of outbound requests.
//!
//! The request body is framed here, character by character, against spec
//! functions that state the exact wire text: escaped strings, decimal
//! numbers, the fixed field order, and — decisive for the protocol — the
//! complete absence of the `tools` key when no tool is offered.

use vstd::prelude::*;
use crate::schema::Parameters;
use crate::schema::ParametersV;
use crate::schema::Property;
use crate::schema::PropertyV;
use crate::schema::ToolImpl;
use crate::schema::ToolV;
use crate::text::push_char;
use crate::types::MessageV;
use crate::types::OpenAIRequest;
use crate::types::PromptMessage;
use crate::types::RequestV;
use crate::types::Role;
use crate::types::ToolCall;
use crate::types::ToolCallV;

verus! {

/// The decimal digit character of a value below ten.
pub open spec fn dec_digit(d: int) -> char {
    if d == 0 {
        '0'
    } else if d == 1 {
        '1'
    } else if d == 2 {
        '2'
    } else if d == 3 {
        '3'
    } else if d == 4 {
        '4'
    } else if d == 5 {
        '5'
    } else if d == 6 {
        '6'
    } else if d == 7 {
        '7'
    } else if d == 8 {
        '8'
    } else {
        '9'
    }
}

/// The lower-case hexadecimal digit character of a value below sixteen.
pub open spec fn hex_digit(d: int) -> char {
    if d < 10 {
        dec_digit(d)
    } else if d == 10 {
        'a'
    } else if d == 11 {
        'b'
    } else if d == 12 {
        'c'
    } else if d == 13 {
        'd'
    } else if d == 14 {
        'e'
    } else {
        'f'
    }
}

/// How one character stands inside a JSON string: quote, backslash, and
/// the control characters are escaped, everything else stands as itself.
pub open spec fn escape_char(c: char) -> Seq<char> {
    if c == '"' {
        seq!['\\', '"']
    } else if c == '\\' {
        seq!['\\', '\\']
    } else if c == '\n' {
        seq!['\\', 'n']
    } else if c == '\r' {
        seq!['\\', 'r']
    } else if c == '\t' {
        seq!['\\', 't']
    } else if (c as u32) < 32 {
        seq!['\\', 'u', '0', '0', hex_digit((c as u32) as int / 16), hex_digit((c as u32) as int % 16)]
    } else {
        seq![c]
    }
}

/// The body of a JSON string: every character escaped, in order.
pub open spec fn escaped(s: Seq<char>) -> Seq<char>
    decreases s.len(),
{
    if s.len() == 0 {
        Seq::empty()
    } else {
        escaped(s.drop_last()) + escape_char(s.last())
    }
}

/// A JSON string: the escaped text between quotes.
pub open spec fn quoted(s: Seq<char>) -> Seq<char> {
    seq!['"'] + escaped(s) + seq!['"']
}

/// The decimal notation of a number, without sign or padding.
pub open spec fn decimal(n: nat) -> Seq<char>
    decreases n,
{
    if n < 10 {
        seq![dec_digit(n as int)]
    } else {
        decimal(n / 10) + seq![dec_digit((n % 10) as int)]
    }
}

/// A value of thousandths in decimal notation: the whole part, a point,
/// and exactly three fractional digits.
pub open spec fn milli_decimal(n: nat) -> Seq<char> {
    decimal(n / 1000) + seq!['.', dec_digit(((n / 100) % 10) as int), dec_digit(
        ((n / 10) % 10) as int,
    ), dec_digit((n % 10) as int)]
}

/// A JSON boolean.
pub open spec fn bool_json(b: bool) -> Seq<char> {
    if b {
        "true"@
    } else {
        "false"@
    }
}

/// The decimal digit character of a value below ten.
fn dec_digit_char(d: u32) -> (r: char)
    requires
        d < 10,
    ensures
        r == dec_digit(d as int),
{
    if d == 0 {
        '0'
    } else if d == 1 {
        '1'
    } else if d == 2 {
        '2'
    } else if d == 3 {
        '3'
    } else if d == 4 {
        '4'
    } else if d == 5 {
        '5'
    } else if d == 6 {
        '6'
    } else if d == 7 {
        '7'
    } else if d == 8 {
        '8'
    } else {
        '9'
    }
}

/// The lower-case hexadecimal digit character of a value below sixteen.
fn hex_digit_char(d: u32) -> (r: char)
    requires
        d < 16,
    ensures
        r == hex_digit(d as int),
{
    if d < 10 {
        dec_digit_char(d)
    } else if d == 10 {
        'a'
    } else if d == 11 {
        'b'
    } else if d == 12 {
        'c'
    } else if d == 13 {
        'd'
    } else if d == 14 {
        'e'
    } else {
        'f'
    }
}

/// Appends one character in its escaped JSON form.
fn append_escape_char(out: &mut String, c: char)
    ensures
        final(out)@ == old(out)@ + escape_char(c),
{
    if c == '"' {
        push_char(out, '\\');
        push_char(out, '"');
    } else if c == '\\' {
        push_char(out, '\\');
        push_char(out, '\\');
    } else if c == '\n' {
        push_char(out, '\\');
        push_char(out, 'n');
    } else if c == '\r' {
        push_char(out, '\\');
        push_char(out, 'r');
    } else if c == '\t' {
        push_char(out, '\\');
        push_char(out, 't');
    } else if (c as u32) < 32 {
        push_char(out, '\\');
        push_char(out, 'u');
        push_char(out, '0');
        push_char(out, '0');
        push_char(out, hex_digit_char((c as u32) / 16));
        push_char(out, hex_digit_char((c as u32) % 16));
    } else {
        push_char(out, c);
    }
    proof {
        assert(final(out)@ =~= old(out)@ + escape_char(c));
    }
}

/// Appends the escaped body of a JSON string.
fn append_escaped(out: &mut String, s: &String)
    ensures
        final(out)@ == old(out)@ + escaped(s@),
{
    let n = s.as_str().unicode_len();
    let mut i: usize = 0;
    while i < n
        invariant
            i <= n,
            n == s@.len(),
            out@ == old(out)@ + escaped(s@.take(i as int)),
        decreases n - i,
    {
        let c = s.as_str().get_char(i);
        append_escape_char(out, c);
        proof {
            assert(s@.take(i + 1).drop_last() =~= s@.take(i as int));
            assert(s@.take(i + 1).last() == c);
            assert(out@ =~= old(out)@ + escaped(s@.take(i + 1)));
        }
        i = i + 1;
    }
    proof {
        assert(s@.take(n as int) =~= s@);
        assert(out@ =~= old(out)@ + escaped(s@));
    }
}

/// Appends a JSON string: the escaped text between quotes.
fn append_quoted(out: &mut String, s: &String)
    ensures
        final(out)@ == old(out)@ + quoted(s@),
{
    push_char(out, '"');
    append_escaped(out, s);
    push_char(out, '"');
    proof {
        assert(final(out)@ =~= old(out)@ + quoted(s@));
    }
}

/// Appends the decimal notation of a number.
fn append_decimal(out: &mut String, n: u32)
    ensures
        final(out)@ == old(out)@ + decimal(n as nat),
    decreases n,
{
    if n < 10 {
        push_char(out, dec_digit_char(n));
        proof {
            assert(final(out)@ =~= old(out)@ + decimal(n as nat));
        }
    } else {
        append_decimal(out, n / 10);
        push_char(out, dec_digit_char(n % 10));
        proof {
            assert(final(out)@ =~= old(out)@ + decimal(n as nat));
        }
    }
}

/// Appends a value of thousandths in decimal notation.
fn append_milli_decimal(out: &mut String, n: u32)
    ensures
        final(out)@ == old(out)@ + milli_decimal(n as nat),
{
    append_decimal(out, n / 1000);
    push_char(out, '.');
    push_char(out, dec_digit_char((n / 100) % 10));
    push_char(out, dec_digit_char((n / 10) % 10));
    push_char(out, dec_digit_char(n % 10));
    proof {
        assert(final(out)@ =~= old(out)@ + milli_decimal(n as nat));
    }
}

/// Appends a JSON boolean.
fn append_bool(out: &mut String, b: bool)
    ensures
        final(out)@ == old(out)@ + bool_json(b),
{
    if b {
        out.append("true");
    } else {
        out.append("false");
    }
}

/// The JSON string of a role, as it stands on the wire.
pub open spec fn role_json(r: Role) -> Seq<char> {
    match r {
        Role::System => "\"system\""@,
        Role::User => "\"user\""@,
        Role::Assistant => "\"assistant\""@,
        Role::Tool => "\"tool\""@,
    }
}

/// The JSON object of one model-issued tool call.
pub open spec fn tool_call_json(c: ToolCallV) -> Seq<char> {
    "{\"id\":"@ + quoted(c.id) + ",\"type\":"@ + quoted(c.ty) + ",\"function\":{\"name\":"@
        + quoted(c.name) + ",\"arguments\":"@ + quoted(c.arguments) + "}}"@
}

/// A comma-joined list of tool call objects.
pub open spec fn tool_calls_json(cs: Seq<ToolCallV>) -> Seq<char>
    decreases cs.len(),
{
    if cs.len() == 0 {
        Seq::empty()
    } else if cs.len() == 1 {
        tool_call_json(cs[0])
    } else {
        tool_calls_json(cs.drop_last()) + seq![','] + tool_call_json(cs.last())
    }
}

/// The JSON object of one conversation message. The optional fields are
/// absent keys, not null values.
pub open spec fn message_json(m: MessageV) -> Seq<char> {
    "{\"role\":"@ + role_json(m.role) + ",\"content\":"@ + quoted(m.content) + (match m.tool_calls {
        Option::None => Seq::<char>::empty(),
        Option::Some(cs) => ",\"tool_calls\":["@ + tool_calls_json(cs) + "]"@,
    }) + (match m.tool_call_id {
        Option::None => Seq::<char>::empty(),
        Option::Some(id) => ",\"tool_call_id\":"@ + quoted(id),
    }) + "}"@
}

/// A comma-joined list of message objects.
pub open spec fn messages_json(ms: Seq<MessageV>) -> Seq<char>
    decreases ms.len(),
{
    if ms.len() == 0 {
        Seq::empty()
    } else if ms.len() == 1 {
        message_json(ms[0])
    } else {
        messages_json(ms.drop_last()) + seq![','] + message_json(ms.last())
    }
}

/// A comma-joined list of JSON strings.
pub open spec fn string_list_json(ss: Seq<Seq<char>>) -> Seq<char>
    decreases ss.len(),
{
    if ss.len() == 0 {
        Seq::empty()
    } else if ss.len() == 1 {
        quoted(ss[0])
    } else {
        string_list_json(ss.drop_last()) + seq![','] + quoted(ss.last())
    }
}

/// The JSON entry of one named property inside a `properties` object.
pub open spec fn property_json(name: Seq<char>, p: PropertyV) -> Seq<char> {
    quoted(name) + ":{\"type\":"@ + quoted(p.ty) + (match p.choices {
        Option::None => Seq::<char>::empty(),
        Option::Some(cs) => ",\"enum\":["@ + string_list_json(cs) + "]"@,
    }) + ",\"description\":"@ + quoted(p.description) + "}"@
}

/// A comma-joined list of property entries.
pub open spec fn properties_json(ps: Seq<(Seq<char>, PropertyV)>) -> Seq<char>
    decreases ps.len(),
{
    if ps.len() == 0 {
        Seq::empty()
    } else if ps.len() == 1 {
        property_json(ps[0].0, ps[0].1)
    } else {
        properties_json(ps.drop_last()) + seq![','] + property_json(ps.last().0, ps.last().1)
    }
}

/// The JSON object of a tool's parameter schema.
pub open spec fn parameters_json(p: ParametersV) -> Seq<char> {
    "{\"type\":"@ + quoted(p.ty) + ",\"properties\":{"@ + properties_json(p.properties)
        + "},\"required\":["@ + string_list_json(p.required) + "]}"@
}

/// The JSON object of one offered tool.
pub open spec fn tool_json(t: ToolV) -> Seq<char> {
    "{\"type\":\"function\",\"function\":{\"name\":"@ + quoted(t.name) + ",\"description\":"@
        + quoted(t.description) + ",\"parameters\":"@ + parameters_json(t.parameters) + "}}"@
}

/// A comma-joined list of tool objects.
pub open spec fn tools_json(ts: Seq<ToolV>) -> Seq<char>
    decreases ts.len(),
{
    if ts.len() == 0 {
        Seq::empty()
    } else if ts.len() == 1 {
        tool_json(ts[0])
    } else {
        tools_json(ts.drop_last()) + seq![','] + tool_json(ts.last())
    }
}

/// The complete JSON body of an outbound request. A request without tools
/// carries no `tools` key at all.
pub open spec fn request_json(r: RequestV) -> Seq<char> {
    "{\"model\":"@ + quoted(r.model) + ",\"messages\":["@ + messages_json(r.messages)
        + "],\"max_tokens\":"@ + decimal(r.max_tokens as nat) + ",\"temperature\":"@
        + milli_decimal(r.temperature_milli as nat) + ",\"stream\":"@ + bool_json(r.stream) + (
    match r.tools {
        Option::None => Seq::<char>::empty(),
        Option::Some(ts) => ",\"tools\":["@ + tools_json(ts) + "]"@,
    }) + "}"@
}

/// Appends the JSON string of a role.
fn append_role(out: &mut String, r: Role)
    ensures
        final(out)@ == old(out)@ + role_json(r),
{
    match r {
        Role::System => out.append("\"system\""),
        Role::User => out.append("\"user\""),
        Role::Assistant => out.append("\"assistant\""),
        Role::Tool => out.append("\"tool\""),
    }
}

/// Appends the JSON object of one tool call.
fn append_tool_call(out: &mut String, c: &ToolCall)
    ensures
        final(out)@ == old(out)@ + tool_call_json(c@),
{
    out.append("{\"id\":");
    append_quoted(out, &c.id);
    out.append(",\"type\":");
    append_quoted(out, &c.ty);
    out.append(",\"function\":{\"name\":");
    append_quoted(out, &c.function.name);
    out.append(",\"arguments\":");
    append_quoted(out, &c.function.arguments);
    out.append("}}");
    proof {
        assert(final(out)@ =~= old(out)@ + tool_call_json(c@));
    }
}

/// Appends the comma-joined tool call objects of a list.
fn append_tool_calls(out: &mut String, cs: &Vec<ToolCall>)
    ensures
        final(out)@ == old(out)@ + tool_calls_json(cs.deep_view()),
{
    let ghost cv = cs.deep_view();
    let mut i: usize = 0;
    while i < cs.len()
        invariant
            i <= cs.len(),
            cv == cs.deep_view(),
            cv.len() == cs.len(),
            out@ == old(out)@ + tool_calls_json(cv.take(i as int)),
        decreases cs.len() - i,
    {
        if i > 0 {
            push_char(out, ',');
        }
        append_tool_call(out, &cs[i]);
        proof {
            assert(cv[i as int] == cs@[i as int]@);
            assert(cv.take(i + 1).drop_last() =~= cv.take(i as int));
            assert(cv.take(i + 1).last() == cv[i as int]);
            assert(out@ =~= old(out)@ + tool_calls_json(cv.take(i + 1)));
        }
        i = i + 1;
    }
    proof {
        assert(cv.take(cs@.len() as int) =~= cv);
        assert(out@ =~= old(out)@ + tool_calls_json(cv));
    }
}

/// Appends the JSON object of one message.
#[verifier::rlimit(50)]
fn append_message(out: &mut String, m: &PromptMessage)
    ensures
        final(out)@ == old(out)@ + message_json(m@),
{
    out.append("{\"role\":");
    append_role(out, m.role);
    out.append(",\"content\":");
    append_quoted(out, &m.content);
    match &m.tool_calls {
        Option::None => {},
        Option::Some(cs) => {
            out.append(",\"tool_calls\":[");
            append_tool_calls(out, cs);
            out.append("]");
        },
    }
    match &m.tool_call_id {
        Option::None => {},
        Option::Some(id) => {
            out.append(",\"tool_call_id\":");
            append_quoted(out, id);
        },
    }
    out.append("}");
    proof {
        assert(final(out)@ =~= old(out)@ + message_json(m@));
    }
}

/// Appends the comma-joined message objects of a conversation.
fn append_messages(out: &mut String, ms: &Vec<PromptMessage>)
    ensures
        final(out)@ == old(out)@ + messages_json(ms.deep_view()),
{
    let ghost mv = ms.deep_view();
    let mut i: usize = 0;
    while i < ms.len()
        invariant
            i <= ms.len(),
            mv == ms.deep_view(),
            mv.len() == ms.len(),
            out@ == old(out)@ + messages_json(mv.take(i as int)),
        decreases ms.len() - i,
    {
        if i > 0 {
            push_char(out, ',');
        }
        append_message(out, &ms[i]);
        proof {
            assert(mv[i as int] == ms@[i as int]@);
            assert(mv.take(i + 1).drop_last() =~= mv.take(i as int));
            assert(mv.take(i + 1).last() == mv[i as int]);
            assert(out@ =~= old(out)@ + messages_json(mv.take(i + 1)));
        }
        i = i + 1;
    }
    proof {
        assert(mv.take(ms@.len() as int) =~= mv);
        assert(out@ =~= old(out)@ + messages_json(mv));
    }
}

/// Appends the comma-joined JSON strings of a list.
fn append_string_list(out: &mut String, ss: &Vec<String>)
    ensures
        final(out)@ == old(out)@ + string_list_json(ss.deep_view()),
{
    let ghost sv = ss.deep_view();
    let mut i: usize = 0;
    while i < ss.len()
        invariant
            i <= ss.len(),
            sv == ss.deep_view(),
            sv.len() == ss.len(),
            out@ == old(out)@ + string_list_json(sv.take(i as int)),
        decreases ss.len() - i,
    {
        if i > 0 {
            push_char(out, ',');
        }
        append_quoted(out, &ss[i]);
        proof {
            assert(sv[i as int] == ss@[i as int]@);
            assert(sv.take(i + 1).drop_last() =~= sv.take(i as int));
            assert(sv.take(i + 1).last() == sv[i as int]);
            assert(out@ =~= old(out)@ + string_list_json(sv.take(i + 1)));
        }
        i = i + 1;
    }
    proof {
        assert(sv.take(ss@.len() as int) =~= sv);
        assert(out@ =~= old(out)@ + string_list_json(sv));
    }
}

/// Appends the JSON entry of one named property.
fn append_property(out: &mut String, name: &String, p: &Property)
    ensures
        final(out)@ == old(out)@ + property_json(name@, p@),
{
    append_quoted(out, name);
    out.append(":{\"type\":");
    append_quoted(out, &p.ty);
    match &p.choices {
        Option::None => {},
        Option::Some(cs) => {
            out.append(",\"enum\":[");
            append_string_list(out, cs);
            out.append("]");
        },
    }
    out.append(",\"description\":");
    append_quoted(out, &p.description);
    out.append("}");
    proof {
        assert(final(out)@ =~= old(out)@ + property_json(name@, p@));
    }
}

/// Appends the comma-joined property entries of a schema.
fn append_properties(out: &mut String, ps: &Vec<(String, Property)>)
    ensures
        final(out)@ == old(out)@ + properties_json(
            ps@.map_values(|p: (String, Property)| (p.0@, p.1@)),
        ),
{
    let ghost pv = ps@.map_values(|p: (String, Property)| (p.0@, p.1@));
    let mut i: usize = 0;
    while i < ps.len()
        invariant
            i <= ps.len(),
            pv == ps@.map_values(|p: (String, Property)| (p.0@, p.1@)),
            pv.len() == ps.len(),
            out@ == old(out)@ + properties_json(pv.take(i as int)),
        decreases ps.len() - i,
    {
        if i > 0 {
            push_char(out, ',');
        }
        let pair = &ps[i];
        append_property(out, &pair.0, &pair.1);
        proof {
            assert(pv[i as int] == (ps@[i as int].0@, ps@[i as int].1@));
            assert(pv.take(i + 1).drop_last() =~= pv.take(i as int));
            assert(pv.take(i + 1).last() == pv[i as int]);
            assert(out@ =~= old(out)@ + properties_json(pv.take(i + 1)));
        }
        i = i + 1;
    }
    proof {
        assert(pv.take(ps@.len() as int) =~= pv);
        assert(out@ =~= old(out)@ + properties_json(pv));
    }
}

/// Appends the JSON object of a parameter schema.
fn append_parameters(out: &mut String, p: &Parameters)
    ensures
        final(out)@ == old(out)@ + parameters_json(p@),
{
    out.append("{\"type\":");
    append_quoted(out, &p.ty);
    out.append(",\"properties\":{");
    append_properties(out, &p.properties);
    out.append("},\"required\":[");
    append_string_list(out, &p.required);
    out.append("]}");
    proof {
        assert(final(out)@ =~= old(out)@ + parameters_json(p@));
    }
}

/// Appends the JSON object of one offered tool.
fn append_tool(out: &mut String, t: &ToolImpl)
    ensures
        final(out)@ == old(out)@ + tool_json(t@),
{
    out.append("{\"type\":\"function\",\"function\":{\"name\":");
    match t {
        ToolImpl::Function { name, description, parameters } => {
            append_quoted(out, name);
            out.append(",\"description\":");
            append_quoted(out, description);
            out.append(",\"parameters\":");
            append_parameters(out, parameters);
        },
    }
    out.append("}}");
    proof {
        assert(final(out)@ =~= old(out)@ + tool_json(t@));
    }
}

/// Appends the comma-joined tool objects of a catalog.
fn append_tools(out: &mut String, ts: &Vec<ToolImpl>)
    ensures
        final(out)@ == old(out)@ + tools_json(ts.deep_view()),
{
    let ghost tv = ts.deep_view();
    let mut i: usize = 0;
    while i < ts.len()
        invariant
            i <= ts.len(),
            tv == ts.deep_view(),
            tv.len() == ts.len(),
            out@ == old(out)@ + tools_json(tv.take(i as int)),
        decreases ts.len() - i,
    {
        if i > 0 {
            push_char(out, ',');
        }
        append_tool(out, &ts[i]);
        proof {
            assert(tv[i as int] == ts@[i as int]@);
            assert(tv.take(i + 1).drop_last() =~= tv.take(i as int));
            assert(tv.take(i + 1).last() == tv[i as int]);
            assert(out@ =~= old(out)@ + tools_json(tv.take(i + 1)));
        }
        i = i + 1;
    }
    proof {
        assert(tv.take(ts@.len() as int) =~= tv);
        assert(out@ =~= old(out)@ + tools_json(tv));
    }
}

/// The complete JSON body of an outbound request, exactly as it goes on
/// the wire. A request whose `tools` is `None` carries no `tools` key.
pub fn request_to_json(r: &OpenAIRequest) -> (s: String)
    ensures
        s@ == request_json(r@),
{
    let mut out = String::new();
    out.append("{\"model\":");
    append_quoted(&mut out, &r.model);
    out.append(",\"messages\":[");
    append_messages(&mut out, &r.messages);
    out.append("],\"max_tokens\":");
    append_decimal(&mut out, r.max_tokens);
    out.append(",\"temperature\":");
    append_milli_decimal(&mut out, r.temperature_milli);
    out.append(",\"stream\":");
    append_bool(&mut out, r.stream);
    match &r.tools {
        Option::None => {},
        Option::Some(ts) => {
            out.append(",\"tools\":[");
            append_tools(&mut out, ts);
            out.append("]");
        },
    }
    out.append("}");
    proof {
        assert(out@ =~= request_json(r@));
    }
    out
}

} // verus!

