use vstd::prelude::*;
use crate::error::{AppError, AppErrorV};
use crate::ids::{is_ulid_text, new_ulid};
use crate::json::{
    Json, JsonV, field, item, as_str, get_field, get_item, get_str, json_clone, json_text,
    lookup, parse_json, spec_json_parse, spec_json_text, view_parse,
};
use crate::model::{
    FunctionCall, FunctionCallV, Message, MessageV, Role, Tool, ToolCall, ToolCallV, ToolV,
    calls_view, copy_opt_string, messages_view, opt_view, tools_view,
};
use crate::text::{
    append_chars, append_str, chars_of, chars_eq, contains, contains_exec, copy_string, ends_with,
    find, find_exec, lines, lines_of, slice_vec, spec_to_lowercase, spec_utf8_lossy, starts_with,
    string_from, string_from_range, to_lowercase, trim, trim_bounds, trim_chars, utf8_lossy,
};

verus! {

// ---------------------------------------------------------------------
// The messages that the Ollama chat API answers with
// ---------------------------------------------------------------------

/// A function call as the API writes it: a name and arguments of any JSON form.
#[derive(Debug)]
pub struct OllamaFunctionCall {
    pub name: String,
    pub arguments: Json,
}

pub struct OllamaFunctionCallV {
    pub name: Seq<char>,
    pub arguments: JsonV,
}

impl View for OllamaFunctionCall {
    type V = OllamaFunctionCallV;

    open spec fn view(&self) -> OllamaFunctionCallV {
        OllamaFunctionCallV { name: self.name@, arguments: self.arguments@ }
    }
}

/// A tool call as the API writes it: either nested under `function`, or with the
/// name and arguments at the top.
#[derive(Debug)]
pub struct OllamaToolCall {
    pub function: Option<OllamaFunctionCall>,
    pub name: Option<String>,
    pub arguments: Option<Json>,
}

pub struct OllamaToolCallV {
    pub function: Option<OllamaFunctionCallV>,
    pub name: Option<Seq<char>>,
    pub arguments: Option<JsonV>,
}

impl View for OllamaToolCall {
    type V = OllamaToolCallV;

    open spec fn view(&self) -> OllamaToolCallV {
        OllamaToolCallV {
            function: match self.function {
                Some(f) => Some(f@),
                None => None,
            },
            name: opt_view(self.name),
            arguments: match self.arguments {
                Some(a) => Some(a@),
                None => None,
            },
        }
    }
}

/// The message of the first choice of an answer.
#[derive(Debug)]
pub struct OllamaMessage {
    pub role: String,
    pub content: Option<String>,
    pub tool_calls: Option<Vec<OllamaToolCall>>,
    pub tool_call: Option<OllamaToolCall>,
    pub function_call: Option<OllamaFunctionCall>,
}

pub struct OllamaMessageV {
    pub role: Seq<char>,
    pub content: Option<Seq<char>>,
    pub tool_calls: Option<Seq<OllamaToolCallV>>,
    pub tool_call: Option<OllamaToolCallV>,
    pub function_call: Option<OllamaFunctionCallV>,
}

pub open spec fn ollama_calls_view(v: Seq<OllamaToolCall>) -> Seq<OllamaToolCallV> {
    v.map_values(|c: OllamaToolCall| c@)
}

impl View for OllamaMessage {
    type V = OllamaMessageV;

    open spec fn view(&self) -> OllamaMessageV {
        OllamaMessageV {
            role: self.role@,
            content: opt_view(self.content),
            tool_calls: match self.tool_calls {
                Some(c) => Some(ollama_calls_view(c@)),
                None => None,
            },
            tool_call: match self.tool_call {
                Some(c) => Some(c@),
                None => None,
            },
            function_call: match self.function_call {
                Some(f) => Some(f@),
                None => None,
            },
        }
    }
}

// ---------------------------------------------------------------------
// From the API's calls to the conversation's calls
// ---------------------------------------------------------------------

/// Arguments as text: a string argument as it stands, any other document as its
/// compact JSON text.
pub open spec fn args_text(v: JsonV) -> Seq<char> {
    match v {
        JsonV::Str(s) => s,
        _ => spec_json_text(v),
    }
}

pub open spec fn fcall(name: Seq<char>, args: JsonV) -> FunctionCallV {
    FunctionCallV { name, arguments: args_text(args) }
}

/// A call identifier: `call_` and a fresh ULID.
pub open spec fn is_call_id(s: Seq<char>) -> bool {
    &&& s.len() == 31
    &&& s.take(5) == "call_"@
    &&& is_ulid_text(s.skip(5))
}

/// `c` is a newly identified function call of `f`.
pub open spec fn fresh_call(c: ToolCallV, f: FunctionCallV) -> bool {
    &&& is_call_id(c.id)
    &&& c.tool_type == "function"@
    &&& c.function == f
}

/// The calls `cs` carry the functions `fs`, in order, each with a fresh identifier.
pub open spec fn fresh_calls(cs: Seq<ToolCallV>, fs: Seq<FunctionCallV>) -> bool {
    &&& cs.len() == fs.len()
    &&& forall|i: int| 0 <= i < cs.len() ==> fresh_call(#[trigger] cs[i], fs[i])
}

/// The function that an API tool call names, if it names one.
pub open spec fn tool_call_function(c: OllamaToolCallV) -> Option<FunctionCallV> {
    match c.function {
        Some(f) => Some(fcall(f.name, f.arguments)),
        None => match (c.name, c.arguments) {
            (Some(n), Some(a)) => Some(fcall(n, a)),
            _ => None,
        },
    }
}

/// The functions named by a list of API tool calls, skipping those that name none.
pub open spec fn listed_calls(cs: Seq<OllamaToolCallV>) -> Seq<FunctionCallV>
    decreases cs.len(),
{
    if cs.len() == 0 {
        Seq::empty()
    } else {
        let rest = listed_calls(cs.drop_last());
        match tool_call_function(cs.last()) {
            Some(f) => rest.push(f),
            None => rest,
        }
    }
}

/// The calls of a list are read one by one: reading two runs of calls is reading
/// each and joining the results, so every call that names a function is kept, in
/// order.
pub proof fn law_listed_calls_join(a: Seq<OllamaToolCallV>, b: Seq<OllamaToolCallV>)
    ensures
        listed_calls(a + b) == listed_calls(a) + listed_calls(b),
    decreases b.len(),
{
    if b.len() == 0 {
        assert(a + b =~= a);
        assert(listed_calls(a) + listed_calls(b) =~= listed_calls(a));
    } else {
        let d = b.drop_last();
        law_listed_calls_join(a, d);
        assert((a + b).drop_last() =~= a + d);
        assert((a + b).last() == b.last());
        match tool_call_function(b.last()) {
            Some(f) => {
                assert((listed_calls(a) + listed_calls(d)).push(f) =~= listed_calls(a) + listed_calls(d).push(f));
            },
            None => {},
        }
    }
}

/// A fresh call identifier: `call_` followed by a new ULID.
pub fn new_call_id() -> (r: String)
    ensures
        is_call_id(r@),
{
    let mut id = "call_".to_owned();
    let u = new_ulid();
    append_str(&mut id, u.as_str());
    proof {
        reveal_strlit("call_");
        assert(id@.take(5) =~= "call_"@);
        assert(id@.skip(5) =~= u@);
    }
    id
}

/// Arguments as text: a string argument as it stands, any other document as its
/// compact JSON text.
pub fn arguments_text(v: &Json) -> (r: String)
    ensures
        r@ == args_text(v@),
{
    match v {
        Json::Str(s) => copy_string(s),
        _ => json_text(v),
    }
}

/// A conversation tool call of `name` with `arguments`, under a fresh identifier.
pub fn make_call(name: String, arguments: &Json) -> (r: ToolCall)
    ensures
        fresh_call(r@, fcall(name@, arguments@)),
{
    proof {
        reveal_strlit("function");
    }
    ToolCall {
        id: new_call_id(),
        tool_type: "function".to_owned(),
        function: FunctionCall { name, arguments: arguments_text(arguments) },
    }
}

impl OllamaToolCall {
    /// The conversation's form of this call, under a fresh identifier, when the call
    /// names a function (nested, or by top-level name and arguments).
    pub fn into_domain(self) -> (r: Option<ToolCall>)
        ensures
            r is Some <==> tool_call_function(self@) is Some,
            r matches Some(c) ==> fresh_call(c@, tool_call_function(self@)->Some_0),
    {
        if let Some(function) = self.function {
            return Some(make_call(function.name, &function.arguments));
        }
        match (self.name, self.arguments) {
            (Some(name), Some(arguments)) => Some(make_call(name, &arguments)),
            _ => None,
        }
    }
}

/// The functions of a list of API tool calls, under fresh identifiers.
pub fn domain_calls(calls: Vec<OllamaToolCall>) -> (r: Vec<ToolCall>)
    ensures
        fresh_calls(calls_view(r@), listed_calls(ollama_calls_view(calls@))),
{
    let ghost cv = ollama_calls_view(calls@);
    let mut out: Vec<ToolCall> = Vec::new();
    let mut calls = calls;
    let n = calls.len();
    assert(cv.skip(0) =~= ollama_calls_view(calls@));
    while calls.len() > 0
        invariant
            calls@.len() <= n,
            n == cv.len(),
            ollama_calls_view(calls@) == cv.skip(n - calls@.len()),
            fresh_calls(calls_view(out@), listed_calls(cv.take(n - calls@.len()))),
        decreases calls.len(),
    {
        let ghost k = n - calls@.len();
        let ghost old_calls = calls@;
        let c = calls.remove(0);
        assert(c@ == cv.skip(k)[0]);
        assert forall|i: int| 0 <= i < calls@.len() implies ollama_calls_view(calls@)[i] == cv.skip(k + 1)[i] by {
            assert(calls@[i] == old_calls[i + 1]);
            assert(ollama_calls_view(old_calls)[i + 1] == cv.skip(k)[i + 1]);
        }
        assert(ollama_calls_view(calls@) =~= cv.skip(k + 1));
        assert(cv.take(k + 1).drop_last() =~= cv.take(k));
        let ghost before = calls_view(out@);
        match c.into_domain() {
            Some(t) => {
                out.push(t);
                assert(calls_view(out@) =~= before.push(t@));
            },
            None => {},
        }
    }
    assert(cv.take(n as int) =~= cv);
    out
}

// ---------------------------------------------------------------------
// Calls written as JSON documents
// ---------------------------------------------------------------------

/// What a document holds when read as an `OllamaFunctionCall` record: an object
/// with a string `name` and an `arguments` member, or a two-element array of a
/// string and the arguments.
pub open spec fn function_call_shape(v: JsonV) -> Option<(Seq<char>, JsonV)> {
    match v {
        JsonV::Object(m) => match (lookup(m, "name"@), lookup(m, "arguments"@)) {
            (Some(JsonV::Str(n)), Some(a)) => Some((n, a)),
            _ => None,
        },
        JsonV::Array(a) => if a.len() == 2 && a[0] is Str {
            Some((a[0]->Str_0, a[1]))
        } else {
            None
        },
        _ => None,
    }
}

/// The function that a document names, if it names one.
pub open spec fn value_call(v: JsonV) -> Option<FunctionCallV> {
    match function_call_shape(v) {
        Some((n, a)) => Some(fcall(n, a)),
        None => None,
    }
}

/// Reads a document as an `OllamaFunctionCall` record.
fn decode_function_call(value: &Json) -> (r: Option<(String, Json)>)
    ensures
        r matches Some(p) ==> function_call_shape(value@) == Some((p.0@, p.1@)),
        r is None ==> function_call_shape(value@) is None,
{
    match value {
        Json::Object(_) => {
            let name = get_field(value, "name");
            match name {
                Json::Str(n) => {
                    if has_member(value, "arguments") {
                        let a = get_field(value, "arguments");
                        Some((n, a))
                    } else {
                        None
                    }
                },
                _ => {
                    proof {
                        lemma_member_present(value@, "name"@);
                    }
                    None
                },
            }
        },
        Json::Array(items) => {
            proof {
                crate::json::lemma_view_array(*items);
            }
            if items.len() == 2 {
                match &items[0] {
                    Json::Str(n) => Some((copy_string(n), json_clone(&items[1]))),
                    _ => None,
                }
            } else {
                None
            }
        },
        _ => None,
    }
}

pub proof fn lemma_member_present(v: JsonV, key: Seq<char>)
    ensures
        v is Object && lookup(v->Object_0, key) is Some ==> field(v, key) == lookup(
            v->Object_0,
            key,
        )->Some_0,
        v is Object && lookup(v->Object_0, key) is None ==> field(v, key) == JsonV::Null,
{
}

/// Whether an object has a member named `key`.
fn has_member(value: &Json, key: &str) -> (r: bool)
    ensures
        r == (value@ is Object && lookup(value@->Object_0, key@) is Some),
{
    match value {
        Json::Object(m) => {
            proof {
                crate::json::lemma_view_object(*m);
            }
            let ghost members = crate::json::view_members(m@);
            let mut i: usize = 0;
            assert(members.skip(0) =~= members);
            while i < m.len()
                invariant
                    i <= m.len(),
                    value@ == JsonV::Object(members),
                    members == crate::json::view_members(m@),
                    lookup(members.skip(i as int), key@) == lookup(members, key@),
                decreases m.len() - i,
            {
                assert(members.skip(i as int).drop_first() =~= members.skip(i + 1));
                if crate::text::str_eq(m[i].0.as_str(), key) {
                    assert(members.skip(i as int)[0] == members[i as int]);
                    return true;
                }
                i = i + 1;
            }
            false
        },
        _ => false,
    }
}

/// Reads a tool call from a document: first as an `OllamaFunctionCall` record, then
/// from an object's `name` and `arguments` members.
pub fn parse_tool_call_from_value(value: &Json) -> (r: Option<ToolCall>)
    ensures
        r is Some <==> value_call(value@) is Some,
        r matches Some(c) ==> fresh_call(c@, value_call(value@)->Some_0),
{
    if let Some((name, arguments)) = decode_function_call(value) {
        return Some(make_call(name, &arguments));
    }
    // An object whose `name` is a string and that has `arguments`.
    match value {
        Json::Object(_) => {
            let name = get_field(value, "name");
            match get_str(&name) {
                Some(n) => {
                    if has_member(value, "arguments") {
                        let a = get_field(value, "arguments");
                        Some(make_call(n, &a))
                    } else {
                        None
                    }
                },
                None => None,
            }
        },
        _ => None,
    }
}

// ---------------------------------------------------------------------
// Tool calls written in the text of an answer
// ---------------------------------------------------------------------

/// The functions named by the documents `vs`, skipping those that name none.
pub open spec fn values_calls(vs: Seq<JsonV>) -> Seq<FunctionCallV>
    decreases vs.len(),
{
    if vs.len() == 0 {
        Seq::empty()
    } else {
        let rest = values_calls(vs.drop_last());
        match value_call(vs.last()) {
            Some(f) => rest.push(f),
            None => rest,
        }
    }
}

/// The documents of a list are read one by one: every document that names a
/// function gives its call, in order.
pub proof fn law_values_calls_join(a: Seq<JsonV>, b: Seq<JsonV>)
    ensures
        values_calls(a + b) == values_calls(a) + values_calls(b),
    decreases b.len(),
{
    if b.len() == 0 {
        assert(a + b =~= a);
        assert(values_calls(a) + values_calls(b) =~= values_calls(a));
    } else {
        let d = b.drop_last();
        law_values_calls_join(a, d);
        assert((a + b).drop_last() =~= a + d);
        assert((a + b).last() == b.last());
        match value_call(b.last()) {
            Some(f) => {
                assert((values_calls(a) + values_calls(d)).push(f) =~= values_calls(a) + values_calls(d).push(f));
            },
            None => {},
        }
    }
}

/// The function named by one line, when the trimmed line is a JSON document that
/// names one.
pub open spec fn line_call(line: Seq<char>) -> Option<FunctionCallV> {
    let t = trim(line);
    if t.len() == 0 {
        None
    } else {
        match spec_json_parse(t) {
            Ok(v) => value_call(v),
            Err(_) => None,
        }
    }
}

/// The functions named line by line.
pub open spec fn line_calls(ls: Seq<Seq<char>>) -> Seq<FunctionCallV>
    decreases ls.len(),
{
    if ls.len() == 0 {
        Seq::empty()
    } else {
        let rest = line_calls(ls.drop_last());
        match line_call(ls.last()) {
            Some(f) => rest.push(f),
            None => rest,
        }
    }
}

/// The lines between the tags are read one by one: every line that names a
/// function gives its call, in order.
pub proof fn law_line_calls_join(a: Seq<Seq<char>>, b: Seq<Seq<char>>)
    ensures
        line_calls(a + b) == line_calls(a) + line_calls(b),
    decreases b.len(),
{
    if b.len() == 0 {
        assert(a + b =~= a);
        assert(line_calls(a) + line_calls(b) =~= line_calls(a));
    } else {
        let d = b.drop_last();
        law_line_calls_join(a, d);
        assert((a + b).drop_last() =~= a + d);
        assert((a + b).last() == b.last());
        match line_call(b.last()) {
            Some(f) => {
                assert((line_calls(a) + line_calls(d)).push(f) =~= line_calls(a) + line_calls(d).push(f));
            },
            None => {},
        }
    }
}

/// The calls between the tags: a JSON array of calls, a single call, or else one
/// call per line; none when nothing names a function.
pub open spec fn inner_calls(c: Seq<char>) -> Option<Seq<FunctionCallV>> {
    let whole = match spec_json_parse(c) {
        Ok(JsonV::Array(items)) => if values_calls(items).len() > 0 {
            Some(values_calls(items))
        } else {
            None
        },
        Ok(v) => match value_call(v) {
            Some(f) => Some(seq![f]),
            None => None,
        },
        Err(_) => None,
    };
    match whole {
        Some(fs) => Some(fs),
        None => if line_calls(lines(c)).len() == 0 {
            None
        } else {
            Some(line_calls(lines(c)))
        },
    }
}

pub open spec fn open_tag() -> Seq<char> {
    "<tool_call>"@
}

pub open spec fn close_tag() -> Seq<char> {
    "</tool_call>"@
}

/// The text has both tags, with the first closing tag before the end of the
/// first opening tag: slicing between them would panic.
pub open spec fn tags_misordered(text: Seq<char>) -> bool {
    match (find(text, open_tag()), find(text, close_tag())) {
        (Some(i), Some(j)) => i + open_tag().len() > j,
        _ => false,
    }
}

/// The calls written between the first `<tool_call>` and the first `</tool_call>`.
pub open spec fn extracted_calls(text: Seq<char>) -> Option<Seq<FunctionCallV>> {
    match (find(text, open_tag()), find(text, close_tag())) {
        (Some(i), Some(j)) => inner_calls(trim(text.subrange(i + open_tag().len(), j))),
        _ => None,
    }
}

/// Parses `text` and reads a call from it.
fn call_from_text(text: &str) -> (r: Option<ToolCall>)
    ensures
        match spec_json_parse(text@) {
            Ok(v) => (r is Some <==> value_call(v) is Some) && (r matches Some(c) ==> fresh_call(
                c@,
                value_call(v)->Some_0,
            )),
            Err(_) => r is None,
        },
{
    match parse_json(text) {
        Ok(v) => parse_tool_call_from_value(&v),
        Err(_) => None,
    }
}

/// The calls of the lines `ls`.
fn calls_of_lines(ls: &Vec<Vec<char>>) -> (r: Vec<ToolCall>)
    ensures
        fresh_calls(calls_view(r@), line_calls(ls@.map_values(|l: Vec<char>| l@))),
{
    let ghost lv = ls@.map_values(|l: Vec<char>| l@);
    let mut out: Vec<ToolCall> = Vec::new();
    let mut i: usize = 0;
    while i < ls.len()
        invariant
            i <= ls.len(),
            lv == ls@.map_values(|l: Vec<char>| l@),
            fresh_calls(calls_view(out@), line_calls(lv.take(i as int))),
        decreases ls.len() - i,
    {
        assert(lv.take(i + 1).drop_last() =~= lv.take(i as int));
        assert(lv.take(i + 1).last() == ls@[i as int]@);
        let t = trim_chars(&ls[i]);
        let ghost before = calls_view(out@);
        if t.len() > 0 {
            let text = string_from(&t);
            match call_from_text(text.as_str()) {
                Some(c) => {
                    out.push(c);
                    assert(calls_view(out@) =~= before.push(c@));
                },
                None => {},
            }
        }
        i = i + 1;
    }
    assert(lv.take(ls@.len() as int) =~= lv);
    out
}

/// The calls named by the documents `items`.
fn calls_of_values(items: &Vec<Json>) -> (r: Vec<ToolCall>)
    ensures
        fresh_calls(calls_view(r@), values_calls(crate::json::view_jsons(items@))),
{
    let ghost vv = crate::json::view_jsons(items@);
    let mut out: Vec<ToolCall> = Vec::new();
    let mut i: usize = 0;
    while i < items.len()
        invariant
            i <= items.len(),
            vv == crate::json::view_jsons(items@),
            fresh_calls(calls_view(out@), values_calls(vv.take(i as int))),
        decreases items.len() - i,
    {
        assert(vv.take(i + 1).drop_last() =~= vv.take(i as int));
        let ghost before = calls_view(out@);
        match parse_tool_call_from_value(&items[i]) {
            Some(c) => {
                out.push(c);
                assert(calls_view(out@) =~= before.push(c@));
            },
            None => {},
        }
        i = i + 1;
    }
    assert(vv.take(items@.len() as int) =~= vv);
    out
}

/// The calls of the text between the tags.
fn calls_of_inner(cleaned: &Vec<char>) -> (r: Option<Vec<ToolCall>>)
    ensures
        r is Some <==> inner_calls(cleaned@) is Some,
        r matches Some(v) ==> fresh_calls(calls_view(v@), inner_calls(cleaned@)->Some_0),
{
    let text = string_from(cleaned);
    match parse_json(text.as_str()) {
        Ok(value) => {
            match &value {
                Json::Array(items) => {
                    proof {
                        crate::json::lemma_view_array(*items);
                    }
                    let calls = calls_of_values(items);
                    if calls.len() > 0 {
                        return Some(calls);
                    }
                },
                _ => {
                    match parse_tool_call_from_value(&value) {
                        Some(c) => {
                            let v = vec![c];
                            assert(calls_view(v@) =~= seq![c@]);
                            return Some(v);
                        },
                        None => {},
                    }
                },
            }
        },
        Err(_) => {},
    }
    let ls = lines_of(cleaned);
    let calls = calls_of_lines(&ls);
    if calls.len() == 0 {
        None
    } else {
        Some(calls)
    }
}

/// The tool calls written between the first `<tool_call>` and the first
/// `</tool_call>` of `text`.
pub fn extract_tool_calls_from_text(text: &str) -> (r: Option<Vec<ToolCall>>)
    requires
        !tags_misordered(text@),
    ensures
        r is Some <==> extracted_calls(text@) is Some,
        r matches Some(v) ==> fresh_calls(calls_view(v@), extracted_calls(text@)->Some_0),
{
    let v = chars_of(text);
    let open = chars_of("<tool_call>");
    let close = chars_of("</tool_call>");
    proof {
        reveal_strlit("<tool_call>");
        reveal_strlit("</tool_call>");
    }
    let s = match find_exec(&v, &open, 0) {
        Some(i) => i,
        None => {
            return None;
        },
    };
    let e = match find_exec(&v, &close, 0) {
        Some(j) => j,
        None => {
            return None;
        },
    };
    proof {
        crate::text::lemma_find_from_bounds(v@, open@, 0);
        crate::text::lemma_find_from_bounds(v@, close@, 0);
    }
    let start = s + open.len();
    let (a, b) = trim_bounds(&v, start, e);
    let cleaned = slice_vec(&v, a, b);
    calls_of_inner(&cleaned)
}

// ---------------------------------------------------------------------
// The answer of a chat request
// ---------------------------------------------------------------------

/// The functions of the structured call fields of a message: the `tool_calls` list
/// when present (possibly empty), else the single `tool_call` when it names a
/// function, else the `function_call`.
pub open spec fn structured_calls(m: OllamaMessageV) -> Option<Seq<FunctionCallV>> {
    match m.tool_calls {
        Some(cs) => Some(listed_calls(cs)),
        None => {
            let from_function = match m.function_call {
                Some(f) => Some(seq![fcall(f.name, f.arguments)]),
                None => None,
            };
            match m.tool_call {
                Some(c) => match tool_call_function(c) {
                    Some(f) => Some(seq![f]),
                    None => from_function,
                },
                None => from_function,
            }
        },
    }
}

/// A text with a Markdown code fence (```` ```json ````, ```` ``` ````) around it
/// unwrapped and trimmed.
pub open spec fn unfence(t: Seq<char>) -> Seq<char> {
    let a = if "```json"@.is_prefix_of(t) {
        trim(t.skip(7))
    } else {
        t
    };
    let b = if "```"@.is_prefix_of(a) {
        trim(a.skip(3))
    } else {
        a
    };
    if "```"@.is_suffix_of(b) {
        trim(b.take(b.len() - 3))
    } else {
        b
    }
}

/// The function of a message text that is, once unfenced, a JSON call.
pub open spec fn fenced_call(content: Seq<char>) -> Option<Seq<FunctionCallV>> {
    match spec_json_parse(unfence(trim(content))) {
        Ok(v) => match value_call(v) {
            Some(f) => Some(seq![f]),
            None => None,
        },
        Err(_) => None,
    }
}

/// The functions that an answer calls: the structured fields when they name at
/// least one; else calls written between tags in the text; else the whole text
/// as one call.
pub open spec fn response_calls(m: OllamaMessageV) -> Option<Seq<FunctionCallV>> {
    match structured_calls(m) {
        Some(fs) if fs.len() > 0 => Some(fs),
        _ => match m.content {
            None => None,
            Some(c) => match extracted_calls(c) {
                Some(fs) => Some(fs),
                None => fenced_call(c),
            },
        },
    }
}

/// An answer whose text, once trimmed, is a bare JSON object `{"name": n,
/// "arguments": a, ...}` (no code fence, no `<tool_call>` tag) and that names no
/// function in its structured fields calls exactly that function, and its text is
/// dropped.
pub proof fn law_bare_json_answer_is_a_call(
    m: OllamaMessageV,
    c: Seq<char>,
    members: Seq<(Seq<char>, JsonV)>,
    n: Seq<char>,
    a: JsonV,
    r: MessageV,
)
    requires
        !(structured_calls(m) matches Some(fs) && fs.len() > 0),
        m.content == Some(c),
        find(c, open_tag()) is None,
        trim(c).len() > 0,
        trim(c)[0] == '{',
        trim(c).last() == '}',
        spec_json_parse(trim(c)) == Ok::<JsonV, Seq<char>>(JsonV::Object(members)),
        lookup(members, "name"@) == Some(JsonV::Str(n)),
        lookup(members, "arguments"@) == Some(a),
        response_message_ok(m, r),
    ensures
        r.role == Role::Assistant,
        r.content == Seq::<char>::empty(),
        r.tool_calls matches Some(cs) && cs.len() == 1 && cs[0].tool_type == "function"@ && is_call_id(cs[0].id)
            && cs[0].function == (FunctionCallV { name: n, arguments: args_text(a) }),
{
    reveal_strlit("```json");
    reveal_strlit("```");
    let t = trim(c);
    assert(!"```json"@.is_prefix_of(t)) by {
        if "```json"@.is_prefix_of(t) {
            assert(t[0] == "```json"@[0]);
        }
    }
    assert(!"```"@.is_prefix_of(t)) by {
        if "```"@.is_prefix_of(t) {
            assert(t[0] == "```"@[0]);
        }
    }
    assert(!"```"@.is_suffix_of(t)) by {
        if "```"@.is_suffix_of(t) {
            assert(t.len() >= 3);
            assert(t[t.len() - 1] == "```"@[2]);
        }
    }
    assert(unfence(t) == t);
    assert(extracted_calls(c) is None);
    assert(fenced_call(c) == Some(seq![fcall(n, a)]));
    assert(response_calls(m) == Some(seq![fcall(n, a)]));
}

/// The structured call fields win: when they name functions, the answer calls
/// exactly those, in order, and its text is dropped, whatever the text holds.
pub proof fn law_structured_calls_win(m: OllamaMessageV, r: MessageV)
    requires
        structured_calls(m) matches Some(fs) && fs.len() > 0,
        response_message_ok(m, r),
    ensures
        r.content == Seq::<char>::empty(),
        r.tool_calls matches Some(cs) && cs.len() == structured_calls(m)->Some_0.len() && forall|i: int|
            0 <= i < cs.len() ==> (#[trigger] cs[i]).function == structured_calls(m)->Some_0[i],
{
}

/// With no structured call, the calls written between the first `<tool_call>`
/// and the first `</tool_call>` of the text are the answer's calls, in order.
pub proof fn law_tagged_calls_are_called(m: OllamaMessageV, c: Seq<char>, r: MessageV)
    requires
        !(structured_calls(m) matches Some(fs) && fs.len() > 0),
        m.content == Some(c),
        extracted_calls(c) is Some,
        response_message_ok(m, r),
    ensures
        r.content == Seq::<char>::empty(),
        r.tool_calls matches Some(cs) && cs.len() == extracted_calls(c)->Some_0.len() && forall|i: int|
            0 <= i < cs.len() ==> (#[trigger] cs[i]).function == extracted_calls(c)->Some_0[i],
{
}

/// An answer with no call anywhere keeps its text as the message's text.
pub proof fn law_plain_answer_keeps_text(m: OllamaMessageV, c: Seq<char>, r: MessageV)
    requires
        !(structured_calls(m) matches Some(fs) && fs.len() > 0),
        m.content == Some(c),
        find(c, open_tag()) is None,
        fenced_call(c) is None,
        response_message_ok(m, r),
    ensures
        r.role == Role::Assistant,
        r.content == c,
        r.tool_calls is None,
{
}

/// An answer that calls tools calls at least one: the prompt loop is never handed
/// an empty list of calls by this client.
pub proof fn law_response_calls_nonempty(m: OllamaMessageV)
    ensures
        response_calls(m) matches Some(fs) ==> fs.len() > 0,
{
    match structured_calls(m) {
        Some(fs) if fs.len() > 0 => {},
        _ => match m.content {
            None => {},
            Some(c) => match extracted_calls(c) {
                Some(fs) => {
                    match (find(c, open_tag()), find(c, close_tag())) {
                        (Some(i), Some(j)) => {
                            let inner = trim(c.subrange(i + open_tag().len(), j));
                            match spec_json_parse(inner) {
                                Ok(JsonV::Array(items)) => {},
                                Ok(v) => {},
                                Err(_) => {},
                            }
                        },
                        _ => {},
                    }
                },
                None => {},
            },
        },
    }
}

/// The answer's text may only be searched for tags when slicing between them is safe.
pub open spec fn answer_readable(m: OllamaMessageV) -> bool {
    match structured_calls(m) {
        Some(fs) if fs.len() > 0 => true,
        _ => match m.content {
            Some(c) => !tags_misordered(c),
            None => true,
        },
    }
}

pub open spec fn or_empty(o: Option<Seq<char>>) -> Seq<char> {
    match o {
        Some(s) => s,
        None => Seq::empty(),
    }
}

/// The conversation message for an answer: an assistant message whose calls are
/// [`response_calls`] (the text then empty), or whose text is the answer's text.
pub open spec fn response_message_ok(m: OllamaMessageV, r: MessageV) -> bool {
    &&& r.role == Role::Assistant
    &&& r.tool_call_id is None
    &&& match response_calls(m) {
        Some(fs) => {
            &&& r.content == Seq::<char>::empty()
            &&& r.tool_calls is Some
            &&& fresh_calls(r.tool_calls->Some_0, fs)
        },
        None => r.content == or_empty(m.content) && r.tool_calls is None,
    }
}

/// The functions of the structured call fields, under fresh identifiers.
fn structured(
    tool_calls: Option<Vec<OllamaToolCall>>,
    tool_call: Option<OllamaToolCall>,
    function_call: Option<OllamaFunctionCall>,
    Ghost(m): Ghost<OllamaMessageV>,
) -> (r: Option<Vec<ToolCall>>)
    requires
        m.tool_calls == (match tool_calls {
            Some(c) => Some(ollama_calls_view(c@)),
            None => None,
        }),
        m.tool_call == (match tool_call {
            Some(c) => Some(c@),
            None => None,
        }),
        m.function_call == (match function_call {
            Some(f) => Some(f@),
            None => None,
        }),
    ensures
        r is Some <==> structured_calls(m) is Some,
        r matches Some(v) ==> fresh_calls(calls_view(v@), structured_calls(m)->Some_0),
{
    if let Some(calls) = tool_calls {
        return Some(domain_calls(calls));
    }
    if let Some(call) = tool_call {
        if let Some(c) = call.into_domain() {
            let v = vec![c];
            assert(calls_view(v@) =~= seq![c@]);
            return Some(v);
        }
    }
    match function_call {
        Some(f) => {
            let c = make_call(f.name, &f.arguments);
            let v = vec![c];
            assert(calls_view(v@) =~= seq![c@]);
            Some(v)
        },
        None => None,
    }
}

/// The text with a code fence around it removed, as [`unfence`] describes.
fn unfence_exec(t: &Vec<char>) -> (r: Vec<char>)
    ensures
        r@ == unfence(t@),
{
    let fence_json = chars_of("```json");
    let fence = chars_of("```");
    proof {
        reveal_strlit("```json");
        reveal_strlit("```");
    }
    let a = if starts_with(t, &fence_json) {
        let rest = slice_vec(t, 7, t.len());
        assert(rest@ =~= t@.skip(7));
        trim_chars(&rest)
    } else {
        slice_vec(t, 0, t.len())
    };
    assert(!"```json"@.is_prefix_of(t@) ==> a@ =~= t@);
    let b = if starts_with(&a, &fence) {
        let rest = slice_vec(&a, 3, a.len());
        assert(rest@ =~= a@.skip(3));
        trim_chars(&rest)
    } else {
        slice_vec(&a, 0, a.len())
    };
    assert(!"```"@.is_prefix_of(a@) ==> b@ =~= a@);
    if ends_with(&b, &fence) {
        let rest = slice_vec(&b, 0, b.len() - 3);
        assert(rest@ =~= b@.take(b@.len() - 3));
        trim_chars(&rest)
    } else {
        let r = slice_vec(&b, 0, b.len());
        assert(r@ =~= b@);
        r
    }
}

/// Whether an API tool call names a function.
fn names_function(c: &OllamaToolCall) -> (r: bool)
    ensures
        r == tool_call_function(c@) is Some,
{
    c.function.is_some() || (c.name.is_some() && c.arguments.is_some())
}

/// Whether the structured call fields of a message name at least one function.
fn has_structured_calls(m: &OllamaMessage) -> (r: bool)
    ensures
        r == (structured_calls(m@) matches Some(fs) && fs.len() > 0),
{
    match &m.tool_calls {
        Some(calls) => {
            let ghost cv = ollama_calls_view(calls@);
            let mut found = false;
            let mut i: usize = 0;
            while i < calls.len()
                invariant
                    i <= calls@.len(),
                    cv == ollama_calls_view(calls@),
                    found == (listed_calls(cv.take(i as int)).len() > 0),
                decreases calls@.len() - i,
            {
                assert(cv.take(i + 1).drop_last() =~= cv.take(i as int));
                assert(cv.take(i + 1).last() == calls@[i as int]@);
                if names_function(&calls[i]) {
                    found = true;
                }
                i = i + 1;
            }
            assert(cv.take(calls@.len() as int) =~= cv);
            found
        },
        None => {
            let from_tool_call = match &m.tool_call {
                Some(c) => names_function(c),
                None => false,
            };
            from_tool_call || m.function_call.is_some()
        },
    }
}

/// Whether the first `</tool_call>` of a text begins before the end of its first
/// `<tool_call>`.
fn misordered_tags(text: &str) -> (r: bool)
    ensures
        r == tags_misordered(text@),
{
    let v = chars_of(text);
    let open = chars_of("<tool_call>");
    let close = chars_of("</tool_call>");
    proof {
        reveal_strlit("<tool_call>");
        reveal_strlit("</tool_call>");
    }
    let first_open = find_exec(&v, &open, 0);
    let first_close = find_exec(&v, &close, 0);
    proof {
        crate::text::lemma_find_from_bounds(v@, open@, 0);
    }
    match (first_open, first_close) {
        (Some(i), Some(j)) => {
            let n = v.len();
            assert(i + open@.len() <= n);
            i + open.len() > j
        },
        _ => false,
    }
}

/// Whether an answer can be turned into a conversation message
/// ([`answer_readable`]): a text with misordered tags is only searched when the
/// structured fields name no function, and slicing between such tags fails.
pub fn answer_is_readable(m: &OllamaMessage) -> (r: bool)
    ensures
        r == answer_readable(m@),
{
    if has_structured_calls(m) {
        return true;
    }
    match &m.content {
        Some(c) => !misordered_tags(c.as_str()),
        None => true,
    }
}

/// The conversation message for the first choice of a chat answer: structured
/// calls first, then calls written in the text, then the text as a JSON call; with
/// no call the answer's text stands.
pub fn message_from_response(msg: OllamaMessage) -> (r: Message)
    requires
        answer_readable(msg@),
    ensures
        response_message_ok(msg@, r@),
{
    let ghost m = msg@;
    let OllamaMessage { role: _, content, tool_calls, tool_call, function_call } = msg;
    let parsed = structured(tool_calls, tool_call, function_call, Ghost(m));
    if let Some(calls) = parsed {
        if calls.len() > 0 {
            return Message {
                role: Role::Assistant,
                content: String::new(),
                tool_calls: Some(calls),
                tool_call_id: None,
            };
        }
    }
    match content {
        None => Message { role: Role::Assistant, content: String::new(), tool_calls: None, tool_call_id: None },
        Some(text) => {
            if let Some(calls) = extract_tool_calls_from_text(text.as_str()) {
                return Message {
                    role: Role::Assistant,
                    content: String::new(),
                    tool_calls: Some(calls),
                    tool_call_id: None,
                };
            }
            let v = chars_of(text.as_str());
            let t = trim_chars(&v);
            let j = unfence_exec(&t);
            let js = string_from(&j);
            match parse_json(js.as_str()) {
                Ok(value) => match parse_tool_call_from_value(&value) {
                    Some(c) => {
                        let calls = vec![c];
                        assert(calls_view(calls@) =~= seq![c@]);
                        return Message {
                            role: Role::Assistant,
                            content: String::new(),
                            tool_calls: Some(calls),
                            tool_call_id: None,
                        };
                    },
                    None => {},
                },
                Err(_) => {},
            }
            Message { role: Role::Assistant, content: text, tool_calls: None, tool_call_id: None }
        },
    }
}

// ---------------------------------------------------------------------
// The chat request
// ---------------------------------------------------------------------

/// A message of a chat request: the role's name and the text.
#[derive(Debug)]
pub struct OllamaMessageRequest {
    pub role: String,
    pub content: String,
}

/// A tool of a chat request.
#[derive(Debug)]
pub struct OllamaToolDefinition {
    pub name: String,
    pub description: Option<String>,
    pub parameters: Json,
}

/// A chat request.
#[derive(Debug)]
pub struct OllamaRequest {
    pub model: String,
    pub messages: Vec<OllamaMessageRequest>,
    /// Absent when no tool is offered.
    pub tools: Option<Vec<OllamaToolDefinition>>,
    pub stream: bool,
}

/// The name of a role in the chat API.
pub open spec fn role_text(r: Role) -> Seq<char> {
    match r {
        Role::System => "system"@,
        Role::User => "user"@,
        Role::Assistant => "assistant"@,
        Role::Tool => "tool"@,
    }
}

pub fn role_name(r: Role) -> (s: String)
    ensures
        s@ == role_text(r),
{
    match r {
        Role::System => "system".to_owned(),
        Role::User => "user".to_owned(),
        Role::Assistant => "assistant".to_owned(),
        Role::Tool => "tool".to_owned(),
    }
}

/// The request messages: each message's role name and text, in order.
pub fn build_request_messages(messages: &[Message]) -> (r: Vec<OllamaMessageRequest>)
    ensures
        r@.len() == messages@.len(),
        forall|i: int|
            0 <= i < r@.len() ==> (#[trigger] r@[i]).role@ == role_text(messages@[i].role)
                && r@[i].content@ == messages@[i].content@,
{
    let mut out: Vec<OllamaMessageRequest> = Vec::new();
    let mut i: usize = 0;
    while i < messages.len()
        invariant
            i <= messages@.len(),
            out@.len() == i,
            forall|k: int|
                0 <= k < i ==> (#[trigger] out@[k]).role@ == role_text(messages@[k].role)
                    && out@[k].content@ == messages@[k].content@,
        decreases messages@.len() - i,
    {
        let m = &messages[i];
        out.push(OllamaMessageRequest { role: role_name(m.role), content: copy_string(&m.content) });
        i = i + 1;
    }
    out
}

/// Whether a model's name, lowercased, contains `qwen`.
pub fn is_qwen_model(model: &str) -> (r: bool)
    ensures
        r == contains(spec_to_lowercase(model@), "qwen"@),
{
    let lower = to_lowercase(model);
    let v = chars_of(lower.as_str());
    let pat = chars_of("qwen");
    contains_exec(&v, &pat)
}

/// The settings of the Ollama chat client: the model and the API's address.
pub struct OllamaAdapter {
    model: String,
    api_url: String,
}

pub struct OllamaAdapterV {
    pub model: Seq<char>,
    pub api_url: Seq<char>,
}

impl View for OllamaAdapter {
    type V = OllamaAdapterV;

    closed spec fn view(&self) -> OllamaAdapterV {
        OllamaAdapterV { model: self.model@, api_url: self.api_url@ }
    }
}

/// The tool declarations of a request: name, description and parameters of each.
pub fn request_tools(tools: &[Tool]) -> (r: Vec<OllamaToolDefinition>)
    ensures
        r@.len() == tools@.len(),
        forall|i: int|
            0 <= i < r@.len() ==> (#[trigger] r@[i]).name@ == tools@[i].function.name@
                && opt_view(r@[i].description) == opt_view(tools@[i].function.description)
                && r@[i].parameters@ == tools@[i].function.parameters@,
{
    let mut out: Vec<OllamaToolDefinition> = Vec::new();
    let mut i: usize = 0;
    while i < tools.len()
        invariant
            i <= tools@.len(),
            out@.len() == i,
            forall|k: int|
                0 <= k < i ==> (#[trigger] out@[k]).name@ == tools@[k].function.name@
                    && opt_view(out@[k].description) == opt_view(tools@[k].function.description)
                    && out@[k].parameters@ == tools@[k].function.parameters@,
        decreases tools@.len() - i,
    {
        let t = &tools[i];
        out.push(
            OllamaToolDefinition {
                name: copy_string(&t.function.name),
                description: copy_opt_string(&t.function.description),
                parameters: json_clone(&t.function.parameters),
            },
        );
        i = i + 1;
    }
    out
}

impl OllamaAdapter {
    pub fn new(model: String, api_url: String) -> (r: Self)
        ensures
            r@ == (OllamaAdapterV { model: model@, api_url: api_url@ }),
    {
        OllamaAdapter { model, api_url }
    }

    pub fn model(&self) -> (r: &String)
        ensures
            r@ == self@.model,
    {
        &self.model
    }

    /// The address of the chat endpoint: the API's address followed by
    /// `/chat/completions`.
    pub fn chat_url(&self) -> (r: String)
        ensures
            r@ == self@.api_url + "/chat/completions"@,
    {
        let mut u = copy_string(&self.api_url);
        append_str(&mut u, "/chat/completions");
        u
    }

    /// The chat request for `messages` with `tools` offered (none when the list is
    /// empty), streamed or not.
    pub fn build_request(&self, messages: &[Message], tools: &[Tool], stream: bool) -> (r:
        OllamaRequest)
        ensures
            r.model@ == self@.model,
            r.stream == stream,
            r.messages@.len() == messages@.len(),
            forall|i: int|
                0 <= i < r.messages@.len() ==> (#[trigger] r.messages@[i]).role@ == role_text(
                    messages@[i].role,
                ) && r.messages@[i].content@ == messages@[i].content@,
            tools@.len() == 0 ==> r.tools is None,
            tools@.len() > 0 ==> (r.tools matches Some(ts) && ts@.len() == tools@.len() && forall|
                i: int,
            |
                0 <= i < ts@.len() ==> (#[trigger] ts@[i]).name@ == tools@[i].function.name@
                    && opt_view(ts@[i].description) == opt_view(tools@[i].function.description)
                    && ts@[i].parameters@ == tools@[i].function.parameters@),
    {
        OllamaRequest {
            model: copy_string(&self.model),
            messages: build_request_messages(messages),
            tools: if tools.len() == 0 {
                None
            } else {
                Some(request_tools(tools))
            },
            stream,
        }
    }
}

/// The error for an answer whose status is not a success.
pub fn api_error(body: &str) -> (r: AppError)
    ensures
        r@ == AppErrorV::LlmProvider("API Error: "@ + body@),
{
    let mut m = "API Error: ".to_owned();
    append_str(&mut m, body);
    AppError::LlmProviderError(m)
}

/// The conversation message for a chat answer's choices: an error when there is
/// none, else the message of the first.
pub fn response_from_choices(choices: Vec<OllamaMessage>) -> (r: Result<Message, AppError>)
    requires
        choices@.len() > 0 ==> answer_readable(choices@[0]@),
    ensures
        choices@.len() == 0 ==> (r matches Err(e) && e@ == AppErrorV::LlmProvider(
            "API returned no choices"@,
        )),
        choices@.len() > 0 ==> (r matches Ok(m) && response_message_ok(choices@[0]@, m@)),
{
    let mut choices = choices;
    if choices.len() == 0 {
        return Err(AppError::LlmProviderError("API returned no choices".to_owned()));
    }
    let first = choices.remove(0);
    Ok(message_from_response(first))
}

// ---------------------------------------------------------------------
// The streamed answer
// ---------------------------------------------------------------------

/// The payload of a server-sent-event line `data: <payload>`.
pub open spec fn data_payload(line: Seq<char>) -> Option<Seq<char>> {
    if "data: "@.is_prefix_of(line) {
        Some(line.skip(6))
    } else {
        None
    }
}

/// The text fragment of a streamed chunk: `choices[0].delta.content`.
pub open spec fn delta_content(v: JsonV) -> Option<Seq<char>> {
    as_str(field(field(item(field(v, "choices"@), 0), "delta"@), "content"@))
}

/// What one line of a streamed answer yields: nothing for lines that are not
/// data, are blank or are `[DONE]`; a text fragment; or a parse error.
pub open spec fn stream_line_event(line: Seq<char>) -> Option<Result<Seq<char>, AppErrorV>> {
    match data_payload(line) {
        None => None,
        Some(p) => if trim(p).len() == 0 || p == "[DONE]"@ {
            None
        } else {
            match spec_json_parse(p) {
                Ok(v) => match delta_content(v) {
                    Some(c) => Some(Ok(c)),
                    None => None,
                },
                Err(e) => Some(
                    Err(
                        AppErrorV::LlmProvider(
                            "Failed to parse stream chunk: "@ + e + " | Chunk: '"@ + p + "'"@,
                        ),
                    ),
                ),
            }
        },
    }
}

/// What the lines of a streamed chunk yield, in order.
pub open spec fn stream_events_of(ls: Seq<Seq<char>>) -> Seq<Result<Seq<char>, AppErrorV>>
    decreases ls.len(),
{
    if ls.len() == 0 {
        Seq::empty()
    } else {
        let rest = stream_events_of(ls.drop_last());
        match stream_line_event(ls.last()) {
            Some(e) => rest.push(e),
            None => rest,
        }
    }
}

/// Each line of a streamed answer is read on its own: reading two runs of lines
/// is reading each and joining the results, so no fragment is lost or reordered.
pub proof fn law_stream_events_join(ls1: Seq<Seq<char>>, ls2: Seq<Seq<char>>)
    ensures
        stream_events_of(ls1 + ls2) == stream_events_of(ls1) + stream_events_of(ls2),
    decreases ls2.len(),
{
    if ls2.len() == 0 {
        assert(ls1 + ls2 =~= ls1);
        assert(stream_events_of(ls1) + stream_events_of(ls2) =~= stream_events_of(ls1));
    } else {
        let d = ls2.drop_last();
        law_stream_events_join(ls1, d);
        assert((ls1 + ls2).drop_last() =~= ls1 + d);
        assert((ls1 + ls2).last() == ls2.last());
        match stream_line_event(ls2.last()) {
            Some(e) => {
                assert((stream_events_of(ls1) + stream_events_of(d)).push(e) =~= stream_events_of(ls1)
                    + stream_events_of(d).push(e));
            },
            None => {},
        }
    }
}

/// A data line whose payload is a record with a text fragment at
/// `choices[0].delta.content` yields that fragment; a line that is not a data
/// line yields nothing.
pub proof fn law_stream_line_fragment(p: Seq<char>, v: JsonV, fragment: Seq<char>, l: Seq<char>)
    requires
        trim(p).len() > 0,
        p != "[DONE]"@,
        spec_json_parse(p) == Ok::<JsonV, Seq<char>>(v),
        delta_content(v) == Some(fragment),
    ensures
        stream_events_of(seq!["data: "@ + p]) == seq![Ok::<Seq<char>, AppErrorV>(fragment)],
        !"data: "@.is_prefix_of(l) ==> stream_events_of(seq![l]) == Seq::<Result<Seq<char>, AppErrorV>>::empty(),
{
    reveal_strlit("data: ");
    let d = "data: "@ + p;
    assert("data: "@.is_prefix_of(d)) by {
        assert(d.take(6) =~= "data: "@);
    }
    assert(d.skip(6) =~= p);
    assert(seq![d].drop_last() =~= Seq::<Seq<char>>::empty());
    assert(seq![d].last() == d);
    assert(seq![l].drop_last() =~= Seq::<Seq<char>>::empty());
    assert(seq![l].last() == l);
    assert(stream_events_of(Seq::<Seq<char>>::empty()) == Seq::<Result<Seq<char>, AppErrorV>>::empty());
    assert(Seq::<Result<Seq<char>, AppErrorV>>::empty().push(Ok(fragment)) =~= seq![Ok::<Seq<char>, AppErrorV>(fragment)]);
}

pub open spec fn events_view(v: Seq<Result<String, AppError>>) -> Seq<Result<Seq<char>, AppErrorV>> {
    v.map_values(
        |x: Result<String, AppError>|
            match x {
                Ok(s) => Ok(s@),
                Err(e) => Err(e@),
            },
    )
}

/// What one line yields.
fn line_event(line: &Vec<char>) -> (r: Option<Result<String, AppError>>)
    ensures
        match r {
            None => stream_line_event(line@) is None,
            Some(Ok(s)) => stream_line_event(line@) == Some(Ok::<Seq<char>, AppErrorV>(s@)),
            Some(Err(e)) => stream_line_event(line@) == Some(Err::<Seq<char>, AppErrorV>(e@)),
        },
{
    let prefix = chars_of("data: ");
    proof {
        reveal_strlit("data: ");
        reveal_strlit("[DONE]");
    }
    if !starts_with(line, &prefix) {
        return None;
    }
    let payload = slice_vec(line, 6, line.len());
    assert(payload@ =~= line@.skip(6));
    let t = trim_chars(&payload);
    let done = chars_of("[DONE]");
    if t.len() == 0 || chars_eq(&payload, &done) {
        return None;
    }
    let text = string_from(&payload);
    match parse_json(text.as_str()) {
        Ok(v) => {
            let choices = get_field(&v, "choices");
            let first = get_item(&choices, 0);
            let delta = get_field(&first, "delta");
            let content = get_field(&delta, "content");
            match get_str(&content) {
                Some(c) => Some(Ok(c)),
                None => None,
            }
        },
        Err(e) => {
            let mut m = "Failed to parse stream chunk: ".to_owned();
            append_str(&mut m, e.as_str());
            append_str(&mut m, " | Chunk: '");
            append_str(&mut m, text.as_str());
            append_str(&mut m, "'");
            Some(Err(AppError::LlmProviderError(m)))
        },
    }
}

/// What a chunk of a streamed answer yields: its bytes are decoded (invalid
/// sequences replaced), split into lines, and each line read as
/// [`stream_line_event`] describes.
pub fn stream_events(chunk: &[u8]) -> (r: Vec<Result<String, AppError>>)
    ensures
        events_view(r@) == stream_events_of(lines(spec_utf8_lossy(chunk@))),
{
    let text = utf8_lossy(chunk);
    let v = chars_of(text.as_str());
    let ls = lines_of(&v);
    let ghost lv = ls@.map_values(|l: Vec<char>| l@);
    let mut out: Vec<Result<String, AppError>> = Vec::new();
    let mut i: usize = 0;
    while i < ls.len()
        invariant
            i <= ls.len(),
            lv == ls@.map_values(|l: Vec<char>| l@),
            events_view(out@) == stream_events_of(lv.take(i as int)),
        decreases ls.len() - i,
    {
        assert(lv.take(i + 1).drop_last() =~= lv.take(i as int));
        assert(lv.take(i + 1).last() == ls@[i as int]@);
        let ghost before = events_view(out@);
        match line_event(&ls[i]) {
            Some(ev) => {
                out.push(ev);
                assert(events_view(out@) =~= before.push(
                    match ev {
                        Ok(s) => Ok(s@),
                        Err(e) => Err(e@),
                    },
                ));
            },
            None => {},
        }
        i = i + 1;
    }
    assert(lv.take(ls@.len() as int) =~= lv);
    out
}

} // verus!
