use vstd::prelude::*;
use crate::json::{Json, JsonV, json_text, jobject, jstr, json_clone, parse_json, spec_json_parse, spec_json_text};
use crate::model::{Message, MessageV, Role, Tool, ToolCall, ToolCallV, ToolV, calls_view, messages_view, tools_view};
use crate::schema::{members2, members3};
use crate::text::{append_str, copy_string};

verus! {

// The prompt format of Qwen chat models: `<|im_start|>role ... <|im_end|>` turns,
// with the tools declared in a `<tools>` block of the system turn.

/// The declaration of one tool in the `<tools>` block:
/// `{"type": "function", "function": {"name", "description", "parameters"}}`.
pub open spec fn tool_entry_v(t: ToolV) -> JsonV {
    JsonV::Object(
        seq![
            ("type"@, JsonV::Str("function"@)),
            (
                "function"@,
                JsonV::Object(
                    seq![
                        ("name"@, JsonV::Str(t.function.name)),
                        (
                            "description"@,
                            match t.function.description {
                                Some(d) => JsonV::Str(d),
                                None => JsonV::Null,
                            },
                        ),
                        ("parameters"@, t.function.parameters),
                    ],
                ),
            ),
        ],
    )
}

/// One line of compact JSON per tool.
pub open spec fn tool_lines(ts: Seq<ToolV>) -> Seq<char>
    decreases ts.len(),
{
    if ts.len() == 0 {
        Seq::empty()
    } else {
        tool_lines(ts.drop_last()) + spec_json_text(tool_entry_v(ts.last())) + "\n"@
    }
}

/// Each tool gets its own line: the lines of two runs of tools are the lines of
/// each, one after the other.
pub proof fn law_tool_lines_join(a: Seq<ToolV>, b: Seq<ToolV>)
    ensures
        tool_lines(a + b) == tool_lines(a) + tool_lines(b),
    decreases b.len(),
{
    if b.len() == 0 {
        assert(a + b =~= a);
        assert(tool_lines(a) + tool_lines(b) =~= tool_lines(a));
    } else {
        let d = b.drop_last();
        law_tool_lines_join(a, d);
        assert((a + b).drop_last() =~= a + d);
        assert((a + b).last() == b.last());
        let x = spec_json_text(tool_entry_v(b.last())) + "\n"@;
        assert((tool_lines(a) + tool_lines(d)) + x =~= tool_lines(a) + (tool_lines(d) + x));
    }
}

pub open spec fn block_intro() -> Seq<char> {
    "# Tools\n"@ + "You may call one or more functions to assist with the user query.\n"@
        + "You are provided with function signatures within <tools></tools>:\n"@ + "<tools>\n"@
}

pub open spec fn block_outro() -> Seq<char> {
    "</tools>\n"@
        + "For each function call, return a json object with function name and arguments within <tool_call></tool_call> with NO other text. Do not include any backticks or ```json.\n"@
        + "<tool_call>\n"@ + "{\"name\": <function-name>, \"arguments\": <args-json-object>}\n\n"@
        + "</tool_call>\n"@
}

/// The `<tools>` block: empty when no tool is offered, else the instructions
/// around one declaration line per tool.
pub open spec fn tools_block(ts: Seq<ToolV>) -> Seq<char> {
    if ts.len() == 0 {
        Seq::empty()
    } else {
        block_intro() + tool_lines(ts) + block_outro()
    }
}

fn tool_entry(t: &Tool) -> (r: Json)
    ensures
        r@ == tool_entry_v(t@),
{
    let description = match &t.function.description {
        Some(d) => Json::Str(copy_string(d)),
        None => Json::Null,
    };
    assert(description@ == match t@.function.description {
        Some(d) => JsonV::Str(d),
        None => JsonV::Null,
    });
    let f = jobject(
        members3(
            "name",
            Json::Str(copy_string(&t.function.name)),
            "description",
            description,
            "parameters",
            json_clone(&t.function.parameters),
        ),
    );
    assert(f@->Object_0[0] == ("name"@, JsonV::Str(t@.function.name)));
    assert(f@->Object_0[1].1 == description@);
    assert(f@->Object_0[2] == ("parameters"@, t@.function.parameters));
    assert(f@->Object_0 =~= tool_entry_v(t@)->Object_0[1].1->Object_0);
    let ty = jstr("function");
    let r = jobject(members2("type", ty, "function", f));
    assert(r@->Object_0 =~= tool_entry_v(t@)->Object_0);
    r
}

/// The `<tools>` block that declares `tools` to a Qwen model.
pub fn build_qwen_tools_block(tools: &[Tool]) -> (r: String)
    ensures
        r@ == tools_block(tools_view(tools@)),
{
    let ghost tv = tools_view(tools@);
    if tools.len() == 0 {
        return String::new();
    }
    let mut block = String::new();
    append_str(&mut block, "# Tools\n");
    append_str(&mut block, "You may call one or more functions to assist with the user query.\n");
    append_str(&mut block, "You are provided with function signatures within <tools></tools>:\n");
    append_str(&mut block, "<tools>\n");
    let ghost intro = block@;
    assert(intro =~= block_intro());
    let mut i: usize = 0;
    while i < tools.len()
        invariant
            i <= tools@.len(),
            tv == tools_view(tools@),
            block@ == intro + tool_lines(tv.take(i as int)),
        decreases tools@.len() - i,
    {
        assert(tv.take(i + 1).drop_last() =~= tv.take(i as int));
        assert(tv.take(i + 1).last() == tools@[i as int]@);
        let entry = tool_entry(&tools[i]);
        let line = json_text(&entry);
        append_str(&mut block, line.as_str());
        append_str(&mut block, "\n");
        i = i + 1;
    }
    assert(tv.take(tools@.len() as int) =~= tv);
    let ghost body = block@;
    append_str(&mut block, "</tools>\n");
    append_str(
        &mut block,
        "For each function call, return a json object with function name and arguments within <tool_call></tool_call> with NO other text. Do not include any backticks or ```json.\n",
    );
    append_str(&mut block, "<tool_call>\n");
    append_str(&mut block, "{\"name\": <function-name>, \"arguments\": <args-json-object>}\n\n");
    append_str(&mut block, "</tool_call>\n");
    assert(block@ =~= body + block_outro());
    block
}

// ---------------------------------------------------------------------
// The prompt
// ---------------------------------------------------------------------

/// The text of the first system message.
pub open spec fn first_system(ms: Seq<MessageV>) -> Option<Seq<char>>
    decreases ms.len(),
{
    if ms.len() == 0 {
        None
    } else if ms[0].role == Role::System {
        Some(ms[0].content)
    } else {
        first_system(ms.drop_first())
    }
}

/// The system turn is the first system message's: a system message with none
/// before it gives its text, and with no system message there is none.
pub proof fn law_first_system_message(ms: Seq<MessageV>, i: int)
    ensures
        0 <= i < ms.len() && ms[i].role == Role::System && (forall|j: int|
            0 <= j < i ==> (#[trigger] ms[j]).role != Role::System) ==> first_system(ms) == Some(ms[i].content),
        (forall|j: int| 0 <= j < ms.len() ==> (#[trigger] ms[j]).role != Role::System) ==> first_system(ms) is None,
    decreases ms.len(),
{
    if ms.len() > 0 {
        let t = ms.drop_first();
        law_first_system_message(t, i - 1);
        if ms[0].role != Role::System {
            if 0 <= i < ms.len() && ms[i].role == Role::System && (forall|j: int|
                0 <= j < i ==> (#[trigger] ms[j]).role != Role::System) {
                assert(i > 0);
                assert(t[i - 1] == ms[i]);
                assert forall|j: int| 0 <= j < i - 1 implies (#[trigger] t[j]).role != Role::System by {
                    assert(t[j] == ms[j + 1]);
                }
            }
            if forall|j: int| 0 <= j < ms.len() ==> (#[trigger] ms[j]).role != Role::System {
                assert forall|j: int| 0 <= j < t.len() implies (#[trigger] t[j]).role != Role::System by {
                    assert(t[j] == ms[j + 1]);
                }
            }
        } else {
            if 0 <= i < ms.len() && ms[i].role == Role::System && (forall|j: int|
                0 <= j < i ==> (#[trigger] ms[j]).role != Role::System) {
                if i > 0 {
                    assert(ms[0].role != Role::System);
                }
            }
        }
    }
}

/// A call's arguments as compact JSON; `{}` when they are not JSON.
pub open spec fn call_args_text(a: Seq<char>) -> Seq<char> {
    match spec_json_parse(a) {
        Ok(v) => spec_json_text(v),
        Err(_) => spec_json_text(JsonV::Object(Seq::empty())),
    }
}

/// `{"name": "<name>", "arguments": <arguments>}` and a newline.
pub open spec fn call_line(c: ToolCallV) -> Seq<char> {
    "{\"name\": \""@ + c.function.name + "\", \"arguments\": "@ + call_args_text(c.function.arguments)
        + "}\n"@
}

pub open spec fn call_lines(cs: Seq<ToolCallV>) -> Seq<char>
    decreases cs.len(),
{
    if cs.len() == 0 {
        Seq::empty()
    } else {
        call_lines(cs.drop_last()) + call_line(cs.last())
    }
}

/// Each call gets its own line: the lines of two runs of calls are the lines of
/// each, one after the other.
pub proof fn law_call_lines_join(a: Seq<ToolCallV>, b: Seq<ToolCallV>)
    ensures
        call_lines(a + b) == call_lines(a) + call_lines(b),
    decreases b.len(),
{
    if b.len() == 0 {
        assert(a + b =~= a);
        assert(call_lines(a) + call_lines(b) =~= call_lines(a));
    } else {
        let d = b.drop_last();
        law_call_lines_join(a, d);
        assert((a + b).drop_last() =~= a + d);
        assert((a + b).last() == b.last());
        let x = call_line(b.last());
        assert((call_lines(a) + call_lines(d)) + x =~= call_lines(a) + (call_lines(d) + x));
    }
}

/// The turn of one message; `last` tells whether it ends the conversation.
pub open spec fn message_turn(m: MessageV, last: bool) -> Seq<char> {
    match m.role {
        Role::System => Seq::empty(),
        Role::User => "<|im_start|>user\n"@ + m.content + "\n"@ + "<|im_end|>\n"@,
        Role::Assistant => match m.tool_calls {
            Some(cs) => "<|im_start|>assistant\n"@ + "<tool_call>\n"@ + call_lines(cs)
                + "</tool_call>\n"@ + if last {
                Seq::empty()
            } else {
                "<|im_end|>\n"@
            },
            None => "<|im_start|>assistant\n"@ + m.content + "\n"@ + "<|im_end|>\n"@,
        },
        Role::Tool => "<|im_start|>user\n"@ + "<tool_response>\n"@ + m.content + "\n"@
            + "</tool_response>\n"@ + "<|im_end|>\n"@,
    }
}

/// The turns of the first `n` messages.
pub open spec fn turns(ms: Seq<MessageV>, n: int) -> Seq<char>
    decreases n,
{
    if n <= 0 {
        Seq::empty()
    } else {
        turns(ms, n - 1) + message_turn(ms[n - 1], n - 1 == ms.len() - 1)
    }
}

/// The system turn (the first system message) and the tools block, each when present.
pub open spec fn prompt_header(ms: Seq<MessageV>, ts: Seq<ToolV>) -> Seq<char> {
    (match first_system(ms) {
        Some(c) => "<|im_start|>system\n"@ + c + "\n"@ + "<|im_end|>\n"@,
        None => Seq::empty(),
    }) + if tools_block(ts).len() > 0 {
        tools_block(ts) + "\n"@
    } else {
        Seq::empty()
    }
}

/// A prompt that does not end with the assistant's turn opens one.
pub open spec fn prompt_tail(ms: Seq<MessageV>) -> Seq<char> {
    if ms.len() > 0 && ms.last().role != Role::Assistant {
        "<|im_start|>assistant\n"@
    } else {
        Seq::empty()
    }
}

/// The Qwen prompt for a conversation and the tools offered.
pub open spec fn qwen_prompt(ms: Seq<MessageV>, ts: Seq<ToolV>) -> Seq<char> {
    prompt_header(ms, ts) + turns(ms, ms.len() as int) + prompt_tail(ms)
}

fn first_system_exec(messages: &[Message]) -> (r: Option<&String>)
    ensures
        match r {
            Some(c) => first_system(messages_view(messages@)) == Some(c@),
            None => first_system(messages_view(messages@)) is None,
        },
{
    let ghost mv = messages_view(messages@);
    let mut i: usize = 0;
    assert(mv.skip(0) =~= mv);
    while i < messages.len()
        invariant
            i <= messages@.len(),
            mv == messages_view(messages@),
            first_system(mv.skip(i as int)) == first_system(mv),
        decreases messages@.len() - i,
    {
        assert(mv.skip(i as int).drop_first() =~= mv.skip(i + 1));
        assert(mv.skip(i as int)[0] == messages@[i as int]@);
        if messages[i].role == Role::System {
            return Some(&messages[i].content);
        }
        i = i + 1;
    }
    None
}

/// A call's arguments as compact JSON; `{}` when they are not JSON.
fn call_args(arguments: &String) -> (r: String)
    ensures
        r@ == call_args_text(arguments@),
{
    match parse_json(arguments.as_str()) {
        Ok(v) => json_text(&v),
        Err(_) => {
            let empty: Vec<(String, Json)> = Vec::new();
            let e = jobject(empty);
            assert(crate::json::view_members(empty@) =~= Seq::empty());
            json_text(&e)
        },
    }
}

fn push_call_lines(prompt: &mut String, calls: &Vec<ToolCall>)
    ensures
        final(prompt)@ == old(prompt)@ + call_lines(calls_view(calls@)),
{
    let ghost cv = calls_view(calls@);
    let ghost start = prompt@;
    let mut i: usize = 0;
    while i < calls.len()
        invariant
            i <= calls@.len(),
            cv == calls_view(calls@),
            prompt@ == start + call_lines(cv.take(i as int)),
        decreases calls@.len() - i,
    {
        assert(cv.take(i + 1).drop_last() =~= cv.take(i as int));
        assert(cv.take(i + 1).last() == calls@[i as int]@);
        let c = &calls[i];
        let ghost before = prompt@;
        append_str(prompt, "{\"name\": \"");
        append_str(prompt, c.function.name.as_str());
        append_str(prompt, "\", \"arguments\": ");
        let args = call_args(&c.function.arguments);
        append_str(prompt, args.as_str());
        append_str(prompt, "}\n");
        assert(prompt@ =~= before + call_line(c@));
        i = i + 1;
    }
    assert(cv.take(calls@.len() as int) =~= cv);
}

fn push_turn(prompt: &mut String, m: &Message, last: bool)
    ensures
        final(prompt)@ == old(prompt)@ + message_turn(m@, last),
{
    let ghost start = prompt@;
    match m.role {
        Role::System => {
            assert(prompt@ =~= start + message_turn(m@, last));
        },
        Role::User => {
            append_str(prompt, "<|im_start|>user\n");
            append_str(prompt, m.content.as_str());
            append_str(prompt, "\n");
            append_str(prompt, "<|im_end|>\n");
            assert(prompt@ =~= start + message_turn(m@, last));
        },
        Role::Assistant => {
            match &m.tool_calls {
                Some(calls) => {
                    append_str(prompt, "<|im_start|>assistant\n");
                    append_str(prompt, "<tool_call>\n");
                    push_call_lines(prompt, calls);
                    append_str(prompt, "</tool_call>\n");
                    if !last {
                        append_str(prompt, "<|im_end|>\n");
                    }
                    assert(prompt@ =~= start + message_turn(m@, last));
                },
                None => {
                    append_str(prompt, "<|im_start|>assistant\n");
                    append_str(prompt, m.content.as_str());
                    append_str(prompt, "\n");
                    append_str(prompt, "<|im_end|>\n");
                    assert(prompt@ =~= start + message_turn(m@, last));
                },
            }
        },
        Role::Tool => {
            append_str(prompt, "<|im_start|>user\n");
            append_str(prompt, "<tool_response>\n");
            append_str(prompt, m.content.as_str());
            append_str(prompt, "\n");
            append_str(prompt, "</tool_response>\n");
            append_str(prompt, "<|im_end|>\n");
            assert(prompt@ =~= start + message_turn(m@, last));
        },
    }
}

/// The Qwen prompt for `messages` with `tools` declared: the first system message
/// and the tools block, then one turn per other message, then an open assistant
/// turn unless the assistant spoke last.
pub fn build_qwen_prompt(messages: &[Message], tools: &[Tool]) -> (r: String)
    ensures
        r@ == qwen_prompt(messages_view(messages@), tools_view(tools@)),
{
    let ghost mv = messages_view(messages@);
    let ghost tv = tools_view(tools@);
    let mut prompt = String::new();
    let tools_block = build_qwen_tools_block(tools);
    match first_system_exec(messages) {
        Some(content) => {
            append_str(&mut prompt, "<|im_start|>system\n");
            append_str(&mut prompt, content.as_str());
            append_str(&mut prompt, "\n");
            append_str(&mut prompt, "<|im_end|>\n");
        },
        None => {},
    }
    if !tools_block.as_str().is_empty() {
        append_str(&mut prompt, tools_block.as_str());
        append_str(&mut prompt, "\n");
    }
    assert(prompt@ =~= prompt_header(mv, tv));
    let ghost header = prompt@;
    let n = messages.len();
    let mut i: usize = 0;
    while i < n
        invariant
            n == messages@.len(),
            i <= n,
            mv == messages_view(messages@),
            prompt@ == header + turns(mv, i as int),
        decreases n - i,
    {
        assert(mv[i as int] == messages@[i as int]@);
        push_turn(&mut prompt, &messages[i], i == n - 1);
        assert(header + turns(mv, i + 1) =~= header + turns(mv, i as int) + message_turn(
            mv[i as int],
            i == n - 1,
        ));
        i = i + 1;
    }
    let ghost body = prompt@;
    if n > 0 && messages[n - 1].role != Role::Assistant {
        append_str(&mut prompt, "<|im_start|>assistant\n");
    }
    assert(n > 0 ==> mv.last() == messages@[n - 1]@);
    assert(prompt@ =~= body + prompt_tail(mv));
    prompt
}

} // verus!
