use vstd::prelude::*;
use crate::json::{Json, JsonV, jarray, jobject, jstr, view_jsons, view_members};
use crate::model::{FunctionDefinition, FunctionDefinitionV, SkillDefinition, SkillDefinitionV, Tool, ToolV, strings_view, tools_view};

verus! {

// Builders for the JSON schemas and tool declarations that the skills offer.

/// `{"type": ty, "description": desc}`.
pub open spec fn prop_v(ty: Seq<char>, desc: Seq<char>) -> JsonV {
    JsonV::Object(seq![("type"@, JsonV::Str(ty)), ("description"@, JsonV::Str(desc))])
}

/// `{"type": "object", "properties": {..props}, "required": [..required]}`.
pub open spec fn object_schema_v(
    props: Seq<(Seq<char>, JsonV)>,
    required: Seq<Seq<char>>,
) -> JsonV {
    JsonV::Object(
        seq![
            ("type"@, JsonV::Str("object"@)),
            ("properties"@, JsonV::Object(props)),
            ("required"@, JsonV::Array(required.map_values(|s: Seq<char>| JsonV::Str(s)))),
        ],
    )
}

/// A tool of type `"function"` with the given name, description and parameters.
pub open spec fn function_tool_v(name: Seq<char>, desc: Seq<char>, params: JsonV) -> ToolV {
    ToolV {
        tool_type: "function"@,
        function: FunctionDefinitionV { name, description: Some(desc), parameters: params },
    }
}

pub fn prop(ty: &str, desc: &str) -> (r: Json)
    ensures
        r@ == prop_v(ty@, desc@),
{
    let m = vec![("type".to_owned(), jstr(ty)), ("description".to_owned(), jstr(desc))];
    proof {
        reveal_strlit("type");
        reveal_strlit("description");
    }
    let r = jobject(m);
    assert(view_members(m@) =~= seq![("type"@, JsonV::Str(ty@)), ("description"@, JsonV::Str(desc@))]);
    r
}

/// Members from pairs of a key and a document.
pub fn members1(k1: &str, v1: Json) -> (r: Vec<(String, Json)>)
    ensures
        view_members(r@) == seq![(k1@, v1@)],
{
    let r = vec![(k1.to_owned(), v1)];
    assert(view_members(r@) =~= seq![(k1@, v1@)]);
    r
}

pub fn members2(k1: &str, v1: Json, k2: &str, v2: Json) -> (r: Vec<(String, Json)>)
    ensures
        view_members(r@) == seq![(k1@, v1@), (k2@, v2@)],
{
    let r = vec![(k1.to_owned(), v1), (k2.to_owned(), v2)];
    assert(view_members(r@) =~= seq![(k1@, v1@), (k2@, v2@)]);
    r
}

pub fn members3(k1: &str, v1: Json, k2: &str, v2: Json, k3: &str, v3: Json) -> (r: Vec<
    (String, Json),
>)
    ensures
        view_members(r@) == seq![(k1@, v1@), (k2@, v2@), (k3@, v3@)],
{
    let r = vec![(k1.to_owned(), v1), (k2.to_owned(), v2), (k3.to_owned(), v3)];
    assert(view_members(r@) =~= seq![(k1@, v1@), (k2@, v2@), (k3@, v3@)]);
    r
}

pub fn members4(k1: &str, v1: Json, k2: &str, v2: Json, k3: &str, v3: Json, k4: &str, v4: Json) -> (r:
    Vec<(String, Json)>)
    ensures
        view_members(r@) == seq![(k1@, v1@), (k2@, v2@), (k3@, v3@), (k4@, v4@)],
{
    let r = vec![(k1.to_owned(), v1), (k2.to_owned(), v2), (k3.to_owned(), v3), (k4.to_owned(), v4)];
    assert(view_members(r@) =~= seq![(k1@, v1@), (k2@, v2@), (k3@, v3@), (k4@, v4@)]);
    r
}

pub fn members5(
    k1: &str,
    v1: Json,
    k2: &str,
    v2: Json,
    k3: &str,
    v3: Json,
    k4: &str,
    v4: Json,
    k5: &str,
    v5: Json,
) -> (r: Vec<(String, Json)>)
    ensures
        view_members(r@) == seq![(k1@, v1@), (k2@, v2@), (k3@, v3@), (k4@, v4@), (k5@, v5@)],
{
    let r = vec![
        (k1.to_owned(), v1),
        (k2.to_owned(), v2),
        (k3.to_owned(), v3),
        (k4.to_owned(), v4),
        (k5.to_owned(), v5),
    ];
    assert(view_members(r@) =~= seq![(k1@, v1@), (k2@, v2@), (k3@, v3@), (k4@, v4@), (k5@, v5@)]);
    r
}

pub fn members6(
    k1: &str,
    v1: Json,
    k2: &str,
    v2: Json,
    k3: &str,
    v3: Json,
    k4: &str,
    v4: Json,
    k5: &str,
    v5: Json,
    k6: &str,
    v6: Json,
) -> (r: Vec<(String, Json)>)
    ensures
        view_members(r@) == seq![
            (k1@, v1@),
            (k2@, v2@),
            (k3@, v3@),
            (k4@, v4@),
            (k5@, v5@),
            (k6@, v6@),
        ],
{
    let r = vec![
        (k1.to_owned(), v1),
        (k2.to_owned(), v2),
        (k3.to_owned(), v3),
        (k4.to_owned(), v4),
        (k5.to_owned(), v5),
        (k6.to_owned(), v6),
    ];
    assert(view_members(r@) =~= seq![
        (k1@, v1@),
        (k2@, v2@),
        (k3@, v3@),
        (k4@, v4@),
        (k5@, v5@),
        (k6@, v6@),
    ]);
    r
}

/// The array of the given strings, as documents.
pub fn string_array(items: Vec<String>) -> (r: Json)
    ensures
        r@ == JsonV::Array(strings_view(items@).map_values(|s: Seq<char>| JsonV::Str(s))),
{
    let mut out: Vec<Json> = Vec::new();
    let mut i: usize = 0;
    while i < items.len()
        invariant
            i <= items.len(),
            out@.len() == i,
            forall|k: int| 0 <= k < i ==> #[trigger] out@[k]@ == JsonV::Str(items@[k]@),
        decreases items.len() - i,
    {
        out.push(Json::Str(crate::text::copy_string(&items[i])));
        i = i + 1;
    }
    let r = jarray(out);
    assert(view_jsons(out@) =~= strings_view(items@).map_values(|s: Seq<char>| JsonV::Str(s)));
    r
}

pub fn object_schema(props: Vec<(String, Json)>, required: Vec<String>) -> (r: Json)
    ensures
        r@ == object_schema_v(view_members(props@), strings_view(required@)),
{
    let req = string_array(required);
    let p = jobject(props);
    let m = members3("type", jstr("object"), "properties", p, "required", req);
    jobject(m)
}

pub fn function_tool(name: &str, desc: &str, params: Json) -> (r: Tool)
    ensures
        r@ == function_tool_v(name@, desc@, params@),
{
    proof {
        reveal_strlit("function");
    }
    Tool {
        tool_type: "function".to_owned(),
        function: FunctionDefinition {
            name: name.to_owned(),
            description: Some(desc.to_owned()),
            parameters: params,
        },
    }
}

/// Argument lists written as literals.
pub fn strs1(a: &str) -> (r: Vec<String>)
    ensures
        strings_view(r@) == seq![a@],
{
    crate::command::args1(a)
}

pub fn strs2(a: &str, b: &str) -> (r: Vec<String>)
    ensures
        strings_view(r@) == seq![a@, b@],
{
    crate::command::args2(a, b)
}

pub fn strs3(a: &str, b: &str, c: &str) -> (r: Vec<String>)
    ensures
        strings_view(r@) == seq![a@, b@, c@],
{
    crate::command::args3(a, b, c)
}

pub fn strs5(a: &str, b: &str, c: &str, d: &str, e: &str) -> (r: Vec<String>)
    ensures
        strings_view(r@) == seq![a@, b@, c@, d@, e@],
{
    let r = vec![a.to_owned(), b.to_owned(), c.to_owned(), d.to_owned(), e.to_owned()];
    assert(strings_view(r@) =~= seq![a@, b@, c@, d@, e@]);
    r
}

pub fn strs6(a: &str, b: &str, c: &str, d: &str, e: &str, f: &str) -> (r: Vec<String>)
    ensures
        strings_view(r@) == seq![a@, b@, c@, d@, e@, f@],
{
    let r = vec![a.to_owned(), b.to_owned(), c.to_owned(), d.to_owned(), e.to_owned(), f.to_owned()];
    assert(strings_view(r@) =~= seq![a@, b@, c@, d@, e@, f@]);
    r
}

/// A skill with the given name, description, keywords and tools.
pub open spec fn skill_v(
    name: Seq<char>,
    desc: Seq<char>,
    keywords: Seq<Seq<char>>,
    tools: Seq<ToolV>,
) -> SkillDefinitionV {
    SkillDefinitionV { name, description: Some(desc), keywords: Some(keywords), tools }
}

pub fn skill(name: &str, desc: &str, keywords: Vec<String>, tools: Vec<Tool>) -> (r: SkillDefinition)
    ensures
        r@ == skill_v(name@, desc@, strings_view(keywords@), tools_view(tools@)),
{
    SkillDefinition {
        name: name.to_owned(),
        description: Some(desc.to_owned()),
        keywords: Some(keywords),
        tools,
    }
}

pub fn strs4(a: &str, b: &str, c: &str, d: &str) -> (r: Vec<String>)
    ensures
        strings_view(r@) == seq![a@, b@, c@, d@],
{
    let r = vec![a.to_owned(), b.to_owned(), c.to_owned(), d.to_owned()];
    assert(strings_view(r@) =~= seq![a@, b@, c@, d@]);
    r
}

/// Four tools, in order.
pub fn tools4(a: Tool, b: Tool, c: Tool, d: Tool) -> (r: Vec<Tool>)
    ensures
        tools_view(r@) == seq![a@, b@, c@, d@],
{
    let r = vec![a, b, c, d];
    assert(tools_view(r@) =~= seq![a@, b@, c@, d@]);
    r
}

} // verus!
