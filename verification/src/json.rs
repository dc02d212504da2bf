use vstd::prelude::*;
use crate::text::{copy_string, decimal, decimal_string, str_eq};

verus! {

/// A JSON document held as plain values.
///
/// Objects keep their members in the order in which they were read or built;
/// a document read from text holds each key once.
#[derive(Debug)]
pub enum Json {
    Null,
    Bool(bool),
    /// A number, held as the decimal text that the JSON codec prints for it.
    Number(String),
    Str(String),
    Array(Vec<Json>),
    Object(Vec<(String, Json)>),
}

/// The mathematical model of a JSON document.
pub enum JsonV {
    Null,
    Bool(bool),
    Number(Seq<char>),
    Str(Seq<char>),
    Array(Seq<JsonV>),
    Object(Seq<(Seq<char>, JsonV)>),
}

pub open spec fn view_json(j: Json) -> JsonV
    decreases j,
{
    match j {
        Json::Null => JsonV::Null,
        Json::Bool(b) => JsonV::Bool(b),
        Json::Number(n) => JsonV::Number(n@),
        Json::Str(s) => JsonV::Str(s@),
        Json::Array(v) => JsonV::Array(
            Seq::new(
                v@.len(),
                |i: int|
                    if 0 <= i < v@.len() {
                        view_json(v@[i])
                    } else {
                        JsonV::Null
                    },
            ),
        ),
        Json::Object(v) => JsonV::Object(
            Seq::new(
                v@.len(),
                |i: int|
                    if 0 <= i < v@.len() {
                        (v@[i].0@, view_json(v@[i].1))
                    } else {
                        (Seq::empty(), JsonV::Null)
                    },
            ),
        ),
    }
}

impl View for Json {
    type V = JsonV;

    open spec fn view(&self) -> JsonV {
        view_json(*self)
    }
}

/// The models of a vector of documents.
pub open spec fn view_jsons(v: Seq<Json>) -> Seq<JsonV> {
    v.map_values(|j: Json| j@)
}

/// The models of a vector of members.
pub open spec fn view_members(v: Seq<(String, Json)>) -> Seq<(Seq<char>, JsonV)> {
    v.map_values(|p: (String, Json)| (p.0@, p.1@))
}

pub proof fn lemma_view_array(v: Vec<Json>)
    ensures
        Json::Array(v)@ == JsonV::Array(view_jsons(v@)),
{
    let a = Json::Array(v)@;
    assert forall|i: int| 0 <= i < v@.len() implies a->Array_0[i] == view_jsons(v@)[i] by {
        assert(view_jsons(v@)[i] == v@[i]@);
    }
    assert(a->Array_0 =~= view_jsons(v@));
    assert(view_jsons(v@) =~= Seq::new(
        v@.len(),
        |i: int|
            if 0 <= i < v@.len() {
                view_json(v@[i])
            } else {
                JsonV::Null
            },
    ));
}

pub proof fn lemma_view_object(v: Vec<(String, Json)>)
    ensures
        Json::Object(v)@ == JsonV::Object(view_members(v@)),
{
    let a = Json::Object(v)@;
    assert forall|i: int| 0 <= i < v@.len() implies a->Object_0[i] == view_members(v@)[i] by {
        assert(view_members(v@)[i] == (v@[i].0@, v@[i].1@));
    }
    assert(a->Object_0 =~= view_members(v@));
}

// ---------------------------------------------------------------------
// Reading documents, as `serde_json::Value` indexing does
// ---------------------------------------------------------------------

/// The value of the first member named `key`.
pub open spec fn lookup(members: Seq<(Seq<char>, JsonV)>, key: Seq<char>) -> Option<JsonV>
    decreases members.len(),
{
    if members.len() == 0 {
        None
    } else if members[0].0 == key {
        Some(members[0].1)
    } else {
        lookup(members.drop_first(), key)
    }
}

/// `value[key]`: the member of an object, or null when there is none.
pub open spec fn field(v: JsonV, key: Seq<char>) -> JsonV {
    match v {
        JsonV::Object(m) => match lookup(m, key) {
            Some(x) => x,
            None => JsonV::Null,
        },
        _ => JsonV::Null,
    }
}

/// `value[i]`: the element of an array, or null when there is none.
pub open spec fn item(v: JsonV, i: int) -> JsonV {
    match v {
        JsonV::Array(a) => if 0 <= i < a.len() {
            a[i]
        } else {
            JsonV::Null
        },
        _ => JsonV::Null,
    }
}

/// `value.as_str()`.
pub open spec fn as_str(v: JsonV) -> Option<Seq<char>> {
    match v {
        JsonV::Str(s) => Some(s),
        _ => None,
    }
}

/// `value.as_bool()`.
pub open spec fn as_bool(v: JsonV) -> Option<bool> {
    match v {
        JsonV::Bool(b) => Some(b),
        _ => None,
    }
}

/// `value.as_bool().unwrap_or(false)`.
pub open spec fn flag(v: JsonV) -> bool {
    as_bool(v) == Some(true)
}

/// A deep copy of a document.
pub fn json_clone(j: &Json) -> (r: Json)
    ensures
        r@ == j@,
    decreases j,
{
    match j {
        Json::Null => Json::Null,
        Json::Bool(b) => Json::Bool(*b),
        Json::Number(n) => Json::Number(copy_string(n)),
        Json::Str(s) => Json::Str(copy_string(s)),
        Json::Array(v) => {
            let mut out: Vec<Json> = Vec::new();
            let mut i: usize = 0;
            while i < v.len()
                invariant
                    *j == Json::Array(*v),
                    i <= v.len(),
                    out@.len() == i,
                    forall|k: int| 0 <= k < i ==> #[trigger] out@[k]@ == v@[k]@,
                decreases v.len() - i,
            {
                assert(decreases_to!(*v => v[i as int]));
                assert(decreases_to!(*j => (*j)->Array_0));
                let c = json_clone(&v[i]);
                out.push(c);
                i = i + 1;
            }
            proof {
                lemma_view_array(out);
                lemma_view_array(*v);
                assert(view_jsons(out@) =~= view_jsons(v@));
            }
            Json::Array(out)
        },
        Json::Object(m) => {
            let mut out: Vec<(String, Json)> = Vec::new();
            let mut i: usize = 0;
            while i < m.len()
                invariant
                    *j == Json::Object(*m),
                    i <= m.len(),
                    out@.len() == i,
                    forall|k: int|
                        0 <= k < i ==> (#[trigger] out@[k]).0@ == m@[k].0@ && out@[k].1@
                            == m@[k].1@,
                decreases m.len() - i,
            {
                assert(decreases_to!(*m => m[i as int]));
                assert(decreases_to!(*j => (*j)->Object_0));
                assert(decreases_to!(m[i as int] => m[i as int].1));
                let v = json_clone(&m[i].1);
                let k = copy_string(&m[i].0);
                out.push((k, v));
                i = i + 1;
            }
            proof {
                lemma_view_object(out);
                lemma_view_object(*m);
                assert(view_members(out@) =~= view_members(m@));
            }
            Json::Object(out)
        },
    }
}

/// `value[key]`, copied out.
pub fn get_field(j: &Json, key: &str) -> (r: Json)
    ensures
        r@ == field(j@, key@),
{
    match j {
        Json::Object(m) => {
            proof {
                lemma_view_object(*m);
            }
            let ghost members = view_members(m@);
            let mut i: usize = 0;
            assert(members.skip(0) =~= members);
            while i < m.len()
                invariant
                    i <= m.len(),
                    j@ == JsonV::Object(members),
                    members == view_members(m@),
                    lookup(members.skip(i as int), key@) == lookup(members, key@),
                decreases m.len() - i,
            {
                assert(members.skip(i as int).drop_first() =~= members.skip(i + 1));
                if str_eq(m[i].0.as_str(), key) {
                    assert(members[i as int] == (m@[i as int].0@, m@[i as int].1@));
                    assert(members.skip(i as int)[0] == members[i as int]);
                    return json_clone(&m[i].1);
                }
                i = i + 1;
            }
            Json::Null
        },
        _ => Json::Null,
    }
}

/// `value[i]`, copied out.
pub fn get_item(j: &Json, i: usize) -> (r: Json)
    ensures
        r@ == item(j@, i as int),
{
    match j {
        Json::Array(v) => {
            proof {
                lemma_view_array(*v);
            }
            if i < v.len() {
                json_clone(&v[i])
            } else {
                Json::Null
            }
        },
        _ => Json::Null,
    }
}

/// `value.as_str()`, copied out.
pub fn get_str(j: &Json) -> (r: Option<String>)
    ensures
        r matches Some(s) ==> as_str(j@) == Some(s@),
        r is None ==> as_str(j@) is None,
{
    match j {
        Json::Str(s) => Some(copy_string(s)),
        _ => None,
    }
}

/// `value.as_bool()`.
pub fn get_bool(j: &Json) -> (r: Option<bool>)
    ensures
        r == as_bool(j@),
{
    match j {
        Json::Bool(b) => Some(*b),
        _ => None,
    }
}

/// `value.is_null()`.
pub fn is_null(j: &Json) -> (r: bool)
    ensures
        r == (j@ is Null),
{
    match j {
        Json::Null => true,
        _ => false,
    }
}

/// A string document.
pub fn jstr(s: &str) -> (r: Json)
    ensures
        r@ == JsonV::Str(s@),
{
    Json::Str(s.to_owned())
}

/// A string document holding a copy of `s`.
pub fn jstring(s: &String) -> (r: Json)
    ensures
        r@ == JsonV::Str(s@),
{
    Json::Str(copy_string(s))
}

/// A number document for a count.
pub fn jcount(n: u64) -> (r: Json)
    ensures
        r@ == JsonV::Number(decimal(n as nat)),
{
    Json::Number(decimal_string(n))
}

/// An object with the given members, in this order.
pub fn jobject(members: Vec<(String, Json)>) -> (r: Json)
    ensures
        r@ == JsonV::Object(view_members(members@)),
{
    proof {
        lemma_view_object(members);
    }
    Json::Object(members)
}

/// An array with the given elements, in this order.
pub fn jarray(items: Vec<Json>) -> (r: Json)
    ensures
        r@ == JsonV::Array(view_jsons(items@)),
{
    proof {
        lemma_view_array(items);
    }
    Json::Array(items)
}

/// A member `key: value`.
pub fn member(key: &str, value: Json) -> (r: (String, Json))
    ensures
        r.0@ == key@,
        r.1 == value,
{
    (key.to_owned(), value)
}

// ---------------------------------------------------------------------
// The JSON codec
// ---------------------------------------------------------------------

#[verifier::external_type_specification]
#[verifier::external_body]
pub struct ExJsonValue(serde_json::Value);

/// What `serde_json::from_str::<serde_json::Value>` gives for a text: the document,
/// or the text of the error.
pub uninterp spec fn spec_json_parse(text: Seq<char>) -> Result<JsonV, Seq<char>>;

/// What `serde_json::Value`'s `Display` prints for a document (compact form).
pub uninterp spec fn spec_json_text(v: JsonV) -> Seq<char>;

/// What `serde_json::to_string_pretty` prints for a document.
pub uninterp spec fn spec_json_pretty(v: JsonV) -> Seq<char>;

/// The model of a parse result.
pub open spec fn view_parse(r: Result<Json, String>) -> Result<JsonV, Seq<char>> {
    match r {
        Ok(j) => Ok(j@),
        Err(e) => Err(e@),
    }
}

/// Code-point order of keys, which is the byte order of their UTF-8 text: the
/// order in which the codec's maps keep their keys.
pub open spec fn key_less(a: Seq<char>, b: Seq<char>) -> bool
    decreases a.len(),
{
    if a.len() == 0 {
        b.len() > 0
    } else if b.len() == 0 {
        false
    } else if a[0] == b[0] {
        key_less(a.drop_first(), b.drop_first())
    } else {
        (a[0] as u32) < (b[0] as u32)
    }
}

/// The text that the codec prints for an integer it holds (`u64` or `i64`).
pub open spec fn integer_text(t: Seq<char>) -> bool {
    ||| exists|n: nat| n < 0x1_0000_0000_0000_0000 && t == #[trigger] decimal(n)
    ||| exists|n: nat| 0 < n <= 0x8000_0000_0000_0000 && t == seq!['-'] + #[trigger] decimal(n)
}

/// A document as the codec holds it after reading, within `depth` levels of
/// nesting: numbers are integers in their printed form, object keys are in
/// strictly increasing [`key_less`] order, and every array or object uses one
/// level.
pub open spec fn normal_within(v: JsonV, depth: nat) -> bool
    decreases depth,
{
    match v {
        JsonV::Number(t) => integer_text(t),
        JsonV::Array(items) => depth > 0 && forall|i: int|
            0 <= i < items.len() ==> normal_within(#[trigger] items[i], (depth - 1) as nat),
        JsonV::Object(ms) => depth > 0 && (forall|i: int|
            #![trigger ms[i]]
            0 <= i < ms.len() - 1 ==> key_less(ms[i].0, ms[i + 1].0)) && forall|i: int|
            0 <= i < ms.len() ==> normal_within((#[trigger] ms[i]).1, (depth - 1) as nat),
        _ => true,
    }
}

/// The codec reads nested arrays and objects up to this depth.
pub open spec fn codec_depth() -> nat {
    127
}

/// The document that a text parses to, if it parses.
pub open spec fn view_parse_text(text: Seq<char>) -> Option<JsonV> {
    match spec_json_parse(text) {
        Ok(v) => Some(v),
        Err(_) => None,
    }
}

/// A document that the codec reads back from its own text unchanged.
pub open spec fn normal_form(v: JsonV) -> bool {
    normal_within(v, codec_depth())
}

/// `serde_json::from_str::<serde_json::Value>(text)`: the document in `text`, or the
/// codec's error message. The grammar of JSON is the codec's and is not restated.
#[verifier::external_body]
pub(crate) fn parse_json(text: &str) -> (r: Result<Json, String>)
    ensures
        view_parse(r) == spec_json_parse(text@),
{
    match serde_json::from_str::<serde_json::Value>(text) {
        Ok(v) => Ok(from_value(v)),
        Err(e) => Err(e.to_string()),
    }
}

/// `Value::to_string()`: the compact text of a document (object members in the
/// codec's key order). A document in [`normal_form`] is read back from it
/// unchanged.
#[verifier::external_body]
pub(crate) fn json_text(j: &Json) -> (r: String)
    ensures
        r@ == spec_json_text(j@),
        normal_form(j@) ==> view_parse_text(r@) == Some(j@),
{
    to_value(j).to_string()
}

/// `serde_json::to_string_pretty`: the indented text of a document. A document
/// in [`normal_form`] is read back from it unchanged.
#[verifier::external_body]
pub(crate) fn json_pretty(j: &Json) -> (r: String)
    ensures
        r@ == spec_json_pretty(j@),
        normal_form(j@) ==> view_parse_text(r@) == Some(j@),
{
    serde_json::to_string_pretty(&to_value(j)).unwrap_or_default()
}

/// Moves a codec value into the library's form (used by the codec wrappers only).
#[verifier::external_body]
fn from_value(v: serde_json::Value) -> Json {
    match v {
        serde_json::Value::Null => Json::Null,
        serde_json::Value::Bool(b) => Json::Bool(b),
        serde_json::Value::Number(n) => Json::Number(n.to_string()),
        serde_json::Value::String(s) => Json::Str(s),
        serde_json::Value::Array(a) => Json::Array(a.into_iter().map(from_value).collect()),
        serde_json::Value::Object(m) => Json::Object(
            m.into_iter().map(|(k, x)| (k, from_value(x))).collect(),
        ),
    }
}

/// Moves a document into the codec's form (used by the codec wrappers only).
#[verifier::external_body]
fn to_value(j: &Json) -> serde_json::Value {
    match j {
        Json::Null => serde_json::Value::Null,
        Json::Bool(b) => serde_json::Value::Bool(*b),
        Json::Number(n) => n.parse::<serde_json::Number>().map(serde_json::Value::Number).unwrap_or(
            serde_json::Value::Null,
        ),
        Json::Str(s) => serde_json::Value::String(s.clone()),
        Json::Array(a) => serde_json::Value::Array(a.iter().map(to_value).collect()),
        Json::Object(m) => serde_json::Value::Object(
            m.iter().map(|(k, x)| (k.clone(), to_value(x))).collect(),
        ),
    }
}

} // verus!
