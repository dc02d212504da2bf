use vstd::prelude::*;
use crate::error::{AppError, AppErrorV};
use crate::model::{Message, MessageV};
use crate::ollama::data_payload;
use crate::text::{append_str, chars_eq, chars_of, lines, lines_of, slice_vec, spec_utf8_lossy, starts_with, string_from, utf8_lossy};

verus! {

/// The settings of the OpenRouter chat client.
pub struct OpenRouterAdapter {
    api_url: String,
    api_key: String,
    model: String,
}

pub struct OpenRouterAdapterV {
    pub api_url: Seq<char>,
    pub api_key: Seq<char>,
    pub model: Seq<char>,
}

impl View for OpenRouterAdapter {
    type V = OpenRouterAdapterV;

    closed spec fn view(&self) -> OpenRouterAdapterV {
        OpenRouterAdapterV { api_url: self.api_url@, api_key: self.api_key@, model: self.model@ }
    }
}

pub open spec fn openrouter_url() -> Seq<char> {
    "https://openrouter.ai/api/v1/chat/completions"@
}

impl OpenRouterAdapter {
    /// A client of OpenRouter's chat endpoint with the given key and model.
    pub fn new(api_key: String, model: String) -> (r: Self)
        ensures
            r@ == (OpenRouterAdapterV { api_url: openrouter_url(), api_key: api_key@, model: model@ }),
    {
        OpenRouterAdapter {
            api_url: "https://openrouter.ai/api/v1/chat/completions".to_owned(),
            api_key,
            model,
        }
    }

    pub fn api_url(&self) -> (r: &String)
        ensures
            r@ == self@.api_url,
    {
        &self.api_url
    }

    pub fn api_key(&self) -> (r: &String)
        ensures
            r@ == self@.api_key,
    {
        &self.api_key
    }

    pub fn model(&self) -> (r: &String)
        ensures
            r@ == self@.model,
    {
        &self.model
    }
}

/// The message of the first choice, or an error when the answer has none.
pub fn first_choice(choices: Vec<Message>) -> (r: Result<Message, AppError>)
    ensures
        choices@.len() == 0 ==> (r matches Err(e) && e@ == AppErrorV::LlmProvider(
            "No response choices from API"@,
        )),
        choices@.len() > 0 ==> (r matches Ok(m) && m == choices@[0]),
{
    let mut choices = choices;
    if choices.len() == 0 {
        return Err(AppError::LlmProviderError("No response choices from API".to_owned()));
    }
    Ok(choices.remove(0))
}

/// The data payloads of a streamed chunk's lines, up to a `[DONE]` payload.
pub open spec fn payloads_until_done(ls: Seq<Seq<char>>) -> Seq<Seq<char>>
    decreases ls.len(),
{
    if ls.len() == 0 {
        Seq::empty()
    } else {
        match data_payload(ls[0]) {
            None => payloads_until_done(ls.drop_first()),
            Some(p) => if p == "[DONE]"@ {
                Seq::empty()
            } else {
                seq![p] + payloads_until_done(ls.drop_first())
            },
        }
    }
}

/// No line of `ls` is the data line `[DONE]`.
pub open spec fn no_done(ls: Seq<Seq<char>>) -> bool {
    forall|i: int| 0 <= i < ls.len() ==> data_payload(#[trigger] ls[i]) != Some("[DONE]"@)
}

/// Lines up to a `[DONE]` payload contribute their payloads in order: decoding
/// them followed by more lines is decoding each part and joining the results.
pub proof fn law_payloads_join(ls1: Seq<Seq<char>>, ls2: Seq<Seq<char>>)
    requires
        no_done(ls1),
    ensures
        payloads_until_done(ls1 + ls2) == payloads_until_done(ls1) + payloads_until_done(ls2),
    decreases ls1.len(),
{
    if ls1.len() == 0 {
        assert(ls1 + ls2 =~= ls2);
    } else {
        let t = ls1.drop_first();
        assert forall|i: int| 0 <= i < t.len() implies data_payload(#[trigger] t[i]) != Some("[DONE]"@) by {
            assert(t[i] == ls1[i + 1]);
        }
        law_payloads_join(t, ls2);
        assert((ls1 + ls2).drop_first() =~= t + ls2);
        assert((ls1 + ls2)[0] == ls1[0]);
        assert(data_payload(ls1[0]) != Some("[DONE]"@));
        match data_payload(ls1[0]) {
            Some(p) => {
                assert(seq![p] + (payloads_until_done(t) + payloads_until_done(ls2)) =~= (seq![p]
                    + payloads_until_done(t)) + payloads_until_done(ls2));
            },
            None => {},
        }
    }
}

/// A data line gives its payload; a `[DONE]` data line ends the chunk; a line that
/// is not a data line gives nothing.
pub proof fn law_payload_lines(p: Seq<char>, l: Seq<char>, rest: Seq<Seq<char>>)
    ensures
        p != "[DONE]"@ ==> payloads_until_done(seq!["data: "@ + p]) == seq![p],
        payloads_until_done(seq!["data: [DONE]"@] + rest) == Seq::<Seq<char>>::empty(),
        !"data: "@.is_prefix_of(l) ==> payloads_until_done(seq![l] + rest) == payloads_until_done(rest),
{
    reveal_strlit("data: ");
    reveal_strlit("data: [DONE]");
    reveal_strlit("[DONE]");
    let d = "data: "@ + p;
    assert("data: "@.is_prefix_of(d)) by {
        assert(d.take(6) =~= "data: "@);
    }
    assert(d.skip(6) =~= p);
    assert(seq![d].drop_first() =~= Seq::<Seq<char>>::empty());
    assert(seq![d][0] == d);
    assert(data_payload(d) == Some(p));
    assert(payloads_until_done(Seq::<Seq<char>>::empty()) == Seq::<Seq<char>>::empty());
    assert(seq![p] + Seq::<Seq<char>>::empty() =~= seq![p]);
    let e = "data: [DONE]"@;
    assert("data: "@.is_prefix_of(e)) by {
        assert(e.take(6) =~= "data: "@);
    }
    assert(e.skip(6) =~= "[DONE]"@);
    assert((seq![e] + rest)[0] == e);
    assert((seq![l] + rest)[0] == l);
    assert((seq![l] + rest).drop_first() =~= rest);
}

/// A chunk of data lines without `[DONE]` gives one payload per line.
pub proof fn law_one_payload_per_data_line(ls: Seq<Seq<char>>)
    requires
        no_done(ls),
        forall|i: int| 0 <= i < ls.len() ==> #[trigger] data_payload(ls[i]) is Some,
    ensures
        payloads_until_done(ls).len() == ls.len(),
        forall|i: int| 0 <= i < ls.len() ==> payloads_until_done(ls)[i] == data_payload(#[trigger] ls[i])->Some_0,
    decreases ls.len(),
{
    if ls.len() > 0 {
        let t = ls.drop_first();
        assert forall|i: int| 0 <= i < t.len() implies data_payload(#[trigger] t[i]) != Some("[DONE]"@)
            && data_payload(t[i]) is Some by {
            assert(t[i] == ls[i + 1]);
        }
        law_one_payload_per_data_line(t);
        assert(data_payload(ls[0]) is Some);
        assert(data_payload(ls[0]) != Some("[DONE]"@));
        assert forall|i: int| 0 <= i < ls.len() implies payloads_until_done(ls)[i] == data_payload(
            #[trigger] ls[i],
        )->Some_0 by {
            if i > 0 {
                assert(t[i - 1] == ls[i]);
            }
        }
    }
}

/// The data payloads of a chunk of OpenRouter's streamed answer: the chunk is
/// decoded (invalid sequences replaced) and split into lines; each `data: ` line
/// gives its payload, and a `[DONE]` payload ends the chunk.
pub fn stream_payloads(chunk: &[u8]) -> (r: Vec<String>)
    ensures
        crate::model::strings_view(r@) == payloads_until_done(lines(spec_utf8_lossy(chunk@))),
{
    let text = utf8_lossy(chunk);
    let v = chars_of(text.as_str());
    let ls = lines_of(&v);
    let ghost lv = ls@.map_values(|l: Vec<char>| l@);
    let prefix = chars_of("data: ");
    let done = chars_of("[DONE]");
    proof {
        reveal_strlit("data: ");
        reveal_strlit("[DONE]");
    }
    let mut out: Vec<String> = Vec::new();
    let mut i: usize = 0;
    assert(lv.skip(0) =~= lv);
    while i < ls.len()
        invariant
            i <= ls.len(),
            lv == ls@.map_values(|l: Vec<char>| l@),
            lv == lines(spec_utf8_lossy(chunk@)),
            prefix@ == "data: "@,
            prefix@.len() == 6,
            done@ == "[DONE]"@,
            crate::model::strings_view(out@) + payloads_until_done(lv.skip(i as int))
                == payloads_until_done(lv),
        decreases ls.len() - i,
    {
        assert(lv.skip(i as int).drop_first() =~= lv.skip(i + 1));
        assert(lv.skip(i as int)[0] == ls@[i as int]@);
        let line = &ls[i];
        if starts_with(line, &prefix) {
            let p = slice_vec(line, 6, line.len());
            assert(p@ =~= line@.skip(6));
            if chars_eq(&p, &done) {
                assert(data_payload(lv.skip(i as int)[0]) == Some(p@));
                assert(payloads_until_done(lv.skip(i as int)) == Seq::<Seq<char>>::empty());
                assert(crate::model::strings_view(out@) =~= crate::model::strings_view(out@) + Seq::<Seq<char>>::empty());
                return out;
            }
            let ghost before = crate::model::strings_view(out@);
            out.push(string_from(&p));
            assert(crate::model::strings_view(out@) =~= before.push(p@));
            assert(before + (seq![p@] + payloads_until_done(lv.skip(i + 1))) =~= before.push(p@) + payloads_until_done(lv.skip(i + 1)));
        }
        i = i + 1;
    }
    assert(lv.skip(i as int) =~= Seq::<Seq<char>>::empty());
    assert(crate::model::strings_view(out@) =~= crate::model::strings_view(out@) + Seq::<Seq<char>>::empty());
    out
}

/// A choice of a streamed OpenRouter record: the text fragment of its delta.
#[derive(Debug)]
pub struct OpenRouterStreamChoice {
    pub content: Option<String>,
}

/// A streamed OpenRouter record: its choices, in order.
#[derive(Debug)]
pub struct OpenRouterStreamChunk {
    pub choices: Vec<OpenRouterStreamChoice>,
}

/// The text fragment of a record: the first choice's, when there is a choice and
/// it carries one.
pub open spec fn first_fragment(chunk: OpenRouterStreamChunk) -> Option<Seq<char>> {
    if chunk.choices@.len() > 0 {
        match chunk.choices@[0].content {
            Some(c) => Some(c@),
            None => None,
        }
    } else {
        None
    }
}

/// What one payload yields, given what reading it as a stream record gave: the
/// first choice's text fragment, nothing, or the reading error's text.
pub fn stream_event(parsed: Result<OpenRouterStreamChunk, String>) -> (r: Option<Result<String, AppError>>)
    ensures
        match parsed {
            Ok(chunk) => match first_fragment(chunk) {
                Some(c) => r matches Some(Ok(s)) && s@ == c,
                None => r is None,
            },
            Err(e) => r matches Some(Err(x)) && x@ == AppErrorV::LlmProvider("Stream parse error: "@ + e@),
        },
{
    match parsed {
        Ok(chunk) => {
            let mut choices = chunk.choices;
            if choices.len() == 0 {
                return None;
            }
            let first = choices.remove(0);
            match first.content {
                Some(c) => Some(Ok(c)),
                None => None,
            }
        },
        Err(e) => {
            let mut m = "Stream parse error: ".to_owned();
            append_str(&mut m, e.as_str());
            Some(Err(AppError::LlmProviderError(m)))
        },
    }
}

} // verus!
