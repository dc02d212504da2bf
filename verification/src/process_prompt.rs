use vstd::prelude::*;
use crate::error::{AppError, AppErrorV};
use crate::json::{Json, JsonV, json_text, parse_json, spec_json_parse, spec_json_text};
use crate::model::{
    Message, MessageV, Role, Session, SessionId, SessionV, Tool, ToolCall, ToolCallV, ToolV,
    calls_view, copy_calls, copy_tools, messages_view, tools_view,
};
use crate::text::{append_str, copy_string, str_eq};

verus! {

// ---------------------------------------------------------------------
// The tool registry
// ---------------------------------------------------------------------

/// A registered tool: its name, the index of the provider that runs it, and its
/// declaration.
#[derive(Debug)]
pub struct RegistryEntry {
    pub name: String,
    pub provider: usize,
    pub definition: Tool,
}

pub struct RegistryEntryV {
    pub name: Seq<char>,
    pub provider: nat,
    pub tool: ToolV,
}

impl View for RegistryEntry {
    type V = RegistryEntryV;

    open spec fn view(&self) -> RegistryEntryV {
        RegistryEntryV { name: self.name@, provider: self.provider as nat, tool: self.definition@ }
    }
}

/// The tools that the use case offers, one entry per tool name, in the order in
/// which the names were first registered.
pub struct ToolRegistry {
    entries: Vec<RegistryEntry>,
}

impl View for ToolRegistry {
    type V = Seq<RegistryEntryV>;

    closed spec fn view(&self) -> Seq<RegistryEntryV> {
        self.entries@.map_values(|e: RegistryEntry| e@)
    }
}

/// The entry named `name`, searching from the front.
pub open spec fn reg_lookup(es: Seq<RegistryEntryV>, name: Seq<char>) -> Option<RegistryEntryV>
    decreases es.len(),
{
    if es.len() == 0 {
        None
    } else if es[0].name == name {
        Some(es[0])
    } else {
        reg_lookup(es.drop_first(), name)
    }
}

/// Each entry is filed under its tool's name, and no name occurs twice.
pub open spec fn registry_wf(es: Seq<RegistryEntryV>) -> bool {
    &&& forall|i: int| 0 <= i < es.len() ==> (#[trigger] es[i]).name == es[i].tool.function.name
    &&& forall|i: int, j: int| 0 <= i < j < es.len() ==> (#[trigger] es[i]).name != (#[trigger] es[j]).name
}

/// The last tool of `ts` with the given name.
pub open spec fn last_named(ts: Seq<ToolV>, name: Seq<char>) -> Option<ToolV>
    decreases ts.len(),
{
    if ts.len() == 0 {
        None
    } else if ts.last().function.name == name {
        Some(ts.last())
    } else {
        last_named(ts.drop_last(), name)
    }
}

/// What the registry answers for a name: the provider and the declaration.
pub open spec fn answer(e: Option<RegistryEntryV>) -> Option<(nat, ToolV)> {
    match e {
        Some(x) => Some((x.provider, x.tool)),
        None => None,
    }
}

proof fn lemma_lookup_index(es: Seq<RegistryEntryV>, name: Seq<char>, i: int)
    requires
        registry_wf(es),
        0 <= i < es.len(),
        es[i].name == name,
    ensures
        reg_lookup(es, name) == Some(es[i]),
    decreases es.len(),
{
    if i > 0 {
        assert(es[0].name != name);
        let t = es.drop_first();
        assert(registry_wf(t)) by {
            assert forall|a: int, b: int| 0 <= a < b < t.len() implies (#[trigger] t[a]).name != (#[trigger] t[b]).name by {
                assert(t[a] == es[a + 1] && t[b] == es[b + 1]);
            }
        }
        lemma_lookup_index(t, name, i - 1);
    }
}

proof fn lemma_lookup_absent(es: Seq<RegistryEntryV>, name: Seq<char>)
    requires
        forall|i: int| 0 <= i < es.len() ==> (#[trigger] es[i]).name != name,
    ensures
        reg_lookup(es, name) is None,
    decreases es.len(),
{
    if es.len() > 0 {
        lemma_lookup_absent(es.drop_first(), name);
    }
}

proof fn lemma_lookup_found(es: Seq<RegistryEntryV>, name: Seq<char>)
    requires
        reg_lookup(es, name) is Some,
    ensures
        exists|i: int| 0 <= i < es.len() && es[i] == reg_lookup(es, name)->Some_0 && es[i].name == name,
    decreases es.len(),
{
    if es[0].name != name {
        lemma_lookup_found(es.drop_first(), name);
        let i = choose|i: int| 0 <= i < es.drop_first().len() && es.drop_first()[i] == reg_lookup(es, name)->Some_0 && es.drop_first()[i].name == name;
        assert(es[i + 1] == es.drop_first()[i]);
    } else {
        assert(es[0] == reg_lookup(es, name)->Some_0);
    }
}

impl ToolRegistry {
    /// A registry with no tool.
    pub fn new() -> (r: Self)
        ensures
            r.wf(),
            r@ == Seq::<RegistryEntryV>::empty(),
    {
        let r = ToolRegistry { entries: Vec::new() };
        assert(r@ =~= Seq::<RegistryEntryV>::empty());
        r
    }

    pub closed spec fn wf(&self) -> bool {
        registry_wf(self@)
    }

    /// The provider and the declaration of the tool named `name`.
    pub open spec fn get(&self, name: Seq<char>) -> Option<(nat, ToolV)> {
        answer(reg_lookup(self@, name))
    }

    /// Files `tool` under its name for `provider`; a tool already filed under that
    /// name is replaced, in its place.
    pub fn insert(&mut self, provider: usize, tool: Tool)
        requires
            old(self).wf(),
        ensures
            final(self).wf(),
            final(self).get(tool@.function.name) == Some((provider as nat, tool@)),
            forall|n: Seq<char>| n != tool@.function.name ==> #[trigger] final(self).get(n) == old(self).get(n),
    {
        let ghost es = self@;
        let ghost name = tool@.function.name;
        let mut i: usize = 0;
        while i < self.entries.len()
            invariant
                i <= self.entries@.len(),
                self@ == es,
                es == old(self)@,
                name == tool@.function.name,
                registry_wf(es),
                forall|k: int| 0 <= k < i ==> (#[trigger] es[k]).name != name,
            decreases self.entries@.len() - i,
        {
            assert(es[i as int] == self.entries@[i as int]@);
            if str_eq(self.entries[i].name.as_str(), tool.function.name.as_str()) {
                assert(es[i as int].name == name);
                let entry = RegistryEntry { name: copy_string(&tool.function.name), provider, definition: tool };
                let ghost ev = entry@;
                assert(ev.name == name && ev.tool.function.name == name);
                self.entries.set(i, entry);
                assert(self@ =~= es.update(i as int, ev));
                assert(self@[i as int] == ev);
                proof {
                    let ns = self@;
                    assert(registry_wf(ns)) by {
                        assert forall|a: int, b: int| 0 <= a < b < ns.len() implies (#[trigger] ns[a]).name != (#[trigger] ns[b]).name by {
                            assert(ns[a].name == es[a].name);
                            assert(ns[b].name == es[b].name);
                        }
                    }
                    lemma_lookup_index(ns, name, i as int);
                    assert forall|n: Seq<char>| n != name implies #[trigger] answer(reg_lookup(ns, n)) == answer(reg_lookup(es, n)) by {
                        if reg_lookup(es, n) is Some {
                            lemma_lookup_found(es, n);
                            let k = choose|k: int| 0 <= k < es.len() && es[k] == reg_lookup(es, n)->Some_0 && es[k].name == n;
                            assert(k != i);
                            assert(ns[k] == es[k]);
                            lemma_lookup_index(ns, n, k);
                        } else if reg_lookup(ns, n) is Some {
                            lemma_lookup_found(ns, n);
                            let k = choose|k: int| 0 <= k < ns.len() && ns[k] == reg_lookup(ns, n)->Some_0 && ns[k].name == n;
                            assert(k != i);
                            lemma_lookup_index(es, n, k);
                        }
                    }
                }
                return;
            }
            i = i + 1;
        }
        let entry = RegistryEntry { name: copy_string(&tool.function.name), provider, definition: tool };
        let ghost ev = entry@;
        self.entries.push(entry);
        assert(self@ =~= es.push(ev));
        proof {
            let ns = self@;
            assert(registry_wf(ns)) by {
                assert forall|a: int, b: int| 0 <= a < b < ns.len() implies (#[trigger] ns[a]).name != (#[trigger] ns[b]).name by {
                    if b < es.len() {
                        assert(ns[a] == es[a] && ns[b] == es[b]);
                    } else {
                        assert(ns[a] == es[a]);
                    }
                }
            }
            lemma_lookup_index(ns, name, es.len() as int);
            assert forall|n: Seq<char>| n != name implies #[trigger] answer(reg_lookup(ns, n)) == answer(reg_lookup(es, n)) by {
                if reg_lookup(es, n) is Some {
                    lemma_lookup_found(es, n);
                    let k = choose|k: int| 0 <= k < es.len() && es[k] == reg_lookup(es, n)->Some_0 && es[k].name == n;
                    assert(ns[k] == es[k]);
                    lemma_lookup_index(ns, n, k);
                } else {
                    assert forall|k: int| 0 <= k < es.len() implies (#[trigger] es[k]).name != n by {
                        if es[k].name == n {
                            lemma_lookup_index(es, n, k);
                        }
                    }
                    lemma_lookup_absent(ns, n);
                }
            }
        }
    }

    /// Files every tool of `tools` for `provider`, in order: for each name, the last
    /// such tool replaces what was filed before.
    pub fn register(&mut self, provider: usize, tools: Vec<Tool>)
        requires
            old(self).wf(),
        ensures
            final(self).wf(),
            forall|n: Seq<char>|
                #[trigger] final(self).get(n) == match last_named(tools_view(tools@), n) {
                    Some(t) => Some((provider as nat, t)),
                    None => old(self).get(n),
                },
    {
        let ghost tv = tools_view(tools@);
        let ghost start = *self;
        let mut tools = tools;
        let n = tools.len();
        let mut i: usize = 0;
        assert(tv.take(0) =~= Seq::<ToolV>::empty());
        while tools.len() > 0
            invariant
                n == tv.len(),
                i + tools@.len() == n,
                tools_view(tools@) == tv.skip(i as int),
                self.wf(),
                forall|m: Seq<char>|
                    #[trigger] self.get(m) == match last_named(tv.take(i as int), m) {
                        Some(t) => Some((provider as nat, t)),
                        None => start.get(m),
                    },
            decreases tools.len(),
        {
            let ghost old_tools = tools@;
            let t = tools.remove(0);
            assert(t@ == tv[i as int]) by {
                assert(tools_view(old_tools)[0] == t@);
            }
            assert(tools_view(tools@) =~= tv.skip(i + 1)) by {
                assert forall|k: int| 0 <= k < tools@.len() implies tools_view(tools@)[k] == tv.skip(i + 1)[k] by {
                    assert(tools@[k] == old_tools[k + 1]);
                    assert(tools_view(old_tools)[k + 1] == tv.skip(i as int)[k + 1]);
                }
            }
            let ghost before = *self;
            self.insert(provider, t);
            assert(tv.take(i + 1).drop_last() =~= tv.take(i as int));
            assert(tv.take(i + 1).last() == tv[i as int]);
            i = i + 1;
        }
        assert(tv.take(n as int) =~= tv);
    }

    /// The provider and a copy of the declaration of the tool named `name`.
    pub fn lookup(&self, name: &str) -> (r: Option<usize>)
        requires
            self.wf(),
        ensures
            match self.get(name@) {
                Some((p, _)) => r matches Some(x) && x as nat == p,
                None => r is None,
            },
    {
        let ghost es = self@;
        let mut i: usize = 0;
        while i < self.entries.len()
            invariant
                i <= self.entries@.len(),
                es == self@,
                registry_wf(es),
                forall|k: int| 0 <= k < i ==> (#[trigger] es[k]).name != name@,
            decreases self.entries@.len() - i,
        {
            assert(es[i as int] == self.entries@[i as int]@);
            if str_eq(self.entries[i].name.as_str(), name) {
                proof {
                    lemma_lookup_index(es, name@, i as int);
                }
                return Some(self.entries[i].provider);
            }
            i = i + 1;
        }
        proof {
            lemma_lookup_absent(es, name@);
        }
        None
    }

    /// The declarations of the registered tools.
    pub fn tools(&self) -> (r: Vec<Tool>)
        ensures
            tools_view(r@) == self@.map_values(|e: RegistryEntryV| e.tool),
    {
        let mut out: Vec<Tool> = Vec::new();
        let mut i: usize = 0;
        while i < self.entries.len()
            invariant
                i <= self.entries@.len(),
                out@.len() == i,
                forall|k: int| 0 <= k < i ==> #[trigger] out@[k]@ == self.entries@[k].definition@,
            decreases self.entries@.len() - i,
        {
            out.push(self.entries[i].definition.duplicate());
            i = i + 1;
        }
        assert(tools_view(out@) =~= self@.map_values(|e: RegistryEntryV| e.tool));
        out
    }
}

/// The tool lists of providers `0, 1, ...`, by their models.
pub open spec fn lists_view(lists: Seq<Vec<Tool>>) -> Seq<Seq<ToolV>> {
    lists.map_values(|v: Vec<Tool>| tools_view(v@))
}

/// Where a name is routed among the tool lists of providers `0, 1, ...`: to the
/// last provider that declares it, with its last declaration there.
pub open spec fn route(lists: Seq<Seq<ToolV>>, name: Seq<char>) -> Option<(nat, ToolV)>
    decreases lists.len(),
{
    if lists.len() == 0 {
        None
    } else {
        match last_named(lists.last(), name) {
            Some(t) => Some(((lists.len() - 1) as nat, t)),
            None => route(lists.drop_last(), name),
        }
    }
}

/// A name declared by provider `i` and by no later provider is routed to `i`,
/// with provider `i`'s last declaration of it.
pub proof fn law_route_to_last_declaring_provider(lists: Seq<Seq<ToolV>>, name: Seq<char>, i: int)
    requires
        0 <= i < lists.len(),
        last_named(lists[i], name) is Some,
        forall|j: int| i < j < lists.len() ==> last_named(#[trigger] lists[j], name) is None,
    ensures
        route(lists, name) == Some((i as nat, last_named(lists[i], name)->Some_0)),
    decreases lists.len(),
{
    if i < lists.len() - 1 {
        assert(last_named(lists[lists.len() - 1], name) is None);
        let d = lists.drop_last();
        assert forall|j: int| i < j < d.len() implies last_named(#[trigger] d[j], name) is None by {
            assert(d[j] == lists[j]);
        }
        law_route_to_last_declaring_provider(d, name, i);
    }
}

/// A name that no provider declares is routed nowhere.
pub proof fn law_route_undeclared(lists: Seq<Seq<ToolV>>, name: Seq<char>)
    requires
        forall|j: int| 0 <= j < lists.len() ==> last_named(#[trigger] lists[j], name) is None,
    ensures
        route(lists, name) is None,
    decreases lists.len(),
{
    if lists.len() > 0 {
        assert(last_named(lists[lists.len() - 1], name) is None);
        let d = lists.drop_last();
        assert forall|j: int| 0 <= j < d.len() implies last_named(#[trigger] d[j], name) is None by {
            assert(d[j] == lists[j]);
        }
        law_route_undeclared(d, name);
    }
}

/// Where [`route`] sends a name, exactly: to a provider that declares it, with its
/// last declaration there, and after which no provider declares it; nowhere when
/// no provider declares it.
pub proof fn law_route_exact(lists: Seq<Seq<ToolV>>, name: Seq<char>)
    ensures
        match route(lists, name) {
            Some((i, t)) => {
                &&& i < lists.len()
                &&& last_named(lists[i as int], name) == Some(t)
                &&& forall|j: int| i < j < lists.len() ==> last_named(#[trigger] lists[j], name) is None
            },
            None => forall|j: int| 0 <= j < lists.len() ==> last_named(#[trigger] lists[j], name) is None,
        },
    decreases lists.len(),
{
    if lists.len() > 0 {
        let d = lists.drop_last();
        let k = lists.len() - 1;
        law_route_exact(d, name);
        if last_named(lists[k], name) is None {
            match route(d, name) {
                Some((i, t)) => {
                    assert(d[i as int] == lists[i as int]);
                    assert forall|j: int| i < j < lists.len() implies last_named(#[trigger] lists[j], name) is None by {
                        if j < k {
                            assert(d[j] == lists[j]);
                        }
                    }
                },
                None => {
                    assert forall|j: int| 0 <= j < lists.len() implies last_named(#[trigger] lists[j], name) is None by {
                        if j < k {
                            assert(d[j] == lists[j]);
                        }
                    }
                },
            }
        }
    }
}

/// A registry whose names are routed over the tool lists of providers `0, 1, ...`
/// sends each call to the last provider that declares its tool, finds no tool for
/// a name that no provider declares (so the call is answered "Tool '<name>' not
/// found."), and offers the tool that each declared name is routed to.
pub proof fn law_provider_registry(lists: Seq<Seq<ToolV>>, reg: ToolRegistry, name: Seq<char>)
    requires
        forall|m: Seq<char>| #[trigger] reg.get(m) == route(lists, m),
    ensures
        match reg.get(name) {
            Some((i, t)) => {
                &&& i < lists.len()
                &&& last_named(lists[i as int], name) == Some(t)
                &&& forall|j: int| i < j < lists.len() ==> last_named(#[trigger] lists[j], name) is None
                &&& reg@.map_values(|e: RegistryEntryV| e.tool).contains(t)
            },
            None => forall|j: int| 0 <= j < lists.len() ==> last_named(#[trigger] lists[j], name) is None,
        },
{
    assert(reg.get(name) == route(lists, name));
    law_route_exact(lists, name);
    if reg.get(name) is Some {
        law_routed_tools_offered(reg, name);
    }
}

/// Every tool that the registry routes a name to is among the tools it offers.
pub proof fn law_routed_tools_offered(reg: ToolRegistry, name: Seq<char>)
    requires
        reg.get(name) is Some,
    ensures
        reg@.map_values(|e: RegistryEntryV| e.tool).contains(reg.get(name)->Some_0.1),
{
    lemma_lookup_found(reg@, name);
    let i = choose|i: int| 0 <= i < reg@.len() && reg@[i] == reg_lookup(reg@, name)->Some_0 && reg@[i].name == name;
    assert(reg@.map_values(|e: RegistryEntryV| e.tool)[i] == reg@[i].tool);
}

impl ToolRegistry {
    /// The registry of the tool lists of providers `0, 1, ...`: each name is routed
    /// to the last provider that declares it ([`route`]).
    pub fn from_providers(lists: &Vec<Vec<Tool>>) -> (r: ToolRegistry)
        ensures
            r.wf(),
            forall|n: Seq<char>| #[trigger] r.get(n) == route(lists_view(lists@), n),
    {
        let ghost lv = lists_view(lists@);
        let mut reg = ToolRegistry::new();
        let mut i: usize = 0;
        assert forall|m: Seq<char>| #[trigger] reg.get(m) == route(lv.take(0), m) by {
            assert(lv.take(0).len() == 0);
        }
        while i < lists.len()
            invariant
                i <= lists@.len(),
                lv == lists_view(lists@),
                reg.wf(),
                forall|m: Seq<char>| #[trigger] reg.get(m) == route(lv.take(i as int), m),
            decreases lists@.len() - i,
        {
            let tools = copy_tools(&lists[i]);
            assert(tools_view(tools@) == lv[i as int]);
            reg.register(i, tools);
            assert(lv.take(i + 1).drop_last() =~= lv.take(i as int));
            assert(lv.take(i + 1).last() == lv[i as int]);
            assert forall|m: Seq<char>| #[trigger] reg.get(m) == route(lv.take(i + 1), m) by {
                assert(lv.take(i + 1).len() == i + 1);
            }
            i = i + 1;
        }
        assert(lv.take(lists@.len() as int) =~= lv);
        reg
    }
}

// ---------------------------------------------------------------------
// One prompt: the conversation with the model and its tool calls
// ---------------------------------------------------------------------

/// A prompt being answered: the session so far, the tools offered, and the tool
/// calls of the model's last answer with the index of the next one to run.
#[derive(Debug)]
pub struct PromptTurn {
    pub session: Session,
    pub tools: Vec<Tool>,
    pub pending: Vec<ToolCall>,
    pub next: usize,
}

pub struct PromptTurnV {
    pub session: SessionV,
    pub tools: Seq<ToolV>,
    pub pending: Seq<ToolCallV>,
    pub next: nat,
}

impl View for PromptTurn {
    type V = PromptTurnV;

    open spec fn view(&self) -> PromptTurnV {
        PromptTurnV {
            session: self.session@,
            tools: tools_view(self.tools@),
            pending: calls_view(self.pending@),
            next: self.next as nat,
        }
    }
}

/// What the caller is to do next.
#[derive(Debug)]
pub enum TurnAction {
    /// Ask the model for an answer to the session's messages, with the tools offered.
    Generate,
    /// Run the tool `tool_name` of provider `provider` on `arguments`.
    RunTool { provider: usize, tool_name: String, arguments: Json },
    /// Ask the model for a streamed answer to the session's messages; the prompt is done.
    Stream,
    /// The prompt failed.
    Fail(AppError),
}

pub enum TurnActionV {
    Generate,
    RunTool { provider: nat, tool_name: Seq<char>, arguments: JsonV },
    Stream,
    Fail(AppErrorV),
}

impl View for TurnAction {
    type V = TurnActionV;

    open spec fn view(&self) -> TurnActionV {
        match self {
            TurnAction::Generate => TurnActionV::Generate,
            TurnAction::RunTool { provider, tool_name, arguments } => TurnActionV::RunTool {
                provider: *provider as nat,
                tool_name: tool_name@,
                arguments: arguments@,
            },
            TurnAction::Stream => TurnActionV::Stream,
            TurnAction::Fail(e) => TurnActionV::Fail(e@),
        }
    }
}

/// The message of the user's prompt.
pub open spec fn user_message(prompt: Seq<char>) -> MessageV {
    MessageV { role: Role::User, content: prompt, tool_calls: None, tool_call_id: None }
}

/// The message that carries a tool's output back to the model.
pub open spec fn tool_message(call: ToolCallV, output: JsonV) -> MessageV {
    MessageV {
        role: Role::Tool,
        content: spec_json_text(output),
        tool_calls: None,
        tool_call_id: Some(call.id),
    }
}

/// What comes of the next pending call: running its tool, or failing when the
/// tool is unknown or the arguments are not JSON; with no call left, a new answer
/// is asked for.
pub open spec fn dispatch_v(reg: Seq<RegistryEntryV>, t: PromptTurnV) -> TurnActionV {
    if t.next < t.pending.len() {
        let c = t.pending[t.next as int];
        match answer(reg_lookup(reg, c.function.name)) {
            None => TurnActionV::Fail(
                AppErrorV::LlmProvider("Tool '"@ + c.function.name + "' not found."@),
            ),
            Some((p, _)) => match spec_json_parse(c.function.arguments) {
                Err(e) => TurnActionV::Fail(AppErrorV::Serialization(e)),
                Ok(a) => TurnActionV::RunTool { provider: p, tool_name: c.function.name, arguments: a },
            },
        }
    } else {
        TurnActionV::Generate
    }
}

/// Pending calls are run in order, each by the provider its tool is filed under,
/// with its arguments read as JSON; a call of a tool that no provider declared
/// fails the prompt with "Tool '<name>' not found."; once every call has run, the
/// model is asked again.
pub proof fn law_dispatch_runs_next_call(reg: ToolRegistry, t: PromptTurnV, p: nat, tool: ToolV, a: JsonV)
    ensures
        t.next < t.pending.len() && reg.get(t.pending[t.next as int].function.name) == Some((p, tool))
            && spec_json_parse(t.pending[t.next as int].function.arguments) == Ok::<JsonV, Seq<char>>(a)
            ==> dispatch_v(reg@, t) == (TurnActionV::RunTool {
            provider: p,
            tool_name: t.pending[t.next as int].function.name,
            arguments: a,
        }),
        t.next < t.pending.len() && reg.get(t.pending[t.next as int].function.name) is None ==> dispatch_v(
            reg@,
            t,
        ) == TurnActionV::Fail(
            AppErrorV::LlmProvider("Tool '"@ + t.pending[t.next as int].function.name + "' not found."@),
        ),
        t.next >= t.pending.len() ==> dispatch_v(reg@, t) == TurnActionV::Generate,
{
}

/// The turn after the model answered `m` with tool calls: the answer joins the
/// session and its calls are pending, none run yet.
pub open spec fn after_calls_v(t: PromptTurnV, m: MessageV) -> PromptTurnV {
    PromptTurnV {
        session: SessionV { id: t.session.id, messages: t.session.messages.push(m) },
        tools: t.tools,
        pending: m.tool_calls->Some_0,
        next: 0,
    }
}

/// The turn after the next pending call's tool gave `out`.
pub open spec fn after_tool_v(t: PromptTurnV, out: JsonV) -> PromptTurnV {
    PromptTurnV {
        session: SessionV {
            id: t.session.id,
            messages: t.session.messages.push(tool_message(t.pending[t.next as int], out)),
        },
        tools: t.tools,
        pending: t.pending,
        next: t.next + 1,
    }
}

/// The session ends with the assistant's message that made the pending calls,
/// followed by one tool message for each call run so far, in order, each
/// answering its call.
pub open spec fn calls_answered(t: PromptTurnV) -> bool {
    let ms = t.session.messages;
    let k = t.next as int;
    &&& k <= t.pending.len()
    &&& ms.len() >= k + 1
    &&& ms[ms.len() - k - 1].role == Role::Assistant
    &&& ms[ms.len() - k - 1].tool_calls == Some(t.pending)
    &&& forall|i: int|
        0 <= i < k ==> (#[trigger] ms[ms.len() - k + i]).role == Role::Tool && ms[ms.len() - k
            + i].tool_call_id == Some(t.pending[i].id)
}

/// When the model answers with tool calls, the session ends with that answer and
/// nothing has been run yet.
pub proof fn law_answer_opens_calls(t: PromptTurnV, m: MessageV)
    requires
        m.role == Role::Assistant,
        m.tool_calls is Some,
    ensures
        calls_answered(after_calls_v(t, m)),
{
}

/// Each tool output joins the session as the answer to the next pending call: the
/// log keeps the assistant's calls followed by their answers, in order.
pub proof fn law_tool_results_answer_calls(t: PromptTurnV, out: JsonV)
    requires
        calls_answered(t),
        t.next < t.pending.len(),
    ensures
        calls_answered(after_tool_v(t, out)),
{
    let u = after_tool_v(t, out);
    let ms = t.session.messages;
    let ns = u.session.messages;
    let k = t.next as int;
    assert(ns.len() == ms.len() + 1);
    assert(ns[ns.len() - (k + 1) - 1] == ms[ms.len() - k - 1]);
    assert forall|i: int| 0 <= i < k + 1 implies (#[trigger] ns[ns.len() - (k + 1) + i]).role == Role::Tool
        && ns[ns.len() - (k + 1) + i].tool_call_id == Some(u.pending[i].id) by {
        if i < k {
            assert(ns[ns.len() - (k + 1) + i] == ms[ms.len() - k + i]);
        } else {
            assert(ns[ns.len() - (k + 1) + i] == tool_message(t.pending[k], out));
        }
    }
}

impl PromptTurn {
    /// Starts a prompt: the stored session (or a new one under `session_id`) with the
    /// user's message added, and the registry's tools offered; the model is asked
    /// first.
    pub fn start(registry: &ToolRegistry, session_id: SessionId, prompt: &str, stored: Option<Session>) -> (r: (PromptTurn, TurnAction))
        ensures
            r.0@.session.id == (match stored {
                Some(s) => s@.id,
                None => session_id@,
            }),
            r.0@.session.messages == (match stored {
                Some(s) => s@.messages,
                None => Seq::<MessageV>::empty(),
            }).push(user_message(prompt@)),
            r.0@.tools == registry@.map_values(|e: RegistryEntryV| e.tool),
            r.0@.pending == Seq::<ToolCallV>::empty(),
            r.0@.next == 0,
            r.1@ == TurnActionV::Generate,
    {
        let mut session = match stored {
            Some(s) => s,
            None => Session::new_with_id(session_id),
        };
        let ghost before = session@;
        let m = Message::text(Role::User, prompt.to_owned());
        session.messages.push(m);
        assert(session@.messages =~= before.messages.push(user_message(prompt@)));
        let pending: Vec<ToolCall> = Vec::new();
        let turn = PromptTurn { session, tools: registry.tools(), pending, next: 0 };
        assert(turn@.pending =~= Seq::<ToolCallV>::empty());
        (turn, TurnAction::Generate)
    }

    /// The model answered. An answer with tool calls joins the session and its calls
    /// are run in order; an answer without joins the session and ends the prompt
    /// with a streamed answer.
    pub fn on_response(self, registry: &ToolRegistry, answer_msg: Message) -> (r: (PromptTurn, TurnAction))
        requires
            registry.wf(),
        ensures
            r.0@.session.id == self@.session.id,
            r.0@.session.messages == self@.session.messages.push(answer_msg@),
            r.0@.tools == self@.tools,
            match answer_msg@.tool_calls {
                Some(cs) => r.0@ == after_calls_v(self@, answer_msg@) && r.1@ == dispatch_v(registry@, r.0@),
                None => {
                    &&& r.0@.pending == self@.pending
                    &&& r.0@.next == self@.next
                    &&& r.1@ == TurnActionV::Stream
                },
            },
    {
        let mut turn = self;
        let ghost before = turn@.session;
        match &answer_msg.tool_calls {
            Some(calls) => {
                let pending = copy_calls(calls);
                turn.session.messages.push(answer_msg);
                assert(turn@.session.messages =~= before.messages.push(answer_msg@));
                turn.pending = pending;
                turn.next = 0;
                let action = turn.dispatch(registry);
                (turn, action)
            },
            None => {
                turn.session.messages.push(answer_msg);
                assert(turn@.session.messages =~= before.messages.push(answer_msg@));
                (turn, TurnAction::Stream)
            },
        }
    }

    /// What comes of the next pending call.
    pub fn dispatch(&self, registry: &ToolRegistry) -> (r: TurnAction)
        requires
            registry.wf(),
        ensures
            r@ == dispatch_v(registry@, self@),
    {
        if self.next < self.pending.len() {
            let c = &self.pending[self.next];
            assert(calls_view(self.pending@)[self.next as int] == c@);
            match registry.lookup(c.function.name.as_str()) {
                None => {
                    let mut m = "Tool '".to_owned();
                    append_str(&mut m, c.function.name.as_str());
                    append_str(&mut m, "' not found.");
                    TurnAction::Fail(AppError::LlmProviderError(m))
                },
                Some(p) => match parse_json(c.function.arguments.as_str()) {
                    Err(e) => TurnAction::Fail(AppError::SerializationError(e)),
                    Ok(a) => TurnAction::RunTool {
                        provider: p,
                        tool_name: copy_string(&c.function.name),
                        arguments: a,
                    },
                },
            }
        } else {
            TurnAction::Generate
        }
    }

    /// A tool ran. Its failure ends the prompt; its output joins the session as a
    /// tool message answering the call, and the next call is run.
    pub fn on_tool_result(self, registry: &ToolRegistry, result: Result<Json, AppError>) -> (r: (
        PromptTurn,
        TurnAction,
    ))
        requires
            registry.wf(),
            self@.next < self@.pending.len(),
        ensures
            match result {
                Err(e) => r.1@ == TurnActionV::Fail(e@) && r.0@ == self@,
                Ok(out) => {
                    &&& r.0@ == after_tool_v(self@, out@)
                    &&& r.0@.session.id == self@.session.id
                    &&& r.0@.session.messages == self@.session.messages.push(
                        tool_message(self@.pending[self@.next as int], out@),
                    )
                    &&& r.0@.tools == self@.tools
                    &&& r.0@.pending == self@.pending
                    &&& r.0@.next == self@.next + 1
                    &&& r.1@ == dispatch_v(registry@, r.0@)
                },
            },
    {
        match result {
            Err(e) => (self, TurnAction::Fail(e)),
            Ok(out) => {
                let mut turn = self;
                let ghost before = turn@.session;
                let k = turn.next;
                assert(k < turn.pending.len());
                let call = &turn.pending[k];
                assert(calls_view(turn.pending@)[turn.next as int] == call@);
                let m = Message {
                    role: Role::Tool,
                    content: json_text(&out),
                    tool_calls: None,
                    tool_call_id: Some(copy_string(&call.id)),
                };
                turn.session.messages.push(m);
                assert(turn@.session.messages =~= before.messages.push(
                    tool_message(calls_view(turn.pending@)[turn.next as int], out@),
                ));
                turn.next = k + 1;
                let action = turn.dispatch(registry);
                (turn, action)
            },
        }
    }
}

} // verus!
