use vstd::prelude::*;
use crate::error::{AppError, AppErrorV, IoErrorKind, io_error};
use crate::ids::{is_ulid_text, new_ulid};
use crate::json::{
    Json, JsonV, as_str, codec_depth, field, key_less, lookup, normal_form, normal_within, get_field, get_str, is_null, jarray, jobject, jstring, json_clone,
    json_pretty, parse_json, spec_json_parse, spec_json_pretty, view_jsons,
};
use crate::model::{SkillDefinition, SkillDefinitionV, Tool, ToolV, strings_view, tools_view};
use crate::paths::{join, path_join};
use crate::schema::{
    function_tool, function_tool_v, members1, members2, members3, members4, object_schema,
    object_schema_v, prop, prop_v, skill, skill_v, strs1, strs2, strs3, strs6, tools4,
};
use crate::text::{append_str, chars_of, copy_string, ends_with, slice_vec, starts_with, str_eq, string_from};

verus! {

// ---------------------------------------------------------------------
// The tools
// ---------------------------------------------------------------------

pub open spec fn create_plan_tool_v() -> ToolV {
    function_tool_v(
        "create_plan"@,
        "Cria um plano com passos definidos para execução posterior."@,
        object_schema_v(
            seq![
                ("session_id"@, prop_v("string"@, "ID da sessão associada ao plano."@)),
                ("goal"@, prop_v("string"@, "Objetivo geral do plano."@)),
                ("context"@, prop_v("string"@, "Contexto adicional para o plano."@)),
                ("plan"@, prop_v("object"@, "Estrutura do plano com passos e ações a serem executadas."@)),
            ],
            seq!["session_id"@, "goal"@, "plan"@],
        ),
    )
}

pub open spec fn get_plan_tool_v() -> ToolV {
    function_tool_v(
        "get_plan"@,
        "Recupera um plano salvo por ID."@,
        object_schema_v(
            seq![
                ("session_id"@, prop_v("string"@, "ID da sessão associada ao plano."@)),
                ("plan_id"@, prop_v("string"@, "ID do plano a ser recuperado."@)),
            ],
            seq!["session_id"@, "plan_id"@],
        ),
    )
}

pub open spec fn list_plans_tool_v() -> ToolV {
    function_tool_v(
        "list_plans"@,
        "Lista os planos existentes para uma sessão."@,
        object_schema_v(
            seq![("session_id"@, prop_v("string"@, "ID da sessão para listar planos."@))],
            seq!["session_id"@],
        ),
    )
}

pub open spec fn apply_plan_tool_v() -> ToolV {
    function_tool_v(
        "apply_plan"@,
        "Aplica um plano salvo ou inline executando os passos definidos."@,
        object_schema_v(
            seq![
                ("session_id"@, prop_v("string"@, "ID da sessão associada ao plano."@)),
                ("plan_id"@, prop_v("string"@, "ID do plano salvo a ser aplicado."@)),
                ("plan"@, prop_v("object"@, "Plano em linha contendo os passos a serem executados."@)),
            ],
            seq!["session_id"@],
        ),
    )
}

pub open spec fn planning_tools_v() -> Seq<ToolV> {
    seq![create_plan_tool_v(), get_plan_tool_v(), list_plans_tool_v(), apply_plan_tool_v()]
}

pub open spec fn planning_skill_v() -> SkillDefinitionV {
    skill_v(
        "planejamento"@,
        "Planeja tarefas e coordena ações futuras antes de executar."@,
        seq!["planejamento"@, "planejar"@, "plano"@, "tarefas"@, "task"@, "task planning"@],
        planning_tools_v(),
    )
}

/// The skill of planning tasks: plans are saved as JSON files in a directory.
pub struct PlanningSkillAdapter {
    plans_dir: String,
}

impl View for PlanningSkillAdapter {
    type V = Seq<char>;

    closed spec fn view(&self) -> Seq<char> {
        self.plans_dir@
    }
}

// ---------------------------------------------------------------------
// Plan files
// ---------------------------------------------------------------------

/// The file of a plan: `<session_id>_<plan_id>.json` in the plans directory.
pub open spec fn plan_path(dir: Seq<char>, session_id: Seq<char>, plan_id: Seq<char>) -> Seq<char> {
    path_join(dir, session_id + "_"@ + plan_id + ".json"@)
}

/// What a plan file holds: `{"plan", "plan_id", "session_id"}`, its keys in the
/// codec's order.
pub open spec fn plan_record_v(session_id: Seq<char>, plan_id: Seq<char>, plan: JsonV) -> JsonV {
    JsonV::Object(
        seq![
            ("plan"@, plan),
            ("plan_id"@, JsonV::Str(plan_id)),
            ("session_id"@, JsonV::Str(session_id)),
        ],
    )
}

/// A plan record is in the codec's normal form when its plan is, one level in.
pub proof fn lemma_plan_record_normal(session_id: Seq<char>, plan_id: Seq<char>, plan: JsonV)
    requires
        normal_within(plan, (codec_depth() - 1) as nat),
    ensures
        normal_form(plan_record_v(session_id, plan_id, plan)),
{
    reveal_strlit("plan");
    reveal_strlit("plan_id");
    reveal_strlit("session_id");
    let ms = seq![
        ("plan"@, plan),
        ("plan_id"@, JsonV::Str(plan_id)),
        ("session_id"@, JsonV::Str(session_id)),
    ];
    reveal_with_fuel(key_less, 6);
    assert(key_less("plan"@, "plan_id"@));
    assert(key_less("plan_id"@, "session_id"@));
    assert(normal_within(JsonV::Str(plan_id), (codec_depth() - 1) as nat));
    assert(normal_within(JsonV::Str(session_id), (codec_depth() - 1) as nat));
    assert forall|i: int| 0 <= i < ms.len() implies normal_within(
        (#[trigger] ms[i]).1,
        (codec_depth() - 1) as nat,
    ) by {}
    assert forall|i: int| #![trigger ms[i]] 0 <= i < ms.len() - 1 implies key_less(ms[i].0, ms[i + 1].0) by {}
}

/// The plan identifier that a file name carries for a session: the name must
/// start with the session's identifier and `_`, and end in `.json`.
pub open spec fn plan_id_of(session_id: Seq<char>, name: Seq<char>) -> Option<Seq<char>> {
    if session_id.is_prefix_of(name) && ".json"@.is_suffix_of(name) && (session_id
        + "_"@).is_prefix_of(name) {
        let rest = name.skip(session_id.len() + 1int);
        Some(
            if ".json"@.is_suffix_of(rest) {
                rest.take(rest.len() - 5)
            } else {
                rest
            },
        )
    } else {
        None
    }
}

/// The file name that a plan is saved under reads back as that plan's identifier
/// for its session: `list_plans` finds what `create_plan` saved.
pub proof fn law_plan_file_name_round_trip(session_id: Seq<char>, plan_id: Seq<char>)
    ensures
        plan_id_of(session_id, session_id + "_"@ + plan_id + ".json"@) == Some(plan_id),
{
    reveal_strlit("_");
    reveal_strlit(".json");
    let name = session_id + "_"@ + plan_id + ".json"@;
    assert(session_id.is_prefix_of(name)) by {
        assert(name.take(session_id.len() as int) =~= session_id);
    }
    assert((session_id + "_"@).is_prefix_of(name)) by {
        assert(name.take(session_id.len() + 1int) =~= session_id + "_"@);
    }
    assert(".json"@.is_suffix_of(name)) by {
        assert(name.skip(name.len() - 5) =~= ".json"@);
    }
    let rest = name.skip(session_id.len() + 1int);
    assert(rest =~= plan_id + ".json"@);
    assert(".json"@.is_suffix_of(rest)) by {
        assert(rest.skip(rest.len() - 5) =~= ".json"@);
    }
    assert(rest.take(rest.len() - 5) =~= plan_id);
}

/// `{"plan_id": id, "file": name}` for each file of the session, in order.
pub open spec fn plans_of(session_id: Seq<char>, names: Seq<Seq<char>>) -> Seq<JsonV>
    decreases names.len(),
{
    if names.len() == 0 {
        Seq::empty()
    } else {
        let rest = plans_of(session_id, names.drop_last());
        match plan_id_of(session_id, names.last()) {
            Some(id) => rest.push(
                JsonV::Object(seq![("plan_id"@, JsonV::Str(id)), ("file"@, JsonV::Str(names.last()))]),
            ),
            None => rest,
        }
    }
}

/// Listing the plans of a session over two groups of file names is listing each
/// group and joining the results: every file of the session keeps its entry, in
/// order.
pub proof fn law_plans_join(session_id: Seq<char>, n1: Seq<Seq<char>>, n2: Seq<Seq<char>>)
    ensures
        plans_of(session_id, n1 + n2) == plans_of(session_id, n1) + plans_of(session_id, n2),
    decreases n2.len(),
{
    if n2.len() == 0 {
        assert(n1 + n2 =~= n1);
        assert(plans_of(session_id, n1) + plans_of(session_id, n2) =~= plans_of(session_id, n1));
    } else {
        let d = n2.drop_last();
        law_plans_join(session_id, n1, d);
        assert((n1 + n2).drop_last() =~= n1 + d);
        assert((n1 + n2).last() == n2.last());
        match plan_id_of(session_id, n2.last()) {
            Some(id) => {
                let e = JsonV::Object(seq![("plan_id"@, JsonV::Str(id)), ("file"@, JsonV::Str(n2.last()))]);
                assert((plans_of(session_id, n1) + plans_of(session_id, d)).push(e) =~= plans_of(session_id, n1)
                    + plans_of(session_id, d).push(e));
            },
            None => {},
        }
    }
}

/// A file named `<session>_<id>.json` is listed as plan `id` with its file name;
/// a file of another name is not listed.
pub proof fn law_plan_listing_of_one_file(session_id: Seq<char>, plan_id: Seq<char>, name: Seq<char>)
    ensures
        plans_of(session_id, seq![session_id + "_"@ + plan_id + ".json"@]) == seq![
            JsonV::Object(
                seq![
                    ("plan_id"@, JsonV::Str(plan_id)),
                    ("file"@, JsonV::Str(session_id + "_"@ + plan_id + ".json"@)),
                ],
            ),
        ],
        !(session_id + "_"@).is_prefix_of(name) ==> plans_of(session_id, seq![name]) == Seq::<JsonV>::empty(),
        !".json"@.is_suffix_of(name) ==> plans_of(session_id, seq![name]) == Seq::<JsonV>::empty(),
{
    let f = session_id + "_"@ + plan_id + ".json"@;
    law_plan_file_name_round_trip(session_id, plan_id);
    assert(seq![f].drop_last() =~= Seq::<Seq<char>>::empty());
    assert(seq![f].last() == f);
    assert(seq![name].drop_last() =~= Seq::<Seq<char>>::empty());
    assert(seq![name].last() == name);
    assert(plans_of(session_id, Seq::<Seq<char>>::empty()) == Seq::<JsonV>::empty());
    let e = JsonV::Object(seq![("plan_id"@, JsonV::Str(plan_id)), ("file"@, JsonV::Str(f))]);
    assert(Seq::<JsonV>::empty().push(e) =~= seq![e]);
}

/// Every file of the session is listed: the listing has one entry per file name
/// that carries a plan identifier for the session, and no other.
pub proof fn law_one_entry_per_plan_file(session_id: Seq<char>, names: Seq<Seq<char>>)
    ensures
        plans_of(session_id, names).len() == names.filter(|n: Seq<char>| plan_id_of(session_id, n) is Some).len(),
    decreases names.len(),
{
    if names.len() > 0 {
        let d = names.drop_last();
        law_one_entry_per_plan_file(session_id, d);
        assert(names =~= d.push(names.last()));
        d.lemma_filter_push(names.last(), |n: Seq<char>| plan_id_of(session_id, n) is Some);
    } else {
        assert(names.filter(|n: Seq<char>| plan_id_of(session_id, n) is Some) =~= Seq::<Seq<char>>::empty());
    }
}

/// What a planning tool asks to be done with the plans directory.
#[derive(Debug)]
pub enum PlanningRequest {
    /// Write `contents` to `path`, then answer `response`.
    Save { plan_id: String, path: String, contents: String, response: Json },
    /// Read the plan file at `path`.
    Load { path: String },
    /// List the file names of the plans directory `dir`, for `session_id`.
    List { dir: String, session_id: String },
    /// Answer `response` with nothing to do on the directory.
    Answer { response: Json },
}

pub enum PlanningRequestV {
    Save { plan_id: Seq<char>, path: Seq<char>, contents: Seq<char>, response: JsonV },
    Load { path: Seq<char> },
    List { dir: Seq<char>, session_id: Seq<char> },
    Answer { response: JsonV },
}

impl View for PlanningRequest {
    type V = PlanningRequestV;

    open spec fn view(&self) -> PlanningRequestV {
        match self {
            PlanningRequest::Save { plan_id, path, contents, response } => PlanningRequestV::Save {
                plan_id: plan_id@,
                path: path@,
                contents: contents@,
                response: response@,
            },
            PlanningRequest::Load { path } => PlanningRequestV::Load { path: path@ },
            PlanningRequest::List { dir, session_id } => PlanningRequestV::List {
                dir: dir@,
                session_id: session_id@,
            },
            PlanningRequest::Answer { response } => PlanningRequestV::Answer { response: response@ },
        }
    }
}

pub open spec fn planning_view(r: Result<PlanningRequest, AppError>) -> Result<PlanningRequestV, AppErrorV> {
    match r {
        Ok(q) => Ok(q@),
        Err(e) => Err(e@),
    }
}

/// The identifier under which a request saves a plan (empty for other requests).
pub open spec fn saved_id(r: Result<PlanningRequest, AppError>) -> Seq<char> {
    match r {
        Ok(PlanningRequest::Save { plan_id, .. }) => plan_id@,
        _ => Seq::empty(),
    }
}

pub open spec fn invalid_input(message: Seq<char>) -> AppErrorV {
    AppErrorV::Io(IoErrorKind::InvalidInput, message)
}

/// The error for a tool that the planning skill does not have.
pub open spec fn unknown_planning_tool(tool: Seq<char>) -> AppErrorV {
    AppErrorV::Io(IoErrorKind::NotFound, "Tool '"@ + tool + "' não encontrada no skill planejamento."@)
}

/// What the planning tool `tool` asks for with `args`, a new plan being saved
/// under the identifier `fresh`. Every tool needs a string `session_id`.
/// - `create_plan` needs a string `goal` and a non-null `plan`; it asks that the
///   plan's record be saved under `fresh` and answers `{"plan_id", "session_id", "goal"}`.
/// - `get_plan` needs a string `plan_id` and asks that the plan file be read.
/// - `list_plans` asks for the plans directory's file names.
/// - `apply_plan` reads the saved plan named by a string `plan_id`; without one it
///   answers the inline non-null `plan` as `{"session_id", "plan"}`; with neither
///   it is an invalid input. A plan's steps are free-form JSON with no meaning
///   fixed here, so the skill hands the plan back and its steps are carried out
///   through the other tools.
/// - Any other tool is unknown.
pub open spec fn planning_request_v(dir: Seq<char>, tool: Seq<char>, args: JsonV, fresh: Seq<char>) -> Result<
    PlanningRequestV,
    AppErrorV,
> {
    match as_str(field(args, "session_id"@)) {
        None => Err(invalid_input("O campo 'session_id' é obrigatório para ferramentas de planejamento."@)),
        Some(sid) => if tool == "create_plan"@ {
            match as_str(field(args, "goal"@)) {
                None => Err(invalid_input("O campo 'goal' é obrigatório para create_plan."@)),
                Some(goal) => if field(args, "plan"@) is Null {
                    Err(invalid_input("O campo 'plan' deve conter o plano em formato JSON."@))
                } else {
                    Ok(
                        PlanningRequestV::Save {
                            plan_id: fresh,
                            path: plan_path(dir, sid, fresh),
                            contents: spec_json_pretty(plan_record_v(sid, fresh, field(args, "plan"@))),
                            response: JsonV::Object(
                                seq![
                                    ("plan_id"@, JsonV::Str(fresh)),
                                    ("session_id"@, JsonV::Str(sid)),
                                    ("goal"@, JsonV::Str(goal)),
                                ],
                            ),
                        },
                    )
                },
            }
        } else if tool == "get_plan"@ {
            match as_str(field(args, "plan_id"@)) {
                None => Err(invalid_input("O campo 'plan_id' é obrigatório para get_plan."@)),
                Some(pid) => Ok(PlanningRequestV::Load { path: plan_path(dir, sid, pid) }),
            }
        } else if tool == "list_plans"@ {
            Ok(PlanningRequestV::List { dir, session_id: sid })
        } else if tool == "apply_plan"@ {
            match as_str(field(args, "plan_id"@)) {
                Some(pid) => Ok(PlanningRequestV::Load { path: plan_path(dir, sid, pid) }),
                None => if field(args, "plan"@) is Null {
                    Err(invalid_input("O campo 'plan_id' ou 'plan' é obrigatório para apply_plan."@))
                } else {
                    Ok(
                        PlanningRequestV::Answer {
                            response: JsonV::Object(
                                seq![("session_id"@, JsonV::Str(sid)), ("plan"@, field(args, "plan"@))],
                            ),
                        },
                    )
                },
            }
        } else {
            Err(unknown_planning_tool(tool))
        },
    }
}

/// What reading a plan file's text gives: the document, or the error of reading it.
pub open spec fn load_plan_v(content: Seq<char>) -> Result<JsonV, AppErrorV> {
    match spec_json_parse(content) {
        Ok(v) => Ok(v),
        Err(e) => Err(AppErrorV::Serialization(e)),
    }
}

fn session_key(session_id: &str) -> (r: Vec<char>)
    ensures
        r@ == session_id@ + "_"@,
        r@.len() == session_id@.len() + 1,
{
    proof {
        reveal_strlit("_");
    }
    let mut s = session_id.to_owned();
    append_str(&mut s, "_");
    chars_of(s.as_str())
}

impl PlanningSkillAdapter {
    /// The planning skill over the directory `plans` (which the caller creates).
    pub fn new() -> (r: Self)
        ensures
            r@ == "plans"@,
    {
        PlanningSkillAdapter { plans_dir: "plans".to_owned() }
    }

    /// The directory that holds the plans.
    pub fn plans_dir(&self) -> (r: &String)
        ensures
            r@ == self@,
    {
        &self.plans_dir
    }

    /// The file of a plan of a session.
    pub fn plan_file_path(&self, session_id: &str, plan_id: &str) -> (r: String)
        ensures
            r@ == plan_path(self@, session_id@, plan_id@),
    {
        let mut name = session_id.to_owned();
        append_str(&mut name, "_");
        append_str(&mut name, plan_id);
        append_str(&mut name, ".json");
        join(self.plans_dir.as_str(), name.as_str())
    }

    /// Where a plan is saved and the text saved there: the plan's record printed
    /// with indentation.
    pub fn save_plan(&self, session_id: &str, plan_id: &str, plan: &Json) -> (r: (String, String))
        ensures
            r.0@ == plan_path(self@, session_id@, plan_id@),
            r.1@ == spec_json_pretty(plan_record_v(session_id@, plan_id@, plan@)),
            normal_within(plan@, (codec_depth() - 1) as nat) ==> load_plan_v(r.1@) == Ok::<
                JsonV,
                AppErrorV,
            >(plan_record_v(session_id@, plan_id@, plan@)),
    {
        let path = self.plan_file_path(session_id, plan_id);
        let record = jobject(
            members3(
                "plan",
                json_clone(plan),
                "plan_id",
                Json::Str(plan_id.to_owned()),
                "session_id",
                Json::Str(session_id.to_owned()),
            ),
        );
        proof {
            if normal_within(plan@, (codec_depth() - 1) as nat) {
                lemma_plan_record_normal(session_id@, plan_id@, plan@);
            }
        }
        (path, json_pretty(&record))
    }

    /// The document of a plan file's text, or the error of reading it as JSON.
    pub fn load_plan(&self, content: &str) -> (r: Result<Json, AppError>)
        ensures
            match load_plan_v(content@) {
                Ok(v) => r matches Ok(j) && j@ == v,
                Err(e) => r matches Err(x) && x@ == e,
            },
    {
        match parse_json(content) {
            Ok(v) => Ok(v),
            Err(e) => Err(AppError::SerializationError(e)),
        }
    }

    /// The plans of a session among the file names of the plans directory.
    pub fn list_plans(&self, session_id: &str, file_names: &Vec<String>) -> (r: Json)
        ensures
            r@ == JsonV::Array(plans_of(session_id@, strings_view(file_names@))),
    {
        let ghost nv = strings_view(file_names@);
        let sid = chars_of(session_id);
        let key = session_key(session_id);
        let ext = chars_of(".json");
        proof {
            reveal_strlit(".json");
        }
        let mut plans: Vec<Json> = Vec::new();
        let mut i: usize = 0;
        while i < file_names.len()
            invariant
                i <= file_names@.len(),
                nv == strings_view(file_names@),
                sid@ == session_id@,
                key@ == session_id@ + "_"@,
                key@.len() == session_id@.len() + 1,
                ext@ == ".json"@,
                ext@.len() == 5,
                view_jsons(plans@) == plans_of(session_id@, nv.take(i as int)),
            decreases file_names@.len() - i,
        {
            assert(nv.take(i + 1).drop_last() =~= nv.take(i as int));
            assert(nv.take(i + 1).last() == file_names@[i as int]@);
            let name = &file_names[i];
            let nc = chars_of(name.as_str());
            let ghost before = view_jsons(plans@);
            if starts_with(&nc, &sid) && ends_with(&nc, &ext) && starts_with(&nc, &key) {
                let rest = slice_vec(&nc, key.len(), nc.len());
                assert(rest@ =~= nc@.skip(session_id@.len() + 1int));
                let id = if ends_with(&rest, &ext) {
                    let t = slice_vec(&rest, 0, rest.len() - 5);
                    assert(t@ =~= rest@.take(rest@.len() - 5));
                    t
                } else {
                    rest
                };
                let entry = jobject(
                    members2("plan_id", Json::Str(string_from(&id)), "file", jstring(name)),
                );
                plans.push(entry);
                assert(view_jsons(plans@) =~= before.push(entry@));
            }
            i = i + 1;
        }
        assert(nv.take(file_names@.len() as int) =~= nv);
        jarray(plans)
    }

    /// The skill's name, description, keywords and tools.
    pub fn get_skill_definition(&self) -> (r: SkillDefinition)
        ensures
            r@ == planning_skill_v(),
    {
        skill(
            "planejamento",
            "Planeja tarefas e coordena ações futuras antes de executar.",
            strs6("planejamento", "planejar", "plano", "tarefas", "task", "task planning"),
            self.get_tool_definitions(),
        )
    }

    /// The four tools: create, get, list and apply plans.
    pub fn get_tool_definitions(&self) -> (r: Vec<Tool>)
        ensures
            tools_view(r@) == planning_tools_v(),
    {
        let create = function_tool(
            "create_plan",
            "Cria um plano com passos definidos para execução posterior.",
            object_schema(
                members4(
                    "session_id",
                    prop("string", "ID da sessão associada ao plano."),
                    "goal",
                    prop("string", "Objetivo geral do plano."),
                    "context",
                    prop("string", "Contexto adicional para o plano."),
                    "plan",
                    prop("object", "Estrutura do plano com passos e ações a serem executadas."),
                ),
                strs3("session_id", "goal", "plan"),
            ),
        );
        let get = function_tool(
            "get_plan",
            "Recupera um plano salvo por ID.",
            object_schema(
                members2(
                    "session_id",
                    prop("string", "ID da sessão associada ao plano."),
                    "plan_id",
                    prop("string", "ID do plano a ser recuperado."),
                ),
                strs2("session_id", "plan_id"),
            ),
        );
        let list = function_tool(
            "list_plans",
            "Lista os planos existentes para uma sessão.",
            object_schema(
                members1("session_id", prop("string", "ID da sessão para listar planos.")),
                strs1("session_id"),
            ),
        );
        let apply = function_tool(
            "apply_plan",
            "Aplica um plano salvo ou inline executando os passos definidos.",
            object_schema(
                members3(
                    "session_id",
                    prop("string", "ID da sessão associada ao plano."),
                    "plan_id",
                    prop("string", "ID do plano salvo a ser aplicado."),
                    "plan",
                    prop("object", "Plano em linha contendo os passos a serem executados."),
                ),
                strs1("session_id"),
            ),
        );
        tools4(create, get, list, apply)
    }

    /// What the tool `tool_name` asks for with `arguments`, as
    /// [`planning_request_v`] describes; a plan is saved under a fresh ULID, and a
    /// plan in the codec's normal form reads back from the saved text as its record.
    pub fn execute(&self, tool_name: &str, arguments: &Json) -> (r: Result<PlanningRequest, AppError>)
        ensures
            planning_view(r) == planning_request_v(self@, tool_name@, arguments@, saved_id(r)),
            r matches Ok(PlanningRequest::Save { plan_id, .. }) ==> is_ulid_text(plan_id@),
            r matches Ok(PlanningRequest::Save { plan_id, contents, .. }) ==> (normal_within(
                field(arguments@, "plan"@),
                (codec_depth() - 1) as nat,
            ) ==> load_plan_v(contents@) == Ok::<JsonV, AppErrorV>(
                plan_record_v(as_str(field(arguments@, "session_id"@))->Some_0, plan_id@, field(arguments@, "plan"@)),
            )),
    {
        let s = get_field(arguments, "session_id");
        let session_id = match get_str(&s) {
            Some(x) => x,
            None => {
                return Err(
                    io_error(
                        IoErrorKind::InvalidInput,
                        "O campo 'session_id' é obrigatório para ferramentas de planejamento.",
                    ),
                );
            },
        };
        if str_eq(tool_name, "create_plan") {
            let g = get_field(arguments, "goal");
            let goal = match get_str(&g) {
                Some(x) => x,
                None => {
                    return Err(
                        io_error(IoErrorKind::InvalidInput, "O campo 'goal' é obrigatório para create_plan."),
                    );
                },
            };
            let plan = get_field(arguments, "plan");
            if is_null(&plan) {
                return Err(
                    io_error(
                        IoErrorKind::InvalidInput,
                        "O campo 'plan' deve conter o plano em formato JSON.",
                    ),
                );
            }
            let plan_id = new_ulid();
            let (path, contents) = self.save_plan(session_id.as_str(), plan_id.as_str(), &plan);
            let response = jobject(
                members3(
                    "plan_id",
                    jstring(&plan_id),
                    "session_id",
                    Json::Str(session_id),
                    "goal",
                    Json::Str(goal),
                ),
            );
            Ok(PlanningRequest::Save { plan_id, path, contents, response })
        } else if str_eq(tool_name, "get_plan") {
            let p = get_field(arguments, "plan_id");
            match get_str(&p) {
                Some(plan_id) => {
                    let path = self.plan_file_path(session_id.as_str(), plan_id.as_str());
                    Ok(PlanningRequest::Load { path })
                },
                None => Err(
                    io_error(IoErrorKind::InvalidInput, "O campo 'plan_id' é obrigatório para get_plan."),
                ),
            }
        } else if str_eq(tool_name, "list_plans") {
            Ok(PlanningRequest::List { dir: copy_string(&self.plans_dir), session_id })
        } else if str_eq(tool_name, "apply_plan") {
            let p = get_field(arguments, "plan_id");
            match get_str(&p) {
                Some(plan_id) => {
                    let path = self.plan_file_path(session_id.as_str(), plan_id.as_str());
                    Ok(PlanningRequest::Load { path })
                },
                None => {
                    let plan = get_field(arguments, "plan");
                    if is_null(&plan) {
                        Err(
                            io_error(
                                IoErrorKind::InvalidInput,
                                "O campo 'plan_id' ou 'plan' é obrigatório para apply_plan.",
                            ),
                        )
                    } else {
                        let response = jobject(members2("session_id", Json::Str(session_id), "plan", plan));
                        Ok(PlanningRequest::Answer { response })
                    }
                },
            }
        } else {
            let mut m = "Tool '".to_owned();
            append_str(&mut m, tool_name);
            append_str(&mut m, "' não encontrada no skill planejamento.");
            Err(AppError::IoError(IoErrorKind::NotFound, m))
        }
    }
}

/// Every tool that the planning skill declares is one it runs: whatever the
/// arguments, calling it never gives the unknown-tool error.
pub proof fn law_declared_planning_tools_run(dir: Seq<char>, i: int, args: JsonV, fresh: Seq<char>)
    requires
        0 <= i < planning_tools_v().len(),
    ensures
        planning_request_v(dir, planning_tools_v()[i].function.name, args, fresh) != Err::<
            PlanningRequestV,
            AppErrorV,
        >(unknown_planning_tool(planning_tools_v()[i].function.name)),
{
    reveal_strlit("create_plan");
    reveal_strlit("get_plan");
    reveal_strlit("list_plans");
    reveal_strlit("apply_plan");
    assert("apply_plan"@[0] != "list_plans"@[0]);
    assert("apply_plan"@.len() != "create_plan"@.len());
    assert("apply_plan"@.len() != "get_plan"@.len());
}

/// The arguments of `create_plan` for a session, a goal and a plan.
pub open spec fn create_args(session_id: Seq<char>, goal: Seq<char>, plan: JsonV) -> JsonV {
    JsonV::Object(
        seq![("session_id"@, JsonV::Str(session_id)), ("goal"@, JsonV::Str(goal)), ("plan"@, plan)],
    )
}

/// The arguments of `get_plan` (or `apply_plan`) for a session and a plan identifier.
pub open spec fn plan_args(session_id: Seq<char>, plan_id: Seq<char>) -> JsonV {
    JsonV::Object(seq![("session_id"@, JsonV::Str(session_id)), ("plan_id"@, JsonV::Str(plan_id))])
}

/// A plan created under `id` is found again: `create_plan` saves its record at the
/// path that `get_plan` and `apply_plan` read for `id`, and `list_plans` lists the
/// saved file under `id`. That the saved text reads back as the record is stated
/// by `execute` and `save_plan`.
pub proof fn law_created_plan_reads_back(
    dir: Seq<char>,
    session_id: Seq<char>,
    goal: Seq<char>,
    plan: JsonV,
    id: Seq<char>,
    other: Seq<char>,
)
    requires
        !(plan is Null),
    ensures
        planning_request_v(dir, "create_plan"@, create_args(session_id, goal, plan), id) == Ok::<
            PlanningRequestV,
            AppErrorV,
        >(
            PlanningRequestV::Save {
                plan_id: id,
                path: plan_path(dir, session_id, id),
                contents: spec_json_pretty(plan_record_v(session_id, id, plan)),
                response: JsonV::Object(
                    seq![
                        ("plan_id"@, JsonV::Str(id)),
                        ("session_id"@, JsonV::Str(session_id)),
                        ("goal"@, JsonV::Str(goal)),
                    ],
                ),
            },
        ),
        planning_request_v(dir, "get_plan"@, plan_args(session_id, id), other) == Ok::<
            PlanningRequestV,
            AppErrorV,
        >(PlanningRequestV::Load { path: plan_path(dir, session_id, id) }),
        planning_request_v(dir, "apply_plan"@, plan_args(session_id, id), other) == Ok::<
            PlanningRequestV,
            AppErrorV,
        >(PlanningRequestV::Load { path: plan_path(dir, session_id, id) }),
        plans_of(session_id, seq![session_id + "_"@ + id + ".json"@]) == seq![
            JsonV::Object(
                seq![
                    ("plan_id"@, JsonV::Str(id)),
                    ("file"@, JsonV::Str(session_id + "_"@ + id + ".json"@)),
                ],
            ),
        ],
{
    reveal_strlit("session_id");
    reveal_strlit("goal");
    reveal_strlit("plan");
    reveal_strlit("plan_id");
    reveal_strlit("create_plan");
    reveal_strlit("get_plan");
    reveal_strlit("list_plans");
    reveal_strlit("apply_plan");
    let c = seq![("session_id"@, JsonV::Str(session_id)), ("goal"@, JsonV::Str(goal)), ("plan"@, plan)];
    assert(c.drop_first() =~= seq![("goal"@, JsonV::Str(goal)), ("plan"@, plan)]);
    assert(c.drop_first().drop_first() =~= seq![("plan"@, plan)]);
    assert("session_id"@.len() != "goal"@.len());
    assert("session_id"@.len() != "plan"@.len());
    assert("goal"@[0] != "plan"@[0]);
    assert(lookup(seq![("plan"@, plan)], "plan"@) == Some(plan));
    assert(lookup(c.drop_first(), "goal"@) == Some(JsonV::Str(goal)));
    assert(lookup(c.drop_first(), "plan"@) == Some(plan));
    let g = seq![("session_id"@, JsonV::Str(session_id)), ("plan_id"@, JsonV::Str(id))];
    assert(g.drop_first() =~= seq![("plan_id"@, JsonV::Str(id))]);
    assert("session_id"@.len() != "plan_id"@.len());
    assert(lookup(seq![("plan_id"@, JsonV::Str(id))], "plan_id"@) == Some(JsonV::Str(id)));
    assert("get_plan"@.len() != "create_plan"@.len());
    assert("apply_plan"@.len() != "create_plan"@.len());
    assert("apply_plan"@.len() != "get_plan"@.len());
    assert("apply_plan"@[0] != "list_plans"@[0]);
    let name = session_id + "_"@ + id + ".json"@;
    law_plan_file_name_round_trip(session_id, id);
    let names = seq![name];
    assert(names.drop_last() =~= Seq::<Seq<char>>::empty());
    assert(names.last() == name);
    assert(plans_of(session_id, Seq::<Seq<char>>::empty()) == Seq::<JsonV>::empty());
    let entry = JsonV::Object(seq![("plan_id"@, JsonV::Str(id)), ("file"@, JsonV::Str(name))]);
    assert(plans_of(session_id, names) == Seq::<JsonV>::empty().push(entry));
    assert(Seq::<JsonV>::empty().push(entry) =~= seq![entry]);
}

/// The answer of `list_plans`: `{"plans": [...]}`.
pub fn plans_response(plans: Json) -> (r: Json)
    ensures
        r@ == JsonV::Object(seq![("plans"@, plans@)]),
{
    jobject(members1("plans", plans))
}

} // verus!
