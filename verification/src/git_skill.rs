use vstd::prelude::*;
use crate::command::{Effect, EffectV, Event, args2, args3, with_arg, output_text, trimmed_output, unexpected, unexpected_event};
use crate::error::{AppError, AppErrorV, IoErrorKind, io_error};
use crate::json::{
    Json, JsonV, as_str, field, flag, get_bool, get_field, get_str, jarray, jobject, jstring,
    view_jsons, view_members,
};
use crate::model::{SkillDefinition, SkillDefinitionV, Tool, ToolV, opt_view, strings_view, tools_view};
use crate::schema::{
    function_tool, function_tool_v, members1, members2, members3, object_schema, object_schema_v,
    prop, prop_v, skill, skill_v, strs1, strs4, tools4,
};
use crate::text::{
    append_str, chars_of, copy_string, lines, lines_of, second_word, second_word_of, spec_utf8_lossy,
    str_eq, string_from, trim, trim_chars, utf8_lossy,
};

verus! {

// ---------------------------------------------------------------------
// The tools
// ---------------------------------------------------------------------

pub open spec fn current_branch_tool_v() -> ToolV {
    function_tool_v("get_current_branch"@, "Retorna o branch Git atual."@, object_schema_v(Seq::empty(), Seq::empty()))
}

pub open spec fn changed_files_tool_v() -> ToolV {
    function_tool_v(
        "list_changed_files"@,
        "Lista arquivos modificados no repositório local."@,
        object_schema_v(
            seq![("staged_only"@, prop_v("boolean"@, "Lista apenas os arquivos staged."@))],
            Seq::empty(),
        ),
    )
}

pub open spec fn show_diff_tool_v() -> ToolV {
    function_tool_v(
        "show_diff"@,
        "Mostra diff para um arquivo ou para todo o repositório."@,
        object_schema_v(
            seq![
                ("path"@, prop_v("string"@, "Caminho opcional de arquivo para diff."@)),
                ("staged"@, prop_v("boolean"@, "Se deve mostrar o diff staged."@)),
            ],
            Seq::empty(),
        ),
    )
}

pub open spec fn checkout_tool_v() -> ToolV {
    function_tool_v(
        "checkout_branch"@,
        "Faz checkout de um branch existente ou cria um novo branch."@,
        object_schema_v(
            seq![
                ("branch"@, prop_v("string"@, "Nome do branch a ser verificado."@)),
                ("create"@, prop_v("boolean"@, "Se deve criar o branch caso não exista."@)),
            ],
            seq!["branch"@],
        ),
    )
}

pub open spec fn git_tools_v() -> Seq<ToolV> {
    seq![current_branch_tool_v(), changed_files_tool_v(), show_diff_tool_v(), checkout_tool_v()]
}

pub open spec fn git_skill_v() -> SkillDefinitionV {
    skill_v(
        "git"@,
        "Operações locais de Git para gerenciamento de branches e diff."@,
        seq!["git"@, "branch"@, "commit"@, "diff"@],
        git_tools_v(),
    )
}

/// The skill of local Git operations: branches, changed files and diffs.
pub struct GitSkillAdapter;

// ---------------------------------------------------------------------
// Running the tools
// ---------------------------------------------------------------------

/// A Git tool waiting for a command's result.
#[derive(Debug)]
pub enum GitJob {
    /// Waiting for `git branch --show-current`.
    CurrentBranch,
    /// Waiting for the list of changed files.
    ListChanged { staged_only: bool },
    /// Waiting for the diff.
    ShowDiff { path: Option<String>, staged: bool },
    /// Waiting for `git branch --list <branch>`.
    ListBranches { branch: String, create: bool },
    /// Waiting for the checkout.
    Checkout { branch: String, create: bool, exists: bool },
}

pub enum GitJobV {
    CurrentBranch,
    ListChanged { staged_only: bool },
    ShowDiff { path: Option<Seq<char>>, staged: bool },
    ListBranches { branch: Seq<char>, create: bool },
    Checkout { branch: Seq<char>, create: bool, exists: bool },
}

impl View for GitJob {
    type V = GitJobV;

    open spec fn view(&self) -> GitJobV {
        match self {
            GitJob::CurrentBranch => GitJobV::CurrentBranch,
            GitJob::ListChanged { staged_only } => GitJobV::ListChanged { staged_only: *staged_only },
            GitJob::ShowDiff { path, staged } => GitJobV::ShowDiff { path: opt_view(*path), staged: *staged },
            GitJob::ListBranches { branch, create } => GitJobV::ListBranches { branch: branch@, create: *create },
            GitJob::Checkout { branch, create, exists } => GitJobV::Checkout {
                branch: branch@,
                create: *create,
                exists: *exists,
            },
        }
    }
}

/// The outcome of a step of a Git tool: finished, or waiting for a command.
#[derive(Debug)]
pub enum GitRun {
    Done(Result<Json, AppError>),
    Run { job: GitJob, effect: Effect },
}

pub enum GitRunV {
    Done(Result<JsonV, AppErrorV>),
    Run { job: GitJobV, effect: EffectV },
}

impl View for GitRun {
    type V = GitRunV;

    open spec fn view(&self) -> GitRunV {
        match self {
            GitRun::Done(Ok(j)) => GitRunV::Done(Ok(j@)),
            GitRun::Done(Err(e)) => GitRunV::Done(Err(e@)),
            GitRun::Run { job, effect } => GitRunV::Run { job: job@, effect: effect@ },
        }
    }
}

/// A `git` command run in the current directory.
pub open spec fn git_here(args: Seq<Seq<char>>, capture: bool) -> EffectV {
    EffectV::Git { args, capture_output: capture, dir: None }
}

/// The arguments of `git diff`, staged or not, for one path or for all.
pub open spec fn diff_args(path: Option<Seq<char>>, staged: bool) -> Seq<Seq<char>> {
    let base = if staged {
        seq!["diff"@, "--cached"@]
    } else {
        seq!["diff"@]
    };
    match path {
        Some(p) => base.push(p),
        None => base,
    }
}

/// How each Git tool starts.
pub open spec fn git_start_v(tool: Seq<char>, args: JsonV) -> GitRunV {
    if tool == "get_current_branch"@ {
        GitRunV::Run {
            job: GitJobV::CurrentBranch,
            effect: git_here(seq!["branch"@, "--show-current"@], true),
        }
    } else if tool == "list_changed_files"@ {
        let staged_only = flag(field(args, "staged_only"@));
        GitRunV::Run {
            job: GitJobV::ListChanged { staged_only },
            effect: git_here(
                if staged_only {
                    seq!["diff"@, "--name-only"@, "--cached"@]
                } else {
                    seq!["status"@, "--porcelain"@]
                },
                true,
            ),
        }
    } else if tool == "show_diff"@ {
        let path = as_str(field(args, "path"@));
        let staged = flag(field(args, "staged"@));
        GitRunV::Run {
            job: GitJobV::ShowDiff { path, staged },
            effect: git_here(diff_args(path, staged), true),
        }
    } else if tool == "checkout_branch"@ {
        match as_str(field(args, "branch"@)) {
            None => GitRunV::Done(
                Err(
                    AppErrorV::Io(
                        IoErrorKind::InvalidInput,
                        "O campo 'branch' é obrigatório para checkout_branch."@,
                    ),
                ),
            ),
            Some(b) => GitRunV::Run {
                job: GitJobV::ListBranches { branch: b, create: flag(field(args, "create"@)) },
                effect: git_here(seq!["branch"@, "--list"@, b], true),
            },
        }
    } else {
        GitRunV::Done(
            Err(
                AppErrorV::Io(
                    IoErrorKind::NotFound,
                    "Tool '"@ + tool + "' não encontrada no skill git."@,
                ),
            ),
        )
    }
}

proof fn lemma_git_tool_names_differ()
    ensures
        "list_changed_files"@ != "get_current_branch"@,
        "show_diff"@ != "get_current_branch"@,
        "show_diff"@ != "list_changed_files"@,
        "checkout_branch"@ != "get_current_branch"@,
        "checkout_branch"@ != "list_changed_files"@,
        "checkout_branch"@ != "show_diff"@,
{
    reveal_strlit("get_current_branch");
    reveal_strlit("list_changed_files");
    reveal_strlit("show_diff");
    reveal_strlit("checkout_branch");
    assert("list_changed_files"@[0] != "get_current_branch"@[0]);
    assert("show_diff"@.len() != "get_current_branch"@.len());
    assert("show_diff"@.len() != "list_changed_files"@.len());
    assert("checkout_branch"@.len() != "get_current_branch"@.len());
    assert("checkout_branch"@.len() != "list_changed_files"@.len());
    assert("checkout_branch"@.len() != "show_diff"@.len());
}

/// A checkout first lists the wanted branch with `git branch --list <branch>`;
/// it creates a missing branch only when `create` is given as `true`.
pub proof fn law_checkout_lists_branch_first(args: JsonV, branch: Seq<char>)
    requires
        field(args, "branch"@) == JsonV::Str(branch),
    ensures
        git_start_v("checkout_branch"@, args) == (GitRunV::Run {
            job: GitJobV::ListBranches { branch, create: field(args, "create"@) == JsonV::Bool(true) },
            effect: EffectV::Git { args: seq!["branch"@, "--list"@, branch], capture_output: true, dir: None },
        }),
{
    lemma_git_tool_names_differ();
}

/// The listing of changed files follows `staged_only`: `true` lists the staged
/// names with `git diff --name-only --cached`, anything else the working tree
/// with `git status --porcelain`.
pub proof fn law_changed_files_follow_staged_only(args: JsonV)
    ensures
        field(args, "staged_only"@) == JsonV::Bool(true) ==> git_start_v("list_changed_files"@, args) == (
        GitRunV::Run {
            job: GitJobV::ListChanged { staged_only: true },
            effect: EffectV::Git {
                args: seq!["diff"@, "--name-only"@, "--cached"@],
                capture_output: true,
                dir: None,
            },
        }),
        field(args, "staged_only"@) != JsonV::Bool(true) ==> git_start_v("list_changed_files"@, args) == (
        GitRunV::Run {
            job: GitJobV::ListChanged { staged_only: false },
            effect: EffectV::Git { args: seq!["status"@, "--porcelain"@], capture_output: true, dir: None },
        }),
{
    lemma_git_tool_names_differ();
}

/// A diff is of the staged changes exactly when `staged` is `true`, and of the
/// given path only when a path is given.
pub proof fn law_diff_follows_arguments(args: JsonV, path: Seq<char>)
    ensures
        field(args, "path"@) == JsonV::Str(path) && field(args, "staged"@) == JsonV::Bool(true) ==> git_start_v(
            "show_diff"@,
            args,
        ) == (GitRunV::Run {
            job: GitJobV::ShowDiff { path: Some(path), staged: true },
            effect: EffectV::Git { args: seq!["diff"@, "--cached"@, path], capture_output: true, dir: None },
        }),
        !(field(args, "path"@) is Str) && field(args, "staged"@) != JsonV::Bool(true) ==> git_start_v(
            "show_diff"@,
            args,
        ) == (GitRunV::Run {
            job: GitJobV::ShowDiff { path: None, staged: false },
            effect: EffectV::Git { args: seq!["diff"@], capture_output: true, dir: None },
        }),
{
    lemma_git_tool_names_differ();
    assert(seq!["diff"@, "--cached"@].push(path) =~= seq!["diff"@, "--cached"@, path]);
}

/// `{"path": p}`.
pub open spec fn path_entry(p: Seq<char>) -> JsonV {
    JsonV::Object(seq![("path"@, JsonV::Str(p))])
}

/// The staged files: one entry per line of output, trimmed.
pub open spec fn staged_files(ls: Seq<Seq<char>>) -> Seq<JsonV> {
    ls.map_values(|l: Seq<char>| path_entry(trim(l)))
}

/// The changed files of `git status --porcelain`: one entry per non-blank line,
/// the path being the line's second word (or the whole trimmed line).
pub open spec fn status_files(ls: Seq<Seq<char>>) -> Seq<JsonV>
    decreases ls.len(),
{
    if ls.len() == 0 {
        Seq::empty()
    } else {
        let rest = status_files(ls.drop_last());
        let t = trim(ls.last());
        if t.len() == 0 {
            rest
        } else {
            rest.push(
                path_entry(
                    match second_word(t) {
                        Some(w) => w,
                        None => t,
                    },
                ),
            )
        }
    }
}

/// Each line of `git status --porcelain` is read on its own: reading two runs of
/// lines is reading each and joining the results, so no changed file is lost or
/// reordered.
pub proof fn law_status_files_join(ls1: Seq<Seq<char>>, ls2: Seq<Seq<char>>)
    ensures
        status_files(ls1 + ls2) == status_files(ls1) + status_files(ls2),
    decreases ls2.len(),
{
    if ls2.len() == 0 {
        assert(ls1 + ls2 =~= ls1);
        assert(status_files(ls1) + status_files(ls2) =~= status_files(ls1));
    } else {
        let d = ls2.drop_last();
        law_status_files_join(ls1, d);
        assert((ls1 + ls2).drop_last() =~= ls1 + d);
        assert((ls1 + ls2).last() == ls2.last());
        let t = trim(ls2.last());
        if t.len() != 0 {
            let e = path_entry(
                match second_word(t) {
                    Some(w) => w,
                    None => t,
                },
            );
            assert((status_files(ls1) + status_files(d)).push(e) =~= status_files(ls1) + status_files(d).push(e));
        }
    }
}

/// A blank line reports nothing; a line `XY path` reports `path`.
pub proof fn law_status_line(l: Seq<char>)
    ensures
        trim(l).len() == 0 ==> status_files(seq![l]) == Seq::<JsonV>::empty(),
        trim(l).len() != 0 ==> status_files(seq![l]) == seq![
            path_entry(
                match second_word(trim(l)) {
                    Some(w) => w,
                    None => trim(l),
                },
            ),
        ],
{
    assert(seq![l].drop_last() =~= Seq::<Seq<char>>::empty());
    assert(seq![l].last() == l);
    assert(status_files(Seq::<Seq<char>>::empty()) == Seq::<JsonV>::empty());
    assert(forall|e: JsonV| Seq::<JsonV>::empty().push(e) =~= seq![e]);
}

/// The files that a listing reports, read from the command's output.
pub open spec fn changed_files(staged_only: bool, stdout: Seq<u8>) -> Seq<JsonV> {
    let ls = lines(spec_utf8_lossy(stdout));
    if staged_only {
        staged_files(ls)
    } else {
        status_files(ls)
    }
}

pub open spec fn checkout_response_v(branch: Seq<char>, created: bool) -> JsonV {
    JsonV::Object(
        seq![
            ("branch"@, JsonV::Str(branch)),
            ("checked_out"@, JsonV::Bool(true)),
            ("created"@, JsonV::Bool(created)),
        ],
    )
}

pub open spec fn git_failure(message: Seq<char>) -> GitRunV {
    GitRunV::Done(Err(AppErrorV::Io(IoErrorKind::Other, message)))
}

/// How a Git tool goes on after a command.
pub open spec fn git_step_v(job: GitJobV, success: bool, stdout: Seq<u8>) -> GitRunV {
    match job {
        GitJobV::CurrentBranch => if !success {
            git_failure("Falha ao obter branch atual do git."@)
        } else {
            GitRunV::Done(Ok(JsonV::Object(seq![("current_branch"@, JsonV::Str(output_text(stdout)))])))
        },
        GitJobV::ListChanged { staged_only } => if !success {
            git_failure("Falha ao listar arquivos alterados no git."@)
        } else {
            GitRunV::Done(
                Ok(
                    JsonV::Object(
                        seq![
                            ("staged_only"@, JsonV::Bool(staged_only)),
                            ("files"@, JsonV::Array(changed_files(staged_only, stdout))),
                        ],
                    ),
                ),
            )
        },
        GitJobV::ShowDiff { path, staged } => if !success {
            git_failure("Falha ao gerar diff do git."@)
        } else {
            GitRunV::Done(
                Ok(
                    JsonV::Object(
                        seq![
                            ("diff"@, JsonV::Str(spec_utf8_lossy(stdout))),
                            ("staged"@, JsonV::Bool(staged)),
                            (
                                "path"@,
                                match path {
                                    Some(p) => JsonV::Str(p),
                                    None => JsonV::Null,
                                },
                            ),
                        ],
                    ),
                ),
            )
        },
        GitJobV::ListBranches { branch, create } => if !success {
            git_failure("Falha ao listar branches do git."@)
        } else if output_text(stdout).len() != 0 {
            GitRunV::Run {
                job: GitJobV::Checkout { branch, create, exists: true },
                effect: git_here(seq!["checkout"@, branch], false),
            }
        } else if create {
            GitRunV::Run {
                job: GitJobV::Checkout { branch, create, exists: false },
                effect: git_here(seq!["checkout"@, "-b"@, branch], false),
            }
        } else {
            GitRunV::Done(
                Err(
                    AppErrorV::Io(
                        IoErrorKind::NotFound,
                        "Branch '"@ + branch + "' não existe e create=false."@,
                    ),
                ),
            )
        },
        GitJobV::Checkout { branch, create, exists } => if !success {
            git_failure("Falha ao alternar para o branch "@ + branch + "."@)
        } else {
            GitRunV::Done(Ok(checkout_response_v(branch, create && !exists)))
        },
    }
}

/// Checking out a branch that the listing shows: whatever `create` says, the next
/// command is `git checkout <branch>` in the current directory, and when it
/// succeeds the answer says the branch was checked out and not created.
pub proof fn law_existing_branch_is_checked_out(branch: Seq<char>, create: bool, stdout: Seq<u8>, later: Seq<u8>)
    requires
        output_text(stdout).len() > 0,
    ensures
        git_step_v(GitJobV::ListBranches { branch, create }, true, stdout) == (GitRunV::Run {
            job: GitJobV::Checkout { branch, create, exists: true },
            effect: EffectV::Git { args: seq!["checkout"@, branch], capture_output: false, dir: None },
        }),
        git_step_v(GitJobV::Checkout { branch, create, exists: true }, true, later) == GitRunV::Done(
            Ok(
                JsonV::Object(
                    seq![
                        ("branch"@, JsonV::Str(branch)),
                        ("checked_out"@, JsonV::Bool(true)),
                        ("created"@, JsonV::Bool(false)),
                    ],
                ),
            ),
        ),
{
}

/// A listed branch is never reported missing: after a successful listing the
/// "does not exist" error comes only when the listing is empty and `create` is
/// false, and a missing branch with `create` is made with `git checkout -b`.
pub proof fn law_missing_branch_error_only_when_unlisted(branch: Seq<char>, create: bool, stdout: Seq<u8>)
    ensures
        (git_step_v(GitJobV::ListBranches { branch, create }, true, stdout) is Done) <==> (output_text(
            stdout,
        ).len() == 0 && !create),
        output_text(stdout).len() == 0 && create ==> git_step_v(
            GitJobV::ListBranches { branch, create },
            true,
            stdout,
        ) == (GitRunV::Run {
            job: GitJobV::Checkout { branch, create, exists: false },
            effect: EffectV::Git { args: seq!["checkout"@, "-b"@, branch], capture_output: false, dir: None },
        }),
{
}

fn flag_of(arguments: &Json, key: &str) -> (r: bool)
    ensures
        r == flag(field(arguments@, key@)),
{
    let v = get_field(arguments, key);
    match get_bool(&v) {
        Some(b) => b,
        None => false,
    }
}

fn git_cmd(args: Vec<String>, capture: bool) -> (r: Effect)
    ensures
        r@ == git_here(strings_view(args@), capture),
{
    Effect::Git { args, capture_output: capture, dir: None }
}

impl GitSkillAdapter {
    pub fn new() -> (r: Self) {
        GitSkillAdapter
    }

    /// The skill's name, description, keywords and tools.
    pub fn get_skill_definition(&self) -> (r: SkillDefinition)
        ensures
            r@ == git_skill_v(),
    {
        skill(
            "git",
            "Operações locais de Git para gerenciamento de branches e diff.",
            strs4("git", "branch", "commit", "diff"),
            self.get_tool_definitions(),
        )
    }

    /// The four tools: current branch, changed files, diff, checkout.
    pub fn get_tool_definitions(&self) -> (r: Vec<Tool>)
        ensures
            tools_view(r@) == git_tools_v(),
    {
        let no_props: Vec<(String, Json)> = Vec::new();
        let no_required: Vec<String> = Vec::new();
        assert(view_members(no_props@) =~= Seq::empty());
        assert(strings_view(no_required@) =~= Seq::empty());
        let current = function_tool(
            "get_current_branch",
            "Retorna o branch Git atual.",
            object_schema(no_props, no_required),
        );
        let none: Vec<String> = Vec::new();
        assert(strings_view(none@) =~= Seq::empty());
        let changed = function_tool(
            "list_changed_files",
            "Lista arquivos modificados no repositório local.",
            object_schema(
                members1("staged_only", prop("boolean", "Lista apenas os arquivos staged.")),
                none,
            ),
        );
        let none2: Vec<String> = Vec::new();
        assert(strings_view(none2@) =~= Seq::empty());
        let diff = function_tool(
            "show_diff",
            "Mostra diff para um arquivo ou para todo o repositório.",
            object_schema(
                members2(
                    "path",
                    prop("string", "Caminho opcional de arquivo para diff."),
                    "staged",
                    prop("boolean", "Se deve mostrar o diff staged."),
                ),
                none2,
            ),
        );
        let checkout = function_tool(
            "checkout_branch",
            "Faz checkout de um branch existente ou cria um novo branch.",
            object_schema(
                members2(
                    "branch",
                    prop("string", "Nome do branch a ser verificado."),
                    "create",
                    prop("boolean", "Se deve criar o branch caso não exista."),
                ),
                strs1("branch"),
            ),
        );
        tools4(current, changed, diff, checkout)
    }

    /// Starts the tool `tool_name` on `arguments`: every tool but an unknown one, or a
    /// checkout without a branch, begins with a `git` command.
    pub fn execute(&self, tool_name: &str, arguments: &Json) -> (r: GitRun)
        ensures
            r@ == git_start_v(tool_name@, arguments@),
    {
        if str_eq(tool_name, "get_current_branch") {
            GitRun::Run { job: GitJob::CurrentBranch, effect: git_cmd(args2("branch", "--show-current"), true) }
        } else if str_eq(tool_name, "list_changed_files") {
            let staged_only = flag_of(arguments, "staged_only");
            let args = if staged_only {
                args3("diff", "--name-only", "--cached")
            } else {
                args2("status", "--porcelain")
            };
            GitRun::Run { job: GitJob::ListChanged { staged_only }, effect: git_cmd(args, true) }
        } else if str_eq(tool_name, "show_diff") {
            let p = get_field(arguments, "path");
            let path = get_str(&p);
            let staged = flag_of(arguments, "staged");
            let mut args = if staged {
                args2("diff", "--cached")
            } else {
                strs1("diff")
            };
            match &path {
                Some(x) => {
                    let ghost before = strings_view(args@);
                    args.push(copy_string(x));
                    assert(strings_view(args@) =~= before.push(x@));
                },
                None => {},
            }
            GitRun::Run { job: GitJob::ShowDiff { path, staged }, effect: git_cmd(args, true) }
        } else if str_eq(tool_name, "checkout_branch") {
            let b = get_field(arguments, "branch");
            match get_str(&b) {
                None => GitRun::Done(
                    Err(
                        io_error(
                            IoErrorKind::InvalidInput,
                            "O campo 'branch' é obrigatório para checkout_branch.",
                        ),
                    ),
                ),
                Some(branch) => {
                    let create = flag_of(arguments, "create");
                    let args = with_arg(args2("branch", "--list"), &branch);
                    assert(strings_view(args@) =~= seq!["branch"@, "--list"@, branch@]);
                    GitRun::Run { job: GitJob::ListBranches { branch, create }, effect: git_cmd(args, true) }
                },
            }
        } else {
            let mut m = "Tool '".to_owned();
            append_str(&mut m, tool_name);
            append_str(&mut m, "' não encontrada no skill git.");
            GitRun::Done(Err(AppError::IoError(IoErrorKind::NotFound, m)))
        }
    }
}

fn path_entry_exec(p: String) -> (r: Json)
    ensures
        r@ == path_entry(p@),
{
    jobject(members1("path", Json::Str(p)))
}

/// The files that a listing reports.
fn changed_files_exec(staged_only: bool, stdout: &Vec<u8>) -> (r: Vec<Json>)
    ensures
        view_jsons(r@) == changed_files(staged_only, stdout@),
{
    let text = utf8_lossy(stdout.as_slice());
    let v = chars_of(text.as_str());
    let ls = lines_of(&v);
    let ghost lv = ls@.map_values(|l: Vec<char>| l@);
    let mut out: Vec<Json> = Vec::new();
    let mut i: usize = 0;
    while i < ls.len()
        invariant
            i <= ls.len(),
            lv == ls@.map_values(|l: Vec<char>| l@),
            staged_only ==> view_jsons(out@) == staged_files(lv.take(i as int)),
            !staged_only ==> view_jsons(out@) == status_files(lv.take(i as int)),
        decreases ls.len() - i,
    {
        assert(lv.take(i + 1).drop_last() =~= lv.take(i as int));
        assert(lv.take(i + 1).last() == ls@[i as int]@);
        let ghost before = view_jsons(out@);
        let t = trim_chars(&ls[i]);
        if staged_only {
            out.push(path_entry_exec(string_from(&t)));
            assert(view_jsons(out@) =~= before.push(path_entry(t@)));
            assert(staged_files(lv.take(i + 1)) =~= staged_files(lv.take(i as int)).push(path_entry(t@)));
        } else if t.len() > 0 {
            let path = match second_word_of(&t) {
                Some(w) => string_from(&w),
                None => string_from(&t),
            };
            out.push(path_entry_exec(path));
            assert(view_jsons(out@) =~= before.push(
                path_entry(
                    match second_word(t@) {
                        Some(w) => w,
                        None => t@,
                    },
                ),
            ));
        }
        i = i + 1;
    }
    assert(lv.take(ls@.len() as int) =~= lv);
    out
}

fn fail(message: &str) -> (r: GitRun)
    ensures
        r@ == git_failure(message@),
{
    GitRun::Done(Err(io_error(IoErrorKind::Other, message)))
}

/// Moves a Git tool on by the result of its command: a failed effect ends it with
/// the effect's error, another event than a command's result with
/// [`unexpected_event`], and a command's result as [`git_step_v`] describes.
pub fn git_step(job: GitJob, event: Event) -> (r: GitRun)
    ensures
        match event {
            Event::Failed(e) => r@ == GitRunV::Done(Err(e@)),
            Event::Command { success, code: _, stdout } => r@ == git_step_v(job@, success, stdout@),
            _ => r@ == GitRunV::Done(Err(unexpected_event())),
        },
{
    let (success, stdout) = match event {
        Event::Failed(e) => {
            return GitRun::Done(Err(e));
        },
        Event::Command { success, code: _, stdout } => (success, stdout),
        _ => {
            return GitRun::Done(Err(unexpected()));
        },
    };
    after_command(job, success, &stdout)
}

fn after_command(job: GitJob, success: bool, stdout: &Vec<u8>) -> (r: GitRun)
    ensures
        r@ == git_step_v(job@, success, stdout@),
{
    match job {
        GitJob::CurrentBranch => {
            if !success {
                return fail("Falha ao obter branch atual do git.");
            }
            let b = trimmed_output(stdout);
            let r = GitRun::Done(Ok(jobject(members1("current_branch", Json::Str(b)))));
            assert(r@ == git_step_v(job@, success, stdout@));
            r
        },
        GitJob::ListChanged { staged_only } => {
            if !success {
                return fail("Falha ao listar arquivos alterados no git.");
            }
            let files = changed_files_exec(staged_only, stdout);
            let r = GitRun::Done(Ok(jobject(members2("staged_only", Json::Bool(staged_only), "files", jarray(files)))));
            assert(r@ == git_step_v(job@, success, stdout@));
            r
        },
        GitJob::ShowDiff { path, staged } => {
            if !success {
                return fail("Falha ao gerar diff do git.");
            }
            let diff = utf8_lossy(stdout.as_slice());
            let p = match path {
                Some(x) => Json::Str(x),
                None => Json::Null,
            };
            assert(diff@ == spec_utf8_lossy(stdout@));
            assert(p@ == match opt_view(path) { Some(x) => JsonV::Str(x), None => JsonV::Null });
            let r = GitRun::Done(Ok(jobject(members3("diff", Json::Str(diff), "staged", Json::Bool(staged), "path", p))));
            assert(r@->Done_0->Ok_0->Object_0 =~= git_step_v(job@, success, stdout@)->Done_0->Ok_0->Object_0);
            assert(r@ == git_step_v(job@, success, stdout@));
            r
        },
        GitJob::ListBranches { branch, create } => {
            if !success {
                return fail("Falha ao listar branches do git.");
            }
            let listed = trimmed_output(stdout);
            if !listed.as_str().is_empty() {
                let args = with_arg(strs1("checkout"), &branch);
                assert(strings_view(args@) =~= seq!["checkout"@, branch@]);
                GitRun::Run { job: GitJob::Checkout { branch, create, exists: true }, effect: git_cmd(args, false) }
            } else if create {
                let args = with_arg(args2("checkout", "-b"), &branch);
                assert(strings_view(args@) =~= seq!["checkout"@, "-b"@, branch@]);
                GitRun::Run { job: GitJob::Checkout { branch, create, exists: false }, effect: git_cmd(args, false) }
            } else {
                let mut m = "Branch '".to_owned();
                append_str(&mut m, branch.as_str());
                append_str(&mut m, "' não existe e create=false.");
                GitRun::Done(Err(AppError::IoError(IoErrorKind::NotFound, m)))
            }
        },
        GitJob::Checkout { branch, create, exists } => {
            if !success {
                let mut m = "Falha ao alternar para o branch ".to_owned();
                append_str(&mut m, branch.as_str());
                append_str(&mut m, ".");
                return GitRun::Done(Err(AppError::IoError(IoErrorKind::Other, m)));
            }
            let r = jobject(
                members3(
                    "branch",
                    Json::Str(branch),
                    "checked_out",
                    Json::Bool(true),
                    "created",
                    Json::Bool(create && !exists),
                ),
            );
            GitRun::Done(Ok(r))
        },
    }
}

} // verus!
