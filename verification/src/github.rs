use vstd::prelude::*;
use vstd::string::*;
use crate::command::{Effect, EffectV, Event, args3, output_text, trimmed_output, unexpected, unexpected_event};
use crate::error::{AppError, AppErrorV, IoErrorKind, io_error};
use crate::json::{
    Json, JsonV, as_str, field, get_field, get_str, jarray, jcount, jobject, jstr, jstring,
    json_clone, parse_json, spec_json_parse, view_jsons, view_members, lookup,
};
use crate::model::{Tool, ToolV, copy_tools, strings_view, tools_view};
use crate::paths::{join, path_join};
use crate::schema::{
    function_tool, function_tool_v, members1, members2, members3, members5, members6, object_schema,
    object_schema_v, prop, prop_v, strs1, strs2, strs3, strs5,
};
use crate::text::{
    append_str, chars_of, contains, contains_exec, copy_string, decimal, spec_utf8_lossy, str_eq,
    string_from, trim, trim_chars,
};

verus! {

// ---------------------------------------------------------------------
// Reading loosely typed arguments
// ---------------------------------------------------------------------

/// A text that, once trimmed, opens a JSON object or array.
pub open spec fn opens_structure(t: Seq<char>) -> bool {
    t.len() > 0 && (t[0] == '{' || t[0] == '[')
}

/// A string argument that holds JSON text for an object or an array stands for
/// that document; any other value stands for itself.
pub open spec fn normalized(v: JsonV) -> JsonV {
    match v {
        JsonV::Str(s) => if opens_structure(trim(s)) && spec_json_parse(trim(s)) is Ok {
            spec_json_parse(trim(s))->Ok_0
        } else {
            v
        },
        _ => v,
    }
}

/// A string or a number (as its text) found under `key` after normalization.
pub open spec fn string_field(args: JsonV, key: Seq<char>) -> Option<Seq<char>> {
    match normalized(field(args, key)) {
        JsonV::Str(s) => Some(s),
        JsonV::Number(n) => Some(n),
        _ => None,
    }
}

/// An array found under `key` after normalization, also when it is still held as text.
pub open spec fn array_field(args: JsonV, key: Seq<char>) -> Option<Seq<JsonV>> {
    match normalized(field(args, key)) {
        JsonV::Array(a) => Some(a),
        JsonV::Str(s) => if opens_structure(trim(s)) {
            match spec_json_parse(trim(s)) {
                Ok(JsonV::Array(a)) => Some(a),
                _ => None,
            }
        } else {
            None
        },
        _ => None,
    }
}

fn opens_structure_exec(t: &Vec<char>) -> (r: bool)
    ensures
        r == opens_structure(t@),
{
    t.len() > 0 && (t[0] == '{' || t[0] == '[')
}

/// Reads a string argument that holds JSON text as the document it holds.
pub fn normalize_argument_value(value: &Json) -> (r: Json)
    ensures
        r@ == normalized(value@),
{
    match value {
        Json::Str(s) => {
            let v = chars_of(s.as_str());
            let t = trim_chars(&v);
            if opens_structure_exec(&t) {
                let text = string_from(&t);
                match parse_json(text.as_str()) {
                    Ok(parsed) => {
                        return parsed;
                    },
                    Err(_) => {},
                }
            }
            Json::Str(copy_string(s))
        },
        _ => json_clone(value),
    }
}

/// The string (or number text) under `key`.
pub fn get_string_field(arguments: &Json, key: &str) -> (r: Option<String>)
    ensures
        r matches Some(s) ==> string_field(arguments@, key@) == Some(s@),
        r is None ==> string_field(arguments@, key@) is None,
{
    let v = get_field(arguments, key);
    match normalize_argument_value(&v) {
        Json::Str(s) => Some(s),
        Json::Number(n) => Some(n),
        _ => None,
    }
}

/// The array under `key`.
pub fn get_array_field(arguments: &Json, key: &str) -> (r: Option<Vec<Json>>)
    ensures
        r matches Some(a) ==> array_field(arguments@, key@) == Some(view_jsons(a@)),
        r is None ==> array_field(arguments@, key@) is None,
{
    let v = get_field(arguments, key);
    match normalize_argument_value(&v) {
        Json::Array(a) => {
            proof {
                crate::json::lemma_view_array(a);
            }
            Some(a)
        },
        Json::Str(s) => {
            let c = chars_of(s.as_str());
            let t = trim_chars(&c);
            if opens_structure_exec(&t) {
                let text = string_from(&t);
                match parse_json(text.as_str()) {
                    Ok(Json::Array(a)) => {
                        proof {
                            crate::json::lemma_view_array(a);
                        }
                        return Some(a);
                    },
                    _ => {},
                }
            }
            None
        },
        _ => None,
    }
}

// ---------------------------------------------------------------------
// The tools
// ---------------------------------------------------------------------

pub open spec fn list_repositories_tool_v() -> ToolV {
    function_tool_v(
        "list_github_repositories"@,
        "Get a list of public repositories for a given GitHub user."@,
        object_schema_v(
            seq![("username"@, prop_v("string"@, "The GitHub username to query for repositories."@))],
            seq!["username"@],
        ),
    )
}

pub open spec fn commit_files_schema_v() -> JsonV {
    JsonV::Object(
        seq![
            ("type"@, JsonV::Str("array"@)),
            ("description"@, JsonV::Str("An array of files to commit, each with a path and content."@)),
            (
                "items"@,
                object_schema_v(
                    seq![
                        (
                            "path"@,
                            prop_v(
                                "string"@,
                                "The path of the file in the repository (e.g., 'src/main.rs')."@,
                            ),
                        ),
                        ("content"@, prop_v("string"@, "The new content of the file."@)),
                    ],
                    seq!["path"@, "content"@],
                ),
            ),
        ],
    )
}

pub open spec fn commit_tool_v() -> ToolV {
    function_tool_v(
        "commit_and_push"@,
        "Commits and pushes specified file changes to a GitHub repository."@,
        object_schema_v(
            seq![
                ("owner"@, prop_v("string"@, "The owner of the repository (e.g., 'douglasfdev')."@)),
                ("repo"@, prop_v("string"@, "The name of the repository (e.g., 'openruscli')."@)),
                ("branch"@, prop_v("string"@, "The branch to commit to (e.g., 'main')."@)),
                ("commit_message"@, prop_v("string"@, "The commit message."@)),
                ("files"@, commit_files_schema_v()),
            ],
            seq!["owner"@, "repo"@, "branch"@, "commit_message"@, "files"@],
        ),
    )
}

fn list_repositories_tool() -> (r: Tool)
    ensures
        r@ == list_repositories_tool_v(),
{
    let props = members1(
        "username",
        prop("string", "The GitHub username to query for repositories."),
    );
    let params = object_schema(props, strs1("username"));
    function_tool(
        "list_github_repositories",
        "Get a list of public repositories for a given GitHub user.",
        params,
    )
}

fn commit_files_schema() -> (r: Json)
    ensures
        r@ == commit_files_schema_v(),
{
    let item_props = members2(
        "path",
        prop("string", "The path of the file in the repository (e.g., 'src/main.rs')."),
        "content",
        prop("string", "The new content of the file."),
    );
    let items = object_schema(item_props, strs2("path", "content"));
    let m = members3(
        "type",
        jstr("array"),
        "description",
        jstr("An array of files to commit, each with a path and content."),
        "items",
        items,
    );
    jobject(m)
}

fn commit_tool() -> (r: Tool)
    ensures
        r@ == commit_tool_v(),
{
    let props = members5(
        "owner",
        prop("string", "The owner of the repository (e.g., 'douglasfdev')."),
        "repo",
        prop("string", "The name of the repository (e.g., 'openruscli')."),
        "branch",
        prop("string", "The branch to commit to (e.g., 'main')."),
        "commit_message",
        prop("string", "The commit message."),
        "files",
        commit_files_schema(),
    );
    let params = object_schema(props, strs5("owner", "repo", "branch", "commit_message", "files"));
    function_tool(
        "commit_and_push",
        "Commits and pushes specified file changes to a GitHub repository.",
        params,
    )
}

/// The GitHub tools, each held once under its name.
pub struct GitHubToolAdapter {
    tools: Vec<Tool>,
}

impl View for GitHubToolAdapter {
    type V = Seq<ToolV>;

    closed spec fn view(&self) -> Seq<ToolV> {
        tools_view(self.tools@)
    }
}

impl GitHubToolAdapter {
    /// Holds the two GitHub tools: listing a user's repositories, and committing and
    /// pushing files.
    pub fn new() -> (r: Self)
        ensures
            r@ == seq![list_repositories_tool_v(), commit_tool_v()],
    {
        let tools = vec![list_repositories_tool(), commit_tool()];
        let r = GitHubToolAdapter { tools };
        assert(r@ =~= seq![list_repositories_tool_v(), commit_tool_v()]);
        r
    }

    /// The declarations of the held tools.
    pub fn get_tool_definitions(&self) -> (r: Vec<Tool>)
        ensures
            tools_view(r@) == self@,
    {
        copy_tools(&self.tools)
    }
}

// ---------------------------------------------------------------------
// Running the tools
// ---------------------------------------------------------------------

/// How far a commit-and-push has come.
#[derive(Clone, Copy, Debug, PartialEq, Eq, Structural)]
pub enum CommitStage {
    /// Waiting for the current directory, the repository's root.
    NeedRoot,
    /// Waiting for `git remote get-url origin`.
    CheckOrigin,
    /// Waiting for `git rev-parse --abbrev-ref HEAD`.
    CheckHead,
    /// Waiting for `git branch --list <branch>`.
    ListBranch,
    /// Waiting for the checkout of the branch.
    Checkout,
    /// Waiting for the file at this index of `files` to be written.
    Writing(usize),
    /// Waiting for `git add`.
    Stage,
    /// Waiting for `git diff --cached --quiet`.
    DiffCheck,
    /// Waiting for `git commit`.
    Commit,
    /// Waiting for `git push`.
    Push,
}

/// A commit-and-push under way.
#[derive(Debug)]
pub struct CommitJob {
    pub owner: String,
    pub repo: String,
    pub branch: String,
    pub message: String,
    pub files: Vec<Json>,
    /// The repository's root, once known.
    pub root: String,
    /// The repository paths written so far, in order, to be staged.
    pub staged: Vec<String>,
    pub stage: CommitStage,
}

pub struct CommitJobV {
    pub owner: Seq<char>,
    pub repo: Seq<char>,
    pub branch: Seq<char>,
    pub message: Seq<char>,
    pub files: Seq<JsonV>,
    pub root: Seq<char>,
    pub staged: Seq<Seq<char>>,
    pub stage: CommitStage,
}

impl View for CommitJob {
    type V = CommitJobV;

    open spec fn view(&self) -> CommitJobV {
        CommitJobV {
            owner: self.owner@,
            repo: self.repo@,
            branch: self.branch@,
            message: self.message@,
            files: view_jsons(self.files@),
            root: self.root@,
            staged: strings_view(self.staged@),
            stage: self.stage,
        }
    }
}

/// The outcome of a step: finished, or a commit-and-push waiting for an effect.
#[derive(Debug)]
pub enum GitHubRun {
    Done(Result<Json, AppError>),
    Commit { job: CommitJob, effect: Effect },
}

pub enum GitHubRunV {
    Done(Result<JsonV, AppErrorV>),
    Commit { job: CommitJobV, effect: EffectV },
}

impl View for GitHubRun {
    type V = GitHubRunV;

    open spec fn view(&self) -> GitHubRunV {
        match self {
            GitHubRun::Done(Ok(j)) => GitHubRunV::Done(Ok(j@)),
            GitHubRun::Done(Err(e)) => GitHubRunV::Done(Err(e@)),
            GitHubRun::Commit { job, effect } => GitHubRunV::Commit { job: job@, effect: effect@ },
        }
    }
}

/// `https://github.com/{owner}/{repo}/tree/{branch}`.
pub open spec fn tree_url(owner: Seq<char>, repo: Seq<char>, branch: Seq<char>) -> Seq<char> {
    "https://github.com/"@ + owner + "/"@ + repo + "/tree/"@ + branch
}

/// The answer of a finished commit-and-push.
pub open spec fn commit_response_v(
    message: Seq<char>,
    owner: Seq<char>,
    repo: Seq<char>,
    branch: Seq<char>,
    count: nat,
) -> JsonV {
    JsonV::Object(
        seq![
            ("message"@, JsonV::Str(message)),
            ("url"@, JsonV::Str(tree_url(owner, repo, branch))),
            ("owner"@, JsonV::Str(owner)),
            ("repo"@, JsonV::Str(repo)),
            ("branch"@, JsonV::Str(branch)),
            ("files_count"@, JsonV::Number(decimal(count))),
        ],
    )
}

/// The fixed answer of `list_github_repositories`.
pub open spec fn mock_repositories_v() -> JsonV {
    JsonV::Array(
        seq![
            JsonV::Object(
                seq![
                    ("name"@, JsonV::Str("repo1"@)),
                    ("url"@, JsonV::Str("https://github.com/user/repo1"@)),
                ],
            ),
            JsonV::Object(
                seq![
                    ("name"@, JsonV::Str("repo2"@)),
                    ("url"@, JsonV::Str("https://github.com/user/repo2"@)),
                ],
            ),
        ],
    )
}

pub open spec fn missing_commit_arguments() -> AppErrorV {
    AppErrorV::Io(
        IoErrorKind::Other,
        "Missing required arguments for commit_and_push (owner, repo, branch, commit_message, files)."@,
    )
}

pub open spec fn or_empty(o: Option<Seq<char>>) -> Seq<char> {
    match o {
        Some(s) => s,
        None => Seq::empty(),
    }
}

pub open spec fn or_none(o: Option<Seq<JsonV>>) -> Seq<JsonV> {
    match o {
        Some(s) => s,
        None => Seq::empty(),
    }
}

/// A `git` command run in the repository's root.
pub open spec fn git_in(root: Seq<char>, args: Seq<Seq<char>>, capture: bool) -> EffectV {
    EffectV::Git { args, capture_output: capture, dir: Some(root) }
}

/// The job with another stage.
pub open spec fn at_stage(job: CommitJobV, stage: CommitStage) -> CommitJobV {
    CommitJobV { stage, ..job }
}

/// The step that deals with the file at index `k`, or stages the written files
/// when all are written.
pub open spec fn file_step_v(job: CommitJobV, k: int) -> GitHubRunV {
    if k >= job.files.len() {
        GitHubRunV::Commit {
            job: at_stage(job, CommitStage::Stage),
            effect: git_in(job.root, seq!["add"@] + job.staged, false),
        }
    } else {
        match as_str(field(job.files[k], "path"@)) {
            None => GitHubRunV::Done(
                Err(
                    AppErrorV::Io(
                        IoErrorKind::Other,
                        "Invalid file path in commit_and_push arguments."@,
                    ),
                ),
            ),
            Some(p) => GitHubRunV::Commit {
                job: CommitJobV {
                    stage: CommitStage::Writing(k as usize),
                    staged: job.staged.push(p),
                    ..job
                },
                effect: EffectV::WriteFile {
                    path: path_join(job.root, p),
                    content: or_empty(as_str(field(job.files[k], "content"@))),
                },
            },
        }
    }
}

/// How a commit-and-push goes on after a command at its current stage.
pub open spec fn command_step_v(j: CommitJobV, success: bool, code: Option<i32>, stdout: Seq<u8>) -> GitHubRunV {
    match j.stage {
        CommitStage::CheckOrigin => if !success {
            GitHubRunV::Done(
                Err(
                    AppErrorV::Io(
                        IoErrorKind::Other,
                        "Failed to read git origin URL. Make sure this is a git repository with an origin remote."@,
                    ),
                ),
            )
        } else if !contains(output_text(stdout), repo_slug(j.owner, j.repo)) {
            GitHubRunV::Done(
                Err(
                    AppErrorV::Io(
                        IoErrorKind::Other,
                        "Git origin remote does not match the requested repository "@
                            + repo_slug(j.owner, j.repo) + "."@,
                    ),
                ),
            )
        } else {
            GitHubRunV::Commit {
                job: at_stage(j, CommitStage::CheckHead),
                effect: git_in(j.root, seq!["rev-parse"@, "--abbrev-ref"@, "HEAD"@], true),
            }
        },
        CommitStage::CheckHead => if !success {
            GitHubRunV::Done(
                Err(AppErrorV::Io(IoErrorKind::Other, "Failed to determine current git branch."@)),
            )
        } else if output_text(stdout) != j.branch {
            GitHubRunV::Commit {
                job: at_stage(j, CommitStage::ListBranch),
                effect: git_in(j.root, seq!["branch"@, "--list"@, j.branch], true),
            }
        } else {
            file_step_v(j, 0)
        },
        CommitStage::ListBranch => if !success {
            GitHubRunV::Done(
                Err(AppErrorV::Io(IoErrorKind::Other, "Failed to list git branches."@)),
            )
        } else if output_text(stdout).len() != 0 {
            GitHubRunV::Commit {
                job: at_stage(j, CommitStage::Checkout),
                effect: git_in(j.root, seq!["checkout"@, j.branch], false),
            }
        } else {
            GitHubRunV::Commit {
                job: at_stage(j, CommitStage::Checkout),
                effect: git_in(j.root, seq!["checkout"@, "-b"@, j.branch], false),
            }
        },
        CommitStage::Checkout => if !success {
            GitHubRunV::Done(
                Err(
                    AppErrorV::Io(
                        IoErrorKind::Other,
                        "Failed to checkout branch "@ + j.branch + "."@,
                    ),
                ),
            )
        } else {
            file_step_v(j, 0)
        },
        CommitStage::Stage => if !success {
            GitHubRunV::Done(
                Err(AppErrorV::Io(IoErrorKind::Other, "Failed to stage files for commit."@)),
            )
        } else {
            GitHubRunV::Commit {
                job: at_stage(j, CommitStage::DiffCheck),
                effect: git_in(j.root, seq!["diff"@, "--cached"@, "--quiet"@], false),
            }
        },
        CommitStage::DiffCheck => if success {
            GitHubRunV::Done(
                Ok(
                    commit_response_v(
                        "No changes to commit."@,
                        j.owner,
                        j.repo,
                        j.branch,
                        j.files.len(),
                    ),
                ),
            )
        } else if code != Some(1i32) {
            GitHubRunV::Done(
                Err(AppErrorV::Io(IoErrorKind::Other, "Failed to detect staged git changes."@)),
            )
        } else {
            GitHubRunV::Commit {
                job: at_stage(j, CommitStage::Commit),
                effect: git_in(j.root, seq!["commit"@, "-m"@, j.message], false),
            }
        },
        CommitStage::Commit => if !success {
            GitHubRunV::Done(
                Err(AppErrorV::Io(IoErrorKind::Other, "Failed to create git commit."@)),
            )
        } else {
            GitHubRunV::Commit {
                job: at_stage(j, CommitStage::Push),
                effect: git_in(j.root, seq!["push"@, "origin"@, j.branch], false),
            }
        },
        CommitStage::Push => if !success {
            GitHubRunV::Done(
                Err(
                    AppErrorV::Io(
                        IoErrorKind::Other,
                        "Failed to push branch "@ + j.branch + " to origin."@,
                    ),
                ),
            )
        } else {
            GitHubRunV::Done(
                Ok(
                    commit_response_v(
                        "Successfully pushed commit."@,
                        j.owner,
                        j.repo,
                        j.branch,
                        j.files.len(),
                    ),
                ),
            )
        },
        _ => GitHubRunV::Done(Err(unexpected_event())),
    }
}

/// Commit-and-push checks out the wanted branch as it stands: a branch that the
/// listing shows is checked out with `git checkout <branch>`, one it does not show
/// is created with `git checkout -b <branch>`, both in the repository's root.
pub proof fn law_commit_checks_out_listed_branch(j: CommitJobV, code: Option<i32>, stdout: Seq<u8>)
    requires
        j.stage == CommitStage::ListBranch,
    ensures
        output_text(stdout).len() > 0 ==> command_step_v(j, true, code, stdout) == (GitHubRunV::Commit {
            job: CommitJobV { stage: CommitStage::Checkout, ..j },
            effect: EffectV::Git { args: seq!["checkout"@, j.branch], capture_output: false, dir: Some(j.root) },
        }),
        output_text(stdout).len() == 0 ==> command_step_v(j, true, code, stdout) == (GitHubRunV::Commit {
            job: CommitJobV { stage: CommitStage::Checkout, ..j },
            effect: EffectV::Git {
                args: seq!["checkout"@, "-b"@, j.branch],
                capture_output: false,
                dir: Some(j.root),
            },
        }),
{
}

/// Files are written only on the wanted branch: when the current branch is the
/// wanted one the first file is written next, otherwise the branches are listed.
pub proof fn law_commit_writes_on_wanted_branch(j: CommitJobV, code: Option<i32>, stdout: Seq<u8>)
    requires
        j.stage == CommitStage::CheckHead,
    ensures
        output_text(stdout) == j.branch ==> command_step_v(j, true, code, stdout) == file_step_v(j, 0),
        output_text(stdout) != j.branch ==> command_step_v(j, true, code, stdout) == (GitHubRunV::Commit {
            job: CommitJobV { stage: CommitStage::ListBranch, ..j },
            effect: EffectV::Git {
                args: seq!["branch"@, "--list"@, j.branch],
                capture_output: true,
                dir: Some(j.root),
            },
        }),
{
}

/// Each file is written in turn, under the repository's root, and recorded to be
/// staged; once all are written they are staged together with `git add`.
pub proof fn law_commit_writes_each_file(j: CommitJobV, k: int, p: Seq<char>)
    requires
        0 <= k < j.files.len(),
        as_str(field(j.files[k], "path"@)) == Some(p),
    ensures
        file_step_v(j, k) == (GitHubRunV::Commit {
            job: CommitJobV { stage: CommitStage::Writing(k as usize), staged: j.staged.push(p), ..j },
            effect: EffectV::WriteFile {
                path: path_join(j.root, p),
                content: or_empty(as_str(field(j.files[k], "content"@))),
            },
        }),
        file_step_v(j, j.files.len() as int) == (GitHubRunV::Commit {
            job: CommitJobV { stage: CommitStage::Stage, ..j },
            effect: EffectV::Git { args: seq!["add"@] + j.staged, capture_output: false, dir: Some(j.root) },
        }),
{
}

/// A commit is made only when something is staged: `git diff --cached --quiet`
/// succeeding means nothing changed and the run ends with "No changes to
/// commit."; exit code 1 means changes, which are committed with the message and
/// then pushed to the branch on origin; a pushed commit is reported.
pub proof fn law_commit_only_changes_then_push(j: CommitJobV, stdout: Seq<u8>, code: Option<i32>)
    ensures
        j.stage == CommitStage::DiffCheck ==> command_step_v(j, true, code, stdout) == GitHubRunV::Done(
            Ok(commit_response_v("No changes to commit."@, j.owner, j.repo, j.branch, j.files.len())),
        ),
        j.stage == CommitStage::DiffCheck ==> command_step_v(j, false, Some(1i32), stdout) == (
        GitHubRunV::Commit {
            job: CommitJobV { stage: CommitStage::Commit, ..j },
            effect: EffectV::Git { args: seq!["commit"@, "-m"@, j.message], capture_output: false, dir: Some(j.root) },
        }),
        j.stage == CommitStage::Commit ==> command_step_v(j, true, code, stdout) == (GitHubRunV::Commit {
            job: CommitJobV { stage: CommitStage::Push, ..j },
            effect: EffectV::Git { args: seq!["push"@, "origin"@, j.branch], capture_output: false, dir: Some(j.root) },
        }),
        j.stage == CommitStage::Push ==> command_step_v(j, true, code, stdout) == GitHubRunV::Done(
            Ok(commit_response_v("Successfully pushed commit."@, j.owner, j.repo, j.branch, j.files.len())),
        ),
{
}

/// The origin must be the requested repository: an origin URL that does not
/// contain `owner/repo` ends the run with an error, one that does goes on to read
/// the current branch.
pub proof fn law_commit_checks_origin(j: CommitJobV, code: Option<i32>, stdout: Seq<u8>)
    requires
        j.stage == CommitStage::CheckOrigin,
    ensures
        !contains(output_text(stdout), repo_slug(j.owner, j.repo)) ==> command_step_v(j, true, code, stdout) is Done,
        contains(output_text(stdout), repo_slug(j.owner, j.repo)) ==> command_step_v(j, true, code, stdout) == (
        GitHubRunV::Commit {
            job: CommitJobV { stage: CommitStage::CheckHead, ..j },
            effect: EffectV::Git {
                args: seq!["rev-parse"@, "--abbrev-ref"@, "HEAD"@],
                capture_output: true,
                dir: Some(j.root),
            },
        }),
{
}

impl GitHubToolAdapter {
    /// Starts the tool `tool_name` on `arguments` (a string argument holding JSON
    /// text is read as that document first). Listing repositories answers at once;
    /// committing checks its arguments and then asks for the repository's root.
    pub fn execute(&self, tool_name: &str, arguments: &Json) -> (r: GitHubRun)
        ensures
            ({
                let a = normalized(arguments@);
                if tool_name@ == "list_github_repositories"@ {
                    if as_str(field(a, "username"@)) is Some {
                        r@ == GitHubRunV::Done(Ok(mock_repositories_v()))
                    } else {
                        r@ == GitHubRunV::Done(
                            Err(
                                AppErrorV::Io(
                                    IoErrorKind::Other,
                                    "Username not provided for list_github_repositories"@,
                                ),
                            ),
                        )
                    }
                } else if tool_name@ == "commit_and_push"@ {
                    let owner = or_empty(string_field(a, "owner"@));
                    let repo = or_empty(string_field(a, "repo"@));
                    let branch = or_empty(string_field(a, "branch"@));
                    let message = or_empty(string_field(a, "commit_message"@));
                    let files = or_none(array_field(a, "files"@));
                    if owner.len() == 0 || repo.len() == 0 || branch.len() == 0 || message.len()
                        == 0 || files.len() == 0 {
                        r@ == GitHubRunV::Done(Err(missing_commit_arguments()))
                    } else {
                        r@ == GitHubRunV::Commit {
                            job: CommitJobV {
                                owner,
                                repo,
                                branch,
                                message,
                                files,
                                root: Seq::empty(),
                                staged: Seq::empty(),
                                stage: CommitStage::NeedRoot,
                            },
                            effect: EffectV::CurrentDir,
                        }
                    }
                } else {
                    r@ == GitHubRunV::Done(
                        Err(
                            AppErrorV::Io(
                                IoErrorKind::Other,
                                "Tool '"@ + tool_name@ + "' not found in GitHubToolAdapter."@,
                            ),
                        ),
                    )
                }
            }),
    {
        let arguments = normalize_argument_value(arguments);
        if str_eq(tool_name, "list_github_repositories") {
            let username = get_field(&arguments, "username");
            match get_str(&username) {
                Some(_) => GitHubRun::Done(Ok(mock_repositories())),
                None => GitHubRun::Done(
                    Err(
                        io_error(
                            IoErrorKind::Other,
                            "Username not provided for list_github_repositories",
                        ),
                    ),
                ),
            }
        } else if str_eq(tool_name, "commit_and_push") {
            let owner = unwrap_or_empty(get_string_field(&arguments, "owner"));
            let repo = unwrap_or_empty(get_string_field(&arguments, "repo"));
            let branch = unwrap_or_empty(get_string_field(&arguments, "branch"));
            let message = unwrap_or_empty(get_string_field(&arguments, "commit_message"));
            let files = match get_array_field(&arguments, "files") {
                Some(a) => a,
                None => Vec::new(),
            };
            if owner.as_str().is_empty() || repo.as_str().is_empty() || branch.as_str().is_empty()
                || message.as_str().is_empty() || files.len() == 0 {
                return GitHubRun::Done(
                    Err(
                        io_error(
                            IoErrorKind::Other,
                            "Missing required arguments for commit_and_push (owner, repo, branch, commit_message, files).",
                        ),
                    ),
                );
            }
            let job = CommitJob {
                owner,
                repo,
                branch,
                message,
                files,
                root: String::new(),
                staged: Vec::new(),
                stage: CommitStage::NeedRoot,
            };
            assert(job@.staged =~= Seq::<Seq<char>>::empty());
            GitHubRun::Commit { job, effect: Effect::CurrentDir }
        } else {
            let mut m = "Tool '".to_owned();
            append_str(&mut m, tool_name);
            append_str(&mut m, "' not found in GitHubToolAdapter.");
            GitHubRun::Done(Err(AppError::IoError(IoErrorKind::Other, m)))
        }
    }
}

fn unwrap_or_empty(o: Option<String>) -> (r: String)
    ensures
        r@ == or_empty(match o {
            Some(s) => Some(s@),
            None => None,
        }),
{
    match o {
        Some(s) => s,
        None => String::new(),
    }
}

fn mock_repositories() -> (r: Json)
    ensures
        r@ == mock_repositories_v(),
{
    let a = jobject(
        members2("name", jstr("repo1"), "url", jstr("https://github.com/user/repo1")),
    );
    let b = jobject(
        members2("name", jstr("repo2"), "url", jstr("https://github.com/user/repo2")),
    );
    let items = vec![a, b];
    let r = jarray(items);
    assert(view_jsons(items@) =~= seq![a@, b@]);
    r
}

fn tree_url_exec(owner: &String, repo: &String, branch: &String) -> (r: String)
    ensures
        r@ == tree_url(owner@, repo@, branch@),
{
    let mut u = "https://github.com/".to_owned();
    append_str(&mut u, owner.as_str());
    append_str(&mut u, "/");
    append_str(&mut u, repo.as_str());
    append_str(&mut u, "/tree/");
    append_str(&mut u, branch.as_str());
    u
}

fn commit_response(message: &str, job: &CommitJob, count: usize) -> (r: Json)
    requires
        count <= u64::MAX,
    ensures
        r@ == commit_response_v(message@, job@.owner, job@.repo, job@.branch, count as nat),
{
    let m = members6(
        "message",
        jstr(message),
        "url",
        Json::Str(tree_url_exec(&job.owner, &job.repo, &job.branch)),
        "owner",
        jstring(&job.owner),
        "repo",
        jstring(&job.repo),
        "branch",
        jstring(&job.branch),
        "files_count",
        jcount(count as u64),
    );
    jobject(m)
}

fn git_effect(args: Vec<String>, capture: bool, root: &String) -> (r: Effect)
    ensures
        r@ == git_in(root@, strings_view(args@), capture),
{
    Effect::Git { args, capture_output: capture, dir: Some(copy_string(root)) }
}

fn fail(e: AppError) -> (r: GitHubRun)
    ensures
        r@ == GitHubRunV::Done(Err(e@)),
{
    GitHubRun::Done(Err(e))
}

fn set_stage(job: CommitJob, stage: CommitStage) -> (r: CommitJob)
    ensures
        r@ == at_stage(job@, stage),
{
    CommitJob { stage, ..job }
}

/// Deals with the file at index `k` (or stages the written files when none is left).
fn file_step(job: CommitJob, k: usize) -> (r: GitHubRun)
    ensures
        r@ == file_step_v(job@, k as int),
{
    if k >= job.files.len() {
        let mut args = strs1("add");
        let mut i: usize = 0;
        while i < job.staged.len()
            invariant
                i <= job.staged.len(),
                strings_view(args@) == seq!["add"@] + strings_view(job.staged@).take(i as int),
            decreases job.staged.len() - i,
        {
            let ghost before = strings_view(args@);
            args.push(copy_string(&job.staged[i]));
            assert(strings_view(args@) =~= before.push(job.staged@[i as int]@));
            assert(strings_view(job.staged@).take(i + 1) =~= strings_view(job.staged@).take(
                i as int,
            ).push(job.staged@[i as int]@));
            i = i + 1;
        }
        assert(strings_view(job.staged@).take(job.staged@.len() as int) =~= strings_view(
            job.staged@,
        ));
        let effect = git_effect(args, false, &job.root);
        return GitHubRun::Commit { job: set_stage(job, CommitStage::Stage), effect };
    }
    let file = &job.files[k];
    let p = get_field(file, "path");
    match get_str(&p) {
        None => fail(io_error(IoErrorKind::Other, "Invalid file path in commit_and_push arguments.")),
        Some(path) => {
            let c = get_field(file, "content");
            let content = match get_str(&c) {
                Some(s) => s,
                None => String::new(),
            };
            let target = join(job.root.as_str(), path.as_str());
            let mut job = job;
            let ghost before = job@;
            job.staged.push(path);
            job.stage = CommitStage::Writing(k);
            assert(job@.staged =~= before.staged.push(path@));
            GitHubRun::Commit { job, effect: Effect::WriteFile { path: target, content } }
        },
    }
}

/// `owner/repo`.
pub open spec fn repo_slug(owner: Seq<char>, repo: Seq<char>) -> Seq<char> {
    owner + "/"@ + repo
}

/// Moves a commit-and-push on by one event. At each stage a failed effect ends the
/// run with its error, an event of the wrong sort ends it with
/// [`unexpected_event`], and otherwise:
/// - with the root known, the origin remote is read;
/// - the origin must contain `owner/repo`; then the current branch is read;
/// - on another branch, the branches named like the wanted one are listed and
///   the branch is checked out (created when the list is empty);
/// - each file is written under the root, then all are staged;
/// - when nothing is staged the run ends with "No changes to commit.", otherwise
///   the commit is made and the branch pushed.
pub fn commit_step(job: CommitJob, event: Event) -> (r: GitHubRun)
    requires
        job.files.len() < u64::MAX,
    ensures
        ({
            let j = job@;
            match event {
                Event::Failed(e) => r@ == GitHubRunV::Done(Err(e@)),
                Event::CurrentDir(root) => if j.stage == CommitStage::NeedRoot {
                    r@ == GitHubRunV::Commit {
                        job: CommitJobV { root: root@, stage: CommitStage::CheckOrigin, ..j },
                        effect: git_in(root@, seq!["remote"@, "get-url"@, "origin"@], true),
                    }
                } else {
                    r@ == GitHubRunV::Done(Err(unexpected_event()))
                },
                Event::Written => match j.stage {
                    CommitStage::Writing(k) => r@ == file_step_v(j, k + 1),
                    _ => r@ == GitHubRunV::Done(Err(unexpected_event())),
                },
                Event::Command { success, code, stdout } => r@ == command_step_v(j, success, code, stdout@),
            }
        }),
{
    match event {
        Event::Failed(e) => fail(e),
        Event::CurrentDir(root) => {
            if job.stage != CommitStage::NeedRoot {
                return fail(unexpected());
            }
            let effect = git_effect(args3("remote", "get-url", "origin"), true, &root);
            let job = CommitJob { root, stage: CommitStage::CheckOrigin, ..job };
            GitHubRun::Commit { job, effect }
        },
        Event::Written => match job.stage {
            CommitStage::Writing(k) => {
                if k >= job.files.len() {
                    file_step(job, k)
                } else {
                    file_step(job, k + 1)
                }
            },
            _ => fail(unexpected()),
        },
        Event::Command { success, code, stdout } => match job.stage {
            CommitStage::CheckOrigin => on_origin(job, success, &stdout),
            CommitStage::CheckHead => on_head(job, success, &stdout),
            CommitStage::ListBranch => on_branch_list(job, success, &stdout),
            CommitStage::Checkout => {
                if !success {
                    let mut m = "Failed to checkout branch ".to_owned();
                    append_str(&mut m, job.branch.as_str());
                    append_str(&mut m, ".");
                    return fail(AppError::IoError(IoErrorKind::Other, m));
                }
                file_step(job, 0)
            },
            CommitStage::Stage => {
                if !success {
                    return fail(io_error(IoErrorKind::Other, "Failed to stage files for commit."));
                }
                let effect = git_effect(args3("diff", "--cached", "--quiet"), false, &job.root);
                GitHubRun::Commit { job: set_stage(job, CommitStage::DiffCheck), effect }
            },
            CommitStage::DiffCheck => on_diff(job, success, code),
            CommitStage::Commit => {
                if !success {
                    return fail(io_error(IoErrorKind::Other, "Failed to create git commit."));
                }
                let args = with_last(strs2("push", "origin"), &job.branch);
                assert(strings_view(args@) =~= seq!["push"@, "origin"@, job.branch@]);
                let effect = git_effect(args, false, &job.root);
                GitHubRun::Commit { job: set_stage(job, CommitStage::Push), effect }
            },
            CommitStage::Push => {
                if !success {
                    let mut m = "Failed to push branch ".to_owned();
                    append_str(&mut m, job.branch.as_str());
                    append_str(&mut m, " to origin.");
                    return fail(AppError::IoError(IoErrorKind::Other, m));
                }
                proof {
                    assert(view_jsons(job.files@).len() == job.files@.len());
                }
                let r = commit_response("Successfully pushed commit.", &job, job.files.len());
                GitHubRun::Done(Ok(r))
            },
            _ => fail(unexpected()),
        },
    }
}

/// `args` followed by a copy of `last`.
fn with_last(args: Vec<String>, last: &String) -> (r: Vec<String>)
    ensures
        strings_view(r@) == strings_view(args@).push(last@),
{
    let mut a = args;
    let ghost before = strings_view(a@);
    a.push(copy_string(last));
    assert(strings_view(a@) =~= before.push(last@));
    a
}

fn on_origin(job: CommitJob, success: bool, stdout: &Vec<u8>) -> (r: GitHubRun)
    ensures
        ({
            let j = job@;
            if !success {
                r@ == GitHubRunV::Done(
                    Err(
                        AppErrorV::Io(
                            IoErrorKind::Other,
                            "Failed to read git origin URL. Make sure this is a git repository with an origin remote."@,
                        ),
                    ),
                )
            } else if !contains(output_text(stdout@), repo_slug(j.owner, j.repo)) {
                r@ == GitHubRunV::Done(
                    Err(
                        AppErrorV::Io(
                            IoErrorKind::Other,
                            "Git origin remote does not match the requested repository "@ + repo_slug(
                                j.owner,
                                j.repo,
                            ) + "."@,
                        ),
                    ),
                )
            } else {
                r@ == GitHubRunV::Commit {
                    job: at_stage(j, CommitStage::CheckHead),
                    effect: git_in(j.root, seq!["rev-parse"@, "--abbrev-ref"@, "HEAD"@], true),
                }
            }
        }),
{
    if !success {
        return fail(
            io_error(
                IoErrorKind::Other,
                "Failed to read git origin URL. Make sure this is a git repository with an origin remote.",
            ),
        );
    }
    let origin = trimmed_output(stdout);
    let mut slug = copy_string(&job.owner);
    append_str(&mut slug, "/");
    append_str(&mut slug, job.repo.as_str());
    let oc = chars_of(origin.as_str());
    let sc = chars_of(slug.as_str());
    if !contains_exec(&oc, &sc) {
        let mut m = "Git origin remote does not match the requested repository ".to_owned();
        append_str(&mut m, slug.as_str());
        append_str(&mut m, ".");
        return fail(AppError::IoError(IoErrorKind::Other, m));
    }
    let effect = git_effect(args3("rev-parse", "--abbrev-ref", "HEAD"), true, &job.root);
    GitHubRun::Commit { job: set_stage(job, CommitStage::CheckHead), effect }
}

fn on_head(job: CommitJob, success: bool, stdout: &Vec<u8>) -> (r: GitHubRun)
    ensures
        ({
            let j = job@;
            if !success {
                r@ == GitHubRunV::Done(
                    Err(AppErrorV::Io(IoErrorKind::Other, "Failed to determine current git branch."@)),
                )
            } else if output_text(stdout@) != j.branch {
                r@ == GitHubRunV::Commit {
                    job: at_stage(j, CommitStage::ListBranch),
                    effect: git_in(j.root, seq!["branch"@, "--list"@, j.branch], true),
                }
            } else {
                r@ == file_step_v(j, 0)
            }
        }),
{
    if !success {
        return fail(io_error(IoErrorKind::Other, "Failed to determine current git branch."));
    }
    let current = trimmed_output(stdout);
    if !(current == copy_string(&job.branch)) {
        let args = with_last(strs2("branch", "--list"), &job.branch);
        assert(strings_view(args@) =~= seq!["branch"@, "--list"@, job.branch@]);
        let effect = git_effect(args, true, &job.root);
        GitHubRun::Commit { job: set_stage(job, CommitStage::ListBranch), effect }
    } else {
        file_step(job, 0)
    }
}

fn on_branch_list(job: CommitJob, success: bool, stdout: &Vec<u8>) -> (r: GitHubRun)
    ensures
        ({
            let j = job@;
            if !success {
                r@ == GitHubRunV::Done(
                    Err(AppErrorV::Io(IoErrorKind::Other, "Failed to list git branches."@)),
                )
            } else if output_text(stdout@).len() != 0 {
                r@ == GitHubRunV::Commit {
                    job: at_stage(j, CommitStage::Checkout),
                    effect: git_in(j.root, seq!["checkout"@, j.branch], false),
                }
            } else {
                r@ == GitHubRunV::Commit {
                    job: at_stage(j, CommitStage::Checkout),
                    effect: git_in(j.root, seq!["checkout"@, "-b"@, j.branch], false),
                }
            }
        }),
{
    if !success {
        return fail(io_error(IoErrorKind::Other, "Failed to list git branches."));
    }
    let listed = trimmed_output(stdout);
    let exists = !listed.as_str().is_empty();
    let args = if exists {
        let a = with_last(strs1("checkout"), &job.branch);
        assert(strings_view(a@) =~= seq!["checkout"@, job.branch@]);
        a
    } else {
        let a = with_last(strs2("checkout", "-b"), &job.branch);
        assert(strings_view(a@) =~= seq!["checkout"@, "-b"@, job.branch@]);
        a
    };
    let effect = git_effect(args, false, &job.root);
    GitHubRun::Commit { job: set_stage(job, CommitStage::Checkout), effect }
}

fn on_diff(job: CommitJob, success: bool, code: Option<i32>) -> (r: GitHubRun)
    requires
        job.files.len() < u64::MAX,
    ensures
        ({
            let j = job@;
            if success {
                r@ == GitHubRunV::Done(
                    Ok(
                        commit_response_v(
                            "No changes to commit."@,
                            j.owner,
                            j.repo,
                            j.branch,
                            j.files.len(),
                        ),
                    ),
                )
            } else if code != Some(1i32) {
                r@ == GitHubRunV::Done(
                    Err(AppErrorV::Io(IoErrorKind::Other, "Failed to detect staged git changes."@)),
                )
            } else {
                r@ == GitHubRunV::Commit {
                    job: at_stage(j, CommitStage::Commit),
                    effect: git_in(j.root, seq!["commit"@, "-m"@, j.message], false),
                }
            }
        }),
{
    if success {
        proof {
            assert(view_jsons(job.files@).len() == job.files@.len());
        }
        let r = commit_response("No changes to commit.", &job, job.files.len());
        return GitHubRun::Done(Ok(r));
    }
    if code != Some(1i32) {
        return fail(io_error(IoErrorKind::Other, "Failed to detect staged git changes."));
    }
    let args = with_last(strs2("commit", "-m"), &job.message);
    assert(strings_view(args@) =~= seq!["commit"@, "-m"@, job.message@]);
    let effect = git_effect(args, false, &job.root);
    GitHubRun::Commit { job: set_stage(job, CommitStage::Commit), effect }
}

} // verus!
