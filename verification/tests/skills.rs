use openruscli::command::{Effect, Event};
use openruscli::error::{AppError, IoErrorKind};
use openruscli::filesystem_skill::{
    list_directory_response, read_file_response, DirEntry, FileSystemSkillAdapter, FsRequest,
};
use openruscli::git_skill::{git_step, GitRun, GitSkillAdapter};
use openruscli::github::{commit_step, CommitStage, GitHubRun, GitHubToolAdapter};
use openruscli::json::Json;
use openruscli::planning_skill::{plans_response, PlanningRequest, PlanningSkillAdapter};

use serde_json::Value;

/// The library's form of a codec value.
fn json(v: &Value) -> Json {
    match v {
        Value::Null => Json::Null,
        Value::Bool(b) => Json::Bool(*b),
        Value::Number(n) => Json::Number(n.to_string()),
        Value::String(s) => Json::Str(s.clone()),
        Value::Array(a) => Json::Array(a.iter().map(json).collect()),
        Value::Object(m) => Json::Object(m.iter().map(|(k, x)| (k.clone(), json(x))).collect()),
    }
}

/// The codec's form of a library document.
fn value(j: &Json) -> Value {
    match j {
        Json::Null => Value::Null,
        Json::Bool(b) => Value::Bool(*b),
        Json::Number(n) => Value::Number(n.parse().expect("a number")),
        Json::Str(s) => Value::String(s.clone()),
        Json::Array(a) => Value::Array(a.iter().map(value).collect()),
        Json::Object(m) => Value::Object(m.iter().map(|(k, x)| (k.clone(), value(x))).collect()),
    }
}

fn parse(text: &str) -> Json {
    json(&serde_json::from_str::<Value>(text).expect("valid JSON"))
}

fn json_text(j: &Json) -> String {
    value(j).to_string()
}

fn io_err(e: &AppError) -> (IoErrorKind, String) {
    match e {
        AppError::IoError(k, m) => (*k, m.clone()),
        other => panic!("not an I/O error: {:?}", other),
    }
}

fn ok_cmd(stdout: &str) -> Event {
    Event::Command { success: true, code: Some(0), stdout: stdout.as_bytes().to_vec() }
}

fn failed_cmd(code: i32) -> Event {
    Event::Command { success: false, code: Some(code), stdout: Vec::new() }
}

fn git_args(e: &Effect) -> Vec<String> {
    match e {
        Effect::Git { args, .. } => args.clone(),
        other => panic!("not a git command: {:?}", other),
    }
}

#[test]
fn filesystem_skill_declares_four_tools() {
    let s = FileSystemSkillAdapter::new();
    let d = s.get_skill_definition();
    assert_eq!(d.name, "filesystem");
    assert_eq!(d.keywords.unwrap()[2], "diretório");
    let names: Vec<String> = d.tools.iter().map(|t| t.function.name.clone()).collect();
    assert_eq!(names, vec!["read_file", "write_file", "list_directory", "make_directory"]);
    assert_eq!(
        json_text(&d.tools[2].function.parameters),
        "{\"properties\":{\"path\":{\"description\":\"Caminho do diretório a listar.\",\"type\":\"string\"},\"recursive\":{\"description\":\"Se deve listar recursivamente.\",\"type\":\"boolean\"}},\"required\":[\"path\"],\"type\":\"object\"}"
    );
}

#[test]
fn filesystem_requests_and_errors() {
    let s = FileSystemSkillAdapter::new();
    match s.execute("write_file", &parse("{\"path\": \"a/b.txt\", \"content\": \"hi\"}")).unwrap() {
        FsRequest::WriteFile { path, content } => assert_eq!((path.as_str(), content.as_str()), ("a/b.txt", "hi")),
        other => panic!("{:?}", other),
    }
    match s.execute("list_directory", &parse("{\"path\": \".\", \"recursive\": \"yes\"}")).unwrap() {
        FsRequest::ListDirectory { recursive, .. } => assert!(!recursive),
        other => panic!("{:?}", other),
    }
    let e = s.execute("write_file", &parse("{\"path\": \"x\"}")).unwrap_err();
    assert_eq!(io_err(&e), (IoErrorKind::InvalidInput, "O campo 'content' é obrigatório para write_file.".to_string()));
    let e = s.execute("read_file", &parse("{}")).unwrap_err();
    assert_eq!(io_err(&e).1, "O campo 'path' é obrigatório para read_file.");
    let e = s.execute("delete", &parse("{}")).unwrap_err();
    assert_eq!(io_err(&e), (IoErrorKind::NotFound, "Tool 'delete' não encontrada no skill filesystem.".to_string()));
}

#[test]
fn filesystem_responses() {
    assert_eq!(json_text(&read_file_response(&"p".to_string(), "c".to_string())), "{\"content\":\"c\",\"path\":\"p\"}");
    let entries = vec![DirEntry { path: "p/x".to_string(), is_dir: true }];
    assert_eq!(
        json_text(&list_directory_response(&"p".to_string(), false, &entries)),
        "{\"entries\":[{\"is_dir\":true,\"path\":\"p/x\"}],\"path\":\"p\",\"recursive\":false}"
    );
}

#[test]
fn git_current_branch_and_changed_files() {
    let g = GitSkillAdapter::new();
    assert_eq!(g.get_skill_definition().tools.len(), 4);
    let (job, effect) = match g.execute("get_current_branch", &parse("{}")) {
        GitRun::Run { job, effect } => (job, effect),
        other => panic!("{:?}", other),
    };
    assert_eq!(git_args(&effect), vec!["branch", "--show-current"]);
    match git_step(job, ok_cmd("  main\n")) {
        GitRun::Done(Ok(j)) => assert_eq!(json_text(&j), "{\"current_branch\":\"main\"}"),
        other => panic!("{:?}", other),
    }
    let (job, effect) = match g.execute("list_changed_files", &parse("{}")) {
        GitRun::Run { job, effect } => (job, effect),
        other => panic!("{:?}", other),
    };
    assert_eq!(git_args(&effect), vec!["status", "--porcelain"]);
    match git_step(job, ok_cmd(" M src/a.rs\n?? new.txt\n\nR  old -> new\n")) {
        GitRun::Done(Ok(j)) => assert_eq!(
            json_text(&j),
            "{\"files\":[{\"path\":\"src/a.rs\"},{\"path\":\"new.txt\"},{\"path\":\"old\"}],\"staged_only\":false}"
        ),
        other => panic!("{:?}", other),
    }
    let (job, effect) = match g.execute("list_changed_files", &parse("{\"staged_only\": true}")) {
        GitRun::Run { job, effect } => (job, effect),
        other => panic!("{:?}", other),
    };
    assert_eq!(git_args(&effect), vec!["diff", "--name-only", "--cached"]);
    match git_step(job, ok_cmd("a\n\n")) {
        GitRun::Done(Ok(j)) => assert_eq!(json_text(&j), "{\"files\":[{\"path\":\"a\"},{\"path\":\"\"}],\"staged_only\":true}"),
        other => panic!("{:?}", other),
    }
}

#[test]
fn git_diff_and_failures() {
    let g = GitSkillAdapter::new();
    let (job, effect) = match g.execute("show_diff", &parse("{\"path\": \"f.rs\", \"staged\": true}")) {
        GitRun::Run { job, effect } => (job, effect),
        other => panic!("{:?}", other),
    };
    assert_eq!(git_args(&effect), vec!["diff", "--cached", "f.rs"]);
    match git_step(job, failed_cmd(1)) {
        GitRun::Done(Err(e)) => assert_eq!(io_err(&e).1, "Falha ao gerar diff do git."),
        other => panic!("{:?}", other),
    }
    match g.execute("unknown", &parse("{}")) {
        GitRun::Done(Err(e)) => assert_eq!(io_err(&e), (IoErrorKind::NotFound, "Tool 'unknown' não encontrada no skill git.".to_string())),
        other => panic!("{:?}", other),
    }
}

#[test]
fn git_checkout_creates_only_when_asked() {
    let g = GitSkillAdapter::new();
    match g.execute("checkout_branch", &parse("{}")) {
        GitRun::Done(Err(e)) => assert_eq!(io_err(&e).0, IoErrorKind::InvalidInput),
        other => panic!("{:?}", other),
    }
    let job = match g.execute("checkout_branch", &parse("{\"branch\": \"feat\"}")) {
        GitRun::Run { job, .. } => job,
        other => panic!("{:?}", other),
    };
    match git_step(job, ok_cmd("\n")) {
        GitRun::Done(Err(e)) => assert_eq!(io_err(&e), (IoErrorKind::NotFound, "Branch 'feat' não existe e create=false.".to_string())),
        other => panic!("{:?}", other),
    }
    let job = match g.execute("checkout_branch", &parse("{\"branch\": \"feat\", \"create\": true}")) {
        GitRun::Run { job, .. } => job,
        other => panic!("{:?}", other),
    };
    let job = match git_step(job, ok_cmd("")) {
        GitRun::Run { job, effect } => {
            assert_eq!(git_args(&effect), vec!["checkout", "-b", "feat"]);
            job
        }
        other => panic!("{:?}", other),
    };
    match git_step(job, ok_cmd("")) {
        GitRun::Done(Ok(j)) => assert_eq!(json_text(&j), "{\"branch\":\"feat\",\"checked_out\":true,\"created\":true}"),
        other => panic!("{:?}", other),
    }
}

#[test]
fn github_lists_mock_repositories() {
    let gh = GitHubToolAdapter::new();
    let names: Vec<String> = gh.get_tool_definitions().iter().map(|t| t.function.name.clone()).collect();
    assert_eq!(names, vec!["list_github_repositories", "commit_and_push"]);
    match gh.execute("list_github_repositories", &Json::Str("{\"username\": \"u\"}".to_string())) {
        GitHubRun::Done(Ok(j)) => assert_eq!(
            json_text(&j),
            "[{\"name\":\"repo1\",\"url\":\"https://github.com/user/repo1\"},{\"name\":\"repo2\",\"url\":\"https://github.com/user/repo2\"}]"
        ),
        other => panic!("{:?}", other),
    }
    match gh.execute("list_github_repositories", &parse("{}")) {
        GitHubRun::Done(Err(e)) => assert_eq!(io_err(&e).1, "Username not provided for list_github_repositories"),
        other => panic!("{:?}", other),
    }
    match gh.execute("nope", &parse("{}")) {
        GitHubRun::Done(Err(e)) => assert_eq!(io_err(&e).1, "Tool 'nope' not found in GitHubToolAdapter."),
        other => panic!("{:?}", other),
    }
}

#[test]
fn github_commit_refuses_missing_arguments() {
    let gh = GitHubToolAdapter::new();
    match gh.execute("commit_and_push", &parse("{\"owner\": \"o\", \"repo\": \"r\", \"branch\": \"b\", \"commit_message\": \"m\", \"files\": []}")) {
        GitHubRun::Done(Err(e)) => assert_eq!(
            io_err(&e).1,
            "Missing required arguments for commit_and_push (owner, repo, branch, commit_message, files)."
        ),
        other => panic!("{:?}", other),
    }
}

fn next(run: GitHubRun) -> (openruscli::github::CommitJob, Effect) {
    match run {
        GitHubRun::Commit { job, effect } => (job, effect),
        other => panic!("{:?}", other),
    }
}

#[test]
fn github_commit_and_push_walks_every_step() {
    let gh = GitHubToolAdapter::new();
    let args = parse("{\"owner\": \"o\", \"repo\": \"r\", \"branch\": \"feat\", \"commit_message\": \"msg\", \"files\": \"[{\\\"path\\\": \\\"a.txt\\\", \\\"content\\\": \\\"A\\\"}, {\\\"path\\\": \\\"d/b.txt\\\"}]\"}");
    let (job, effect) = next(gh.execute("commit_and_push", &args));
    assert!(matches!(effect, Effect::CurrentDir));
    let (job, effect) = next(commit_step(job, Event::CurrentDir("/repo".to_string())));
    assert_eq!(git_args(&effect), vec!["remote", "get-url", "origin"]);
    let (job, effect) = next(commit_step(job, ok_cmd("git@github.com:o/r.git\n")));
    assert_eq!(git_args(&effect), vec!["rev-parse", "--abbrev-ref", "HEAD"]);
    let (job, effect) = next(commit_step(job, ok_cmd("main\n")));
    assert_eq!(git_args(&effect), vec!["branch", "--list", "feat"]);
    let (job, effect) = next(commit_step(job, ok_cmd("")));
    assert_eq!(git_args(&effect), vec!["checkout", "-b", "feat"]);
    let (job, effect) = next(commit_step(job, ok_cmd("")));
    match &effect {
        Effect::WriteFile { path, content } => assert_eq!((path.as_str(), content.as_str()), ("/repo/a.txt", "A")),
        other => panic!("{:?}", other),
    }
    let (job, effect) = next(commit_step(job, Event::Written));
    match &effect {
        Effect::WriteFile { path, content } => assert_eq!((path.as_str(), content.as_str()), ("/repo/d/b.txt", "")),
        other => panic!("{:?}", other),
    }
    let (job, effect) = next(commit_step(job, Event::Written));
    assert_eq!(git_args(&effect), vec!["add", "a.txt", "d/b.txt"]);
    let (job, effect) = next(commit_step(job, ok_cmd("")));
    assert_eq!(git_args(&effect), vec!["diff", "--cached", "--quiet"]);
    let (job, effect) = next(commit_step(job, failed_cmd(1)));
    assert_eq!(git_args(&effect), vec!["commit", "-m", "msg"]);
    let (job, effect) = next(commit_step(job, ok_cmd("")));
    assert_eq!(git_args(&effect), vec!["push", "origin", "feat"]);
    assert_eq!(job.stage, CommitStage::Push);
    match commit_step(job, ok_cmd("")) {
        GitHubRun::Done(Ok(j)) => assert_eq!(
            json_text(&j),
            "{\"branch\":\"feat\",\"files_count\":2,\"message\":\"Successfully pushed commit.\",\"owner\":\"o\",\"repo\":\"r\",\"url\":\"https://github.com/o/r/tree/feat\"}"
        ),
        other => panic!("{:?}", other),
    }
}

#[test]
fn github_commit_stops_on_foreign_origin_and_unclean_diff() {
    let gh = GitHubToolAdapter::new();
    let args = parse("{\"owner\": \"o\", \"repo\": \"r\", \"branch\": \"main\", \"commit_message\": \"m\", \"files\": [{\"path\": \"x\"}]}");
    let (job, _) = next(gh.execute("commit_and_push", &args));
    let (job, _) = next(commit_step(job, Event::CurrentDir("/w".to_string())));
    match commit_step(job, ok_cmd("https://github.com/other/repo")) {
        GitHubRun::Done(Err(e)) => assert_eq!(io_err(&e).1, "Git origin remote does not match the requested repository o/r."),
        other => panic!("{:?}", other),
    }
    let (job, _) = next(gh.execute("commit_and_push", &args));
    let (job, _) = next(commit_step(job, Event::CurrentDir("/w".to_string())));
    let (job, _) = next(commit_step(job, ok_cmd("https://github.com/o/r")));
    let (job, effect) = next(commit_step(job, ok_cmd("main")));
    assert!(matches!(effect, Effect::WriteFile { .. }));
    let (job, _) = next(commit_step(job, Event::Written));
    let (job, _) = next(commit_step(job, ok_cmd("")));
    match commit_step(job, ok_cmd("")) {
        GitHubRun::Done(Ok(j)) => assert!(json_text(&j).contains("\"message\":\"No changes to commit.\"")),
        other => panic!("{:?}", other),
    }
    let (job, _) = next(gh.execute("commit_and_push", &args));
    let (job, _) = next(commit_step(job, Event::CurrentDir("/w".to_string())));
    let (job, _) = next(commit_step(job, ok_cmd("o/r")));
    let (job, _) = next(commit_step(job, ok_cmd("main")));
    let (job, _) = next(commit_step(job, Event::Written));
    let (job, _) = next(commit_step(job, ok_cmd("")));
    match commit_step(job, failed_cmd(2)) {
        GitHubRun::Done(Err(e)) => assert_eq!(io_err(&e).1, "Failed to detect staged git changes."),
        other => panic!("{:?}", other),
    }
}

#[test]
fn github_commit_rejects_a_file_without_path() {
    let gh = GitHubToolAdapter::new();
    let args = parse("{\"owner\": \"o\", \"repo\": \"r\", \"branch\": \"main\", \"commit_message\": \"m\", \"files\": [{\"content\": \"x\"}]}");
    let (job, _) = next(gh.execute("commit_and_push", &args));
    let (job, _) = next(commit_step(job, Event::CurrentDir("/w".to_string())));
    let (job, _) = next(commit_step(job, ok_cmd("o/r")));
    match commit_step(job, ok_cmd("main")) {
        GitHubRun::Done(Err(e)) => assert_eq!(io_err(&e).1, "Invalid file path in commit_and_push arguments."),
        other => panic!("{:?}", other),
    }
}

#[test]
fn planning_create_get_list() {
    let p = PlanningSkillAdapter::new();
    assert_eq!(p.plan_file_path("s1", "p1"), "plans/s1_p1.json");
    match p.execute("create_plan", &parse("{\"session_id\": \"s1\", \"goal\": \"g\", \"plan\": {\"steps\": [1]}}")).unwrap() {
        PlanningRequest::Save { plan_id, path, contents, response } => {
            assert_eq!(plan_id.len(), 26);
            assert_eq!(path, format!("plans/s1_{}.json", plan_id));
            let saved = parse(&contents);
            assert_eq!(json_text(&saved), format!("{{\"plan\":{{\"steps\":[1]}},\"plan_id\":\"{}\",\"session_id\":\"s1\"}}", plan_id));
            assert!(contents.contains("\n  \"plan_id\""));
            assert_eq!(json_text(&response), format!("{{\"goal\":\"g\",\"plan_id\":\"{}\",\"session_id\":\"s1\"}}", plan_id));
            let names = vec![format!("s1_{}.json", plan_id), "s2_x.json".to_string(), "s1.json".to_string(), "s1_y.txt".to_string()];
            let listed = p.list_plans("s1", &names);
            assert_eq!(json_text(&plans_response(listed)), format!("{{\"plans\":[{{\"file\":\"s1_{0}.json\",\"plan_id\":\"{0}\"}}]}}", plan_id));
        }
        other => panic!("{:?}", other),
    }
    match p.execute("get_plan", &parse("{\"session_id\": \"s1\", \"plan_id\": \"p9\"}")).unwrap() {
        PlanningRequest::Load { path } => assert_eq!(path, "plans/s1_p9.json"),
        other => panic!("{:?}", other),
    }
    match p.execute("create_plan", &parse("{\"session_id\": \"s1\", \"goal\": \"g\"}")) {
        Err(e) => assert_eq!(io_err(&e).1, "O campo 'plan' deve conter o plano em formato JSON."),
        other => panic!("{:?}", other),
    }
    match p.execute("apply_plan", &parse("{\"goal\": \"g\"}")) {
        Err(e) => assert_eq!(io_err(&e).1, "O campo 'session_id' é obrigatório para ferramentas de planejamento."),
        other => panic!("{:?}", other),
    }
    match p.execute("apply_plan", &parse("{\"session_id\": \"s\"}")) {
        Err(e) => assert_eq!(io_err(&e), (IoErrorKind::InvalidInput, "O campo 'plan_id' ou 'plan' é obrigatório para apply_plan.".to_string())),
        other => panic!("{:?}", other),
    }
    match p.execute("apply_plan", &parse("{\"session_id\": \"s\", \"plan_id\": \"p9\", \"plan\": {}}")).unwrap() {
        PlanningRequest::Load { path } => assert_eq!(path, "plans/s_p9.json"),
        other => panic!("{:?}", other),
    }
    match p.execute("apply_plan", &parse("{\"session_id\": \"s\", \"plan\": {\"steps\": [\"a\"]}}")).unwrap() {
        PlanningRequest::Answer { response } => {
            assert_eq!(json_text(&response), "{\"plan\":{\"steps\":[\"a\"]},\"session_id\":\"s\"}")
        }
        other => panic!("{:?}", other),
    }
    match p.execute("run_plan", &parse("{\"session_id\": \"s\"}")) {
        Err(e) => assert_eq!(io_err(&e), (IoErrorKind::NotFound, "Tool 'run_plan' não encontrada no skill planejamento.".to_string())),
        other => panic!("{:?}", other),
    }
    for tool in p.get_tool_definitions() {
        let r = p.execute(&tool.function.name, &parse("{\"session_id\": \"s\", \"plan_id\": \"x\", \"goal\": \"g\", \"plan\": {}}"));
        assert!(r.is_ok(), "{}", tool.function.name);
    }
    match p.load_plan("{broken") {
        Err(AppError::SerializationError(_)) => {}
        other => panic!("{:?}", other),
    }
    assert_eq!(p.get_skill_definition().keywords.unwrap().len(), 6);
}

#[test]
fn a_saved_plan_reads_back_as_its_record() {
    let p = PlanningSkillAdapter::new();
    let plan = parse("{\"steps\": [{\"tool\": \"read_file\", \"n\": -3}, 18446744073709551615], \"title\": \"t\\n\\u0001é\"}");
    let (path, contents) = p.save_plan("s", "id1", &plan);
    assert_eq!(path, "plans/s_id1.json");
    let back = p.load_plan(&contents).expect("the saved text reads back");
    assert_eq!(
        json_text(&back),
        "{\"plan\":{\"steps\":[{\"n\":-3,\"tool\":\"read_file\"},18446744073709551615],\"title\":\"t\\n\\u0001é\"},\"plan_id\":\"id1\",\"session_id\":\"s\"}"
    );
    match back {
        Json::Object(members) => {
            let keys: Vec<&str> = members.iter().map(|(k, _)| k.as_str()).collect();
            assert_eq!(keys, vec!["plan", "plan_id", "session_id"]);
        }
        other => panic!("{:?}", other),
    }
}
