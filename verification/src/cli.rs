use vstd::prelude::*;
use crate::error::{AppError, AppErrorV};
use crate::model::{Message, MessageV, Role, Session, SessionId, SessionV};
use crate::paths::{file_stem_and_extension, split_extension};
use crate::text::{chars_eq, chars_of, eq_ignore_ascii_case, equals_ignore_ascii_case, trim, trim_chars};

verus! {

// ---------------------------------------------------------------------
// Resuming the latest session
// ---------------------------------------------------------------------

/// A file of the sessions directory: its name and when it was last modified
/// (nanoseconds from the Unix epoch, negative before it).
#[derive(Debug)]
pub struct SessionFile {
    pub file_name: String,
    pub modified: i128,
}

/// The session a file holds: the stem of a name whose extension is `json` in any
/// letter case.
pub open spec fn session_stem(name: Seq<char>) -> Option<Seq<char>> {
    match split_extension(name) {
        (stem, Some(ext)) => if eq_ignore_ascii_case(ext, "json"@) {
            Some(stem)
        } else {
            None
        },
        _ => None,
    }
}

/// A session saved as `<id>.json` is found again under its identifier, whatever
/// dots the identifier holds.
pub proof fn law_session_file_round_trip(id: Seq<char>)
    requires
        id.len() > 0,
    ensures
        session_stem(id + ".json"@) == Some(id),
{
    reveal_strlit(".json");
    reveal_strlit("json");
    let name = id + ".json"@;
    let k = id.len() as int;
    assert(name[k] == '.');
    assert(forall|j: int| k < j < name.len() ==> name[j] != '.');
    assert(exists|i: int| 0 <= i < name.len() && name[i] == '.');
    let d = choose|i: int| 0 <= i < name.len() && name[i] == '.' && forall|j: int| i < j < name.len() ==> name[j] != '.';
    assert(name[d] == '.');
    if d < k {
        assert(name[k] != '.');
    }
    assert(d == k);
    assert(crate::paths::last_dot(name) == Some(k));
    assert(name != seq!['.', '.']) by {
        if name =~= seq!['.', '.'] {
            assert(name.len() == 2);
        }
    }
    assert(name.take(k) =~= id);
    assert(name.skip(k + 1) =~= "json"@);
    assert(eq_ignore_ascii_case("json"@, "json"@));
}

pub open spec fn is_session_file(f: SessionFile) -> bool {
    session_stem(f.file_name@) is Some
}

/// The session stem of a file name, as [`session_stem`] describes.
pub fn session_stem_of(name: &str) -> (r: Option<String>)
    ensures
        match r {
            Some(s) => session_stem(name@) == Some(s@),
            None => session_stem(name@) is None,
        },
{
    let (stem, ext) = file_stem_and_extension(name);
    match ext {
        Some(e) => {
            let ec = chars_of(e.as_str());
            let json = chars_of("json");
            if equals_ignore_ascii_case(&ec, &json) {
                Some(stem)
            } else {
                None
            }
        },
        None => None,
    }
}

/// The session to resume: among the session files, the one modified last (of
/// several modified at that same time, the last listed); none without a session
/// file.
pub fn find_existing_session_id(files: &Vec<SessionFile>) -> (r: Option<SessionId>)
    ensures
        r is None <==> forall|i: int| 0 <= i < files@.len() ==> !is_session_file(#[trigger] files@[i]),
        r matches Some(id) ==> exists|i: int|
            0 <= i < files@.len() && is_session_file(#[trigger] files@[i]) && session_stem(
                files@[i].file_name@,
            ) == Some(id@) && (forall|j: int|
                0 <= j < files@.len() && is_session_file(#[trigger] files@[j]) ==> files@[j].modified
                    <= files@[i].modified) && (forall|j: int|
                i < j < files@.len() && is_session_file(#[trigger] files@[j]) ==> files@[j].modified
                    < files@[i].modified),
{
    let mut best: Option<(usize, String)> = None;
    let mut i: usize = 0;
    while i < files.len()
        invariant
            i <= files@.len(),
            best is None <==> forall|k: int| 0 <= k < i ==> !is_session_file(#[trigger] files@[k]),
            best matches Some(b) ==> {
                &&& b.0 < i
                &&& is_session_file(files@[b.0 as int])
                &&& session_stem(files@[b.0 as int].file_name@) == Some(b.1@)
                &&& forall|j: int|
                    0 <= j < i && is_session_file(#[trigger] files@[j]) ==> files@[j].modified
                        <= files@[b.0 as int].modified
                &&& forall|j: int|
                    b.0 < j < i && is_session_file(#[trigger] files@[j]) ==> files@[j].modified
                        < files@[b.0 as int].modified
            },
        decreases files@.len() - i,
    {
        match session_stem_of(files[i].file_name.as_str()) {
            Some(stem) => {
                let better = match &best {
                    None => true,
                    Some(b) => files[i].modified >= files[b.0].modified,
                };
                if better {
                    best = Some((i, stem));
                }
            },
            None => {},
        }
        i = i + 1;
    }
    match best {
        Some(b) => Some(SessionId { value: b.1 }),
        None => None,
    }
}

// ---------------------------------------------------------------------
// The interactive loop's decisions
// ---------------------------------------------------------------------

/// The word that tells whether a session is resumed or started.
pub fn session_status(exists: bool) -> (r: &'static str)
    ensures
        r@ == (if exists {
            "retomada"@
        } else {
            "iniciada"@
        }),
{
    if exists {
        "retomada"
    } else {
        "iniciada"
    }
}

/// What reading a line gave.
#[derive(Debug)]
pub enum ReadOutcome {
    Line(String),
    /// Ctrl-C.
    Interrupted,
    /// Ctrl-D.
    Eof,
    /// Any other failure of the line editor, with its text.
    Failed(String),
}

/// What the loop does next.
#[derive(Debug)]
pub enum CliAction {
    /// Leave the loop, after printing the notice when there is one.
    Exit(Option<&'static str>),
    /// Read the next line.
    Skip,
    /// Answer this prompt.
    Prompt(String),
    /// End with this error.
    Fail(AppError),
}

/// The loop's decision on what was read: `.exit` (surrounding blanks aside) leaves,
/// a blank line is skipped, Ctrl-C and Ctrl-D leave with a notice, an editor
/// failure ends with a line-editor error, and any other line is a prompt.
pub fn cli_step(outcome: ReadOutcome) -> (r: CliAction)
    ensures
        match outcome {
            ReadOutcome::Line(l) => if trim(l@) == ".exit"@ {
                r matches CliAction::Exit(None)
            } else if trim(l@).len() == 0 {
                r is Skip
            } else {
                r matches CliAction::Prompt(p) && p@ == l@
            },
            ReadOutcome::Interrupted => r matches CliAction::Exit(Some(n)) && n@ == "CTRL-C"@,
            ReadOutcome::Eof => r matches CliAction::Exit(Some(n)) && n@ == "CTRL-D"@,
            ReadOutcome::Failed(m) => r matches CliAction::Fail(e) && e@ == AppErrorV::Cli(m@),
        },
{
    match outcome {
        ReadOutcome::Line(l) => {
            let v = chars_of(l.as_str());
            let t = trim_chars(&v);
            let exit = chars_of(".exit");
            if chars_eq(&t, &exit) {
                CliAction::Exit(None)
            } else if t.len() == 0 {
                CliAction::Skip
            } else {
                CliAction::Prompt(l)
            }
        },
        ReadOutcome::Interrupted => CliAction::Exit(Some("CTRL-C")),
        ReadOutcome::Eof => CliAction::Exit(Some("CTRL-D")),
        ReadOutcome::Failed(m) => CliAction::Fail(AppError::CliError(m)),
    }
}

/// The session with the streamed answer added as the assistant's message.
pub fn record_reply(session: Session, full_response: String) -> (r: Session)
    ensures
        r@.id == session@.id,
        r@.messages == session@.messages.push(
            MessageV { role: Role::Assistant, content: full_response@, tool_calls: None, tool_call_id: None },
        ),
{
    let mut s = session;
    let ghost before = s@;
    s.messages.push(Message::text(Role::Assistant, full_response));
    assert(s@.messages =~= before.messages.push(
        MessageV { role: Role::Assistant, content: full_response@, tool_calls: None, tool_call_id: None },
    ));
    s
}

} // verus!
