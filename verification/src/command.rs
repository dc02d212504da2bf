use vstd::prelude::*;
use crate::error::{AppError, AppErrorV};
use crate::model::{opt_view, strings_view};
use crate::text::{chars_of, spec_utf8_lossy, string_from, trim, trim_chars, utf8_lossy};

verus! {

/// Work that a tool hands to its caller: the caller performs it and reports an
/// [`Event`] back.
#[derive(Debug)]
pub enum Effect {
    /// Learn the process's current directory.
    CurrentDir,
    /// Run `git` with these arguments, in `dir` when one is given. With
    /// `capture_output` the standard output is collected (`Command::output`);
    /// without it the child inherits the terminal (`Command::status`).
    Git { args: Vec<String>, capture_output: bool, dir: Option<String> },
    /// Create the parent directories of `path`, then write `content` to it.
    WriteFile { path: String, content: String },
}

pub enum EffectV {
    CurrentDir,
    Git { args: Seq<Seq<char>>, capture_output: bool, dir: Option<Seq<char>> },
    WriteFile { path: Seq<char>, content: Seq<char> },
}

impl View for Effect {
    type V = EffectV;

    open spec fn view(&self) -> EffectV {
        match self {
            Effect::CurrentDir => EffectV::CurrentDir,
            Effect::Git { args, capture_output, dir } => EffectV::Git {
                args: strings_view(args@),
                capture_output: *capture_output,
                dir: opt_view(*dir),
            },
            Effect::WriteFile { path, content } => EffectV::WriteFile {
                path: path@,
                content: content@,
            },
        }
    }
}

/// What came of an [`Effect`].
#[derive(Debug)]
pub enum Event {
    /// The current directory, as text.
    CurrentDir(String),
    /// A finished command: whether it succeeded, its exit code, and its standard
    /// output (empty when it was not captured).
    Command { success: bool, code: Option<i32>, stdout: Vec<u8> },
    /// The file was written.
    Written,
    /// The effect could not be carried out.
    Failed(AppError),
}

/// The text of a command's output with surrounding whitespace removed, as
/// `String::from_utf8_lossy(..).trim()` gives it.
pub open spec fn output_text(stdout: Seq<u8>) -> Seq<char> {
    trim(spec_utf8_lossy(stdout))
}

/// `String::from_utf8_lossy(stdout).trim()`.
pub fn trimmed_output(stdout: &Vec<u8>) -> (r: String)
    ensures
        r@ == output_text(stdout@),
{
    let s = utf8_lossy(stdout.as_slice());
    let v = chars_of(s.as_str());
    let t = trim_chars(&v);
    string_from(&t)
}

/// A list of argument strings, from literals.
pub fn args1(a: &str) -> (r: Vec<String>)
    ensures
        strings_view(r@) == seq![a@],
{
    let r = vec![a.to_owned()];
    assert(strings_view(r@) =~= seq![a@]);
    r
}

pub fn args2(a: &str, b: &str) -> (r: Vec<String>)
    ensures
        strings_view(r@) == seq![a@, b@],
{
    let r = vec![a.to_owned(), b.to_owned()];
    assert(strings_view(r@) =~= seq![a@, b@]);
    r
}

pub fn args3(a: &str, b: &str, c: &str) -> (r: Vec<String>)
    ensures
        strings_view(r@) == seq![a@, b@, c@],
{
    let r = vec![a.to_owned(), b.to_owned(), c.to_owned()];
    assert(strings_view(r@) =~= seq![a@, b@, c@]);
    r
}

/// `args` followed by a copy of `last`.
pub fn with_arg(args: Vec<String>, last: &String) -> (r: Vec<String>)
    ensures
        strings_view(r@) == strings_view(args@).push(last@),
{
    let mut a = args;
    let ghost before = strings_view(a@);
    a.push(crate::text::copy_string(last));
    assert(strings_view(a@) =~= before.push(last@));
    a
}

/// The error that ends a run when an event does not answer the effect asked for.
pub open spec fn unexpected_event() -> AppErrorV {
    AppErrorV::Unknown("unexpected event"@)
}

pub fn unexpected() -> (r: AppError)
    ensures
        r@ == unexpected_event(),
{
    AppError::Unknown("unexpected event".to_owned())
}

} // verus!
