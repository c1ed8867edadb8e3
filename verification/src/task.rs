//! The vocabulary shared by the command-line tasks: the actions a task asks
//! its driver to perform, the events the driver reports back, and how a task
//! ends.
use vstd::prelude::*;

verus! {

/// The kind of an error a task reports.
#[derive(Clone, Copy, Debug, PartialEq, Eq, Structural)]
pub enum FailureKind {
    NotFound,
    Unsupported,
    Other,
}

/// An error that a task reports with its own message.
#[derive(Clone, Debug)]
pub struct CliError {
    pub kind: FailureKind,
    pub message: String,
}

/// A program to run: its name, arguments and working directory (`None`:
/// the current one).
#[derive(Clone, Debug)]
pub struct CommandSpec {
    pub program: String,
    pub args: Vec<String>,
    pub cwd: Option<String>,
}

/// How a task ends.
#[derive(Clone, Debug)]
pub enum Outcome {
    /// The task completed.
    Succeeded,
    /// The task failed with its own error.
    Failed(CliError),
    /// The task failed with the I/O error of the action it performed last.
    PropagateError,
    /// The task stops the program with this panic message.
    Abort(String),
}

/// What a task asks its driver to do.
#[derive(Clone, Debug)]
pub enum Action {
    /// Print a line on standard output.
    Print(String),
    /// Run a program and wait for it: report `Exited(success)`, or
    /// `IoFailed` when it cannot be started.
    Run(CommandSpec),
    /// Run a program with its output captured: report `Exited(true)` when
    /// it started and succeeded, `Exited(false)` otherwise.
    Probe(CommandSpec),
    /// Create a directory and its parents.
    CreateDirAll(String),
    /// Remove a directory with its contents.
    RemoveDirAll(String),
    /// Report `Exists(whether the path exists)`.
    CheckExists(String),
    /// Read a file: report `FileRead(Some(text))`, or `FileRead(None)` when
    /// it cannot be read.
    ReadFile(String),
    /// Write the embedded `pages` tree under this directory.
    ExtractPages(String),
    /// Report `CurrentDir(path)`, or `IoFailed`.
    ReadCurrentDir,
    /// Write a file.
    WriteFile { path: String, contents: String },
    /// Copy a file.
    CopyFile { from: String, to: String },
    /// Pack a directory's tree into a zip archive.
    ZipDirectory { source: String, archive: String },
    /// The task is over.
    Finish(Outcome),
}

/// What the driver reports after performing an action.
#[derive(Clone, Debug)]
pub enum Event {
    /// The action completed.
    Completed,
    /// The action failed with an I/O error.
    IoFailed,
    /// A program ran; whether it succeeded.
    Exited(bool),
    /// Whether a path exists.
    Exists(bool),
    /// A file's text, or none when it could not be read.
    FileRead(Option<String>),
    /// The current directory.
    CurrentDir(String),
}

/// The views of a list of strings.
pub open spec fn strings_view(v: Seq<String>) -> Seq<Seq<char>> {
    v.map_values(|s: String| s@)
}

/// The command runs `program` with `args` in the directory `cwd`.
pub open spec fn command_is(c: CommandSpec, program: Seq<char>, args: Seq<Seq<char>>, cwd: Option<Seq<char>>) -> bool {
    &&& c.program@ == program
    &&& strings_view(c.args@) == args
    &&& match (c.cwd, cwd) {
        (Some(d), Some(e)) => d@ == e,
        (None, None) => true,
        _ => false,
    }
}

/// The action prints `msg`.
pub open spec fn prints(a: Action, msg: Seq<char>) -> bool {
    a matches Action::Print(m) && m@ == msg
}

/// The action runs `program` with `args` in the current directory.
pub open spec fn runs(a: Action, program: Seq<char>, args: Seq<Seq<char>>) -> bool {
    a matches Action::Run(c) && command_is(c, program, args, None)
}

/// The action probes `program` with `args`.
pub open spec fn probes(a: Action, program: Seq<char>, args: Seq<Seq<char>>) -> bool {
    a matches Action::Probe(c) && command_is(c, program, args, None)
}

impl Outcome {
    /// A copy of the outcome.
    pub fn duplicate(&self) -> (res: Outcome)
        ensures
            res == *self,
    {
        match self {
            Outcome::Succeeded => Outcome::Succeeded,
            Outcome::Failed(e) => Outcome::Failed(CliError { kind: e.kind, message: e.message.clone() }),
            Outcome::PropagateError => Outcome::PropagateError,
            Outcome::Abort(m) => Outcome::Abort(m.clone()),
        }
    }
}

/// Appends a word to an argument list.
pub fn push_word(args: &mut Vec<String>, word: &str)
    ensures
        strings_view(final(args)@) == strings_view(old(args)@).push(word@),
{
    let ghost before = args@;
    args.push(String::from_str(word));
    assert(args@ =~= before.push(args@[before.len() as int]));
    assert(strings_view(args@) =~= strings_view(before).push(word@));
}

} // verus!
