//! The actions a dispatched command asks the surrounding driver to carry
//! out, and the errors a command can report.

use vstd::prelude::*;
use vstd::string::StringExecFns;

verus! {

/// What one dispatched command asks the surrounding driver to do.
///
/// The library only decides; the driver performs the filesystem and
/// process work an action names and owes it exactly the effect its
/// variant describes, nothing more.
pub enum ShellAction {
    /// Nothing at all: the line held no tokens.
    Nothing,
    /// Print these lines to standard output, one per line.
    PrintLines(Vec<String>),
    /// Terminate the process with success status.
    Exit,
    /// Print the current working directory to the error stream.
    PrintCwd,
    /// If this path exists, make it the working directory; otherwise
    /// report that it cannot be found (see `cd_resolve`).
    ChangeDir(String),
    /// Create this directory and all missing parent directories.
    MakeDirs(String),
    /// Recursively delete this directory and all its contents.
    RemoveDirAll(String),
    /// Delete this single file.
    RemoveFile(String),
    /// Create an empty file at this path, truncating an existing one.
    CreateFile(String),
    /// List the immediate entries of this directory.
    ListDir(String),
    /// Spawn the first token as a child process with the remaining
    /// tokens as its argument vector, and relay its output.
    Launch(Vec<String>),
    /// Print this one line to the error stream.
    PrintErr(String),
}

/// The mathematical value of a `ShellAction`: the same shape, over
/// character sequences instead of strings.
pub enum ActionModel {
    Nothing,
    PrintLines(Seq<Seq<char>>),
    Exit,
    PrintCwd,
    ChangeDir(Seq<char>),
    MakeDirs(Seq<char>),
    RemoveDirAll(Seq<char>),
    RemoveFile(Seq<char>),
    CreateFile(Seq<char>),
    ListDir(Seq<char>),
    Launch(Seq<Seq<char>>),
    PrintErr(Seq<char>),
}

/// The model of an action.
pub open spec fn action_model(a: ShellAction) -> ActionModel {
    match a {
        ShellAction::Nothing => ActionModel::Nothing,
        ShellAction::PrintLines(lines) => ActionModel::PrintLines(lines.deep_view()),
        ShellAction::Exit => ActionModel::Exit,
        ShellAction::PrintCwd => ActionModel::PrintCwd,
        ShellAction::ChangeDir(p) => ActionModel::ChangeDir(p@),
        ShellAction::MakeDirs(p) => ActionModel::MakeDirs(p@),
        ShellAction::RemoveDirAll(p) => ActionModel::RemoveDirAll(p@),
        ShellAction::RemoveFile(p) => ActionModel::RemoveFile(p@),
        ShellAction::CreateFile(p) => ActionModel::CreateFile(p@),
        ShellAction::ListDir(p) => ActionModel::ListDir(p@),
        ShellAction::Launch(tokens) => ActionModel::Launch(tokens.deep_view()),
        ShellAction::PrintErr(m) => ActionModel::PrintErr(m@),
    }
}

/// A typed failure a command reports; the loop prints it and goes on.
pub enum ShellError {
    /// A command name or argument was not recognized; the message says
    /// which.
    NotFound(String),
}

/// The model of an error: its diagnostic message.
pub open spec fn error_model(e: ShellError) -> Seq<char> {
    match e {
        ShellError::NotFound(m) => m@,
    }
}

impl ShellError {
    /// The diagnostic message of this error.
    pub fn message(&self) -> (m: &String)
        ensures
            m@ == error_model(*self),
    {
        match self {
            ShellError::NotFound(m) => m,
        }
    }
}

/// The model of a whole dispatch outcome: the action's model on
/// success, the diagnostic message on failure.
pub open spec fn step_model(r: Result<ShellAction, ShellError>) -> Result<
    ActionModel,
    Seq<char>,
> {
    match r {
        Ok(a) => Ok(action_model(a)),
        Err(e) => Err(error_model(e)),
    }
}

/// The one line the driver prints when a dispatch reports an error.
pub fn error_line(e: &ShellError) -> (r: String)
    ensures
        r@ == "Error: "@ + error_model(*e),
{
    let mut r = String::from_str("Error: ");
    r.append(e.message().as_str());
    r
}

/// The prompt the driver renders before reading a line: a blank line,
/// the working directory, then `"> "`.
pub fn prompt_string(cwd: &str) -> (r: String)
    ensures
        r@ == "\n"@ + cwd@ + "> "@,
{
    let mut r = String::from_str("\n");
    r.append(cwd);
    r.append("> ");
    r
}

} // verus!
