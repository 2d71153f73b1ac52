//! The text of the `help` builtin: one summary line per builtin, and a
//! detailed usage text for each builtin name.

use vstd::prelude::*;
use vstd::string::StringExecFns;

verus! {

/// Whether a string holds the same characters as a literal.
pub fn str_eq_lit(s: &String, lit: &str) -> (r: bool)
    ensures
        r == (s@ == lit@),
{
    *s == String::from_str(lit)
}

/// The summary `help` prints without an argument: one line per builtin.
pub open spec fn summary_lines_spec() -> Seq<Seq<char>> {
    seq![
        "HELP            provide more information"@,
        "EXIT            exit shell"@,
        "CD              change or show current working directory"@,
        "MKDIR           create new directories"@,
        "DELDIR          delete a directory and all its contents"@,
        "DEL             delete a file"@,
        "CREATE          create a file"@,
        "DIR             visualize directory"@,
    ]
}

/// The usage text `help` prints for one builtin name, or `None` when
/// the name is no builtin.
pub open spec fn usage_lines_spec(name: Seq<char>) -> Option<Seq<Seq<char>>> {
    if name == "help"@ {
        Some(
            seq![
                "provides help information for Rshell commands"@,
                "help [COMMAND] -> specific command information"@,
            ],
        )
    } else if name == "exit"@ {
        Some(seq!["terminates rshell process with successful exit code"@])
    } else if name == "cd"@ {
        Some(
            seq![
                "allows you to change or show the current working directory"@,
                "cd [PATH] -> move to specified directory path"@,
                "cd .. -> move to parent directory"@,
            ],
        )
    } else if name == "mkdir"@ {
        Some(
            seq![
                "creates a new directory or a series of directories given a path"@,
                "mkdir [PATH]"@,
            ],
        )
    } else if name == "deldir"@ {
        Some(seq!["deletes a directory and all its contents given a path"@, "deldir [PATH]"@])
    } else if name == "del"@ {
        Some(seq!["delete a file given a path"@, "del [PATH]"@])
    } else if name == "create"@ {
        Some(seq!["create a file given a path"@, "create [PATH]"@])
    } else if name == "dir"@ {
        Some(
            seq![
                "allows you to visualize a directory"@,
                "dir [PATH] -> visualize directory given path"@,
                "dir -> visualize current directory"@,
            ],
        )
    } else {
        None
    }
}

/// Builds the summary listing of all builtins.
pub fn summary_lines() -> (lines: Vec<String>)
    ensures
        lines.deep_view() == summary_lines_spec(),
{
    let mut lines: Vec<String> = Vec::new();
    lines.push(String::from_str("HELP            provide more information"));
    lines.push(String::from_str("EXIT            exit shell"));
    lines.push(String::from_str("CD              change or show current working directory"));
    lines.push(String::from_str("MKDIR           create new directories"));
    lines.push(String::from_str("DELDIR          delete a directory and all its contents"));
    lines.push(String::from_str("DEL             delete a file"));
    lines.push(String::from_str("CREATE          create a file"));
    lines.push(String::from_str("DIR             visualize directory"));
    proof {
        assert(lines.deep_view() =~~= summary_lines_spec());
    }
    lines
}

/// Builds the usage text for one builtin name, or `None` when the name
/// is no builtin.
pub fn usage_lines(name: &String) -> (r: Option<Vec<String>>)
    ensures
        match r {
            Some(lines) => usage_lines_spec(name@) == Some(lines.deep_view()),
            None => usage_lines_spec(name@) is None,
        },
{
    let mut lines: Vec<String> = Vec::new();
    if str_eq_lit(name, "help") {
        lines.push(String::from_str("provides help information for Rshell commands"));
        lines.push(String::from_str("help [COMMAND] -> specific command information"));
    } else if str_eq_lit(name, "exit") {
        lines.push(String::from_str("terminates rshell process with successful exit code"));
    } else if str_eq_lit(name, "cd") {
        lines.push(String::from_str("allows you to change or show the current working directory"));
        lines.push(String::from_str("cd [PATH] -> move to specified directory path"));
        lines.push(String::from_str("cd .. -> move to parent directory"));
    } else if str_eq_lit(name, "mkdir") {
        lines.push(
            String::from_str("creates a new directory or a series of directories given a path"),
        );
        lines.push(String::from_str("mkdir [PATH]"));
    } else if str_eq_lit(name, "deldir") {
        lines.push(String::from_str("deletes a directory and all its contents given a path"));
        lines.push(String::from_str("deldir [PATH]"));
    } else if str_eq_lit(name, "del") {
        lines.push(String::from_str("delete a file given a path"));
        lines.push(String::from_str("del [PATH]"));
    } else if str_eq_lit(name, "create") {
        lines.push(String::from_str("create a file given a path"));
        lines.push(String::from_str("create [PATH]"));
    } else if str_eq_lit(name, "dir") {
        lines.push(String::from_str("allows you to visualize a directory"));
        lines.push(String::from_str("dir [PATH] -> visualize directory given path"));
        lines.push(String::from_str("dir -> visualize current directory"));
    } else {
        return None;
    }
    proof {
        assert(usage_lines_spec(name@) == Some(lines.deep_view())) by {
            assert(lines.deep_view() =~~= usage_lines_spec(name@)->Some_0);
        }
    }
    Some(lines)
}

} // verus!
