//! The behaviour the shell promises, stated once over the dispatch
//! model and proved for every input it speaks of.

use vstd::prelude::*;

use crate::action::ActionModel;
use crate::cd::{cd_resolve_spec, CdOutcomeModel};
use crate::dispatch::{builtin_names, builtin_spec, execute_spec, is_builtin_name};
use crate::help::{summary_lines_spec, usage_lines_spec};

verus! {

broadcast use vstd::string::group_string_axioms;

/// An empty token sequence dispatches to no action at all: success,
/// no side effect, no output.
pub proof fn lemma_empty_dispatch()
    ensures
        execute_spec(Seq::<Seq<char>>::empty()) == Ok::<ActionModel, Seq<char>>(
            ActionModel::Nothing,
        ),
{
}

/// `cd` alone only prints the working directory: the dispatched action
/// is `PrintCwd`, which changes nothing.
pub proof fn lemma_cd_no_arg()
    ensures
        execute_spec(seq!["cd"@]) == Ok::<ActionModel, Seq<char>>(ActionModel::PrintCwd),
{
    assert(is_builtin_name("cd"@)) by {
        assert(builtin_names()[2] == "cd"@);
    }
    reveal_strlit("cd");
    reveal_strlit("help");
    reveal_strlit("exit");
    assert("cd"@.len() == 2 && "help"@.len() == 4 && "exit"@.len() == 4);
    assert("cd"@ != "help"@ && "cd"@ != "exit"@);
}

/// A `cd` to a path that does not exist leaves the working directory
/// unchanged: the outcome is a report, never a change.
pub proof fn lemma_cd_missing_path(path: Seq<char>)
    ensures
        cd_resolve_spec(path, false) == CdOutcomeModel::Report(
            "Error: cannot find specified path"@,
        ),
        !(cd_resolve_spec(path, false) is Change),
{
}

/// `help` with a builtin's name prints that builtin's usage text,
/// which is never the plain summary listing.
pub proof fn lemma_help_usage_distinct(name: Seq<char>)
    requires
        usage_lines_spec(name) is Some,
    ensures
        execute_spec(seq!["help"@, name]) == Ok::<ActionModel, Seq<char>>(
            ActionModel::PrintLines(usage_lines_spec(name)->Some_0),
        ),
        usage_lines_spec(name)->Some_0 != summary_lines_spec(),
{
    assert(is_builtin_name("help"@)) by {
        assert(builtin_names()[0] == "help"@);
    }
    assert(usage_lines_spec(name)->Some_0.len() < summary_lines_spec().len());
}

/// `help` with an argument that is no builtin name fails with an error
/// that names the bad argument.
pub proof fn lemma_help_unknown(name: Seq<char>)
    requires
        usage_lines_spec(name) is None,
    ensures
        execute_spec(seq!["help"@, name]) == Err::<ActionModel, Seq<char>>(
            "unexpected argument for help: "@ + name,
        ),
{
    assert(is_builtin_name("help"@)) by {
        assert(builtin_names()[0] == "help"@);
    }
}

/// `exit` dispatches to process termination whatever else stands on
/// the line and whatever came before: the decision depends on no
/// prior state.
pub proof fn lemma_exit_always(toks: Seq<Seq<char>>)
    requires
        toks.len() > 0,
        toks[0] == "exit"@,
    ensures
        execute_spec(toks) == Ok::<ActionModel, Seq<char>>(ActionModel::Exit),
{
    assert(is_builtin_name("exit"@)) by {
        assert(builtin_names()[1] == "exit"@);
    }
    reveal_strlit("exit");
    reveal_strlit("help");
    assert("exit"@[0] == 'e' && "help"@[0] == 'h');
    assert("exit"@ != "help"@);
}

/// A token sequence whose first word is no builtin name is forwarded
/// whole to the external launcher.
pub proof fn lemma_external_forward(toks: Seq<Seq<char>>)
    requires
        toks.len() > 0,
        !is_builtin_name(toks[0]),
    ensures
        execute_spec(toks) == Ok::<ActionModel, Seq<char>>(ActionModel::Launch(toks)),
{
}

} // verus!
