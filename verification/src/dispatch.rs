//! The builtin command table, the decision logic of every builtin, and
//! the dispatcher that routes a token sequence to a builtin or to an
//! external launch.

use vstd::prelude::*;
use vstd::string::StringExecFns;

use crate::action::{action_model, step_model, ActionModel, ShellAction, ShellError};
use crate::help::{str_eq_lit, summary_lines, summary_lines_spec, usage_lines, usage_lines_spec};

verus! {

/// The fixed set of builtin command names.
pub open spec fn builtin_names() -> Seq<Seq<char>> {
    seq!["help"@, "exit"@, "cd"@, "mkdir"@, "deldir"@, "del"@, "create"@, "dir"@]
}

/// Whether a name is a builtin command name.
pub open spec fn is_builtin_name(name: Seq<char>) -> bool {
    builtin_names().contains(name)
}

/// The builtin registry: the one table both the dispatcher's membership
/// check and the executor go by.
pub fn builtin_table() -> (t: Vec<String>)
    ensures
        t.deep_view() == builtin_names(),
{
    let mut t: Vec<String> = Vec::new();
    t.push(String::from_str("help"));
    t.push(String::from_str("exit"));
    t.push(String::from_str("cd"));
    t.push(String::from_str("mkdir"));
    t.push(String::from_str("deldir"));
    t.push(String::from_str("del"));
    t.push(String::from_str("create"));
    t.push(String::from_str("dir"));
    proof {
        assert(t.deep_view() =~~= builtin_names());
    }
    t
}

/// The tokens joined into one string with a single space between each
/// pair of neighbours.
pub open spec fn join_spec(toks: Seq<Seq<char>>) -> Seq<char>
    decreases toks.len(),
{
    if toks.len() == 0 {
        Seq::empty()
    } else if toks.len() == 1 {
        toks[0]
    } else {
        toks[0] + seq![' '] + join_spec(toks.drop_first())
    }
}

/// Joining one more token on the right appends a space and the token.
proof fn lemma_join_push(toks: Seq<Seq<char>>, t: Seq<char>)
    requires
        toks.len() > 0,
    ensures
        join_spec(toks.push(t)) == join_spec(toks) + seq![' '] + t,
    decreases toks.len(),
{
    if toks.len() == 1 {
        assert(toks.push(t).drop_first() =~= seq![t]);
        assert(toks.push(t)[0] == toks[0]);
        assert(join_spec(seq![t]) == t);
        assert(join_spec(toks.push(t)) == toks[0] + seq![' '] + t);
    } else {
        lemma_join_push(toks.drop_first(), t);
        assert(toks.push(t).drop_first() =~= toks.drop_first().push(t));
        assert(join_spec(toks) + seq![' '] + t =~= toks[0] + seq![' '] + (join_spec(
            toks.drop_first(),
        ) + seq![' '] + t));
    }
}

/// Joins the tokens from position `from` on into one path string, with
/// single spaces between them, so a path holding literal spaces can be
/// typed unquoted.
pub fn join_tokens(args: &Vec<String>, from: usize) -> (r: String)
    requires
        from <= args.len(),
    ensures
        r@ == join_spec(args.deep_view().skip(from as int)),
{
    let ghost dv = args.deep_view();
    let mut r = String::new();
    let mut i: usize = from;
    while i < args.len()
        invariant
            from <= i <= args.len(),
            dv == args.deep_view(),
            dv.len() == args.len(),
            r@ == join_spec(dv.subrange(from as int, i as int)),
        decreases args.len() - i,
    {
        let ghost done = dv.subrange(from as int, i as int);
        if i > from {
            r.append(" ");
            proof {
                assert(" "@ =~= seq![' ']) by {
                    reveal_strlit(" ");
                }
            }
        }
        r.append(args[i].as_str());
        proof {
            assert(dv.subrange(from as int, i + 1 as int) =~= done.push(dv[i as int]));
            if i > from {
                lemma_join_push(done, dv[i as int]);
            } else {
                assert(done.push(dv[i as int]) =~= seq![dv[i as int]]);
                assert(r@ =~= dv[i as int]);
            }
        }
        i = i + 1;
    }
    proof {
        assert(dv.subrange(from as int, dv.len() as int) =~= dv.skip(from as int));
    }
    r
}

/// What one builtin invocation decides, given the full token list with
/// the command name first: the action to perform, or the error to
/// report.
pub open spec fn builtin_spec(toks: Seq<Seq<char>>) -> Result<ActionModel, Seq<char>>
    recommends
        toks.len() > 0,
{
    let name = toks[0];
    if name == "help"@ {
        if toks.len() == 1 {
            Ok(ActionModel::PrintLines(summary_lines_spec()))
        } else {
            match usage_lines_spec(toks[1]) {
                Some(lines) => Ok(ActionModel::PrintLines(lines)),
                None => Err("unexpected argument for help: "@ + toks[1]),
            }
        }
    } else if name == "exit"@ {
        Ok(ActionModel::Exit)
    } else if name == "cd"@ {
        if toks.len() == 1 {
            Ok(ActionModel::PrintCwd)
        } else {
            Ok(ActionModel::ChangeDir(join_spec(toks.drop_first())))
        }
    } else if name == "mkdir"@ {
        if toks.len() == 1 {
            Ok(ActionModel::PrintErr("Error: expected argument to mkdir"@))
        } else {
            Ok(ActionModel::MakeDirs(join_spec(toks.drop_first())))
        }
    } else if name == "deldir"@ {
        if toks.len() == 1 {
            Ok(ActionModel::PrintErr("Error: expected argument to deldir"@))
        } else {
            Ok(ActionModel::RemoveDirAll(join_spec(toks.drop_first())))
        }
    } else if name == "del"@ {
        if toks.len() == 1 {
            Ok(ActionModel::PrintErr("Error: expected argument to del"@))
        } else {
            Ok(ActionModel::RemoveFile(join_spec(toks.drop_first())))
        }
    } else if name == "create"@ {
        if toks.len() == 1 {
            Ok(ActionModel::PrintErr("Error: expected argument to create"@))
        } else {
            Ok(ActionModel::CreateFile(join_spec(toks.drop_first())))
        }
    } else if name == "dir"@ {
        if toks.len() == 1 {
            Ok(ActionModel::ListDir("."@))
        } else {
            Ok(ActionModel::ListDir(toks[1]))
        }
    } else {
        Err("command not found"@)
    }
}

/// What the dispatcher decides for a whole token sequence: nothing for
/// an empty one, a builtin's decision when the first token is a builtin
/// name, an external launch otherwise.
pub open spec fn execute_spec(toks: Seq<Seq<char>>) -> Result<ActionModel, Seq<char>> {
    if toks.len() == 0 {
        Ok(ActionModel::Nothing)
    } else if is_builtin_name(toks[0]) {
        builtin_spec(toks)
    } else {
        Ok(ActionModel::Launch(toks))
    }
}

/// Decides what a builtin invocation does. The token list carries the
/// command name first and the arguments after it.
pub fn rshell_builtin(args: Vec<String>) -> (r: Result<ShellAction, ShellError>)
    requires
        args.len() > 0,
    ensures
        step_model(r) == builtin_spec(args.deep_view()),
{
    let ghost toks = args.deep_view();
    if str_eq_lit(&args[0], "help") {
        if args.len() == 1 {
            Ok(ShellAction::PrintLines(summary_lines()))
        } else {
            match usage_lines(&args[1]) {
                Some(lines) => Ok(ShellAction::PrintLines(lines)),
                None => {
                    let mut m = String::from_str("unexpected argument for help: ");
                    m.append(args[1].as_str());
                    Err(ShellError::NotFound(m))
                },
            }
        }
    } else if str_eq_lit(&args[0], "exit") {
        Ok(ShellAction::Exit)
    } else if str_eq_lit(&args[0], "cd") {
        if args.len() == 1 {
            Ok(ShellAction::PrintCwd)
        } else {
            let p = join_tokens(&args, 1);
            proof {
                assert(toks.skip(1) =~= toks.drop_first());
            }
            Ok(ShellAction::ChangeDir(p))
        }
    } else if str_eq_lit(&args[0], "mkdir") {
        if args.len() == 1 {
            Ok(ShellAction::PrintErr(String::from_str("Error: expected argument to mkdir")))
        } else {
            let p = join_tokens(&args, 1);
            proof {
                assert(toks.skip(1) =~= toks.drop_first());
            }
            Ok(ShellAction::MakeDirs(p))
        }
    } else if str_eq_lit(&args[0], "deldir") {
        if args.len() == 1 {
            Ok(ShellAction::PrintErr(String::from_str("Error: expected argument to deldir")))
        } else {
            let p = join_tokens(&args, 1);
            proof {
                assert(toks.skip(1) =~= toks.drop_first());
            }
            Ok(ShellAction::RemoveDirAll(p))
        }
    } else if str_eq_lit(&args[0], "del") {
        if args.len() == 1 {
            Ok(ShellAction::PrintErr(String::from_str("Error: expected argument to del")))
        } else {
            let p = join_tokens(&args, 1);
            proof {
                assert(toks.skip(1) =~= toks.drop_first());
            }
            Ok(ShellAction::RemoveFile(p))
        }
    } else if str_eq_lit(&args[0], "create") {
        if args.len() == 1 {
            Ok(ShellAction::PrintErr(String::from_str("Error: expected argument to create")))
        } else {
            let p = join_tokens(&args, 1);
            proof {
                assert(toks.skip(1) =~= toks.drop_first());
            }
            Ok(ShellAction::CreateFile(p))
        }
    } else if str_eq_lit(&args[0], "dir") {
        if args.len() == 1 {
            Ok(ShellAction::ListDir(String::from_str(".")))
        } else {
            Ok(ShellAction::ListDir(args[1].clone()))
        }
    } else {
        Err(ShellError::NotFound(String::from_str("command not found")))
    }
}

/// Routes a token sequence: an empty one succeeds with no effect, a
/// builtin name goes to the builtin executor, anything else becomes an
/// external launch.
pub fn rshell_execute(args: Vec<String>) -> (r: Result<ShellAction, ShellError>)
    ensures
        step_model(r) == execute_spec(args.deep_view()),
{
    let ghost toks = args.deep_view();
    if args.len() == 0 {
        return Ok(ShellAction::Nothing);
    }
    let table = builtin_table();
    let mut i: usize = 0;
    while i < table.len()
        invariant
            args.len() > 0,
            toks == args.deep_view(),
            table.deep_view() == builtin_names(),
            table.len() == builtin_names().len(),
            i <= table.len(),
            forall|j: int| 0 <= j < i ==> toks[0] != builtin_names()[j],
        decreases table.len() - i,
    {
        if str_eq_lit(&args[0], table[i].as_str()) {
            proof {
                assert(builtin_names()[i as int] == toks[0]);
                assert(is_builtin_name(toks[0]));
            }
            return rshell_builtin(args);
        }
        i = i + 1;
    }
    proof {
        assert(!is_builtin_name(toks[0])) by {
            if builtin_names().contains(toks[0]) {
                let k = choose|k: int|
                    0 <= k < builtin_names().len() && builtin_names()[k] == toks[0];
                assert(toks[0] != builtin_names()[k]);
            }
        }
    }
    Ok(ShellAction::Launch(args))
}

} // verus!
