use rshell::action::{error_line, prompt_string, ShellAction, ShellError};
use rshell::cd::{cd_resolve, CdOutcome};
use rshell::dispatch::{builtin_table, join_tokens, rshell_builtin, rshell_execute};
use rshell::help::usage_lines;
use rshell::launch::launch_report;
use rshell::listing::{dir_entry_line, dir_header};
use rshell::token::rshell_tokenize;

fn strings(words: &[&str]) -> Vec<String> {
    words.iter().map(|w| w.to_string()).collect()
}

#[test]
fn tokenize_empty_line() {
    let tokens = rshell_tokenize("");
    assert_eq!(tokens.len(), 0);
}

#[test]
fn tokenize_blank_line() {
    let tokens = rshell_tokenize(" \t \r\n");
    assert_eq!(tokens.len(), 0);
}

#[test]
fn tokenize_mixed_whitespace() {
    let tokens = rshell_tokenize("  a   b\tc\n");
    assert_eq!(tokens, strings(&["a", "b", "c"]));
}

#[test]
fn tokenize_bell_separates() {
    let tokens = rshell_tokenize("x\x07y\rz");
    assert_eq!(tokens, strings(&["x", "y", "z"]));
}

#[test]
fn tokenize_yields_no_empty_token() {
    let tokens = rshell_tokenize("\x07 \t one \r\n two \x07\x07 ");
    assert!(!tokens.is_empty());
    for t in &tokens {
        assert!(!t.is_empty());
    }
    assert_eq!(tokens, strings(&["one", "two"]));
}

#[test]
fn tokenize_keeps_interior_characters() {
    let tokens = rshell_tokenize("a-b.c \"q\"");
    assert_eq!(tokens, strings(&["a-b.c", "\"q\""]));
}

#[test]
fn dispatch_empty_is_silent_success() {
    let r = rshell_execute(Vec::new());
    assert!(matches!(r, Ok(ShellAction::Nothing)));
}

#[test]
fn cd_without_argument_prints_directory() {
    let r = rshell_execute(strings(&["cd"]));
    assert!(matches!(r, Ok(ShellAction::PrintCwd)));
}

#[test]
fn cd_joins_arguments_with_spaces() {
    let r = rshell_execute(strings(&["cd", "My", "Folder"]));
    match r {
        Ok(ShellAction::ChangeDir(p)) => assert_eq!(p, "My Folder"),
        _ => panic!("expected a directory change"),
    }
}

#[test]
fn cd_missing_path_is_reported_not_taken() {
    let r = cd_resolve("nonexistent_xyz".to_string(), false);
    match r {
        CdOutcome::Report(m) => assert_eq!(m, "Error: cannot find specified path"),
        CdOutcome::Change(_) => panic!("the working directory must stay unchanged"),
    }
}

#[test]
fn cd_existing_path_is_taken() {
    let r = cd_resolve("a/b".to_string(), true);
    match r {
        CdOutcome::Change(p) => assert_eq!(p, "a/b"),
        CdOutcome::Report(_) => panic!("an existing path must be taken"),
    }
}

#[test]
fn mkdir_builds_nested_path() {
    let r = rshell_execute(strings(&["mkdir", "a/b/c"]));
    match r {
        Ok(ShellAction::MakeDirs(p)) => assert_eq!(p, "a/b/c"),
        _ => panic!("expected a directory creation"),
    }
}

#[test]
fn mkdir_without_argument_reports() {
    let r = rshell_execute(strings(&["mkdir"]));
    match r {
        Ok(ShellAction::PrintErr(m)) => assert_eq!(m, "Error: expected argument to mkdir"),
        _ => panic!("expected a missing-argument message"),
    }
}

#[test]
fn deldir_removes_directory_tree() {
    let r = rshell_execute(strings(&["deldir", "a/b"]));
    match r {
        Ok(ShellAction::RemoveDirAll(p)) => assert_eq!(p, "a/b"),
        _ => panic!("expected a recursive directory removal"),
    }
}

#[test]
fn deldir_without_argument_reports() {
    let r = rshell_execute(strings(&["deldir"]));
    match r {
        Ok(ShellAction::PrintErr(m)) => assert_eq!(m, "Error: expected argument to deldir"),
        _ => panic!("expected a missing-argument message"),
    }
}

#[test]
fn create_then_del_name_the_same_file() {
    let create = rshell_execute(strings(&["create", "f.txt"]));
    match create {
        Ok(ShellAction::CreateFile(p)) => assert_eq!(p, "f.txt"),
        _ => panic!("expected a file creation"),
    }
    let del = rshell_execute(strings(&["del", "f.txt"]));
    match del {
        Ok(ShellAction::RemoveFile(p)) => assert_eq!(p, "f.txt"),
        _ => panic!("expected a file removal"),
    }
}

#[test]
fn del_without_argument_reports() {
    let r = rshell_execute(strings(&["del"]));
    match r {
        Ok(ShellAction::PrintErr(m)) => assert_eq!(m, "Error: expected argument to del"),
        _ => panic!("expected a missing-argument message"),
    }
}

#[test]
fn create_without_argument_reports() {
    let r = rshell_execute(strings(&["create"]));
    match r {
        Ok(ShellAction::PrintErr(m)) => assert_eq!(m, "Error: expected argument to create"),
        _ => panic!("expected a missing-argument message"),
    }
}

#[test]
fn create_joins_path_with_spaces() {
    let r = rshell_execute(strings(&["create", "my", "file.txt"]));
    match r {
        Ok(ShellAction::CreateFile(p)) => assert_eq!(p, "my file.txt"),
        _ => panic!("expected a file creation"),
    }
}

#[test]
fn dir_defaults_to_current_directory() {
    let r = rshell_execute(strings(&["dir"]));
    match r {
        Ok(ShellAction::ListDir(p)) => assert_eq!(p, "."),
        _ => panic!("expected a listing"),
    }
}

#[test]
fn dir_takes_first_argument_only() {
    let r = rshell_execute(strings(&["dir", "a/b", "ignored"]));
    match r {
        Ok(ShellAction::ListDir(p)) => assert_eq!(p, "a/b"),
        _ => panic!("expected a listing"),
    }
}

#[test]
fn dir_lines_tag_directories_and_files() {
    assert_eq!(dir_header(), "TYPE                NAME");
    let d = dir_entry_line(true, false, "a/b/c");
    assert_eq!(d, Some("directory               a/b/c".to_string()));
    let f = dir_entry_line(false, true, "f.txt");
    assert_eq!(f, Some("file                    f.txt".to_string()));
    let other = dir_entry_line(false, false, "link");
    assert_eq!(other, None);
}

#[test]
fn help_summary_lists_every_builtin() {
    let r = rshell_execute(strings(&["help"]));
    match r {
        Ok(ShellAction::PrintLines(lines)) => {
            assert_eq!(lines.len(), 8);
            assert_eq!(lines[0], "HELP            provide more information");
            assert_eq!(lines[4], "DELDIR          delete a directory and all its contents");
        },
        _ => panic!("expected the summary listing"),
    }
}

#[test]
fn help_cd_differs_from_summary() {
    let summary = match rshell_execute(strings(&["help"])) {
        Ok(ShellAction::PrintLines(lines)) => lines,
        _ => panic!("expected the summary listing"),
    };
    let usage = match rshell_execute(strings(&["help", "cd"])) {
        Ok(ShellAction::PrintLines(lines)) => lines,
        _ => panic!("expected a usage text"),
    };
    assert_ne!(usage, summary);
    assert_eq!(usage.len(), 3);
    assert_eq!(usage[0], "allows you to change or show the current working directory");
}

#[test]
fn help_knows_every_builtin_name() {
    for name in ["help", "exit", "cd", "mkdir", "deldir", "del", "create", "dir"] {
        let usage = usage_lines(&name.to_string());
        assert!(usage.is_some(), "no usage text for {}", name);
        assert!(!usage.unwrap().is_empty());
    }
}

#[test]
fn help_bogus_names_the_argument() {
    let r = rshell_execute(strings(&["help", "bogus"]));
    match r {
        Err(ShellError::NotFound(m)) => {
            assert_eq!(m, "unexpected argument for help: bogus");
        },
        _ => panic!("expected an unrecognized-argument error"),
    }
}

#[test]
fn unknown_builtin_name_is_not_found() {
    let r = rshell_builtin(strings(&["nope"]));
    match r {
        Err(ShellError::NotFound(m)) => assert_eq!(m, "command not found"),
        _ => panic!("expected a not-found error"),
    }
}

#[test]
fn exit_ignores_everything_else() {
    assert!(matches!(rshell_execute(strings(&["exit"])), Ok(ShellAction::Exit)));
    assert!(matches!(rshell_execute(strings(&["exit", "now", "please"])), Ok(ShellAction::Exit)));
}

#[test]
fn non_builtin_is_forwarded_whole() {
    let r = rshell_execute(strings(&["grep", "-r", "pattern"]));
    match r {
        Ok(ShellAction::Launch(tokens)) => assert_eq!(tokens, strings(&["grep", "-r", "pattern"])),
        _ => panic!("expected an external launch"),
    }
}

#[test]
fn failed_child_is_reported_on_stdout() {
    let r = launch_report(false, String::new(), "boom".to_string());
    assert_eq!(r.raw_stdout, None);
    assert_eq!(r.failure_text, Some("boom".to_string()));
}

#[test]
fn successful_child_output_is_relayed_verbatim() {
    let r = launch_report(true, "hello\nworld\n".to_string(), String::new());
    assert_eq!(r.raw_stdout, Some("hello\nworld\n".to_string()));
    assert_eq!(r.failure_text, None);
}

#[test]
fn quiet_successful_child_prints_nothing() {
    let r = launch_report(true, String::new(), String::new());
    assert_eq!(r.raw_stdout, None);
    assert_eq!(r.failure_text, None);
}

#[test]
fn builtin_table_holds_the_eight_names() {
    let t = builtin_table();
    assert_eq!(t, strings(&["help", "exit", "cd", "mkdir", "deldir", "del", "create", "dir"]));
}

#[test]
fn join_tokens_uses_single_spaces() {
    let args = strings(&["cd", "a b", "c"]);
    assert_eq!(join_tokens(&args, 1), "a b c");
    assert_eq!(join_tokens(&args, 3), "");
}

#[test]
fn prompt_and_error_lines() {
    assert_eq!(prompt_string("/home/me"), "\n/home/me> ");
    let e = ShellError::NotFound("command not found".to_string());
    assert_eq!(error_line(&e), "Error: command not found");
    assert_eq!(e.message().as_str(), "command not found");
}
