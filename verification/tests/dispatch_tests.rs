use vshell::dispatch::{
    cd_result, command_not_found, decide_command, failed_to_execute, pwd_result, route_stderr,
    route_stdout, type_lookup_result, BuildinCommand, CommandAction, CommandResult, OutputSink,
};
use vshell::token::split_quotes;

fn args(v: &[&str]) -> Vec<String> {
    v.iter().map(|s| s.to_string()).collect()
}

fn home() -> String {
    "/home/user".to_string()
}

#[test]
fn from_name_knows_the_builtins() {
    assert_eq!(BuildinCommand::from_name("exit"), Some(BuildinCommand::Exit));
    assert_eq!(BuildinCommand::from_name("pwd"), Some(BuildinCommand::Pwd));
    assert_eq!(BuildinCommand::from_name("cd"), Some(BuildinCommand::Cd));
    assert_eq!(BuildinCommand::from_name("echo"), Some(BuildinCommand::Echo));
    assert_eq!(BuildinCommand::from_name("type"), Some(BuildinCommand::Type));
    assert_eq!(BuildinCommand::from_name("ls"), None);
    assert_eq!(BuildinCommand::from_name("Echo"), None);
}

#[test]
fn echo_joins_with_single_spaces() {
    match decide_command(&args(&["echo", "world", "test"]), &home()) {
        CommandAction::Reply(r) => {
            assert_eq!(r.stdout, "world test\n");
            assert_eq!(r.stderr, "");
            assert_eq!(r.exit_code, 0);
        }
        other => panic!("unexpected action: {:?}", other),
    }
}

#[test]
fn echo_without_arguments_prints_newline() {
    match decide_command(&args(&["echo"]), &home()) {
        CommandAction::Reply(r) => assert_eq!(r.stdout, "\n"),
        other => panic!("unexpected action: {:?}", other),
    }
}

#[test]
fn exit_ends_the_session() {
    assert!(matches!(
        decide_command(&args(&["exit"]), &home()),
        CommandAction::Exit
    ));
}

#[test]
fn pwd_asks_for_the_working_directory() {
    assert!(matches!(
        decide_command(&args(&["pwd"]), &home()),
        CommandAction::QueryCwd
    ));
    let r = pwd_result(Some("/tmp".to_string()));
    assert_eq!(r.stdout, "/tmp\n");
    assert_eq!(r.exit_code, 0);
    let r = pwd_result(None);
    assert_eq!(r.stdout, "");
}

#[test]
fn cd_with_two_arguments_is_refused_without_changing_anything() {
    match decide_command(&args(&["cd", "a", "b"]), &home()) {
        CommandAction::Reply(r) => {
            assert_eq!(r.stderr, "bash: cd: too many arguments\n");
            assert_eq!(r.exit_code, 1);
        }
        other => panic!("cd with two arguments must not act: {:?}", other),
    }
}

#[test]
fn cd_without_arguments_is_refused() {
    match decide_command(&args(&["cd"]), &home()) {
        CommandAction::Reply(r) => assert_eq!(r.stderr, "cd: missing operand\n"),
        other => panic!("unexpected action: {:?}", other),
    }
}

#[test]
fn cd_to_missing_directory_keeps_the_fixed_diagnostic() {
    assert!(matches!(
        decide_command(&args(&["cd", "/nonexistent"]), &home()),
        CommandAction::ChangeDir(d) if d == "/nonexistent"
    ));
    let r = cd_result(&"/nonexistent".to_string(), false);
    assert_eq!(r.stderr, "cd: /nonexistent: No such file or directory\n");
    assert_eq!(r.exit_code, 1);
    let ok = cd_result(&"/tmp".to_string(), true);
    assert_eq!(ok.stdout, "");
    assert_eq!(ok.stderr, "");
    assert_eq!(ok.exit_code, 0);
}

#[test]
fn cd_tilde_goes_home() {
    assert!(matches!(
        decide_command(&args(&["cd", "~"]), &home()),
        CommandAction::ChangeDir(d) if d == "/home/user"
    ));
}

#[test]
fn type_reports_builtins() {
    match decide_command(&args(&["type", "echo"]), &home()) {
        CommandAction::Reply(r) => {
            assert_eq!(r.stdout, "echo is a shell builtin\n");
            assert_eq!(r.exit_code, 0);
        }
        other => panic!("unexpected action: {:?}", other),
    }
}

#[test]
fn type_unknown_name_reports_not_found() {
    assert!(matches!(
        decide_command(&args(&["type", "no-such-name"]), &home()),
        CommandAction::LookupType(n) if n == "no-such-name"
    ));
    let r = type_lookup_result(&"no-such-name".to_string(), None);
    assert_eq!(r.stderr, "no-such-name: not found\n");
    assert_eq!(r.exit_code, 1);
    let r = type_lookup_result(&"cat".to_string(), Some("/bin/cat".to_string()));
    assert_eq!(r.stdout, "cat is /bin/cat\n");
}

#[test]
fn unknown_command_runs_externally() {
    match decide_command(&args(&["ls", "-l", "/tmp"]), &home()) {
        CommandAction::RunExternal(name, rest) => {
            assert_eq!(name, "ls");
            assert_eq!(rest, vec!["-l", "/tmp"]);
        }
        other => panic!("unexpected action: {:?}", other),
    }
}

#[test]
fn empty_argv_is_refused() {
    match decide_command(&Vec::new(), &home()) {
        CommandAction::Reply(r) => assert_eq!(r.stderr, "command is empty"),
        other => panic!("unexpected action: {:?}", other),
    }
}

#[test]
fn stage_failure_diagnostics() {
    let r = command_not_found(&"cmd1".to_string());
    assert_eq!(r.stderr, "cmd1: command not found\n");
    assert_eq!(r.stdout, "");
    assert_eq!(r.exit_code, 1);
    let r = failed_to_execute(&"prog".to_string());
    assert_eq!(r.stderr, "prog: failed to execute\n");
}

#[test]
fn command_result_constructors() {
    let r = CommandResult::new_with_stdout("hi\n".to_string());
    assert_eq!((r.stdout.as_str(), r.stderr.as_str(), r.exit_code), ("hi\n", "", 0));
    let r = CommandResult::new_with_stderr("bad\n".to_string());
    assert_eq!((r.stdout.as_str(), r.stderr.as_str(), r.exit_code), ("", "bad\n", 1));
    let r = CommandResult::default();
    assert_eq!((r.stdout.as_str(), r.stderr.as_str(), r.exit_code), ("", "", 0));
}

#[test]
fn token_routes_follow_recorded_redirects() {
    let toks = split_quotes("echo hi 1> out.log 2> err.log");
    let t = &toks[0];
    assert!(matches!(route_stdout(t), OutputSink::File(p, false) if p == "out.log"));
    assert!(matches!(route_stderr(t), OutputSink::File(p, false) if p == "err.log"));
    let toks = split_quotes("echo hi");
    assert!(matches!(route_stdout(&toks[0]), OutputSink::Terminal));
    assert!(matches!(route_stderr(&toks[0]), OutputSink::Terminal));
}
