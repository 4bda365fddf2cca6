use vshell::command::build;
use vshell::executor::{stage_io_plan, Route, WiringError};
use vshell::lexer::tokenize_line;

#[test]
fn default_wiring_of_a_two_stage_pipeline() {
    let cmds = build(&tokenize_line("cmd1 | cmd2")).unwrap();
    assert_eq!(cmds.len(), 2);
    let first = stage_io_plan(&cmds[0], 0, 2).unwrap();
    assert!(matches!(first.lookup(0), Some(Route::Null)));
    assert!(matches!(first.lookup(1), Some(Route::PipeNext)));
    assert!(matches!(first.lookup(2), Some(Route::TerminalErr)));
    let second = stage_io_plan(&cmds[1], 1, 2).unwrap();
    assert!(matches!(second.lookup(0), Some(Route::PipePrev)));
    assert!(matches!(second.lookup(1), Some(Route::Terminal)));
    assert!(matches!(second.lookup(2), Some(Route::TerminalErr)));
    assert!(first.lookup(3).is_none());
}

#[test]
fn truncate_and_append_modes_are_distinguished() {
    let cmds = build(&tokenize_line("cmd > out.txt")).unwrap();
    let plan = stage_io_plan(&cmds[0], 0, 1).unwrap();
    assert!(matches!(plan.lookup(1), Some(Route::WriteFile(p, false)) if p == "out.txt"));

    let cmds = build(&tokenize_line("cmd >> out.txt")).unwrap();
    let plan = stage_io_plan(&cmds[0], 0, 1).unwrap();
    assert!(matches!(plan.lookup(1), Some(Route::WriteFile(p, true)) if p == "out.txt"));
}

#[test]
fn dup_sees_the_descriptor_as_already_redirected() {
    // 2>&1 after `> f` sends stderr into the file.
    let cmds = build(&tokenize_line("cmd > f 2>&1")).unwrap();
    let plan = stage_io_plan(&cmds[0], 0, 1).unwrap();
    assert!(matches!(plan.lookup(2), Some(Route::WriteFile(p, false)) if p == "f"));

    // 2>&1 before any redirect of stdout aliases the terminal (or the pipe).
    let cmds = build(&tokenize_line("cmd 2>&1 > f")).unwrap();
    let plan = stage_io_plan(&cmds[0], 0, 1).unwrap();
    assert!(matches!(plan.lookup(2), Some(Route::Terminal)));
    assert!(matches!(plan.lookup(1), Some(Route::WriteFile(p, false)) if p == "f"));

    // In the middle of a pipeline, 2>&1 joins stderr to the pipe.
    let cmds = build(&tokenize_line("cmd 2>&1 | next")).unwrap();
    let plan = stage_io_plan(&cmds[0], 0, 2).unwrap();
    assert!(matches!(plan.lookup(2), Some(Route::PipeNext)));
}

#[test]
fn later_redirections_shadow_earlier_ones() {
    let cmds = build(&tokenize_line("cmd > a > b")).unwrap();
    let plan = stage_io_plan(&cmds[0], 0, 1).unwrap();
    assert!(matches!(plan.lookup(1), Some(Route::WriteFile(p, false)) if p == "b"));
}

#[test]
fn closing_a_descriptor() {
    let cmds = build(&tokenize_line("cmd 2>&-")).unwrap();
    let plan = stage_io_plan(&cmds[0], 0, 1).unwrap();
    assert!(matches!(plan.lookup(2), Some(Route::Closed)));
}

#[test]
fn input_redirections() {
    let cmds = build(&tokenize_line("sort < in.txt")).unwrap();
    let plan = stage_io_plan(&cmds[0], 0, 1).unwrap();
    assert!(matches!(plan.lookup(0), Some(Route::ReadFile(p)) if p == "in.txt"));
}

#[test]
fn heredoc_supplies_inline_text() {
    let cmds = build(&tokenize_line("cat << text")).unwrap();
    let plan = stage_io_plan(&cmds[0], 0, 1).unwrap();
    assert!(matches!(plan.lookup(0), Some(Route::HeredocText(t)) if t == "text"));
}

#[test]
fn duplicating_an_unknown_descriptor_fails_the_stage() {
    let cmds = build(&tokenize_line("cmd 2>&7")).unwrap();
    assert_eq!(
        stage_io_plan(&cmds[0], 0, 1).unwrap_err(),
        WiringError::UnknownFd(7)
    );
}

#[test]
fn explicit_descriptors_beyond_two_can_be_established() {
    let cmds = build(&tokenize_line("cmd 5> extra.log 6>&5")).unwrap();
    let plan = stage_io_plan(&cmds[0], 0, 1).unwrap();
    assert!(matches!(plan.lookup(5), Some(Route::WriteFile(p, false)) if p == "extra.log"));
    assert!(matches!(plan.lookup(6), Some(Route::WriteFile(p, false)) if p == "extra.log"));
}
