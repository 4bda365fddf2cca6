use vshell::command::{
    build, parse_redirect_target, parse_simple_command, BuildError, RedirectOp, RedirectTarget,
};
use vshell::lexer::{tokenize_line, RawToken};

#[test]
fn build_collects_argv() {
    let cmds = build(&tokenize_line("echo world     test")).unwrap();
    assert_eq!(cmds.len(), 1);
    assert_eq!(cmds[0].argv, vec!["echo", "world", "test"]);
    assert!(cmds[0].redirections.is_empty());
}

#[test]
fn build_splits_pipeline_stages() {
    let cmds = build(&tokenize_line("cat f | grep x | wc")).unwrap();
    assert_eq!(cmds.len(), 3);
    assert_eq!(cmds[0].argv, vec!["cat", "f"]);
    assert_eq!(cmds[1].argv, vec!["grep", "x"]);
    assert_eq!(cmds[2].argv, vec!["wc"]);
}

#[test]
fn build_records_default_fd_redirect() {
    let cmds = build(&tokenize_line("echo hi > out.txt")).unwrap();
    assert_eq!(cmds.len(), 1);
    assert_eq!(cmds[0].argv, vec!["echo", "hi"]);
    assert_eq!(cmds[0].redirections.len(), 1);
    let r = &cmds[0].redirections[0];
    assert_eq!(r.src_fd, None);
    assert_eq!(r.op, RedirectOp::Out);
    assert!(matches!(&r.target, RedirectTarget::File(p) if p == "out.txt"));
}

#[test]
fn build_reclassifies_digit_word_before_operator() {
    let cmds = build(&tokenize_line("cmd 2> err.txt")).unwrap();
    assert_eq!(cmds[0].argv, vec!["cmd"]);
    let r = &cmds[0].redirections[0];
    assert_eq!(r.src_fd, Some(2));
    assert_eq!(r.op, RedirectOp::Out);
    assert!(matches!(&r.target, RedirectTarget::File(p) if p == "err.txt"));
}

#[test]
fn build_append_keeps_mode() {
    let cmds = build(&tokenize_line("cmd >> log.txt")).unwrap();
    assert_eq!(cmds[0].redirections[0].op, RedirectOp::OutAppend);
}

#[test]
fn build_reads_dup_and_close_targets() {
    let cmds = build(&tokenize_line("cmd > f 2>&1 3>&-")).unwrap();
    let rs = &cmds[0].redirections;
    assert_eq!(rs.len(), 3);
    assert!(matches!(&rs[0].target, RedirectTarget::File(p) if p == "f"));
    assert_eq!(rs[1].src_fd, Some(2));
    assert_eq!(rs[1].op, RedirectOp::DupOut);
    assert!(matches!(rs[1].target, RedirectTarget::Fd(1)));
    assert_eq!(rs[2].src_fd, Some(3));
    assert!(matches!(rs[2].target, RedirectTarget::Close));
}

#[test]
fn build_redirection_order_is_kept() {
    let cmds = build(&tokenize_line("cmd > a > b")).unwrap();
    let rs = &cmds[0].redirections;
    assert_eq!(rs.len(), 2);
    assert!(matches!(&rs[0].target, RedirectTarget::File(p) if p == "a"));
    assert!(matches!(&rs[1].target, RedirectTarget::File(p) if p == "b"));
}

#[test]
fn build_nonsense_is_diagnosed_not_panicking() {
    // An operator whose target is another operator.
    assert!(matches!(
        build(&tokenize_line("> >")),
        Err(BuildError::MalformedRedirection)
    ));
    // An operator at the end of the line.
    assert!(matches!(
        build(&tokenize_line("echo >")),
        Err(BuildError::MalformedRedirection)
    ));
    // A pipe as a redirect target.
    assert!(matches!(
        build(&tokenize_line("echo > | cat")),
        Err(BuildError::MalformedRedirection)
    ));
}

#[test]
fn build_empty_line_yields_no_stage() {
    assert_eq!(build(&tokenize_line("")).unwrap().len(), 0);
    assert_eq!(build(&tokenize_line("   ")).unwrap().len(), 0);
}

#[test]
fn build_pipe_with_empty_stage_merges() {
    let cmds = build(&tokenize_line("| echo hi")).unwrap();
    assert_eq!(cmds.len(), 1);
    assert_eq!(cmds[0].argv, vec!["echo", "hi"]);
}

#[test]
fn parse_simple_command_one_stage() {
    let tokens = tokenize_line("sort -r < in.txt");
    let cmd = parse_simple_command(tokens.as_slice()).unwrap();
    assert_eq!(cmd.argv, vec!["sort", "-r"]);
    assert_eq!(cmd.redirections.len(), 1);
    assert_eq!(cmd.redirections[0].op, RedirectOp::In);
    assert!(matches!(&cmd.redirections[0].target, RedirectTarget::File(p) if p == "in.txt"));
}

#[test]
fn parse_simple_command_io_number_without_operator_fails() {
    let tokens = vec![
        RawToken::Word("cmd".to_string()),
        RawToken::IoNumber(2),
        RawToken::Word("oops".to_string()),
    ];
    assert!(matches!(
        parse_simple_command(tokens.as_slice()),
        Err(BuildError::MalformedRedirection)
    ));
}

#[test]
fn parse_redirect_target_rules() {
    assert!(matches!(
        parse_redirect_target(&RawToken::Word("-".to_string())),
        Some(RedirectTarget::Close)
    ));
    assert!(matches!(
        parse_redirect_target(&RawToken::Word("255".to_string())),
        Some(RedirectTarget::Fd(255))
    ));
    assert!(matches!(
        parse_redirect_target(&RawToken::Word("256".to_string())),
        Some(RedirectTarget::File(p)) if p == "256"
    ));
    assert!(matches!(
        parse_redirect_target(&RawToken::IoNumber(1)),
        Some(RedirectTarget::Fd(1))
    ));
    assert!(parse_redirect_target(&RawToken::Pipe).is_none());
    assert!(parse_redirect_target(&RawToken::Redirect(RedirectOp::Out)).is_none());
}
