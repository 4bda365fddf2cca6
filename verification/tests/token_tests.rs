use vshell::command::RedirectOp;
use vshell::lexer::RawToken;
use vshell::token::{raw_tokens_to_tokens, split_quotes, Token};

fn word(s: &str) -> RawToken {
    RawToken::Word(s.to_string())
}

#[test]
fn test_split_quotes() {
    let line = "echo 'test     script' 'hello''example' shell''world";
    let params = split_quotes(line).get(0).unwrap().content.clone();
    assert_eq!(
        params,
        vec!["echo", "test     script", "helloexample", "shellworld"]
    );

    let line = "echo world     test";
    let params = split_quotes(line).get(0).unwrap().content.clone();
    assert_eq!(params, vec!["echo", "world", "test"]);
}

#[test]
fn token_records_content_and_redirects() {
    let mut t = Token::new();
    assert!(t.content.is_empty());
    assert_eq!(t.redirect, None);
    assert_eq!(t.redirect_err, None);
    assert!(!t.append_out && !t.append_err);

    t.add_content("echo".to_string());
    t.add_content("hi".to_string());
    assert_eq!(t.content, vec!["echo", "hi"]);

    t.set_redirect("out.txt".to_string(), true);
    assert_eq!(t.redirect, Some("out.txt".to_string()));
    assert!(t.append_out);

    t.set_redirect_err("err.txt".to_string(), false);
    assert_eq!(t.redirect_err, Some("err.txt".to_string()));
    assert!(!t.append_err);
}

#[test]
fn grouping_words_and_pipes() {
    let raw = vec![word("cat"), word("f"), RawToken::Pipe, word("wc"), word("-l")];
    let tokens = raw_tokens_to_tokens(raw);
    assert_eq!(tokens.len(), 2);
    assert_eq!(tokens[0].content, vec!["cat", "f"]);
    assert_eq!(tokens[1].content, vec!["wc", "-l"]);
}

#[test]
fn grouping_output_redirect_goes_to_stdout_by_default() {
    let raw = vec![
        word("echo"),
        word("hi"),
        RawToken::Redirect(RedirectOp::Out),
        word("out.txt"),
    ];
    let tokens = raw_tokens_to_tokens(raw);
    assert_eq!(tokens.len(), 1);
    assert_eq!(tokens[0].content, vec!["echo", "hi"]);
    assert_eq!(tokens[0].redirect, Some("out.txt".to_string()));
    assert!(!tokens[0].append_out);
    assert_eq!(tokens[0].redirect_err, None);
}

#[test]
fn grouping_descriptor_two_goes_to_stderr() {
    let raw = vec![
        word("cmd"),
        RawToken::IoNumber(2),
        RawToken::Redirect(RedirectOp::OutAppend),
        word("err.log"),
    ];
    let tokens = raw_tokens_to_tokens(raw);
    assert_eq!(tokens[0].redirect_err, Some("err.log".to_string()));
    assert!(tokens[0].append_err);
    assert_eq!(tokens[0].redirect, None);
}

#[test]
fn grouping_descriptor_one_is_the_default_stdout() {
    let raw = vec![
        word("cmd"),
        RawToken::IoNumber(1),
        RawToken::Redirect(RedirectOp::Out),
        word("o.log"),
    ];
    let tokens = raw_tokens_to_tokens(raw);
    assert_eq!(tokens[0].redirect, Some("o.log".to_string()));
}

#[test]
fn grouping_input_operators_are_recorded_as_consumed() {
    // An input redirection's effect is deferred; its target never becomes
    // an argument.
    let raw = vec![
        word("sort"),
        RawToken::Redirect(RedirectOp::In),
        word("in.txt"),
    ];
    let tokens = raw_tokens_to_tokens(raw);
    assert_eq!(tokens[0].content, vec!["sort"]);
    assert_eq!(tokens[0].redirect, None);
}

#[test]
fn grouping_drops_empty_stages() {
    let raw = vec![RawToken::Pipe, RawToken::Pipe];
    assert!(raw_tokens_to_tokens(raw).is_empty());
}

#[test]
fn split_quotes_yields_exactly_one_token() {
    assert_eq!(split_quotes("a b c").len(), 1);
    assert_eq!(split_quotes("").len(), 1);
}

#[test]
fn split_quotes_append_redirect() {
    let toks = split_quotes("echo hi 1>> out.log");
    assert_eq!(toks[0].content, vec!["echo", "hi"]);
    assert_eq!(toks[0].redirect, Some("out.log".to_string()));
    assert!(toks[0].append_out);
}

#[test]
fn split_quotes_stderr_redirect() {
    let toks = split_quotes("cmd 2> err.log");
    assert_eq!(toks[0].content, vec!["cmd"]);
    assert_eq!(toks[0].redirect_err, Some("err.log".to_string()));
    assert!(!toks[0].append_err);
}

#[test]
fn split_quotes_double_quotes_protect_spaces() {
    let toks = split_quotes("echo \"a  b\"");
    assert_eq!(toks[0].content, vec!["echo", "a  b"]);
}

#[test]
fn split_quotes_double_quote_backslash_rules() {
    // Backslash unescapes " \ $ and a backtick; before anything else it is
    // kept.
    let toks = split_quotes("echo \"a\\$b\" \"c\\`d\" \"e\\\"f\" \"g\\xh\"");
    assert_eq!(toks[0].content, vec!["echo", "a$b", "c`d", "e\"f", "g\\xh"]);
}
