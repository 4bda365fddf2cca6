use vshell::command::RedirectOp;
use vshell::lexer::{parse_redirect_op, parse_word, tokenize_line, RawToken};

#[test]
fn tokenize_collapses_unquoted_whitespace() {
    let tokens = tokenize_line("echo world     test");
    assert_eq!(
        tokens,
        vec![
            RawToken::Word("echo".to_string()),
            RawToken::Word("world".to_string()),
            RawToken::Word("test".to_string()),
        ]
    );
}

#[test]
fn tokenize_preserves_single_quoted_whitespace() {
    let tokens = tokenize_line("'test     script'");
    assert_eq!(tokens, vec![RawToken::Word("test     script".to_string())]);
}

#[test]
fn tokenize_concatenates_adjacent_fragments() {
    assert_eq!(
        tokenize_line("'hello''example'"),
        vec![RawToken::Word("helloexample".to_string())]
    );
    assert_eq!(
        tokenize_line("shell''world"),
        vec![RawToken::Word("shellworld".to_string())]
    );
}

#[test]
fn tokenize_double_quote_escapes() {
    // Inside double quotes, backslash only unescapes \ " $ `; anything else
    // keeps the backslash.
    assert_eq!(
        tokenize_line(r#""a\"b\\c\$d\ne""#),
        vec![RawToken::Word("a\"b\\c$d\\ne".to_string())]
    );
}

#[test]
fn tokenize_backslash_outside_quotes() {
    assert_eq!(
        tokenize_line(r"a\ b"),
        vec![RawToken::Word("a b".to_string())]
    );
}

#[test]
fn tokenize_unicode_whitespace_separates_words() {
    let tokens = tokenize_line("a\u{00A0}b\u{2003}c\u{0B}d");
    assert_eq!(
        tokens,
        vec![
            RawToken::Word("a".to_string()),
            RawToken::Word("b".to_string()),
            RawToken::Word("c".to_string()),
            RawToken::Word("d".to_string()),
        ]
    );
}

#[test]
fn tokenize_unterminated_quote_recovers() {
    assert_eq!(
        tokenize_line("'abc def"),
        vec![RawToken::Word("abc def".to_string())]
    );
}

#[test]
fn tokenize_operators_and_pipes() {
    let tokens = tokenize_line("a 2>>b | c <&- <<eof");
    assert_eq!(
        tokens,
        vec![
            RawToken::Word("a".to_string()),
            RawToken::Word("2".to_string()),
            RawToken::Redirect(RedirectOp::OutAppend),
            RawToken::Word("b".to_string()),
            RawToken::Pipe,
            RawToken::Word("c".to_string()),
            RawToken::Redirect(RedirectOp::DupIn),
            RawToken::Word("-".to_string()),
            RawToken::Redirect(RedirectOp::Heredoc),
            RawToken::Word("eof".to_string()),
        ]
    );
}

#[test]
fn parse_redirect_op_maximal_munch() {
    assert_eq!(parse_redirect_op('>', Some('>')), (RedirectOp::OutAppend, true));
    assert_eq!(parse_redirect_op('>', Some('&')), (RedirectOp::DupOut, true));
    assert_eq!(parse_redirect_op('>', Some('x')), (RedirectOp::Out, false));
    assert_eq!(parse_redirect_op('>', None), (RedirectOp::Out, false));
    assert_eq!(parse_redirect_op('<', Some('<')), (RedirectOp::Heredoc, true));
    assert_eq!(parse_redirect_op('<', Some('&')), (RedirectOp::DupIn, true));
    assert_eq!(parse_redirect_op('<', Some('a')), (RedirectOp::In, false));
}

#[test]
fn parse_word_classifies_digit_words() {
    assert_eq!(parse_word("7"), RawToken::IoNumber(7));
    assert_eq!(parse_word("255"), RawToken::IoNumber(255));
    assert_eq!(parse_word("007"), RawToken::IoNumber(7));
    assert_eq!(parse_word("256"), RawToken::Word("256".to_string()));
    assert_eq!(parse_word("abc"), RawToken::Word("abc".to_string()));
    assert_eq!(parse_word(""), RawToken::Word("".to_string()));
    assert_eq!(parse_word("+7"), RawToken::Word("+7".to_string()));
}
