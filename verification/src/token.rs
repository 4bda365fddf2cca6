//! The flat one-stage command form used by the interactive loop's older
//! surface: a `Token` holds the argument words and at most one stdout and
//! one stderr redirect path, each with an append flag. Two producers fill
//! it: `raw_tokens_to_tokens` consumes the lexer's raw tokens, and
//! `split_quotes` reads a line directly, treating only a trailing `1` or
//! `2` on a word as an explicit descriptor.
//!
//! Recording a redirect performs no filesystem work here: the caller that
//! owns the filesystem opens, truncates or appends the named files, reading
//! the recorded paths and append flags.

use vstd::prelude::*;
use vstd::string::*;

use crate::command::RedirectOp;
use crate::lexer::{RawToken, RawTokenModel};
use crate::strutil::{is_shell_space, is_space_char, string_push_char};

verus! {

/// One command with its stdout/stderr redirect paths and append flags.
#[derive(Debug, Clone)]
pub struct Token {
    pub content: Vec<String>,
    pub redirect: Option<String>,
    pub redirect_err: Option<String>,
    pub append_out: bool,
    pub append_err: bool,
}

/// Mathematical model of a `Token`.
pub struct TokenModel {
    pub content: Seq<Seq<char>>,
    pub redirect: Option<Seq<char>>,
    pub redirect_err: Option<Seq<char>>,
    pub append_out: bool,
    pub append_err: bool,
}

/// The model of an optional path.
pub open spec fn opt_str_model(o: Option<String>) -> Option<Seq<char>> {
    match o {
        Some(s) => Some(s@),
        None => None,
    }
}

impl View for Token {
    type V = TokenModel;

    open spec fn view(&self) -> TokenModel {
        TokenModel {
            content: crate::command::argv_model(self.content@),
            redirect: opt_str_model(self.redirect),
            redirect_err: opt_str_model(self.redirect_err),
            append_out: self.append_out,
            append_err: self.append_err,
        }
    }
}

/// An empty token.
pub open spec fn tm_new() -> TokenModel {
    TokenModel {
        content: seq![],
        redirect: None,
        redirect_err: None,
        append_out: false,
        append_err: false,
    }
}

/// `t` with one more argument word.
pub open spec fn tm_add_content(t: TokenModel, w: Seq<char>) -> TokenModel {
    TokenModel {
        content: t.content.push(w),
        redirect: t.redirect,
        redirect_err: t.redirect_err,
        append_out: t.append_out,
        append_err: t.append_err,
    }
}

/// `t` with its stdout redirect set.
pub open spec fn tm_set_redirect(t: TokenModel, p: Seq<char>, append: bool) -> TokenModel {
    TokenModel {
        content: t.content,
        redirect: Some(p),
        redirect_err: t.redirect_err,
        append_out: append,
        append_err: t.append_err,
    }
}

/// `t` with its stderr redirect set.
pub open spec fn tm_set_redirect_err(t: TokenModel, p: Seq<char>, append: bool) -> TokenModel {
    TokenModel {
        content: t.content,
        redirect: t.redirect,
        redirect_err: Some(p),
        append_out: t.append_out,
        append_err: append,
    }
}

/// `t` with its stdout append flag set.
pub open spec fn tm_append_out(t: TokenModel, b: bool) -> TokenModel {
    TokenModel {
        content: t.content,
        redirect: t.redirect,
        redirect_err: t.redirect_err,
        append_out: b,
        append_err: t.append_err,
    }
}

/// `t` with its stderr append flag set.
pub open spec fn tm_append_err(t: TokenModel, b: bool) -> TokenModel {
    TokenModel {
        content: t.content,
        redirect: t.redirect,
        redirect_err: t.redirect_err,
        append_out: t.append_out,
        append_err: b,
    }
}

impl Token {
    /// An empty token: no words, no redirects, truncate mode on both sides.
    pub fn new() -> (t: Token)
        ensures
            t@ == tm_new(),
    {
        let t = Token {
            content: Vec::new(),
            redirect: None,
            redirect_err: None,
            append_out: false,
            append_err: false,
        };
        proof {
            assert(t@.content =~= tm_new().content);
        }
        t
    }

    /// Appends one argument word.
    pub fn add_content(&mut self, content: String)
        ensures
            final(self)@ == tm_add_content(old(self)@, content@),
    {
        let ghost c0 = self.content@;
        let ghost cg = content;
        self.content.push(content);
        proof {
            assert(crate::command::argv_model(c0.push(cg)) =~= crate::command::argv_model(
                c0,
            ).push(cg@));
        }
    }

    /// Records the stdout redirect path and whether it appends. The file
    /// itself is opened, created or truncated by the caller that owns the
    /// filesystem, before the command runs.
    pub fn set_redirect(&mut self, redirect: String, append: bool)
        ensures
            final(self)@ == tm_set_redirect(old(self)@, redirect@, append),
    {
        self.redirect = Some(redirect);
        self.append_out = append;
    }

    /// Records the stderr redirect path and whether it appends.
    pub fn set_redirect_err(&mut self, redirect_err: String, append: bool)
        ensures
            final(self)@ == tm_set_redirect_err(old(self)@, redirect_err@, append),
    {
        self.redirect_err = Some(redirect_err);
        self.append_err = append;
    }
}

/// The models of a token list.
pub open spec fn token_list_model(v: Seq<Token>) -> Seq<TokenModel> {
    v.map_values(|t: Token| t@)
}

proof fn lemma_token_list_model_push(v: Seq<Token>, t: Token)
    ensures
        token_list_model(v.push(t)) =~= token_list_model(v).push(t@),
{
}

/// The state of `raw_tokens_to_tokens` after consuming the raw tokens from
/// position `i` on: the finished tokens. `cur` is the stage being filled;
/// after a redirect operator, `expecting` records that the next word is its
/// target and `op` which operator it was; `fd` holds the last descriptor
/// number seen. Only output-class operators are realized here; input and
/// duplication operators are recorded as consumed and left for the richer
/// command model.
pub open spec fn spec_group_from(
    toks: Seq<RawTokenModel>,
    i: int,
    cur: TokenModel,
    expecting: bool,
    op: Option<RedirectOp>,
    fd: Option<u8>,
    done: Seq<TokenModel>,
) -> Seq<TokenModel>
    decreases toks.len() - i,
{
    if i < 0 || i >= toks.len() {
        if cur.content.len() > 0 {
            done.push(cur)
        } else {
            done
        }
    } else {
        match toks[i] {
            RawTokenModel::Word(w) => {
                if expecting && (op is Some) {
                    let next = match op {
                        Some(RedirectOp::Out) | Some(RedirectOp::OutAppend) => {
                            let append = op == Some(RedirectOp::OutAppend);
                            if fd == Some(1u8) || fd is None {
                                (tm_set_redirect(cur, w, append), Option::<u8>::None)
                            } else {
                                (tm_set_redirect_err(cur, w, append), Option::<u8>::None)
                            }
                        },
                        _ => (cur, fd),
                    };
                    spec_group_from(toks, i + 1, next.0, false, None, next.1, done)
                } else {
                    spec_group_from(toks, i + 1, tm_add_content(cur, w), expecting, op, fd, done)
                }
            },
            RawTokenModel::Pipe => {
                if cur.content.len() > 0 {
                    spec_group_from(toks, i + 1, tm_new(), expecting, op, fd, done.push(cur))
                } else {
                    spec_group_from(toks, i + 1, cur, expecting, op, fd, done)
                }
            },
            RawTokenModel::IoNumber(n) => {
                spec_group_from(toks, i + 1, cur, expecting, op, Some(n), done)
            },
            RawTokenModel::Redirect(o) => {
                spec_group_from(toks, i + 1, cur, true, Some(o), fd, done)
            },
        }
    }
}

/// The token list `raw_tokens_to_tokens` produces.
pub open spec fn spec_group(toks: Seq<RawTokenModel>) -> Seq<TokenModel> {
    spec_group_from(toks, 0, tm_new(), false, None, None, seq![])
}

/// Groups raw tokens into flat one-stage tokens: words fill the current
/// token, a pipe closes a non-empty one, an output redirect operator takes
/// the following word as its stdout path (stderr when an explicit
/// descriptor other than 1 precedes it).
pub fn raw_tokens_to_tokens(raw_tokens: Vec<RawToken>) -> (tokens: Vec<Token>)
    ensures
        token_list_model(tokens@) == spec_group(crate::lexer::tokens_model(raw_tokens@)),
{
    let ghost ts = crate::lexer::tokens_model(raw_tokens@);
    let mut tokens: Vec<Token> = Vec::new();
    let mut current_token = Token::new();
    let mut expecting_redirect_file = false;
    let mut current_redirect_op: Option<RedirectOp> = None;
    let mut fd: Option<u8> = None;
    let mut i: usize = 0;
    proof {
        assert(token_list_model(tokens@) =~= seq![]);
    }
    while i < raw_tokens.len()
        invariant
            ts == crate::lexer::tokens_model(raw_tokens@),
            ts.len() == raw_tokens@.len(),
            0 <= i <= raw_tokens.len(),
            spec_group_from(
                ts,
                i as int,
                current_token@,
                expecting_redirect_file,
                current_redirect_op,
                fd,
                token_list_model(tokens@),
            ) == spec_group(ts),
        decreases raw_tokens.len() - i,
    {
        let t = vstd::slice::slice_index_get(raw_tokens.as_slice(), i);
        match t {
            RawToken::Word(word) => {
                if expecting_redirect_file && current_redirect_op.is_some() {
                    match current_redirect_op {
                        Some(RedirectOp::Out) | Some(RedirectOp::OutAppend) => {
                            let append = matches!(
                                current_redirect_op,
                                Some(RedirectOp::OutAppend)
                            );
                            let is_out = match fd {
                                Some(n) => n == 1,
                                None => true,
                            };
                            if is_out {
                                current_token.set_redirect(word.clone(), append);
                            } else {
                                current_token.set_redirect_err(word.clone(), append);
                            }
                            fd = None;
                        },
                        _ => {},
                    }
                    expecting_redirect_file = false;
                    current_redirect_op = None;
                } else {
                    current_token.add_content(word.clone());
                }
            },
            RawToken::Pipe => {
                if current_token.content.len() > 0 {
                    let ghost done0 = tokens@;
                    let ghost cg = current_token;
                    tokens.push(current_token);
                    current_token = Token::new();
                    proof {
                        lemma_token_list_model_push(done0, cg);
                    }
                }
            },
            RawToken::IoNumber(num) => {
                fd = Some(*num);
            },
            RawToken::Redirect(op) => {
                expecting_redirect_file = true;
                current_redirect_op = Some(*op);
            },
        }
        i += 1;
    }
    if current_token.content.len() > 0 {
        let ghost done0 = tokens@;
        let ghost cg = current_token;
        tokens.push(current_token);
        proof {
            lemma_token_list_model_push(done0, cg);
        }
    }
    tokens
}

/// The quoting state of `split_quotes` between two characters.
#[derive(Debug, Clone, Copy)]
pub enum MatchType {
    Default,
    DoubleQuote,
    SingleQuote,
    Escaping,
    DoubleQuoteEscaping,
}

/// What the end of the line does with the pending word: it becomes the
/// redirect path if one is awaited, and one more argument word otherwise —
/// even when it is empty.
pub open spec fn spec_split_end(
    tok: TokenModel,
    acc: Seq<char>,
    redirect: bool,
    redirect_err: bool,
) -> TokenModel {
    if redirect {
        tm_set_redirect(tok, acc, tok.append_out)
    } else if redirect_err {
        tm_set_redirect_err(tok, acc, tok.append_err)
    } else {
        tm_add_content(tok, acc)
    }
}

/// The token `split_quotes` produces from position `i` of `s` onward, in
/// quoting state `st`, with the pending word `acc`, the token built so far,
/// and whether a stdout or stderr redirect path is awaited.
///
/// In the default state, a `>` right after another `>` turns on the append
/// flag; otherwise a word ending in `1` or `2` before `>` names the
/// descriptor, a bare `>` redirects stdout, and a word ending in anything
/// else keeps `>` from redirecting at all.
pub open spec fn spec_split_from(
    s: Seq<char>,
    i: int,
    st: MatchType,
    acc: Seq<char>,
    tok: TokenModel,
    redirect: bool,
    redirect_err: bool,
) -> TokenModel
    decreases s.len() - i,
{
    if i < 0 || i >= s.len() {
        spec_split_end(tok, acc, redirect, redirect_err)
    } else {
        let c = s[i];
        match st {
            MatchType::Default => {
                if is_shell_space(c) {
                    if acc.len() > 0 {
                        if redirect {
                            spec_split_from(
                                s,
                                i + 1,
                                MatchType::Default,
                                seq![],
                                tm_set_redirect(tok, acc, tok.append_out),
                                false,
                                redirect_err,
                            )
                        } else if redirect_err {
                            spec_split_from(
                                s,
                                i + 1,
                                MatchType::Default,
                                seq![],
                                tm_set_redirect_err(tok, acc, tok.append_err),
                                redirect,
                                false,
                            )
                        } else {
                            spec_split_from(
                                s,
                                i + 1,
                                MatchType::Default,
                                seq![],
                                tm_add_content(tok, acc),
                                redirect,
                                redirect_err,
                            )
                        }
                    } else {
                        spec_split_from(s, i + 1, MatchType::Default, acc, tok, redirect, redirect_err)
                    }
                } else if c == '\'' {
                    spec_split_from(s, i + 1, MatchType::SingleQuote, acc, tok, redirect, redirect_err)
                } else if c == '"' {
                    spec_split_from(s, i + 1, MatchType::DoubleQuote, acc, tok, redirect, redirect_err)
                } else if c == '\\' {
                    spec_split_from(s, i + 1, MatchType::Escaping, acc, tok, redirect, redirect_err)
                } else if c == '>' {
                    if redirect {
                        spec_split_from(
                            s,
                            i + 1,
                            MatchType::Default,
                            acc,
                            tm_append_out(tok, true),
                            redirect,
                            redirect_err,
                        )
                    } else if redirect_err {
                        spec_split_from(
                            s,
                            i + 1,
                            MatchType::Default,
                            acc,
                            tm_append_err(tok, true),
                            redirect,
                            redirect_err,
                        )
                    } else {
                        let step = if acc.len() > 0 {
                            if acc.last() == '1' {
                                (acc.drop_last(), tm_append_out(tok, false), true, false)
                            } else if acc.last() == '2' {
                                (acc.drop_last(), tm_append_err(tok, false), false, true)
                            } else {
                                (acc, tok, false, false)
                            }
                        } else {
                            (acc, tm_append_out(tok, false), true, false)
                        };
                        let tok2 = if step.0.len() > 0 {
                            tm_add_content(step.1, step.0)
                        } else {
                            step.1
                        };
                        spec_split_from(s, i + 1, MatchType::Default, seq![], tok2, step.2, step.3)
                    }
                } else {
                    spec_split_from(s, i + 1, MatchType::Default, acc.push(c), tok, redirect, redirect_err)
                }
            },
            MatchType::SingleQuote => {
                if c == '\'' {
                    spec_split_from(s, i + 1, MatchType::Default, acc, tok, redirect, redirect_err)
                } else {
                    spec_split_from(s, i + 1, MatchType::SingleQuote, acc.push(c), tok, redirect, redirect_err)
                }
            },
            MatchType::DoubleQuote => {
                if c == '"' {
                    spec_split_from(s, i + 1, MatchType::Default, acc, tok, redirect, redirect_err)
                } else if c == '\\' {
                    spec_split_from(s, i + 1, MatchType::DoubleQuoteEscaping, acc, tok, redirect, redirect_err)
                } else {
                    spec_split_from(s, i + 1, MatchType::DoubleQuote, acc.push(c), tok, redirect, redirect_err)
                }
            },
            MatchType::DoubleQuoteEscaping => {
                if c == '"' || c == '\\' || c == '$' || c == '`' {
                    spec_split_from(s, i + 1, MatchType::DoubleQuote, acc.push(c), tok, redirect, redirect_err)
                } else {
                    spec_split_from(
                        s,
                        i + 1,
                        MatchType::DoubleQuote,
                        acc.push('\\').push(c),
                        tok,
                        redirect,
                        redirect_err,
                    )
                }
            },
            MatchType::Escaping => {
                spec_split_from(s, i + 1, MatchType::Default, acc.push(c), tok, redirect, redirect_err)
            },
        }
    }
}

/// The one token `split_quotes` reads off a whole line.
pub open spec fn spec_split_quotes(s: Seq<char>) -> TokenModel {
    spec_split_from(s, 0, MatchType::Default, seq![], tm_new(), false, false)
}

/// Reads one line directly into a single flat token, honouring quoting and
/// escaping, with `1>`/`2>` naming the descriptor and `>>` appending. Always
/// yields exactly one token.
pub fn split_quotes(line: &str) -> (r: Vec<Token>)
    ensures
        r@.len() == 1,
        r@[0]@ == spec_split_quotes(line@),
{
    let n = line.unicode_len();
    let mut token = Token::new();
    let mut match_type = MatchType::Default;
    let mut string = String::new();
    let mut redirect = false;
    let mut redirect_err = false;
    let mut i: usize = 0;
    proof {
        assert(string@ =~= seq![]);
    }
    while i < n
        invariant
            n == line@.len(),
            0 <= i <= n,
            spec_split_from(
                line@,
                i as int,
                match_type,
                string@,
                token@,
                redirect,
                redirect_err,
            ) == spec_split_quotes(line@),
        decreases n - i,
    {
        let c = line.get_char(i);
        match match_type {
            MatchType::Default => {
                if is_space_char(c) {
                    if !string.as_str().is_empty() {
                        if redirect {
                            let a = token.append_out;
                            token.set_redirect(string.clone(), a);
                            redirect = false;
                        } else if redirect_err {
                            let a = token.append_err;
                            token.set_redirect_err(string.clone(), a);
                            redirect_err = false;
                        } else {
                            token.add_content(string.clone());
                        }
                        string = String::new();
                    }
                } else if c == '\'' {
                    match_type = MatchType::SingleQuote;
                } else if c == '"' {
                    match_type = MatchType::DoubleQuote;
                } else if c == '\\' {
                    match_type = MatchType::Escaping;
                } else if c == '>' {
                    if redirect {
                        token.append_out = true;
                    } else if redirect_err {
                        token.append_err = true;
                    } else {
                        let len = string.as_str().unicode_len();
                        if len > 0 {
                            let lastc = string.as_str().get_char(len - 1);
                            if lastc == '1' {
                                let shorter = string.as_str().substring_char(0, len - 1).to_owned();
                                proof {
                                    assert(shorter@ =~= string@.drop_last());
                                }
                                string = shorter;
                                redirect = true;
                                token.append_out = false;
                            } else if lastc == '2' {
                                let shorter = string.as_str().substring_char(0, len - 1).to_owned();
                                proof {
                                    assert(shorter@ =~= string@.drop_last());
                                }
                                string = shorter;
                                redirect_err = true;
                                token.append_err = false;
                            }
                        } else {
                            redirect = true;
                            token.append_out = false;
                        }
                        if !string.as_str().is_empty() {
                            token.add_content(string.clone());
                        }
                        string = String::new();
                    }
                } else {
                    string_push_char(&mut string, c);
                }
            },
            MatchType::SingleQuote => {
                if c == '\'' {
                    match_type = MatchType::Default;
                } else {
                    string_push_char(&mut string, c);
                }
            },
            MatchType::DoubleQuote => {
                if c == '"' {
                    match_type = MatchType::Default;
                } else if c == '\\' {
                    match_type = MatchType::DoubleQuoteEscaping;
                } else {
                    string_push_char(&mut string, c);
                }
            },
            MatchType::DoubleQuoteEscaping => {
                if c == '"' || c == '\\' || c == '$' || c == '`' {
                    string_push_char(&mut string, c);
                } else {
                    string_push_char(&mut string, '\\');
                    string_push_char(&mut string, c);
                }
                match_type = MatchType::DoubleQuote;
            },
            MatchType::Escaping => {
                string_push_char(&mut string, c);
                match_type = MatchType::Default;
            },
        }
        i += 1;
    }
    if redirect {
        let a = token.append_out;
        token.set_redirect(string, a);
    } else if redirect_err {
        let a = token.append_err;
        token.set_redirect_err(string, a);
    } else {
        token.add_content(string);
    }
    let mut res: Vec<Token> = Vec::new();
    res.push(token);
    res
}

} // verus!
