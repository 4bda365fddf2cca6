//! The lexer: turns one raw input line into raw tokens (words, pipes,
//! redirect operators) under the quoting and escaping rules of the shell.
//!
//! The state machine has five states. Single quotes make every character
//! literal; double quotes make every character literal except `"` and `\`;
//! a backslash outside quotes makes the next character literal; inside
//! double quotes a backslash only unescapes `"`, `\`, `$` and a backtick.
//! An unterminated quote is not an error: the rest of the line is read as if
//! still inside the quote.
//!
//! The lexer never classifies a digit word as a descriptor number: whether a
//! bare digit string is an `IoNumber` depends on the token that follows it,
//! so that reclassification is left to the command builder's one-token
//! lookahead (`parse_word` is the helper it uses).

use vstd::prelude::*;
use vstd::string::*;

use crate::command::RedirectOp;
use crate::strutil::{fd_of_word, is_shell_space, is_space_char, spec_fd_of_word, string_push_char};

verus! {

/// A raw lexical token.
#[derive(Debug, Clone, PartialEq)]
pub enum RawToken {
    Word(String),
    /// `|`
    Pipe,
    /// A digit word reclassified as an explicit descriptor number.
    IoNumber(u8),
    Redirect(RedirectOp),
}

/// Mathematical model of a `RawToken`.
pub enum RawTokenModel {
    Word(Seq<char>),
    Pipe,
    IoNumber(u8),
    Redirect(RedirectOp),
}

impl View for RawToken {
    type V = RawTokenModel;

    open spec fn view(&self) -> RawTokenModel {
        match self {
            RawToken::Word(s) => RawTokenModel::Word(s@),
            RawToken::Pipe => RawTokenModel::Pipe,
            RawToken::IoNumber(n) => RawTokenModel::IoNumber(*n),
            RawToken::Redirect(op) => RawTokenModel::Redirect(*op),
        }
    }
}

/// The models of a token sequence.
pub open spec fn tokens_model(ts: Seq<RawToken>) -> Seq<RawTokenModel> {
    ts.map_values(|t: RawToken| t@)
}

/// The lexer's state between two characters.
#[derive(Debug, Clone, Copy)]
pub enum LexState {
    Normal,
    SingleQuote,
    DoubleQuote,
    Escaping,
    DoubleQuoteEscaping,
}

/// The operator read at `first` with one character of lookahead, and whether
/// that lookahead character belongs to the operator.
pub open spec fn spec_redirect_op(first: char, next: Option<char>) -> (RedirectOp, int)
    recommends
        first == '>' || first == '<',
{
    if first == '>' {
        if next == Some('>') {
            (RedirectOp::OutAppend, 1)
        } else if next == Some('&') {
            (RedirectOp::DupOut, 1)
        } else {
            (RedirectOp::Out, 0)
        }
    } else {
        if next == Some('<') {
            (RedirectOp::Heredoc, 1)
        } else if next == Some('&') {
            (RedirectOp::DupIn, 1)
        } else {
            (RedirectOp::In, 0)
        }
    }
}

/// The accumulated word as a token sequence: one `Word` if it is non-empty,
/// nothing otherwise.
pub open spec fn spec_flush_word(word: Seq<char>) -> Seq<RawTokenModel> {
    if word.len() > 0 {
        seq![RawTokenModel::Word(word)]
    } else {
        seq![]
    }
}

/// The tokens produced from position `i` of `s` onward, starting in `state`
/// with `word` already accumulated. At the end of the line the pending word
/// is flushed whatever the state: an unterminated quote is recovered, not
/// reported.
pub open spec fn spec_lex_from(s: Seq<char>, i: int, state: LexState, word: Seq<char>) -> Seq<
    RawTokenModel,
>
    decreases s.len() - i,
{
    if i < 0 || i >= s.len() {
        spec_flush_word(word)
    } else {
        let c = s[i];
        match state {
            LexState::Normal => {
                if is_shell_space(c) {
                    spec_flush_word(word) + spec_lex_from(s, i + 1, LexState::Normal, seq![])
                } else if c == '|' {
                    spec_flush_word(word) + seq![RawTokenModel::Pipe] + spec_lex_from(
                        s,
                        i + 1,
                        LexState::Normal,
                        seq![],
                    )
                } else if c == '>' || c == '<' {
                    let next = if i + 1 < s.len() {
                        Some(s[i + 1])
                    } else {
                        None
                    };
                    let op_extra = spec_redirect_op(c, next);
                    spec_flush_word(word) + seq![RawTokenModel::Redirect(op_extra.0)]
                        + spec_lex_from(s, i + 1 + op_extra.1, LexState::Normal, seq![])
                } else if c == '\'' {
                    spec_lex_from(s, i + 1, LexState::SingleQuote, word)
                } else if c == '"' {
                    spec_lex_from(s, i + 1, LexState::DoubleQuote, word)
                } else if c == '\\' {
                    spec_lex_from(s, i + 1, LexState::Escaping, word)
                } else {
                    spec_lex_from(s, i + 1, LexState::Normal, word.push(c))
                }
            },
            LexState::SingleQuote => {
                if c == '\'' {
                    spec_lex_from(s, i + 1, LexState::Normal, word)
                } else {
                    spec_lex_from(s, i + 1, LexState::SingleQuote, word.push(c))
                }
            },
            LexState::DoubleQuote => {
                if c == '"' {
                    spec_lex_from(s, i + 1, LexState::Normal, word)
                } else if c == '\\' {
                    spec_lex_from(s, i + 1, LexState::DoubleQuoteEscaping, word)
                } else {
                    spec_lex_from(s, i + 1, LexState::DoubleQuote, word.push(c))
                }
            },
            LexState::Escaping => spec_lex_from(s, i + 1, LexState::Normal, word.push(c)),
            LexState::DoubleQuoteEscaping => {
                if c == '"' || c == '\\' || c == '$' || c == '`' {
                    spec_lex_from(s, i + 1, LexState::DoubleQuote, word.push(c))
                } else {
                    spec_lex_from(s, i + 1, LexState::DoubleQuote, word.push('\\').push(c))
                }
            },
        }
    }
}

/// The token sequence of a whole line.
pub open spec fn spec_tokenize(s: Seq<char>) -> Seq<RawTokenModel> {
    spec_lex_from(s, 0, LexState::Normal, seq![])
}

proof fn lemma_sq_passthrough(full: Seq<char>, i: int, e: int, word: Seq<char>)
    requires
        0 <= i <= e < full.len(),
        full[e] == '\'',
        forall|k: int| i <= k < e ==> full[k] != '\'',
    ensures
        spec_lex_from(full, i, LexState::SingleQuote, word) == spec_lex_from(
            full,
            e + 1,
            LexState::Normal,
            word + full.subrange(i, e),
        ),
    decreases e - i,
{
    if i == e {
        assert(word + full.subrange(i, e) =~= word);
    } else {
        assert(full[i] != '\'');
        lemma_sq_passthrough(full, i + 1, e, word.push(full[i]));
        assert(word.push(full[i]) + full.subrange(i + 1, e) =~= word + full.subrange(i, e));
    }
}

/// Everything between single quotes reaches the word exactly as written:
/// whitespace runs, operators, backslashes and double quotes included.
pub proof fn lemma_single_quotes_verbatim(s: Seq<char>)
    requires
        s.len() > 0,
        forall|k: int| 0 <= k < s.len() ==> s[k] != '\'',
    ensures
        spec_tokenize(seq!['\''] + s + seq!['\'']) == seq![RawTokenModel::Word(s)],
{
    let full = seq!['\''] + s + seq!['\''];
    assert(full[0] == '\'');
    assert(!is_shell_space('\'') && '\'' != '|' && '\'' != '>' && '\'' != '<');
    assert(full[s.len() as int + 1] == '\'');
    assert(forall|k: int| 1 <= k < s.len() + 1 ==> full[k] == s[k - 1] && s[k - 1] != '\'');
    lemma_sq_passthrough(full, 1, s.len() as int + 1, seq![]);
    assert(seq![] + full.subrange(1, s.len() as int + 1) =~= s);
    assert(spec_tokenize(full) == spec_lex_from(full, 1, LexState::SingleQuote, seq![]));
    assert(spec_lex_from(full, s.len() as int + 2, LexState::Normal, s) == spec_flush_word(s));
}

/// Two adjacent single-quoted fragments concatenate into one word: no
/// separator is emitted between them.
pub proof fn lemma_adjacent_quoted_concat(a: Seq<char>, b: Seq<char>)
    requires
        a.len() + b.len() > 0,
        forall|k: int| 0 <= k < a.len() ==> a[k] != '\'',
        forall|k: int| 0 <= k < b.len() ==> b[k] != '\'',
    ensures
        spec_tokenize(
            seq!['\''] + a + seq!['\''] + seq!['\''] + b + seq!['\''],
        ) == seq![RawTokenModel::Word(a + b)],
{
    let full = seq!['\''] + a + seq!['\''] + seq!['\''] + b + seq!['\''];
    let al = a.len() as int;
    let bl = b.len() as int;
    assert(full.len() == al + bl + 4);
    assert(full[0] == '\'');
    assert(!is_shell_space('\'') && '\'' != '|' && '\'' != '>' && '\'' != '<');
    assert(full[al + 1] == '\'');
    assert(forall|k: int| 1 <= k < al + 1 ==> full[k] == a[k - 1] && a[k - 1] != '\'');
    assert(spec_tokenize(full) == spec_lex_from(full, 1, LexState::SingleQuote, seq![]));
    lemma_sq_passthrough(full, 1, al + 1, seq![]);
    assert(seq![] + full.subrange(1, al + 1) =~= a);
    assert(full[al + 2] == '\'');
    assert(spec_lex_from(full, al + 2, LexState::Normal, a) == spec_lex_from(
        full,
        al + 3,
        LexState::SingleQuote,
        a,
    ));
    assert(full[al + 3 + bl] == '\'');
    assert(forall|k: int| al + 3 <= k < al + 3 + bl ==> full[k] == b[k - (al + 3)] && b[k - (al
        + 3)] != '\'');
    lemma_sq_passthrough(full, al + 3, al + 3 + bl, a);
    assert(a + full.subrange(al + 3, al + 3 + bl) =~= a + b);
    assert(spec_lex_from(full, al + bl + 4, LexState::Normal, a + b) == spec_flush_word(a + b));
}

/// A character that neither separates words nor starts an operator, a
/// quote or an escape: it lands in the accumulated word unchanged.
pub open spec fn is_plain_word_char(c: char) -> bool {
    !is_shell_space(c) && c != '|' && c != '>' && c != '<' && c != '\'' && c != '"' && c != '\\'
}

proof fn lemma_word_region(full: Seq<char>, i: int, e: int, word: Seq<char>)
    requires
        0 <= i <= e <= full.len(),
        forall|k: int| i <= k < e ==> is_plain_word_char(#[trigger] full[k]),
    ensures
        spec_lex_from(full, i, LexState::Normal, word) == spec_lex_from(
            full,
            e,
            LexState::Normal,
            word + full.subrange(i, e),
        ),
    decreases e - i,
{
    if i == e {
        assert(word + full.subrange(i, e) =~= word);
    } else {
        assert(is_plain_word_char(full[i]));
        lemma_word_region(full, i + 1, e, word.push(full[i]));
        assert(word.push(full[i]) + full.subrange(i + 1, e) =~= word + full.subrange(i, e));
    }
}

proof fn lemma_space_region(full: Seq<char>, i: int, e: int)
    requires
        0 <= i <= e <= full.len(),
        forall|k: int| i <= k < e ==> is_shell_space(#[trigger] full[k]),
    ensures
        spec_lex_from(full, i, LexState::Normal, seq![]) == spec_lex_from(
            full,
            e,
            LexState::Normal,
            seq![],
        ),
    decreases e - i,
{
    if i < e {
        assert(spec_flush_word(seq![]) + spec_lex_from(full, i + 1, LexState::Normal, seq![])
            =~= spec_lex_from(full, i + 1, LexState::Normal, seq![]));
        lemma_space_region(full, i + 1, e);
    }
}

/// The whitespace-separated words of `s` from position `i` on, with `word`
/// accumulated: the canonical splitting that keeps each maximal run of
/// non-whitespace characters and drops the whitespace.
pub open spec fn spec_words_from(s: Seq<char>, i: int, word: Seq<char>) -> Seq<Seq<char>>
    decreases s.len() - i,
{
    if i < 0 || i >= s.len() {
        if word.len() > 0 {
            seq![word]
        } else {
            seq![]
        }
    } else if is_shell_space(s[i]) {
        if word.len() > 0 {
            seq![word] + spec_words_from(s, i + 1, seq![])
        } else {
            spec_words_from(s, i + 1, seq![])
        }
    } else {
        spec_words_from(s, i + 1, word.push(s[i]))
    }
}

/// The whitespace-separated words of a line.
pub open spec fn spec_words(s: Seq<char>) -> Seq<Seq<char>> {
    spec_words_from(s, 0, seq![])
}

/// Each word as a `Word` token.
pub open spec fn words_as_tokens(ws: Seq<Seq<char>>) -> Seq<RawTokenModel> {
    ws.map_values(|w: Seq<char>| RawTokenModel::Word(w))
}

/// No word is empty.
pub open spec fn all_nonempty(ws: Seq<Seq<char>>) -> bool {
    forall|j: int| 0 <= j < ws.len() ==> #[trigger] ws[j].len() > 0
}

proof fn lemma_plain_lex_is_words(s: Seq<char>, i: int, word: Seq<char>)
    requires
        0 <= i <= s.len(),
        forall|k: int|
            i <= k < s.len() ==> is_plain_word_char(#[trigger] s[k]) || is_shell_space(s[k]),
    ensures
        spec_lex_from(s, i, LexState::Normal, word) == words_as_tokens(spec_words_from(s, i, word)),
    decreases s.len() - i,
{
    if i >= s.len() {
        if word.len() > 0 {
            assert(words_as_tokens(seq![word]) =~= seq![RawTokenModel::Word(word)]);
        } else {
            assert(words_as_tokens(seq![]) =~= seq![]);
        }
    } else if is_shell_space(s[i]) {
        lemma_plain_lex_is_words(s, i + 1, seq![]);
        if word.len() > 0 {
            assert(words_as_tokens(seq![word] + spec_words_from(s, i + 1, seq![])) =~= seq![
                RawTokenModel::Word(word),
            ] + words_as_tokens(spec_words_from(s, i + 1, seq![])));
        } else {
            assert(spec_flush_word(word) + spec_lex_from(s, i + 1, LexState::Normal, seq![])
                =~= spec_lex_from(s, i + 1, LexState::Normal, seq![]));
        }
    } else {
        assert(is_plain_word_char(s[i]));
        lemma_plain_lex_is_words(s, i + 1, word.push(s[i]));
    }
}

proof fn lemma_words_nonempty(s: Seq<char>, i: int, word: Seq<char>)
    requires
        0 <= i <= s.len(),
    ensures
        all_nonempty(spec_words_from(s, i, word)),
    decreases s.len() - i,
{
    if i >= s.len() {
    } else if is_shell_space(s[i]) {
        lemma_words_nonempty(s, i + 1, seq![]);
        if word.len() > 0 {
            let rest = spec_words_from(s, i + 1, seq![]);
            assert forall|j: int| 0 <= j < (seq![word] + rest).len() implies #[trigger] (seq![word]
                + rest)[j].len() > 0 by {
                if j > 0 {
                    assert((seq![word] + rest)[j] == rest[j - 1]);
                }
            }
        }
    } else {
        lemma_words_nonempty(s, i + 1, word.push(s[i]));
    }
}

/// A line made only of plain word characters and whitespace lexes to
/// exactly its whitespace-separated words — same words, same order, none
/// empty — however long each whitespace run is.
pub proof fn lemma_plain_line_splits_on_whitespace(s: Seq<char>)
    requires
        forall|k: int|
            0 <= k < s.len() ==> is_plain_word_char(#[trigger] s[k]) || is_shell_space(s[k]),
    ensures
        spec_tokenize(s) == words_as_tokens(spec_words(s)),
        all_nonempty(spec_words(s)),
{
    lemma_plain_lex_is_words(s, 0, seq![]);
    lemma_words_nonempty(s, 0, seq![]);
}

/// A run of whitespace between two plain words separates them exactly as
/// one space would: the words of the line do not depend on the length of
/// the run.
pub proof fn lemma_whitespace_collapses(a: Seq<char>, b: Seq<char>, k: int)
    requires
        a.len() > 0,
        b.len() > 0,
        k >= 1,
        forall|j: int| 0 <= j < a.len() ==> is_plain_word_char(#[trigger] a[j]),
        forall|j: int| 0 <= j < b.len() ==> is_plain_word_char(#[trigger] b[j]),
    ensures
        spec_tokenize(a + Seq::new(k as nat, |j: int| ' ') + b) == seq![
            RawTokenModel::Word(a),
            RawTokenModel::Word(b),
        ],
{
    let sp = Seq::new(k as nat, |j: int| ' ');
    let full = a + sp + b;
    let al = a.len() as int;
    let bl = b.len() as int;
    assert(full.len() == al + k + bl);
    assert(forall|j: int| 0 <= j < al ==> full[j] == a[j]);
    assert(forall|j: int| al <= j < al + k ==> full[j] == ' ');
    assert(forall|j: int| al + k <= j < al + k + bl ==> full[j] == b[j - (al + k)]);
    lemma_word_region(full, 0, al, seq![]);
    assert(seq![] + full.subrange(0, al) =~= a);
    assert(is_shell_space(full[al]));
    assert(spec_lex_from(full, al, LexState::Normal, a) == spec_flush_word(a) + spec_lex_from(
        full,
        al + 1,
        LexState::Normal,
        seq![],
    ));
    lemma_space_region(full, al + 1, al + k);
    lemma_word_region(full, al + k, al + k + bl, seq![]);
    assert(seq![] + full.subrange(al + k, al + k + bl) =~= b);
    assert(spec_lex_from(full, al + k + bl, LexState::Normal, b) == spec_flush_word(b));
    assert(spec_flush_word(a) + spec_flush_word(b) =~= seq![
        RawTokenModel::Word(a),
        RawTokenModel::Word(b),
    ]);
}

/// Pushing a token onto a sequence extends its model by the token's model.
proof fn lemma_tokens_model_push(ts: Seq<RawToken>, t: RawToken)
    ensures
        tokens_model(ts.push(t)) =~= tokens_model(ts).push(t@),
{
}

/// Flushes the accumulated word: appends it as a `Word` token when it is
/// non-empty, and leaves the accumulator empty either way.
fn flush_word(tokens: &mut Vec<RawToken>, word: &mut String)
    ensures
        tokens_model(final(tokens)@) == tokens_model(old(tokens)@) + spec_flush_word(old(word)@),
        final(word)@ == Seq::<char>::empty(),
{
    if !word.as_str().is_empty() {
        let w = word.clone();
        *word = String::new();
        let t = RawToken::Word(w);
        let ghost tg = t;
        tokens.push(t);
        proof {
            lemma_tokens_model_push(old(tokens)@, tg);
            assert(tg@ == RawTokenModel::Word(old(word)@));
            assert(tokens_model(tokens@) =~= tokens_model(old(tokens)@) + spec_flush_word(
                old(word)@,
            ));
        }
    } else {
        proof {
            assert(old(word)@ =~= Seq::<char>::empty());
            assert(tokens_model(tokens@) =~= tokens_model(old(tokens)@) + spec_flush_word(
                old(word)@,
            ));
        }
    }
}

/// Reads the redirect operator that begins with `first`, given one character
/// of lookahead; the flag says whether that character was consumed.
pub fn parse_redirect_op(first: char, next: Option<char>) -> (r: (RedirectOp, bool))
    requires
        first == '>' || first == '<',
    ensures
        r.0 == spec_redirect_op(first, next).0,
        spec_redirect_op(first, next).1 == if r.1 {
            1int
        } else {
            0int
        },
{
    if first == '>' {
        match next {
            Some('>') => (RedirectOp::OutAppend, true),
            Some('&') => (RedirectOp::DupOut, true),
            _ => (RedirectOp::Out, false),
        }
    } else {
        match next {
            Some('<') => (RedirectOp::Heredoc, true),
            Some('&') => (RedirectOp::DupIn, true),
            _ => (RedirectOp::In, false),
        }
    }
}

/// The classification `parse_word` performs: a word of solely ASCII digits
/// whose value fits in a byte is a descriptor number, anything else stays a
/// word.
pub open spec fn spec_parse_word(s: Seq<char>) -> RawTokenModel {
    match spec_fd_of_word(s) {
        Some(n) => RawTokenModel::IoNumber(n),
        None => RawTokenModel::Word(s),
    }
}

/// Classifies one word, turning a small digit-only word into an `IoNumber`.
/// Position decides whether that reading is meaningful, so this runs in the
/// command builder's lookahead, never in the lexer itself.
pub fn parse_word(word: &str) -> (t: RawToken)
    ensures
        t@ == spec_parse_word(word@),
{
    match fd_of_word(word) {
        Some(n) => RawToken::IoNumber(n),
        None => RawToken::Word(word.to_owned()),
    }
}

/// Lexes one raw input line into raw tokens. Never fails: malformed quoting
/// is resolved by reading the rest of the line inside the open quote.
pub fn tokenize_line(line: &str) -> (tokens: Vec<RawToken>)
    ensures
        tokens_model(tokens@) == spec_tokenize(line@),
{
    let n = line.unicode_len();
    let mut tokens: Vec<RawToken> = Vec::new();
    let mut word = String::new();
    let mut state = LexState::Normal;
    let mut i: usize = 0;
    proof {
        assert(tokens_model(tokens@) =~= seq![]);
        assert(word@ =~= seq![]);
    }
    while i < n
        invariant
            n == line@.len(),
            0 <= i <= n,
            tokens_model(tokens@) + spec_lex_from(line@, i as int, state, word@) == spec_tokenize(
                line@,
            ),
        decreases n - i,
    {
        let ghost pre = tokens_model(tokens@);
        let ghost i0 = i as int;
        let ghost st0 = state;
        let ghost w0 = word@;
        let c = line.get_char(i);
        match state {
            LexState::Normal => {
                if is_space_char(c) {
                    flush_word(&mut tokens, &mut word);
                    i += 1;
                    proof {
                        assert((pre + spec_flush_word(w0)) + spec_lex_from(
                            line@,
                            i as int,
                            LexState::Normal,
                            word@,
                        ) =~= pre + spec_lex_from(line@, i0, st0, w0));
                    }
                } else if c == '|' {
                    flush_word(&mut tokens, &mut word);
                    let ghost mid = tokens@;
                    tokens.push(RawToken::Pipe);
                    i += 1;
                    proof {
                        lemma_tokens_model_push(mid, RawToken::Pipe);
                        assert(tokens_model(tokens@) =~= pre + spec_flush_word(w0) + seq![
                            RawTokenModel::Pipe,
                        ]);
                        assert((pre + spec_flush_word(w0) + seq![RawTokenModel::Pipe])
                            + spec_lex_from(line@, i as int, LexState::Normal, word@) =~= pre
                            + spec_lex_from(line@, i0, st0, w0));
                    }
                } else if c == '>' || c == '<' {
                    flush_word(&mut tokens, &mut word);
                    let next: Option<char> = if i + 1 < n {
                        Some(line.get_char(i + 1))
                    } else {
                        None
                    };
                    let (op, extra) = parse_redirect_op(c, next);
                    let ghost mid = tokens@;
                    tokens.push(RawToken::Redirect(op));
                    i = if extra {
                        i + 2
                    } else {
                        i + 1
                    };
                    proof {
                        lemma_tokens_model_push(mid, RawToken::Redirect(op));
                        assert(tokens_model(tokens@) =~= pre + spec_flush_word(w0) + seq![
                            RawTokenModel::Redirect(op),
                        ]);
                        assert((pre + spec_flush_word(w0) + seq![RawTokenModel::Redirect(op)])
                            + spec_lex_from(line@, i as int, LexState::Normal, word@) =~= pre
                            + spec_lex_from(line@, i0, st0, w0));
                    }
                } else if c == '\'' {
                    state = LexState::SingleQuote;
                    i += 1;
                } else if c == '"' {
                    state = LexState::DoubleQuote;
                    i += 1;
                } else if c == '\\' {
                    state = LexState::Escaping;
                    i += 1;
                } else {
                    string_push_char(&mut word, c);
                    i += 1;
                }
            },
            LexState::SingleQuote => {
                if c == '\'' {
                    state = LexState::Normal;
                } else {
                    string_push_char(&mut word, c);
                }
                i += 1;
            },
            LexState::DoubleQuote => {
                if c == '"' {
                    state = LexState::Normal;
                } else if c == '\\' {
                    state = LexState::DoubleQuoteEscaping;
                } else {
                    string_push_char(&mut word, c);
                }
                i += 1;
            },
            LexState::Escaping => {
                string_push_char(&mut word, c);
                state = LexState::Normal;
                i += 1;
            },
            LexState::DoubleQuoteEscaping => {
                if c == '"' || c == '\\' || c == '$' || c == '`' {
                    string_push_char(&mut word, c);
                } else {
                    string_push_char(&mut word, '\\');
                    string_push_char(&mut word, c);
                }
                state = LexState::DoubleQuote;
                i += 1;
            },
        }
    }
    flush_word(&mut tokens, &mut word);
    proof {
        assert(tokens_model(tokens@) =~= spec_tokenize(line@));
    }
    tokens
}

} // verus!
