//! The command model: one `Command` per pipeline stage, holding an argument
//! vector and an ordered list of redirections. Order of redirections is
//! semantically significant: later entries on the same file descriptor shadow
//! earlier ones, and duplications see the descriptors as already redirected.

use vstd::prelude::*;
use vstd::slice::slice_index_get;

use crate::lexer::{tokens_model, RawToken, RawTokenModel};
use crate::strutil::{fd_of_word, spec_fd_of_word};

verus! {

/// A redirection operator, purely descriptive.
#[derive(Debug, Clone, Copy, PartialEq, Eq, Structural)]
pub enum RedirectOp {
    /// `>`
    Out,
    /// `>>`
    OutAppend,
    /// `<`
    In,
    /// `<<`
    Heredoc,
    /// `>&`
    DupOut,
    /// `<&`
    DupIn,
}

/// Where a redirection points: a file path, another file descriptor,
/// a request to close the descriptor, or inline heredoc text.
#[derive(Debug, Clone)]
pub enum RedirectTarget {
    File(String),
    Fd(u8),
    Close,
    Heredoc(String),
}

/// One redirection: an optional explicit source descriptor (`None` means the
/// operator's default descriptor), the operator, and the target.
#[derive(Debug, Clone)]
pub struct Redirection {
    pub src_fd: Option<u8>,
    pub op: RedirectOp,
    pub target: RedirectTarget,
}

/// One pipeline stage: its argument vector and its ordered redirections.
#[derive(Debug, Clone)]
pub struct Command {
    pub argv: Vec<String>,
    pub redirections: Vec<Redirection>,
}

/// Mathematical model of a `RedirectTarget`.
pub enum TargetModel {
    File(Seq<char>),
    Fd(u8),
    Close,
    Heredoc(Seq<char>),
}

/// Mathematical model of a `Redirection`.
pub struct RedirectionModel {
    pub src_fd: Option<u8>,
    pub op: RedirectOp,
    pub target: TargetModel,
}

/// Mathematical model of a `Command`.
pub struct CommandModel {
    pub argv: Seq<Seq<char>>,
    pub redirections: Seq<RedirectionModel>,
}

impl View for RedirectTarget {
    type V = TargetModel;

    open spec fn view(&self) -> TargetModel {
        match self {
            RedirectTarget::File(p) => TargetModel::File(p@),
            RedirectTarget::Fd(n) => TargetModel::Fd(*n),
            RedirectTarget::Close => TargetModel::Close,
            RedirectTarget::Heredoc(t) => TargetModel::Heredoc(t@),
        }
    }
}

impl View for Redirection {
    type V = RedirectionModel;

    open spec fn view(&self) -> RedirectionModel {
        RedirectionModel { src_fd: self.src_fd, op: self.op, target: self.target@ }
    }
}

/// The models of an argument vector.
pub open spec fn argv_model(v: Seq<String>) -> Seq<Seq<char>> {
    v.map_values(|a: String| a@)
}

/// The models of a redirection list.
pub open spec fn redirs_model(v: Seq<Redirection>) -> Seq<RedirectionModel> {
    v.map_values(|r: Redirection| r@)
}

/// The models of a command list.
pub open spec fn cmds_model(v: Seq<Command>) -> Seq<CommandModel> {
    v.map_values(|c: Command| c@)
}

impl View for Command {
    type V = CommandModel;

    open spec fn view(&self) -> CommandModel {
        CommandModel {
            argv: argv_model(self.argv@),
            redirections: redirs_model(self.redirections@),
        }
    }
}

proof fn lemma_argv_model_push(v: Seq<String>, s: String)
    ensures
        argv_model(v.push(s)) =~= argv_model(v).push(s@),
{
}

proof fn lemma_redirs_model_push(v: Seq<Redirection>, r: Redirection)
    ensures
        redirs_model(v.push(r)) =~= redirs_model(v).push(r@),
{
}

proof fn lemma_cmds_model_push(v: Seq<Command>, c: Command)
    ensures
        cmds_model(v.push(c)) =~= cmds_model(v).push(c@),
{
}

/// The one way the command builder fails: a redirect operator without a
/// valid following target, or a descriptor number without a following
/// redirect operator.
#[derive(Debug, Clone, Copy, PartialEq, Eq, Structural)]
pub enum BuildError {
    MalformedRedirection,
}

/// The target a token denotes after a redirect operator: a bare `-` closes
/// the descriptor, a word of small digits names a descriptor, any other word
/// is a file path; a pipe or operator token is no target at all.
pub open spec fn spec_redirect_target(t: RawTokenModel) -> Option<TargetModel> {
    match t {
        RawTokenModel::Word(w) => if w == seq!['-'] {
            Some(TargetModel::Close)
        } else {
            match spec_fd_of_word(w) {
                Some(n) => Some(TargetModel::Fd(n)),
                None => Some(TargetModel::File(w)),
            }
        },
        RawTokenModel::IoNumber(n) => Some(TargetModel::Fd(n)),
        RawTokenModel::Pipe => None,
        RawTokenModel::Redirect(_) => None,
    }
}

/// The model of an optional target.
pub open spec fn opt_target_model(r: Option<RedirectTarget>) -> Option<TargetModel> {
    match r {
        Some(t) => Some(t@),
        None => None,
    }
}

/// Reads the target a token denotes after a redirect operator, or `None`
/// when the token cannot serve as one.
pub fn parse_redirect_target(token: &RawToken) -> (r: Option<RedirectTarget>)
    ensures
        opt_target_model(r) == spec_redirect_target(token@),
{
    match token {
        RawToken::Word(w) => {
            let is_dash = w.as_str().unicode_len() == 1 && w.as_str().get_char(0) == '-';
            if is_dash {
                proof {
                    assert(w@ =~= seq!['-']);
                }
                Some(RedirectTarget::Close)
            } else {
                proof {
                    assert(w@ != seq!['-']);
                }
                match fd_of_word(w.as_str()) {
                    Some(n) => Some(RedirectTarget::Fd(n)),
                    None => Some(RedirectTarget::File(w.clone())),
                }
            }
        },
        RawToken::IoNumber(n) => Some(RedirectTarget::Fd(*n)),
        RawToken::Pipe => None,
        RawToken::Redirect(_) => None,
    }
}

/// Appends the redirection read at position `j` (its target token) with the
/// given source descriptor and operator, if the target token is valid.
pub open spec fn spec_take_redirect(
    toks: Seq<RawTokenModel>,
    j: int,
    fd: Option<u8>,
    op: RedirectOp,
    redirs: Seq<RedirectionModel>,
) -> Option<Seq<RedirectionModel>> {
    if 0 <= j < toks.len() {
        match spec_redirect_target(toks[j]) {
            Some(t) => Some(redirs.push(RedirectionModel { src_fd: fd, op, target: t })),
            None => None,
        }
    } else {
        None
    }
}

/// Reads the redirect target at position `j` and records the redirection;
/// reports whether the target token was present and valid.
fn take_redirect(
    tokens: &[RawToken],
    j: usize,
    fd: Option<u8>,
    op: RedirectOp,
    redirs: &mut Vec<Redirection>,
) -> (ok: bool)
    ensures
        ok == (spec_take_redirect(
            tokens_model(tokens@),
            j as int,
            fd,
            op,
            redirs_model(old(redirs)@),
        ) is Some),
        ok ==> Some(redirs_model(final(redirs)@)) == spec_take_redirect(
            tokens_model(tokens@),
            j as int,
            fd,
            op,
            redirs_model(old(redirs)@),
        ),
        !ok ==> final(redirs)@ == old(redirs)@,
{
    if j < tokens.len() {
        let t = slice_index_get(tokens, j);
        match parse_redirect_target(t) {
            Some(target) => {
                let r = Redirection { src_fd: fd, op, target };
                let ghost rg = r;
                redirs.push(r);
                proof {
                    lemma_redirs_model_push(old(redirs)@, rg);
                }
                true
            },
            None => false,
        }
    } else {
        false
    }
}

/// The command built from the tokens of one pipeline stage, scanned from
/// position `i` with `argv` and `redirs` already accumulated. A word
/// followed by a redirect operator is reclassified as a descriptor number
/// when it reads as one; a pipe token does not belong to a single stage.
pub open spec fn spec_stage_from(
    toks: Seq<RawTokenModel>,
    i: int,
    argv: Seq<Seq<char>>,
    redirs: Seq<RedirectionModel>,
) -> Result<CommandModel, BuildError>
    decreases toks.len() - i,
{
    if i < 0 || i >= toks.len() {
        Ok(CommandModel { argv, redirections: redirs })
    } else {
        match toks[i] {
            RawTokenModel::Word(w) => {
                if i + 1 < toks.len() && (toks[i + 1] is Redirect) && (spec_fd_of_word(w) is Some) {
                    match (toks[i + 1], spec_fd_of_word(w)) {
                        (RawTokenModel::Redirect(op), Some(fd)) => match spec_take_redirect(
                            toks,
                            i + 2,
                            Some(fd),
                            op,
                            redirs,
                        ) {
                            Some(rs) => spec_stage_from(toks, i + 3, argv, rs),
                            None => Err(BuildError::MalformedRedirection),
                        },
                        _ => Err(BuildError::MalformedRedirection),
                    }
                } else {
                    spec_stage_from(toks, i + 1, argv.push(w), redirs)
                }
            },
            RawTokenModel::IoNumber(n) => {
                if i + 1 < toks.len() && (toks[i + 1] is Redirect) {
                    match toks[i + 1] {
                        RawTokenModel::Redirect(op) => match spec_take_redirect(
                            toks,
                            i + 2,
                            Some(n),
                            op,
                            redirs,
                        ) {
                            Some(rs) => spec_stage_from(toks, i + 3, argv, rs),
                            None => Err(BuildError::MalformedRedirection),
                        },
                        _ => Err(BuildError::MalformedRedirection),
                    }
                } else {
                    Err(BuildError::MalformedRedirection)
                }
            },
            RawTokenModel::Redirect(op) => match spec_take_redirect(toks, i + 1, None, op, redirs) {
                Some(rs) => spec_stage_from(toks, i + 2, argv, rs),
                None => Err(BuildError::MalformedRedirection),
            },
            RawTokenModel::Pipe => Err(BuildError::MalformedRedirection),
        }
    }
}

/// The command built from the tokens of one pipeline stage.
pub open spec fn spec_stage(toks: Seq<RawTokenModel>) -> Result<CommandModel, BuildError> {
    spec_stage_from(toks, 0, seq![], seq![])
}

/// No pipe token occurs in the sequence.
pub open spec fn no_pipes(toks: Seq<RawTokenModel>) -> bool {
    forall|k: int| 0 <= k < toks.len() ==> !(#[trigger] toks[k] is Pipe)
}

/// The model of a one-stage build result.
pub open spec fn stage_result_model(r: Result<Command, BuildError>) -> Result<
    CommandModel,
    BuildError,
> {
    match r {
        Ok(c) => Ok(c@),
        Err(e) => Err(e),
    }
}

/// Groups the tokens of one pipeline stage into a command: words join the
/// argument vector, and each redirect operator takes the following token as
/// its target, with an optional explicit descriptor number before it.
pub fn parse_simple_command(tokens: &[RawToken]) -> (r: Result<Command, BuildError>)
    requires
        no_pipes(tokens_model(tokens@)),
    ensures
        stage_result_model(r) == spec_stage(tokens_model(tokens@)),
{
    let ghost ts = tokens_model(tokens@);
    let mut argv: Vec<String> = Vec::new();
    let mut redirs: Vec<Redirection> = Vec::new();
    let mut i: usize = 0;
    proof {
        assert(argv_model(argv@) =~= seq![]);
        assert(redirs_model(redirs@) =~= seq![]);
    }
    while i < tokens.len()
        invariant
            ts == tokens_model(tokens@),
            ts.len() == tokens@.len(),
            0 <= i <= tokens.len(),
            spec_stage_from(ts, i as int, argv_model(argv@), redirs_model(redirs@)) == spec_stage(
                ts,
            ),
        decreases tokens.len() - i,
    {
        let ghost am0 = argv_model(argv@);
        let t = slice_index_get(tokens, i);
        match t {
            RawToken::Word(w) => {
                let mut took = false;
                if i + 1 < tokens.len() {
                    let t2 = slice_index_get(tokens, i + 1);
                    if let RawToken::Redirect(op) = t2 {
                        if let Some(fd) = fd_of_word(w.as_str()) {
                            took = true;
                            if take_redirect(tokens, i + 2, Some(fd), *op, &mut redirs) {
                                i += 3;
                            } else {
                                return Err(BuildError::MalformedRedirection);
                            }
                        }
                    }
                }
                if !took {
                    let wc = w.clone();
                    let ghost wg = wc;
                    let ghost av0 = argv@;
                    argv.push(wc);
                    proof {
                        lemma_argv_model_push(av0, wg);
                    }
                    i += 1;
                }
            },
            RawToken::IoNumber(n) => {
                let mut ok = false;
                if i + 1 < tokens.len() {
                    let t2 = slice_index_get(tokens, i + 1);
                    if let RawToken::Redirect(op) = t2 {
                        ok = true;
                        if take_redirect(tokens, i + 2, Some(*n), *op, &mut redirs) {
                            i += 3;
                        } else {
                            return Err(BuildError::MalformedRedirection);
                        }
                    }
                }
                if !ok {
                    return Err(BuildError::MalformedRedirection);
                }
            },
            RawToken::Redirect(op) => {
                if take_redirect(tokens, i + 1, None, *op, &mut redirs) {
                    i += 2;
                } else {
                    return Err(BuildError::MalformedRedirection);
                }
            },
            RawToken::Pipe => {
                return Err(BuildError::MalformedRedirection);
            },
        }
    }
    Ok(Command { argv, redirections: redirs })
}

/// The pipeline built from a whole token sequence, scanned from position
/// `i`. A pipe token closes the current stage when its argument vector is
/// non-empty and opens a new one; at the end, a stage with any content is
/// flushed.
pub open spec fn spec_build_from(
    toks: Seq<RawTokenModel>,
    i: int,
    argv: Seq<Seq<char>>,
    redirs: Seq<RedirectionModel>,
    done: Seq<CommandModel>,
) -> Result<Seq<CommandModel>, BuildError>
    decreases toks.len() - i,
{
    if i < 0 || i >= toks.len() {
        if argv.len() > 0 || redirs.len() > 0 {
            Ok(done.push(CommandModel { argv, redirections: redirs }))
        } else {
            Ok(done)
        }
    } else {
        match toks[i] {
            RawTokenModel::Word(w) => {
                if i + 1 < toks.len() && (toks[i + 1] is Redirect) && (spec_fd_of_word(w) is Some) {
                    match (toks[i + 1], spec_fd_of_word(w)) {
                        (RawTokenModel::Redirect(op), Some(fd)) => match spec_take_redirect(
                            toks,
                            i + 2,
                            Some(fd),
                            op,
                            redirs,
                        ) {
                            Some(rs) => spec_build_from(toks, i + 3, argv, rs, done),
                            None => Err(BuildError::MalformedRedirection),
                        },
                        _ => Err(BuildError::MalformedRedirection),
                    }
                } else {
                    spec_build_from(toks, i + 1, argv.push(w), redirs, done)
                }
            },
            RawTokenModel::IoNumber(n) => {
                if i + 1 < toks.len() && (toks[i + 1] is Redirect) {
                    match toks[i + 1] {
                        RawTokenModel::Redirect(op) => match spec_take_redirect(
                            toks,
                            i + 2,
                            Some(n),
                            op,
                            redirs,
                        ) {
                            Some(rs) => spec_build_from(toks, i + 3, argv, rs, done),
                            None => Err(BuildError::MalformedRedirection),
                        },
                        _ => Err(BuildError::MalformedRedirection),
                    }
                } else {
                    Err(BuildError::MalformedRedirection)
                }
            },
            RawTokenModel::Redirect(op) => match spec_take_redirect(
                toks,
                i + 1,
                None,
                op,
                redirs,
            ) {
                Some(rs) => spec_build_from(toks, i + 2, argv, rs, done),
                None => Err(BuildError::MalformedRedirection),
            },
            RawTokenModel::Pipe => {
                if argv.len() > 0 {
                    spec_build_from(
                        toks,
                        i + 1,
                        seq![],
                        seq![],
                        done.push(CommandModel { argv, redirections: redirs }),
                    )
                } else {
                    spec_build_from(toks, i + 1, argv, redirs, done)
                }
            },
        }
    }
}

/// The pipeline built from a whole token sequence.
pub open spec fn spec_build(toks: Seq<RawTokenModel>) -> Result<Seq<CommandModel>, BuildError> {
    spec_build_from(toks, 0, seq![], seq![], seq![])
}

/// The model of a build result.
pub open spec fn build_result_model(r: Result<Vec<Command>, BuildError>) -> Result<
    Seq<CommandModel>,
    BuildError,
> {
    match r {
        Ok(v) => Ok(cmds_model(v@)),
        Err(e) => Err(e),
    }
}

/// Groups a whole token sequence into the ordered commands of a pipeline,
/// one per stage between pipe tokens.
pub fn build(tokens: &Vec<RawToken>) -> (r: Result<Vec<Command>, BuildError>)
    ensures
        build_result_model(r) == spec_build(tokens_model(tokens@)),
{
    let ghost ts = tokens_model(tokens@);
    let mut cmds: Vec<Command> = Vec::new();
    let mut argv: Vec<String> = Vec::new();
    let mut redirs: Vec<Redirection> = Vec::new();
    let mut i: usize = 0;
    proof {
        assert(argv_model(argv@) =~= seq![]);
        assert(redirs_model(redirs@) =~= seq![]);
        assert(cmds_model(cmds@) =~= seq![]);
    }
    while i < tokens.len()
        invariant
            ts == tokens_model(tokens@),
            ts.len() == tokens@.len(),
            0 <= i <= tokens.len(),
            spec_build_from(
                ts,
                i as int,
                argv_model(argv@),
                redirs_model(redirs@),
                cmds_model(cmds@),
            ) == spec_build(ts),
        decreases tokens.len() - i,
    {
        let t = slice_index_get(tokens.as_slice(), i);
        match t {
            RawToken::Word(w) => {
                let mut took = false;
                if i + 1 < tokens.len() {
                    let t2 = slice_index_get(tokens.as_slice(), i + 1);
                    if let RawToken::Redirect(op) = t2 {
                        if let Some(fd) = fd_of_word(w.as_str()) {
                            took = true;
                            if take_redirect(tokens.as_slice(), i + 2, Some(fd), *op, &mut redirs) {
                                i += 3;
                            } else {
                                return Err(BuildError::MalformedRedirection);
                            }
                        }
                    }
                }
                if !took {
                    let wc = w.clone();
                    let ghost wg = wc;
                    let ghost av0 = argv@;
                    argv.push(wc);
                    proof {
                        lemma_argv_model_push(av0, wg);
                    }
                    i += 1;
                }
            },
            RawToken::IoNumber(n) => {
                let mut ok = false;
                if i + 1 < tokens.len() {
                    let t2 = slice_index_get(tokens.as_slice(), i + 1);
                    if let RawToken::Redirect(op) = t2 {
                        ok = true;
                        if take_redirect(tokens.as_slice(), i + 2, Some(*n), *op, &mut redirs) {
                            i += 3;
                        } else {
                            return Err(BuildError::MalformedRedirection);
                        }
                    }
                }
                if !ok {
                    return Err(BuildError::MalformedRedirection);
                }
            },
            RawToken::Redirect(op) => {
                if take_redirect(tokens.as_slice(), i + 1, None, *op, &mut redirs) {
                    i += 2;
                } else {
                    return Err(BuildError::MalformedRedirection);
                }
            },
            RawToken::Pipe => {
                if argv.len() > 0 {
                    let c = Command { argv, redirections: redirs };
                    let ghost cg = c;
                    let ghost cs0 = cmds@;
                    cmds.push(c);
                    argv = Vec::new();
                    redirs = Vec::new();
                    proof {
                        lemma_cmds_model_push(cs0, cg);
                        assert(argv_model(argv@) =~= seq![]);
                        assert(redirs_model(redirs@) =~= seq![]);
                    }
                }
                i += 1;
            },
        }
    }
    if argv.len() > 0 || redirs.len() > 0 {
        let c = Command { argv, redirections: redirs };
        let ghost cg = c;
        let ghost cs0 = cmds@;
        cmds.push(c);
        proof {
            lemma_cmds_model_push(cs0, cg);
        }
    }
    Ok(cmds)
}

/// A stage with some content: arguments to run, or at least a redirection.
pub open spec fn stage_populated(c: CommandModel) -> bool {
    c.argv.len() > 0 || c.redirections.len() > 0
}

proof fn lemma_build_from_populated(
    toks: Seq<RawTokenModel>,
    i: int,
    argv: Seq<Seq<char>>,
    redirs: Seq<RedirectionModel>,
    done: Seq<CommandModel>,
)
    requires
        forall|j: int| 0 <= j < done.len() ==> stage_populated(#[trigger] done[j]),
    ensures
        spec_build_from(toks, i, argv, redirs, done) matches Ok(cmds) ==> forall|j: int|
            0 <= j < cmds.len() ==> stage_populated(#[trigger] cmds[j]),
    decreases toks.len() - i,
{
    if i < 0 || i >= toks.len() {
    } else {
        match toks[i] {
            RawTokenModel::Word(w) => {
                if i + 1 < toks.len() && (toks[i + 1] is Redirect) && (spec_fd_of_word(w) is Some) {
                    match (toks[i + 1], spec_fd_of_word(w)) {
                        (RawTokenModel::Redirect(op), Some(fd)) => {
                            match spec_take_redirect(toks, i + 2, Some(fd), op, redirs) {
                                Some(rs) => {
                                    lemma_build_from_populated(toks, i + 3, argv, rs, done);
                                },
                                None => {},
                            }
                        },
                        _ => {},
                    }
                } else {
                    lemma_build_from_populated(toks, i + 1, argv.push(w), redirs, done);
                }
            },
            RawTokenModel::IoNumber(n) => {
                if i + 1 < toks.len() && (toks[i + 1] is Redirect) {
                    match toks[i + 1] {
                        RawTokenModel::Redirect(op) => {
                            match spec_take_redirect(toks, i + 2, Some(n), op, redirs) {
                                Some(rs) => {
                                    lemma_build_from_populated(toks, i + 3, argv, rs, done);
                                },
                                None => {},
                            }
                        },
                        _ => {},
                    }
                }
            },
            RawTokenModel::Redirect(op) => {
                match spec_take_redirect(toks, i + 1, None, op, redirs) {
                    Some(rs) => {
                        lemma_build_from_populated(toks, i + 2, argv, rs, done);
                    },
                    None => {},
                }
            },
            RawTokenModel::Pipe => {
                if argv.len() > 0 {
                    lemma_build_from_populated(
                        toks,
                        i + 1,
                        seq![],
                        seq![],
                        done.push(CommandModel { argv, redirections: redirs }),
                    );
                } else {
                    lemma_build_from_populated(toks, i + 1, argv, redirs, done);
                }
            },
        }
    }
}

/// Lexing any line and building its pipeline is total: it yields either a
/// command sequence whose every stage has some content, or the
/// malformed-redirection diagnosis — never anything else.
pub proof fn lemma_tokenize_build_total(line: Seq<char>)
    ensures
        match spec_build(crate::lexer::spec_tokenize(line)) {
            Ok(cmds) => forall|j: int|
                0 <= j < cmds.len() ==> stage_populated(#[trigger] cmds[j]),
            Err(e) => e == BuildError::MalformedRedirection,
        },
{
    lemma_build_from_populated(crate::lexer::spec_tokenize(line), 0, seq![], seq![], seq![]);
}

} // verus!
