//! The pure wiring logic of the pipeline executor. For one stage of a
//! pipeline it computes where every file descriptor points once the stage's
//! redirections have been applied in their recorded order: later entries on
//! the same descriptor shadow earlier ones, and a duplication sees the
//! descriptors as already redirected by the entries before it. The caller
//! realizes the finished table with actual pipes, files and processes.

use vstd::prelude::*;

verus! {

use crate::command::{Command, CommandModel, Redirection, RedirectionModel, RedirectOp, TargetModel};

/// Where one file descriptor of one stage points.
#[derive(Debug)]
pub enum Route {
    /// Empty input: the first stage's default stdin.
    Null,
    /// The pipe from the previous stage's output.
    PipePrev,
    /// The pipe feeding the next stage's input.
    PipeNext,
    /// The shell's own standard output.
    Terminal,
    /// The shell's own standard error.
    TerminalErr,
    /// A file opened for reading.
    ReadFile(String),
    /// A file opened for writing, and whether to append rather than
    /// truncate.
    WriteFile(String, bool),
    /// Inline text supplied as input.
    HeredocText(String),
    /// The descriptor is closed for this stage.
    Closed,
}

/// Mathematical model of a `Route`.
pub enum RouteModel {
    Null,
    PipePrev,
    PipeNext,
    Terminal,
    TerminalErr,
    ReadFile(Seq<char>),
    WriteFile(Seq<char>, bool),
    HeredocText(Seq<char>),
    Closed,
}

impl View for Route {
    type V = RouteModel;

    open spec fn view(&self) -> RouteModel {
        match self {
            Route::Null => RouteModel::Null,
            Route::PipePrev => RouteModel::PipePrev,
            Route::PipeNext => RouteModel::PipeNext,
            Route::Terminal => RouteModel::Terminal,
            Route::TerminalErr => RouteModel::TerminalErr,
            Route::ReadFile(p) => RouteModel::ReadFile(p@),
            Route::WriteFile(p, a) => RouteModel::WriteFile(p@, *a),
            Route::HeredocText(t) => RouteModel::HeredocText(t@),
            Route::Closed => RouteModel::Closed,
        }
    }
}

impl Route {
    /// An equal route (each variant's text copied).
    pub fn duplicate(&self) -> (r: Route)
        ensures
            r@ == self@,
    {
        match self {
            Route::Null => Route::Null,
            Route::PipePrev => Route::PipePrev,
            Route::PipeNext => Route::PipeNext,
            Route::Terminal => Route::Terminal,
            Route::TerminalErr => Route::TerminalErr,
            Route::ReadFile(p) => Route::ReadFile(p.clone()),
            Route::WriteFile(p, a) => Route::WriteFile(p.clone(), *a),
            Route::HeredocText(t) => Route::HeredocText(t.clone()),
            Route::Closed => Route::Closed,
        }
    }
}

/// The models of a descriptor/route entry list.
pub open spec fn entries_model(v: Seq<(u8, Route)>) -> Seq<(u8, RouteModel)> {
    v.map_values(|p: (u8, Route)| (p.0, p.1@))
}

/// The map an entry list denotes: each entry overrides the earlier ones.
pub open spec fn table_map(s: Seq<(u8, RouteModel)>) -> Map<u8, RouteModel>
    decreases s.len(),
{
    if s.len() == 0 {
        Map::empty()
    } else {
        table_map(s.drop_last()).insert(s.last().0, s.last().1)
    }
}

/// One stage's descriptor table: where each established descriptor points.
#[derive(Debug)]
pub struct FdTable {
    entries: Vec<(u8, Route)>,
}

impl View for FdTable {
    type V = Map<u8, RouteModel>;

    closed spec fn view(&self) -> Map<u8, RouteModel> {
        table_map(entries_model(self.entries@))
    }
}

impl FdTable {
    /// The empty table: no descriptor established.
    pub fn empty() -> (t: FdTable)
        ensures
            t@ == Map::<u8, RouteModel>::empty(),
    {
        let t = FdTable { entries: Vec::new() };
        proof {
            assert(entries_model(t.entries@) =~= seq![]);
        }
        t
    }

    /// Points `fd` at `route`, overriding any earlier entry.
    pub fn set(&mut self, fd: u8, route: Route)
        ensures
            final(self)@ == old(self)@.insert(fd, route@),
    {
        let ghost e0 = self.entries@;
        let ghost rg = (fd, route@);
        self.entries.push((fd, route));
        proof {
            assert(entries_model(self.entries@) =~= entries_model(e0).push(rg));
            assert(entries_model(e0).push(rg).drop_last() =~= entries_model(e0));
        }
    }

    /// The route `fd` currently points at, or `None` when `fd` was never
    /// established.
    pub fn lookup(&self, fd: u8) -> (r: Option<&Route>)
        ensures
            match r {
                Some(route) => self@.contains_key(fd) && self@[fd] == route@,
                None => !self@.contains_key(fd),
            },
    {
        let ghost full = entries_model(self.entries@);
        let mut j: usize = self.entries.len();
        proof {
            assert(full.take(self.entries@.len() as int) =~= full);
        }
        while j > 0
            invariant
                full == entries_model(self.entries@),
                full.len() == self.entries@.len(),
                0 <= j <= self.entries@.len(),
                table_map(full).contains_key(fd) == table_map(full.take(j as int)).contains_key(
                    fd,
                ),
                table_map(full).contains_key(fd) ==> table_map(full)[fd] == table_map(
                    full.take(j as int),
                )[fd],
            decreases j,
        {
            j -= 1;
            let e = &self.entries[j];
            proof {
                assert(full.take(j + 1).drop_last() =~= full.take(j as int));
                assert(full.take(j + 1).last() == full[j as int]);
            }
            if e.0 == fd {
                return Some(&e.1);
            }
        }
        proof {
            assert(full.take(0) =~= seq![]);
        }
        None
    }
}

/// The descriptor an operator redirects when none is given: 0 for the
/// input-class operators, 1 for the output-class ones.
pub open spec fn spec_default_fd(op: RedirectOp) -> u8 {
    match op {
        RedirectOp::Out | RedirectOp::OutAppend | RedirectOp::DupOut => 1u8,
        RedirectOp::In | RedirectOp::Heredoc | RedirectOp::DupIn => 0u8,
    }
}

/// The descriptor an operator redirects when none is given.
pub fn default_fd(op: RedirectOp) -> (fd: u8)
    ensures
        fd == spec_default_fd(op),
{
    match op {
        RedirectOp::Out | RedirectOp::OutAppend | RedirectOp::DupOut => 1,
        RedirectOp::In | RedirectOp::Heredoc | RedirectOp::DupIn => 0,
    }
}

/// Applying a redirection fails only by duplicating from a descriptor that
/// was never established; that aborts the stage alone.
#[derive(Debug, Clone, Copy, PartialEq, Eq, Structural)]
pub enum WiringError {
    UnknownFd(u8),
}

/// One redirection applied to a descriptor table. A `-` target closes the
/// effective descriptor; a descriptor target duplicates whatever that
/// descriptor currently refers to, and fails if it refers to nothing; a
/// file target opens the file for writing (truncating or appending) under
/// an output-class operator, for reading under `<` or `<&`, and as inline
/// text under a heredoc.
pub open spec fn spec_apply_redirection(m: Map<u8, RouteModel>, r: RedirectionModel) -> Result<
    Map<u8, RouteModel>,
    WiringError,
> {
    let fd = match r.src_fd {
        Some(n) => n,
        None => spec_default_fd(r.op),
    };
    match r.target {
        TargetModel::Close => Ok(m.insert(fd, RouteModel::Closed)),
        TargetModel::Fd(n) => if m.contains_key(n) {
            Ok(m.insert(fd, m[n]))
        } else {
            Err(WiringError::UnknownFd(n))
        },
        TargetModel::Heredoc(t) => Ok(m.insert(fd, RouteModel::HeredocText(t))),
        TargetModel::File(p) => match r.op {
            RedirectOp::Out | RedirectOp::DupOut => Ok(
                m.insert(fd, RouteModel::WriteFile(p, false)),
            ),
            RedirectOp::OutAppend => Ok(m.insert(fd, RouteModel::WriteFile(p, true))),
            RedirectOp::In | RedirectOp::DupIn => Ok(m.insert(fd, RouteModel::ReadFile(p))),
            RedirectOp::Heredoc => Ok(m.insert(fd, RouteModel::HeredocText(p))),
        },
    }
}

/// Applies one redirection to the table, in place.
pub fn apply_redirection(table: &mut FdTable, r: &Redirection) -> (res: Result<(), WiringError>)
    ensures
        match res {
            Ok(()) => Ok::<Map<u8, RouteModel>, WiringError>(final(table)@)
                == spec_apply_redirection(old(table)@, r@),
            Err(e) => Err::<Map<u8, RouteModel>, WiringError>(e) == spec_apply_redirection(
                old(table)@,
                r@,
            ) && final(table)@ == old(table)@,
        },
{
    let fd: u8 = match r.src_fd {
        Some(n) => n,
        None => default_fd(r.op),
    };
    match &r.target {
        crate::command::RedirectTarget::Close => {
            table.set(fd, Route::Closed);
            Ok(())
        },
        crate::command::RedirectTarget::Fd(n) => {
            let found = match table.lookup(*n) {
                Some(route) => Some(route.duplicate()),
                None => None,
            };
            match found {
                Some(route) => {
                    table.set(fd, route);
                    Ok(())
                },
                None => Err(WiringError::UnknownFd(*n)),
            }
        },
        crate::command::RedirectTarget::Heredoc(t) => {
            table.set(fd, Route::HeredocText(t.clone()));
            Ok(())
        },
        crate::command::RedirectTarget::File(p) => {
            match r.op {
                RedirectOp::Out | RedirectOp::DupOut => {
                    table.set(fd, Route::WriteFile(p.clone(), false));
                },
                RedirectOp::OutAppend => {
                    table.set(fd, Route::WriteFile(p.clone(), true));
                },
                RedirectOp::In | RedirectOp::DupIn => {
                    table.set(fd, Route::ReadFile(p.clone()));
                },
                RedirectOp::Heredoc => {
                    table.set(fd, Route::HeredocText(p.clone()));
                },
            }
            Ok(())
        },
    }
}

/// The default wiring of stage `i` of `n`: stdin is empty for the first
/// stage and the previous stage's output otherwise; stdout is the terminal
/// for the last stage and the next stage's input otherwise; stderr is the
/// terminal's error stream for every stage.
pub open spec fn spec_initial_table(i: int, n: int) -> Map<u8, RouteModel> {
    Map::empty().insert(
        0u8,
        if i == 0 {
            RouteModel::Null
        } else {
            RouteModel::PipePrev
        },
    ).insert(
        1u8,
        if i == n - 1 {
            RouteModel::Terminal
        } else {
            RouteModel::PipeNext
        },
    ).insert(2u8, RouteModel::TerminalErr)
}

/// Builds the default wiring of stage `stage_index` of `n_stages`.
pub fn initial_table(stage_index: usize, n_stages: usize) -> (t: FdTable)
    requires
        stage_index < n_stages,
    ensures
        t@ == spec_initial_table(stage_index as int, n_stages as int),
{
    let mut t = FdTable::empty();
    if stage_index == 0 {
        t.set(0, Route::Null);
    } else {
        t.set(0, Route::PipePrev);
    }
    if stage_index == n_stages - 1 {
        t.set(1, Route::Terminal);
    } else {
        t.set(1, Route::PipeNext);
    }
    t.set(2, Route::TerminalErr);
    t
}

/// The table after the redirections from position `i` on, applied in
/// order; the first failure aborts the stage.
pub open spec fn spec_apply_from(
    m: Map<u8, RouteModel>,
    rs: Seq<RedirectionModel>,
    i: int,
) -> Result<Map<u8, RouteModel>, WiringError>
    decreases rs.len() - i,
{
    if i < 0 || i >= rs.len() {
        Ok(m)
    } else {
        match spec_apply_redirection(m, rs[i]) {
            Ok(m2) => spec_apply_from(m2, rs, i + 1),
            Err(e) => Err(e),
        }
    }
}

/// The finished wiring of one stage: the default table, then the stage's
/// redirections in their recorded order.
pub open spec fn spec_stage_plan(c: CommandModel, i: int, n: int) -> Result<
    Map<u8, RouteModel>,
    WiringError,
> {
    spec_apply_from(spec_initial_table(i, n), c.redirections, 0)
}

/// The model of a wiring result.
pub open spec fn plan_result_model(r: Result<FdTable, WiringError>) -> Result<
    Map<u8, RouteModel>,
    WiringError,
> {
    match r {
        Ok(t) => Ok(t@),
        Err(e) => Err(e),
    }
}

/// Computes where every descriptor of stage `stage_index` of `n_stages`
/// points once the command's redirections are applied in order.
pub fn stage_io_plan(cmd: &Command, stage_index: usize, n_stages: usize) -> (r: Result<
    FdTable,
    WiringError,
>)
    requires
        stage_index < n_stages,
    ensures
        plan_result_model(r) == spec_stage_plan(cmd@, stage_index as int, n_stages as int),
{
    let ghost rm = crate::command::redirs_model(cmd.redirections@);
    let mut table = initial_table(stage_index, n_stages);
    let mut j: usize = 0;
    while j < cmd.redirections.len()
        invariant
            rm == crate::command::redirs_model(cmd.redirections@),
            rm.len() == cmd.redirections@.len(),
            0 <= j <= cmd.redirections@.len(),
            spec_apply_from(table@, rm, j as int) == spec_stage_plan(
                cmd@,
                stage_index as int,
                n_stages as int,
            ),
        decreases cmd.redirections.len() - j,
    {
        let r = &cmd.redirections[j];
        match apply_redirection(&mut table, r) {
            Ok(()) => {},
            Err(e) => {
                return Err(e);
            },
        }
        j += 1;
    }
    Ok(table)
}

proof fn lemma_apply_from_push(
    m: Map<u8, RouteModel>,
    rs: Seq<RedirectionModel>,
    r: RedirectionModel,
    i: int,
)
    requires
        0 <= i <= rs.len(),
    ensures
        spec_apply_from(m, rs.push(r), i) == match spec_apply_from(m, rs, i) {
            Ok(m2) => spec_apply_redirection(m2, r),
            Err(e) => Err(e),
        },
    decreases rs.len() - i,
{
    if i == rs.len() {
        assert(rs.push(r)[i] == r);
        match spec_apply_redirection(m, r) {
            Ok(m2) => {
                assert(spec_apply_from(m, rs.push(r), i) == spec_apply_from(m2, rs.push(r), i + 1));
                assert(spec_apply_from(m2, rs.push(r), i + 1) == Ok::<Map<u8, RouteModel>,
                    WiringError,
                >(m2));
            },
            Err(_) => {},
        }
    } else {
        assert(rs.push(r)[i] == rs[i]);
        match spec_apply_redirection(m, rs[i]) {
            Ok(m2) => {
                lemma_apply_from_push(m2, rs, r, i + 1);
            },
            Err(_) => {},
        }
    }
}

/// A `2>&1` written after any run of redirections duplicates stderr onto
/// whatever descriptor 1 refers to at that point of the stage — a file, a
/// pipe or the terminal — not onto where stdout pointed initially.
pub proof fn lemma_dup_err_follows_current_out(m: Map<u8, RouteModel>, rs: Seq<RedirectionModel>)
    requires
        spec_apply_from(m, rs, 0) matches Ok(m2) && m2.contains_key(1u8),
    ensures
        spec_apply_from(
            m,
            rs.push(
                RedirectionModel {
                    src_fd: Some(2u8),
                    op: RedirectOp::DupOut,
                    target: TargetModel::Fd(1u8),
                },
            ),
            0,
        ) == match spec_apply_from(m, rs, 0) {
            Ok(m2) => Ok::<Map<u8, RouteModel>, WiringError>(m2.insert(2u8, m2[1u8])),
            Err(e) => Err(e),
        },
{
    let dup = RedirectionModel {
        src_fd: Some(2u8),
        op: RedirectOp::DupOut,
        target: TargetModel::Fd(1u8),
    };
    lemma_apply_from_push(m, rs, dup, 0);
}

/// A stage with no redirections keeps the default wiring: empty stdin for
/// the first stage and the previous stage's output for every later one;
/// stdout feeding the next stage except for the last, whose output reaches
/// the terminal; stderr on the terminal's error stream throughout.
pub proof fn lemma_default_wiring(c: CommandModel, i: int, n: int)
    requires
        0 <= i < n,
        c.redirections.len() == 0,
    ensures
        spec_stage_plan(c, i, n) == Ok::<Map<u8, RouteModel>, WiringError>(spec_initial_table(i, n)),
        spec_initial_table(i, n)[0u8] == if i == 0 {
            RouteModel::Null
        } else {
            RouteModel::PipePrev
        },
        spec_initial_table(i, n)[1u8] == if i == n - 1 {
            RouteModel::Terminal
        } else {
            RouteModel::PipeNext
        },
        spec_initial_table(i, n)[2u8] == RouteModel::TerminalErr,
{
}

} // verus!
