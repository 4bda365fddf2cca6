//! Command dispatch: the in-process decisions of the shell. Given an
//! argument vector, `decide_command` either answers outright (builtins whose
//! output is pure computation, and every malformed invocation) or names the
//! one outside action needed — read the working directory, attempt a
//! directory change, search the path, or spawn a process. The caller
//! performs that action and turns its outcome into a `CommandResult` with
//! the matching result function, so every diagnostic text is fixed here.

use vstd::prelude::*;
use vstd::string::*;

use crate::strutil::{join_spaces, spec_join_spaces};
use crate::token::Token;

verus! {

/// What one command's run produced: captured output, captured error text,
/// and an exit code (zero means success).
#[derive(Debug, Clone)]
pub struct CommandResult {
    pub stdout: String,
    pub stderr: String,
    pub exit_code: i32,
}

/// Mathematical model of a `CommandResult`.
pub struct CommandResultModel {
    pub stdout: Seq<char>,
    pub stderr: Seq<char>,
    pub exit_code: int,
}

impl View for CommandResult {
    type V = CommandResultModel;

    open spec fn view(&self) -> CommandResultModel {
        CommandResultModel {
            stdout: self.stdout@,
            stderr: self.stderr@,
            exit_code: self.exit_code as int,
        }
    }
}

/// A successful result carrying only output text.
pub open spec fn stdout_result(s: Seq<char>) -> CommandResultModel {
    CommandResultModel { stdout: s, stderr: seq![], exit_code: 0 }
}

/// A failed result carrying only error text.
pub open spec fn stderr_result(s: Seq<char>) -> CommandResultModel {
    CommandResultModel { stdout: seq![], stderr: s, exit_code: 1 }
}

impl Default for CommandResult {
    /// The empty, successful result.
    fn default() -> (r: Self)
        ensures
            r@ == stdout_result(seq![]),
    {
        let r = CommandResult { stdout: String::new(), stderr: String::new(), exit_code: 0 };
        proof {
            assert(r@.stdout =~= seq![]);
            assert(r@.stderr =~= seq![]);
        }
        r
    }
}

impl CommandResult {
    /// A successful result with the given output.
    pub fn new_with_stdout(stdout: String) -> (r: Self)
        ensures
            r@ == stdout_result(stdout@),
    {
        let r = CommandResult { stdout, stderr: String::new(), exit_code: 0 };
        proof {
            assert(r@.stderr =~= seq![]);
        }
        r
    }

    /// A failed result with the given error text.
    pub fn new_with_stderr(stderr: String) -> (r: Self)
        ensures
            r@ == stderr_result(stderr@),
    {
        let r = CommandResult { stdout: String::new(), stderr, exit_code: 1 };
        proof {
            assert(r@.stdout =~= seq![]);
        }
        r
    }
}

/// The builtin commands, dispatched by name.
#[derive(Debug, Clone, Copy, PartialEq, Eq, Structural)]
pub enum BuildinCommand {
    Exit,
    Pwd,
    Cd,
    Echo,
    Type,
}

/// The builtin a name denotes, if any.
pub open spec fn spec_builtin_of(s: Seq<char>) -> Option<BuildinCommand> {
    if s == "exit"@ {
        Some(BuildinCommand::Exit)
    } else if s == "pwd"@ {
        Some(BuildinCommand::Pwd)
    } else if s == "cd"@ {
        Some(BuildinCommand::Cd)
    } else if s == "echo"@ {
        Some(BuildinCommand::Echo)
    } else if s == "type"@ {
        Some(BuildinCommand::Type)
    } else {
        None
    }
}

impl BuildinCommand {
    /// Looks a name up among the builtins; anything else is external.
    pub fn from_name(name: &str) -> (r: Option<BuildinCommand>)
        ensures
            r == spec_builtin_of(name@),
    {
        let n = name.to_owned();
        if n.eq(&"exit".to_owned()) {
            Some(BuildinCommand::Exit)
        } else if n.eq(&"pwd".to_owned()) {
            Some(BuildinCommand::Pwd)
        } else if n.eq(&"cd".to_owned()) {
            Some(BuildinCommand::Cd)
        } else if n.eq(&"echo".to_owned()) {
            Some(BuildinCommand::Echo)
        } else if n.eq(&"type".to_owned()) {
            Some(BuildinCommand::Type)
        } else {
            None
        }
    }
}

/// The one outside action a command needs, or the finished reply.
#[derive(Debug, Clone)]
pub enum CommandAction {
    /// Fully decided in-process.
    Reply(CommandResult),
    /// Terminate the interactive session.
    Exit,
    /// Read the working directory and answer with `pwd_result`.
    QueryCwd,
    /// Attempt to change to this directory and answer with `cd_result`.
    ChangeDir(String),
    /// Search the path for this name and answer with `type_lookup_result`.
    LookupType(String),
    /// Resolve this name on the path and run it with these arguments;
    /// answer with the captured output, or `command_not_found`, or
    /// `failed_to_execute`.
    RunExternal(String, Vec<String>),
}

/// Mathematical model of a `CommandAction`.
pub enum CommandActionModel {
    Reply(CommandResultModel),
    Exit,
    QueryCwd,
    ChangeDir(Seq<char>),
    LookupType(Seq<char>),
    RunExternal(Seq<char>, Seq<Seq<char>>),
}

impl View for CommandAction {
    type V = CommandActionModel;

    open spec fn view(&self) -> CommandActionModel {
        match self {
            CommandAction::Reply(r) => CommandActionModel::Reply(r@),
            CommandAction::Exit => CommandActionModel::Exit,
            CommandAction::QueryCwd => CommandActionModel::QueryCwd,
            CommandAction::ChangeDir(d) => CommandActionModel::ChangeDir(d@),
            CommandAction::LookupType(n) => CommandActionModel::LookupType(n@),
            CommandAction::RunExternal(n, a) => CommandActionModel::RunExternal(
                n@,
                crate::command::argv_model(a@),
            ),
        }
    }
}

/// The action an argument vector calls for, with `home` standing in for a
/// bare `~` given to the directory-change builtin.
pub open spec fn spec_decide(argv: Seq<Seq<char>>, home: Seq<char>) -> CommandActionModel {
    if argv.len() == 0 {
        CommandActionModel::Reply(stderr_result("command is empty"@))
    } else {
        let cmd = argv[0];
        match spec_builtin_of(cmd) {
            Some(BuildinCommand::Exit) => CommandActionModel::Exit,
            Some(BuildinCommand::Echo) => CommandActionModel::Reply(
                stdout_result(spec_join_spaces(argv.drop_first()) + "\n"@),
            ),
            Some(BuildinCommand::Type) => {
                if argv.len() < 2 {
                    CommandActionModel::Reply(stderr_result("type command is empty"@))
                } else {
                    match spec_builtin_of(argv[1]) {
                        Some(_) => CommandActionModel::Reply(
                            stdout_result(argv[1] + " is a shell builtin\n"@),
                        ),
                        None => CommandActionModel::LookupType(argv[1]),
                    }
                }
            },
            Some(BuildinCommand::Pwd) => CommandActionModel::QueryCwd,
            Some(BuildinCommand::Cd) => {
                if argv.len() < 2 {
                    CommandActionModel::Reply(stderr_result("cd: missing operand\n"@))
                } else if argv.len() > 2 {
                    CommandActionModel::Reply(stderr_result("bash: cd: too many arguments\n"@))
                } else if argv[1] == "~"@ {
                    CommandActionModel::ChangeDir(home)
                } else {
                    CommandActionModel::ChangeDir(argv[1])
                }
            },
            None => CommandActionModel::RunExternal(cmd, argv.drop_first()),
        }
    }
}

proof fn lemma_builtin_of_cd()
    ensures
        spec_builtin_of("cd"@) == Some(BuildinCommand::Cd),
{
    reveal_strlit("exit");
    reveal_strlit("pwd");
    reveal_strlit("cd");
    assert("cd"@.len() == 2);
    assert("exit"@.len() == 4);
    assert("pwd"@.len() == 3);
}

proof fn lemma_builtin_of_type()
    ensures
        spec_builtin_of("type"@) == Some(BuildinCommand::Type),
{
    reveal_strlit("exit");
    reveal_strlit("pwd");
    reveal_strlit("cd");
    reveal_strlit("echo");
    reveal_strlit("type");
    assert("type"@.len() == 4);
    assert("pwd"@.len() == 3);
    assert("cd"@.len() == 2);
    assert("type"@[0] == 't');
    assert("exit"@[0] == 'e');
    assert("echo"@[0] == 'e');
}

/// The directory-change builtin given two or more arguments answers with
/// the fixed diagnostic and asks for no directory change at all: the
/// working directory cannot be touched.
pub proof fn lemma_cd_too_many_changes_nothing(argv: Seq<Seq<char>>, home: Seq<char>)
    requires
        argv.len() > 2,
        argv[0] == "cd"@,
    ensures
        spec_decide(argv, home) == CommandActionModel::Reply(
            stderr_result("bash: cd: too many arguments\n"@),
        ),
{
    lemma_builtin_of_cd();
}

/// The `type` builtin reports a builtin name as a shell builtin, and asks
/// for a path search — whose empty outcome is reported as not found — for
/// any other name.
pub proof fn lemma_type_reports(argv: Seq<Seq<char>>, home: Seq<char>, name: Seq<char>)
    requires
        argv.len() >= 2,
        argv[0] == "type"@,
        argv[1] == name,
    ensures
        spec_builtin_of(name) is Some ==> spec_decide(argv, home) == CommandActionModel::Reply(
            stdout_result(name + " is a shell builtin\n"@),
        ),
        spec_builtin_of(name) is None ==> spec_decide(argv, home)
            == CommandActionModel::LookupType(name),
{
    lemma_builtin_of_type();
}

/// Copies every argument after the command name.
fn tail_args(argv: &Vec<String>) -> (r: Vec<String>)
    requires
        argv@.len() >= 1,
    ensures
        crate::command::argv_model(r@) == crate::command::argv_model(argv@).drop_first(),
{
    let ghost full = crate::command::argv_model(argv@);
    let mut r: Vec<String> = Vec::new();
    let mut i: usize = 1;
    proof {
        assert(crate::command::argv_model(r@) =~= full.drop_first().take(0));
    }
    while i < argv.len()
        invariant
            full == crate::command::argv_model(argv@),
            full.len() == argv@.len(),
            1 <= i <= argv.len(),
            crate::command::argv_model(r@) == full.drop_first().take(i - 1),
        decreases argv.len() - i,
    {
        let ghost r0 = r@;
        let w = argv[i].clone();
        let ghost wg = w;
        r.push(w);
        proof {
            assert(crate::command::argv_model(r0.push(wg)) =~= crate::command::argv_model(
                r0,
            ).push(wg@));
            assert(full.drop_first().take(i as int) =~= full.drop_first().take(
                (i - 1) as int,
            ).push(full[i as int]));
        }
        i += 1;
    }
    proof {
        assert(full.drop_first().take((argv@.len() - 1) as int) =~= full.drop_first());
    }
    r
}

/// Decides what one command's argument vector asks of the shell: a finished
/// reply, session exit, or the single outside action to perform.
pub fn decide_command(argv: &Vec<String>, home: &String) -> (a: CommandAction)
    ensures
        a@ == spec_decide(crate::command::argv_model(argv@), home@),
{
    let ghost am = crate::command::argv_model(argv@);
    if argv.len() == 0 {
        return CommandAction::Reply(CommandResult::new_with_stderr("command is empty".to_owned()));
    }
    let cmd = &argv[0];
    match BuildinCommand::from_name(cmd.as_str()) {
        Some(BuildinCommand::Exit) => CommandAction::Exit,
        Some(BuildinCommand::Echo) => {
            let rest = vstd::slice::slice_subrange(argv.as_slice(), 1, argv.len());
            let joined = join_spaces(rest);
            proof {
                assert(rest@.map_values(|a: String| a@) =~= am.drop_first());
            }
            CommandAction::Reply(CommandResult::new_with_stdout(joined.concat("\n")))
        },
        Some(BuildinCommand::Type) => {
            if argv.len() < 2 {
                CommandAction::Reply(
                    CommandResult::new_with_stderr("type command is empty".to_owned()),
                )
            } else {
                let queried = &argv[1];
                match BuildinCommand::from_name(queried.as_str()) {
                    Some(_) => CommandAction::Reply(
                        CommandResult::new_with_stdout(
                            queried.clone().concat(" is a shell builtin\n"),
                        ),
                    ),
                    None => CommandAction::LookupType(queried.clone()),
                }
            }
        },
        Some(BuildinCommand::Pwd) => CommandAction::QueryCwd,
        Some(BuildinCommand::Cd) => {
            if argv.len() < 2 {
                CommandAction::Reply(
                    CommandResult::new_with_stderr("cd: missing operand\n".to_owned()),
                )
            } else if argv.len() > 2 {
                CommandAction::Reply(
                    CommandResult::new_with_stderr("bash: cd: too many arguments\n".to_owned()),
                )
            } else {
                let dir = &argv[1];
                if dir.eq(&"~".to_owned()) {
                    CommandAction::ChangeDir(home.clone())
                } else {
                    CommandAction::ChangeDir(dir.clone())
                }
            }
        },
        None => {
            let rest = tail_args(argv);
            CommandAction::RunExternal(cmd.clone(), rest)
        },
    }
}

/// The reply of the working-directory builtin: the directory and a newline,
/// or nothing when the directory could not be read.
pub fn pwd_result(dir: Option<String>) -> (r: CommandResult)
    ensures
        r@ == match dir {
            Some(d) => stdout_result(d@ + "\n"@),
            None => stdout_result(seq![]),
        },
{
    match dir {
        Some(d) => CommandResult::new_with_stdout(d.concat("\n")),
        None => CommandResult::new_with_stdout(String::new()),
    }
}

/// The reply of the directory-change builtin, given whether the change
/// succeeded: silence, or the fixed missing-directory diagnostic.
pub fn cd_result(dir: &String, succeeded: bool) -> (r: CommandResult)
    ensures
        r@ == if succeeded {
            stdout_result(seq![])
        } else {
            stderr_result("cd: "@ + dir@ + ": No such file or directory\n"@)
        },
{
    if succeeded {
        CommandResult::default()
    } else {
        CommandResult::new_with_stderr(
            "cd: ".to_owned().concat(dir.as_str()).concat(": No such file or directory\n"),
        )
    }
}

/// The reply of the `type` builtin for a non-builtin name, given what the
/// path search found.
pub fn type_lookup_result(name: &String, found: Option<String>) -> (r: CommandResult)
    ensures
        r@ == match found {
            Some(p) => stdout_result(name@ + " is "@ + p@ + "\n"@),
            None => stderr_result(name@ + ": not found\n"@),
        },
{
    match found {
        Some(p) => CommandResult::new_with_stdout(
            name.clone().concat(" is ").concat(p.as_str()).concat("\n"),
        ),
        None => CommandResult::new_with_stderr(name.clone().concat(": not found\n")),
    }
}

/// The reply for a name found nowhere on the path and not a builtin.
pub fn command_not_found(name: &String) -> (r: CommandResult)
    ensures
        r@ == stderr_result(name@ + ": command not found\n"@),
{
    CommandResult::new_with_stderr(name.clone().concat(": command not found\n"))
}

/// The reply for an external command that was found but could not be run.
pub fn failed_to_execute(name: &String) -> (r: CommandResult)
    ensures
        r@ == stderr_result(name@ + ": failed to execute\n"@),
{
    CommandResult::new_with_stderr(name.clone().concat(": failed to execute\n"))
}

/// Where one of a command's two output streams goes.
#[derive(Debug, Clone)]
pub enum OutputSink {
    /// The shell's own stream.
    Terminal,
    /// A file, and whether to append rather than truncate.
    File(String, bool),
}

/// Mathematical model of an `OutputSink`.
pub enum OutputSinkModel {
    Terminal,
    File(Seq<char>, bool),
}

impl View for OutputSink {
    type V = OutputSinkModel;

    open spec fn view(&self) -> OutputSinkModel {
        match self {
            OutputSink::Terminal => OutputSinkModel::Terminal,
            OutputSink::File(p, a) => OutputSinkModel::File(p@, *a),
        }
    }
}

/// Where a token routes its command's output stream.
pub fn route_stdout(t: &Token) -> (r: OutputSink)
    ensures
        r@ == match t@.redirect {
            Some(p) => OutputSinkModel::File(p, t@.append_out),
            None => OutputSinkModel::Terminal,
        },
{
    match &t.redirect {
        Some(p) => OutputSink::File(p.clone(), t.append_out),
        None => OutputSink::Terminal,
    }
}

/// Where a token routes its command's error stream.
pub fn route_stderr(t: &Token) -> (r: OutputSink)
    ensures
        r@ == match t@.redirect_err {
            Some(p) => OutputSinkModel::File(p, t@.append_err),
            None => OutputSinkModel::Terminal,
        },
{
    match &t.redirect_err {
        Some(p) => OutputSink::File(p.clone(), t.append_err),
        None => OutputSink::Terminal,
    }
}

} // verus!
