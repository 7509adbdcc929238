use vstd::prelude::*;
use vstd::string::*;

use crate::render::{decimal, push_decimal, render_command, shlex_join, views};

verus! {

/// How a command is run.
#[derive(Clone, Copy, Debug, PartialEq, Eq)]
pub enum ExecMode {
    /// The caller blocks on the child and hands the terminal over to it.
    Replace,
    /// The child's output is captured and forwarded to the log.
    Supervised,
}

/// How the OS reported the end of a child process.
#[derive(Clone, Debug)]
pub enum ExitReport {
    /// The process exited with this status code.
    Code(i32),
    /// The process ended otherwise (by a signal); the text describes how.
    Other(String),
}

/// Why running a command failed.
#[derive(Clone, Debug)]
pub enum ExecError {
    /// The OS could not create the child process.
    SpawnFailure(String),
    /// Waiting for the spawned process failed.
    WaitFailure(String),
    /// The process ran to completion but did not report success.
    NonZeroExit(String),
}

impl ExecError {
    /// The message that describes the failure.
    pub open spec fn spec_message(&self) -> Seq<char> {
        match self {
            ExecError::SpawnFailure(m) => m@,
            ExecError::WaitFailure(m) => m@,
            ExecError::NonZeroExit(m) => m@,
        }
    }

    /// Returns the message that describes the failure.
    pub fn message(&self) -> (r: String)
        ensures
            r@ == self.spec_message(),
    {
        match self {
            ExecError::SpawnFailure(m) => m.clone(),
            ExecError::WaitFailure(m) => m.clone(),
            ExecError::NonZeroExit(m) => m.clone(),
        }
    }
}

/// Whether `part` occurs in `s` as a contiguous run of characters.
pub open spec fn contains_seq(s: Seq<char>, part: Seq<char>) -> bool {
    exists|i: int| 0 <= i && i + part.len() <= s.len() && #[trigger] s.subrange(i, i + part.len()) == part
}

/// What names a command in an error message: the program in replace mode,
/// the whole rendered command line in supervised mode.
pub open spec fn subject(mode: ExecMode, program: Seq<char>, args: Seq<Seq<char>>) -> Seq<char> {
    match mode {
        ExecMode::Replace => program,
        ExecMode::Supervised => render_command(program, args),
    }
}

/// How a spawn failure's message begins.
pub open spec fn spawn_prefix(mode: ExecMode) -> Seq<char> {
    match mode {
        ExecMode::Replace => "failed to spawn: "@,
        ExecMode::Supervised => "could not execute process: "@,
    }
}

/// How a wait failure's message begins.
pub open spec fn wait_prefix(mode: ExecMode) -> Seq<char> {
    match mode {
        ExecMode::Replace => "failed to wait for process to finish: "@,
        ExecMode::Supervised => "could not wait for process termination: "@,
    }
}

/// The text that describes an exit status.
pub open spec fn describe_exit(report: ExitReport) -> Seq<char> {
    match report {
        ExitReport::Code(c) => "exit status: "@ + decimal(c as int),
        ExitReport::Other(t) => t@,
    }
}

/// Whether a report is of a clean exit.
pub open spec fn is_success(report: ExitReport) -> bool {
    report matches ExitReport::Code(0)
}

/// `r` is the outcome owed for a finished process: success exactly on exit
/// code zero, otherwise a `NonZeroExit` that quotes the status.
pub open spec fn is_exit_result(report: ExitReport, r: Result<(), ExecError>) -> bool {
    &&& (r is Ok <==> is_success(report))
    &&& r is Err ==> (r->Err_0 is NonZeroExit && r->Err_0.spec_message()
        == "process did not exit successfully: "@ + describe_exit(report))
}

/// Describes an exit status: `exit status: <code>` for an exit code, the
/// given text otherwise.
pub fn describe_exit_exec(report: &ExitReport) -> (r: String)
    ensures
        r@ == describe_exit(*report),
{
    match report {
        ExitReport::Code(c) => {
            let mut s = String::from_str("exit status: ");
            push_decimal(&mut s, *c);
            s
        },
        ExitReport::Other(t) => t.clone(),
    }
}

/// Maps the end of a process to the result of running it: `Ok` exactly when
/// it exited with code zero, a `NonZeroExit` quoting the status otherwise.
pub fn exit_result(report: &ExitReport) -> (r: Result<(), ExecError>)
    ensures
        is_exit_result(*report, r),
{
    if let ExitReport::Code(0) = report {
        Ok(())
    } else {
        let mut m = String::from_str("process did not exit successfully: ");
        let d = describe_exit_exec(report);
        m.append(d.as_str());
        Err(ExecError::NonZeroExit(m))
    }
}

/// The error for a command that could not be spawned.
pub fn spawn_failure(mode: ExecMode, program: &str, args: &Vec<String>) -> (e: ExecError)
    ensures
        e is SpawnFailure,
        e.spec_message() == spawn_prefix(mode) + subject(mode, program@, views(args@)),
{
    let mut m = match mode {
        ExecMode::Replace => String::from_str("failed to spawn: "),
        ExecMode::Supervised => String::from_str("could not execute process: "),
    };
    append_subject(&mut m, mode, program, args);
    ExecError::SpawnFailure(m)
}

/// The error for a spawned command whose end could not be waited for.
pub fn wait_failure(mode: ExecMode, program: &str, args: &Vec<String>) -> (e: ExecError)
    ensures
        e is WaitFailure,
        e.spec_message() == wait_prefix(mode) + subject(mode, program@, views(args@)),
{
    let mut m = match mode {
        ExecMode::Replace => String::from_str("failed to wait for process to finish: "),
        ExecMode::Supervised => String::from_str("could not wait for process termination: "),
    };
    append_subject(&mut m, mode, program, args);
    ExecError::WaitFailure(m)
}

/// Appends what names the command in an error message.
fn append_subject(out: &mut String, mode: ExecMode, program: &str, args: &Vec<String>)
    ensures
        final(out)@ == old(out)@ + subject(mode, program@, views(args@)),
{
    match mode {
        ExecMode::Replace => out.append(program),
        ExecMode::Supervised => {
            let line = shlex_join(program, args);
            out.append(line.as_str());
        },
    }
}

/// Where a child's standard stream is connected.
#[derive(Clone, Copy, Debug, PartialEq, Eq)]
pub enum StdioSource {
    /// Shared with the parent.
    Inherit,
    /// Connected to nothing: reads see end of file at once.
    Null,
    /// A pipe that the parent reads.
    Piped,
}

/// Where the three standard streams of a child go.
#[derive(Clone, Copy, Debug, PartialEq, Eq)]
pub struct StdioPlan {
    pub stdin: StdioSource,
    pub stdout: StdioSource,
    pub stderr: StdioSource,
}

/// The standard streams for a mode: a replaced process keeps the terminal; a
/// supervised one gets a closed stdin, so that it never waits for input, and
/// piped output.
pub fn stdio_plan(mode: ExecMode) -> (p: StdioPlan)
    ensures
        mode == ExecMode::Replace ==> p == (StdioPlan {
            stdin: StdioSource::Inherit,
            stdout: StdioSource::Inherit,
            stderr: StdioSource::Inherit,
        }),
        mode == ExecMode::Supervised ==> p == (StdioPlan {
            stdin: StdioSource::Null,
            stdout: StdioSource::Piped,
            stderr: StdioSource::Piped,
        }),
{
    match mode {
        ExecMode::Replace => StdioPlan {
            stdin: StdioSource::Inherit,
            stdout: StdioSource::Inherit,
            stderr: StdioSource::Inherit,
        },
        ExecMode::Supervised => StdioPlan {
            stdin: StdioSource::Null,
            stdout: StdioSource::Piped,
            stderr: StdioSource::Piped,
        },
    }
}

/// A process that exits with status zero is a success, whichever way it was
/// run.
pub proof fn lemma_zero_exit_succeeds(r: Result<(), ExecError>)
    requires
        is_exit_result(ExitReport::Code(0), r),
    ensures
        r is Ok,
{
}

/// A process that exits with a nonzero status fails, and the message quotes
/// the status in decimal.
pub proof fn lemma_nonzero_exit_names_status(n: i32, r: Result<(), ExecError>)
    requires
        n != 0,
        is_exit_result(ExitReport::Code(n), r),
    ensures
        r is Err,
        r->Err_0 is NonZeroExit,
        contains_seq(r->Err_0.spec_message(), decimal(n as int)),
{
    let m = r->Err_0.spec_message();
    let pre = "process did not exit successfully: "@ + "exit status: "@;
    let d = decimal(n as int);
    assert(m =~= pre + d);
    assert(m.subrange(pre.len() as int, pre.len() + d.len() as int) =~= d);
}

/// A program that cannot be spawned gives a `SpawnFailure` whose message
/// names the program, in either mode. In supervised mode the program is named
/// through the rendered command line, which shows it as it is only when it
/// holds no double quote.
pub proof fn lemma_spawn_failure_names_program(
    mode: ExecMode,
    program: Seq<char>,
    args: Seq<Seq<char>>,
    e: ExecError,
)
    requires
        mode == ExecMode::Supervised ==> !program.contains('"'),
        e is SpawnFailure,
        e.spec_message() == spawn_prefix(mode) + subject(mode, program, args),
    ensures
        contains_seq(e.spec_message(), program),
{
    let m = e.spec_message();
    let pre = spawn_prefix(mode);
    assert(m.subrange(pre.len() as int, pre.len() + program.len() as int) =~= program);
}

} // verus!
