//! External commands: what is run, how it is shown in the log, and what its
//! end means for the step that ran it.

use crate::channel::EventSender;
use crate::model::{EventView, InstallerEvent};
use crate::text::{
    append, append_str, from_chars, glue, glue4, join, join_strings, str_texts, texts, to_chars,
    trim, trim_chars,
};
use vstd::prelude::*;

verus! {

/// The program that runs a command inside the installed system.
pub const CHROOT_PROGRAM: &'static str = "arch-chroot";

/// Where the installed system is mounted.
pub const TARGET_ROOT: &'static str = "/mnt";

/// The seconds between two heartbeat messages of a long-running command.
pub const HEARTBEAT_SECONDS: u64 = 10;

/// One call of an external program.
#[derive(Debug, Clone, PartialEq, Eq)]
pub struct CommandSpec {
    /// The program's name.
    pub program: String,
    /// Its arguments, in order.
    pub args: Vec<String>,
    /// Text to write to its standard input.
    pub input: Option<String>,
    /// Environment variables to set for it, as names and values.
    pub envs: Vec<(String, String)>,
    /// A message to log while it runs, again and again.
    pub heartbeat: Option<String>,
}

/// The command as it is shown: the program and its arguments, separated by spaces.
pub open spec fn command_line(program: Seq<char>, args: Seq<Seq<char>>) -> Seq<char> {
    if args.len() == 0 {
        program
    } else {
        program + " "@ + join(args, " "@)
    }
}

/// Owned copies of the given strings.
pub fn strings(items: &[&str]) -> (out: Vec<String>)
    ensures
        out.len() == items.len(),
        forall|i: int| 0 <= i < items.len() ==> (#[trigger] out@[i])@ == items@[i]@,
{
    let mut out: Vec<String> = Vec::new();
    let mut i: usize = 0;
    while i < items.len()
        invariant
            i <= items.len(),
            out.len() == i,
            forall|j: int| 0 <= j < i ==> (#[trigger] out@[j])@ == items@[j]@,
        decreases items.len() - i,
    {
        out.push(items[i].to_owned());
        i += 1;
    }
    out
}

/// A copy of a list of strings.
pub fn clone_strings(items: &Vec<String>) -> (out: Vec<String>)
    ensures
        out@ == items@,
{
    let mut out: Vec<String> = Vec::new();
    let mut i: usize = 0;
    while i < items.len()
        invariant
            i <= items.len(),
            out@ =~= items@.take(i as int),
        decreases items.len() - i,
    {
        out.push(items[i].clone());
        i += 1;
    }
    out
}

impl CommandSpec {
    /// The command as it is shown in the log and in error messages.
    pub open spec fn line(&self) -> Seq<char> {
        command_line(self.program@, texts(self.args@))
    }

    /// A call of `program` with `args`, without input, environment or heartbeat.
    pub fn new(program: &str, args: Vec<String>) -> (c: CommandSpec)
        ensures
            c.program@ == program@,
            c.args == args,
            c.input is None,
            c.envs@.len() == 0,
            c.heartbeat is None,
    {
        CommandSpec {
            program: program.to_owned(),
            args,
            input: None,
            envs: Vec::new(),
            heartbeat: None,
        }
    }

    /// A call of `args[0]` with the rest of `args` inside the installed
    /// system: the arguments are handed to the chroot program, after the
    /// path of the installed system.
    pub fn chroot(args: &Vec<String>) -> (c: CommandSpec)
        ensures
            c.program@ == CHROOT_PROGRAM@,
            texts(c.args@) == seq![TARGET_ROOT@] + texts(args@),
            c.input is None,
            c.envs@.len() == 0,
            c.heartbeat is None,
    {
        let mut full: Vec<String> = Vec::new();
        full.push(TARGET_ROOT.to_owned());
        let mut i: usize = 0;
        while i < args.len()
            invariant
                i <= args.len(),
                full.len() == i + 1,
                full@[0]@ == TARGET_ROOT@,
                forall|j: int| 0 <= j < i ==> (#[trigger] full@[j + 1])@ == args@[j]@,
            decreases args.len() - i,
        {
            full.push(args[i].clone());
            i += 1;
        }
        assert(texts(full@) =~= seq![TARGET_ROOT@] + texts(args@)) by {
            assert forall|k: int| 0 <= k < full.len() implies texts(full@)[k] == (seq![
                TARGET_ROOT@,
            ] + texts(args@))[k] by {
                if k > 0 {
                    assert(full@[(k - 1) + 1]@ == args@[k - 1]@);
                }
            }
        }
        CommandSpec::new(CHROOT_PROGRAM, full)
    }

    /// The same call, with `input` written to the program's standard input.
    pub fn with_input(self, input: String) -> (c: CommandSpec)
        ensures
            c.program == self.program,
            c.args == self.args,
            c.input == Some(input),
            c.envs == self.envs,
            c.heartbeat == self.heartbeat,
    {
        CommandSpec { input: Some(input), ..self }
    }

    /// The same call, with `message` logged while it runs.
    pub fn with_heartbeat(self, message: &str) -> (c: CommandSpec)
        ensures
            c.program == self.program,
            c.args == self.args,
            c.input == self.input,
            c.envs == self.envs,
            c.heartbeat is Some,
            c.heartbeat->0@ == message@,
    {
        CommandSpec { heartbeat: Some(message.to_owned()), ..self }
    }

    /// The same call, with the environment variable `name` set to `value`.
    pub fn with_env(self, name: &str, value: &str) -> (c: CommandSpec)
        ensures
            c.program == self.program,
            c.args == self.args,
            c.input == self.input,
            c.heartbeat == self.heartbeat,
            c.envs@.len() == self.envs@.len() + 1,
            c.envs@.take(self.envs@.len() as int) == self.envs@,
            c.envs@.last().0@ == name@,
            c.envs@.last().1@ == value@,
    {
        let mut envs = self.envs;
        envs.push((name.to_owned(), value.to_owned()));
        CommandSpec {
            program: self.program,
            args: self.args,
            input: self.input,
            envs,
            heartbeat: self.heartbeat,
        }
    }

    /// The command as it is shown in the log and in error messages.
    pub fn command_line(&self) -> (out: String)
        ensures
            out@ == self.line(),
    {
        let mut out = to_chars(self.program.as_str());
        if self.args.len() > 0 {
            append_str(&mut out, " ");
            let rest = join_strings(&self.args, " ");
            append(&mut out, &rest);
        }
        from_chars(&out)
    }

    /// Logs the command before it runs, as `$` and the command line.
    pub fn announce(&self, tx: &mut EventSender)
        ensures
            final(tx).offered() == old(tx).offered().push(EventView::Log("$ "@ + self.line())),
    {
        let mut out = to_chars("$ ");
        let line = self.command_line();
        append_str(&mut out, line.as_str());
        tx.send(InstallerEvent::Log(from_chars(&out)));
    }

    /// Logs the heartbeat message, if the command has one. Returns whether it has.
    pub fn beat(&self, tx: &mut EventSender) -> (sent: bool)
        ensures
            sent == (self.heartbeat is Some),
            sent ==> final(tx).offered() == old(tx).offered().push(
                EventView::Log(self.heartbeat->0@),
            ),
            !sent ==> final(tx).offered() == old(tx).offered(),
    {
        match &self.heartbeat {
            Some(message) => {
                tx.send(InstallerEvent::Log(message.clone()));
                true
            },
            None => false,
        }
    }
}

/// How a call of an external program ended.
#[derive(Debug, Clone, Copy, PartialEq, Eq, Structural)]
pub enum Exit {
    /// The program could not be started.
    SpawnFailed,
    /// The input could not be written to the program.
    InputFailed,
    /// The program's end could not be waited for.
    WaitFailed,
    /// The program ran and ended, with this exit code, or with none where
    /// a signal ended it. The code zero means success.
    Ended { code: Option<i32> },
}

/// How a call ended whose output was captured.
#[derive(Debug, Clone, PartialEq, Eq)]
pub enum Captured {
    /// The program could not be run.
    RunFailed,
    /// The program ran and ended, with what it wrote.
    Ended { success: bool, stdout: String, stderr: String },
}

/// Why a step of the installation failed. Every error of a call of an
/// external program carries the full command line of the call as `command`.
#[derive(Debug, Clone, PartialEq, Eq)]
pub enum InstallError {
    /// The program could not be started.
    Spawn { command: String },
    /// The input could not be written to the program.
    Input { command: String },
    /// The end of the program could not be waited for.
    Wait { command: String },
    /// The program ran and reported failure; `code` is the exit code, if
    /// the program gave one.
    Exit { command: String, code: Option<i32> },
    /// The program, whose output was wanted, could not be run.
    Run { command: String },
    /// The program, whose output was wanted, reported failure; `stderr` is
    /// what it wrote to its error stream, trimmed.
    Capture { command: String, stderr: String },
    /// Something that a step needs is missing; `what` says what.
    Precondition { what: String },
    /// A file could not be read or written; `what` names the operation.
    File { what: String },
    /// Work that was declared fatal was given up; `what` says which.
    GaveUp { what: String },
}

/// What an `InstallError` holds, as plain text.
pub enum ErrorView {
    Spawn { command: Seq<char> },
    Input { command: Seq<char> },
    Wait { command: Seq<char> },
    Exit { command: Seq<char>, code: Option<i32> },
    Run { command: Seq<char> },
    Capture { command: Seq<char>, stderr: Seq<char> },
    Precondition { what: Seq<char> },
    File { what: Seq<char> },
    GaveUp { what: Seq<char> },
}

impl View for InstallError {
    type V = ErrorView;

    open spec fn view(&self) -> ErrorView {
        match self {
            InstallError::Spawn { command } => ErrorView::Spawn { command: command@ },
            InstallError::Input { command } => ErrorView::Input { command: command@ },
            InstallError::Wait { command } => ErrorView::Wait { command: command@ },
            InstallError::Exit { command, code } => ErrorView::Exit {
                command: command@,
                code: *code,
            },
            InstallError::Run { command } => ErrorView::Run { command: command@ },
            InstallError::Capture { command, stderr } => ErrorView::Capture {
                command: command@,
                stderr: stderr@,
            },
            InstallError::Precondition { what } => ErrorView::Precondition { what: what@ },
            InstallError::File { what } => ErrorView::File { what: what@ },
            InstallError::GaveUp { what } => ErrorView::GaveUp { what: what@ },
        }
    }
}

/// The message of a command that failed and whose output was captured: the
/// command line, and after it what the command wrote to its error stream, if
/// it wrote anything.
pub open spec fn capture_message(command: Seq<char>, stderr: Seq<char>) -> Seq<char> {
    if stderr.len() == 0 {
        "Command failed: "@ + command
    } else {
        "Command failed: "@ + command + ": "@ + stderr
    }
}

impl ErrorView {
    /// The message under which the error is reported. For an error of a
    /// call it says what failed and gives the full command line.
    pub open spec fn message(self) -> Seq<char> {
        match self {
            ErrorView::Spawn { command } => "spawn "@ + command,
            ErrorView::Input { command } => "write stdin: "@ + command,
            ErrorView::Wait { command } => "wait: "@ + command,
            ErrorView::Exit { command, .. } => "Command failed: "@ + command,
            ErrorView::Run { command } => "run "@ + command,
            ErrorView::Capture { command, stderr } => capture_message(command, stderr),
            ErrorView::Precondition { what } => what,
            ErrorView::File { what } => what,
            ErrorView::GaveUp { what } => what,
        }
    }
}

impl InstallError {
    /// The message under which the error is reported.
    pub open spec fn message_text(self) -> Seq<char> {
        self@.message()
    }

    /// The message under which the error is reported.
    pub fn message(&self) -> (out: String)
        ensures
            out@ == self.message_text(),
    {
        match self {
            InstallError::Spawn { command } => glue("spawn ", command.as_str()),
            InstallError::Input { command } => glue("write stdin: ", command.as_str()),
            InstallError::Wait { command } => glue("wait: ", command.as_str()),
            InstallError::Exit { command, .. } => glue("Command failed: ", command.as_str()),
            InstallError::Run { command } => glue("run ", command.as_str()),
            InstallError::Capture { command, stderr } => {
                if stderr.as_str().is_empty() {
                    glue("Command failed: ", command.as_str())
                } else {
                    glue4("Command failed: ", command.as_str(), ": ", stderr.as_str())
                }
            },
            InstallError::Precondition { what } => what.clone(),
            InstallError::File { what } => what.clone(),
            InstallError::GaveUp { what } => what.clone(),
        }
    }
}

/// What the end of a call of the command with the line `command` means:
/// nothing is wrong where the program ran and ended with the exit code
/// zero; else the error, which carries the command line, and for a program
/// that reported failure the exit code.
pub open spec fn exit_error(command: Seq<char>, exit: Exit) -> Option<ErrorView> {
    match exit {
        Exit::SpawnFailed => Some(ErrorView::Spawn { command }),
        Exit::InputFailed => Some(ErrorView::Input { command }),
        Exit::WaitFailed => Some(ErrorView::Wait { command }),
        Exit::Ended { code } => if code == Some(0i32) {
            None
        } else {
            Some(ErrorView::Exit { command, code })
        },
    }
}

/// What the end of a call means: success where the program ran and ended
/// with the exit code zero, and else the error, which carries the full
/// command line.
pub fn conclude(spec: &CommandSpec, exit: Exit) -> (r: Result<(), InstallError>)
    ensures
        r is Ok <==> exit == (Exit::Ended { code: Some(0) }),
        r is Err ==> exit_error(spec.line(), exit) == Some(r->Err_0@),
{
    let command = spec.command_line();
    match exit {
        Exit::SpawnFailed => Err(InstallError::Spawn { command }),
        Exit::InputFailed => Err(InstallError::Input { command }),
        Exit::WaitFailed => Err(InstallError::Wait { command }),
        Exit::Ended { code } => {
            let success = match code {
                Some(c) => c == 0,
                None => false,
            };
            if success {
                Ok(())
            } else {
                Err(InstallError::Exit { command, code })
            }
        },
    }
}

/// What a `Captured` holds, as plain text.
pub enum CapturedView {
    RunFailed,
    Ended { success: bool, stdout: Seq<char>, stderr: Seq<char> },
}

impl View for Captured {
    type V = CapturedView;

    open spec fn view(&self) -> CapturedView {
        match self {
            Captured::RunFailed => CapturedView::RunFailed,
            Captured::Ended { success, stdout, stderr } => CapturedView::Ended {
                success: *success,
                stdout: stdout@,
                stderr: stderr@,
            },
        }
    }
}

impl Captured {
    /// A copy of how the call ended.
    pub fn duplicate(&self) -> (c: Captured)
        ensures
            c == *self,
    {
        match self {
            Captured::RunFailed => Captured::RunFailed,
            Captured::Ended { success, stdout, stderr } => Captured::Ended {
                success: *success,
                stdout: stdout.clone(),
                stderr: stderr.clone(),
            },
        }
    }
}

/// What the end of a call with captured output means, for the command
/// with the line `command`: the program's output where it ran and reported
/// success; else the error, which carries the command line, and for a
/// program that reported failure what it wrote to its error stream, trimmed.
pub open spec fn capture_result(command: Seq<char>, end: CapturedView) -> Result<
    Seq<char>,
    ErrorView,
> {
    match end {
        CapturedView::RunFailed => Err(ErrorView::Run { command }),
        CapturedView::Ended { success, stdout, stderr } => if success {
            Ok(stdout)
        } else {
            Err(ErrorView::Capture { command, stderr: trim(stderr) })
        },
    }
}

/// What the end of a call with captured output means: the program's output
/// where it ran and reported success, and else the error, which carries the
/// full command line and what the program wrote to its error stream, trimmed.
pub fn conclude_capture(spec: &CommandSpec, end: Captured) -> (r: Result<String, InstallError>)
    ensures
        match capture_result(spec.line(), end@) {
            Ok(stdout) => r is Ok && r->Ok_0@ == stdout,
            Err(e) => r is Err && r->Err_0@ == e,
        },
{
    match end {
        Captured::RunFailed => Err(InstallError::Run { command: spec.command_line() }),
        Captured::Ended { success, stdout, stderr } => if success {
            Ok(stdout)
        } else {
            let shown = from_chars(&trim_chars(&to_chars(stderr.as_str())));
            Err(InstallError::Capture { command: spec.command_line(), stderr: shown })
        },
    }
}

/// What a `CommandSpec` holds, as plain text.
pub struct CommandView {
    pub program: Seq<char>,
    pub args: Seq<Seq<char>>,
    pub input: Option<Seq<char>>,
    pub envs: Seq<(Seq<char>, Seq<char>)>,
    pub heartbeat: Option<Seq<char>>,
}

impl View for CommandSpec {
    type V = CommandView;

    open spec fn view(&self) -> CommandView {
        CommandView {
            program: self.program@,
            args: texts(self.args@),
            input: crate::model::opt_text(self.input),
            envs: Seq::new(self.envs@.len(), |i: int| (self.envs@[i].0@, self.envs@[i].1@)),
            heartbeat: crate::model::opt_text(self.heartbeat),
        }
    }
}

/// A call of `program` with `args` and nothing else.
pub open spec fn plain(program: Seq<char>, args: Seq<Seq<char>>) -> CommandView {
    CommandView { program, args, input: None, envs: Seq::empty(), heartbeat: None }
}

/// A call of `program` with `args` that is given `input`.
pub open spec fn fed(program: Seq<char>, args: Seq<Seq<char>>, input: Seq<char>) -> CommandView {
    CommandView { program, args, input: Some(input), envs: Seq::empty(), heartbeat: None }
}

/// A call of `args[0]` with the rest of `args` inside the installed system.
pub open spec fn in_chroot(args: Seq<Seq<char>>) -> CommandView {
    plain(CHROOT_PROGRAM@, seq![TARGET_ROOT@] + args)
}

/// A call of `program` with `args` and nothing else.
pub fn run(program: &str, args: &[&str]) -> (c: CommandSpec)
    ensures
        c@ == plain(program@, str_texts(args@)),
{
    let owned = strings(args);
    assert(texts(owned@) =~= str_texts(args@));
    let c = CommandSpec::new(program, owned);
    assert(c@.envs =~= Seq::empty());
    c
}

/// A call of `program` with `args` that is given `input`.
pub fn run_with_input(program: &str, args: &[&str], input: String) -> (c: CommandSpec)
    ensures
        c@ == fed(program@, str_texts(args@), input@),
{
    let c = run(program, args).with_input(input);
    c
}

/// A call of `args[0]` with the rest of `args` inside the installed system.
pub fn run_chroot(args: &[&str]) -> (c: CommandSpec)
    ensures
        c@ == in_chroot(str_texts(args@)),
{
    let owned = strings(args);
    assert(texts(owned@) =~= str_texts(args@));
    let c = CommandSpec::chroot(&owned);
    assert(c@.envs =~= Seq::empty());
    c
}

/// Keeps the time between two heartbeat messages of a running command.
pub struct Heartbeat {
    waited_ms: u64,
}

impl Heartbeat {
    /// The milliseconds waited since the last message.
    pub closed spec fn waited(&self) -> int {
        self.waited_ms as int
    }

    /// Less than the time between two messages has been waited.
    pub open spec fn wf(&self) -> bool {
        0 <= self.waited() < HEARTBEAT_SECONDS * 1000
    }

    /// A heartbeat whose first message was just logged.
    pub fn new() -> (h: Heartbeat)
        ensures
            h.wf(),
            h.waited() == 0,
    {
        Heartbeat { waited_ms: 0 }
    }

    /// Notes that `ms` more milliseconds have passed, and says whether a
    /// message is due: so once the time between two messages has passed
    /// since the last.
    pub fn elapsed(&mut self, ms: u64) -> (due: bool)
        requires
            old(self).wf(),
        ensures
            final(self).wf(),
            due == (old(self).waited() + ms >= HEARTBEAT_SECONDS * 1000),
            final(self).waited() == (if due {
                0
            } else {
                old(self).waited() + ms
            }),
    {
        let limit: u64 = HEARTBEAT_SECONDS * 1000;
        if ms >= limit - self.waited_ms {
            self.waited_ms = 0;
            true
        } else {
            self.waited_ms = self.waited_ms + ms;
            false
        }
    }
}

} // verus!
