//! The receiving side of the event channel: the state that the progress
//! screen shows, and how each event changes it.

use crate::model::{clone_opt, opt_text, Fraction, InstallerEvent, Step, StepStatus, StepView};
use crate::text::{append_str, from_chars, texts, to_chars};
use std::collections::VecDeque;
use vstd::prelude::*;

verus! {

/// How many log lines the screen keeps.
pub const LOG_CAPACITY: usize = 200;

/// How many frames the spinner has.
pub const SPINNER_LEN: usize = 4;

/// The notice that optional packages could not be installed.
pub const FAILED_PACKAGES_NOTICE: &'static str =
    "Optional packages failed. See /var/log/nebula-failed-packages.txt on the installed system.";

/// What the progress screen shows.
pub struct App {
    /// The steps of the installation.
    pub steps: Vec<Step>,
    /// The part of the installation that is done.
    pub progress: Fraction,
    /// The newest log lines, oldest first.
    pub logs: VecDeque<String>,
    /// The frame of the spinner.
    pub spinner_idx: usize,
    /// Whether the installation has ended.
    pub done: bool,
    /// The error that ended it, if any.
    pub err: Option<String>,
}

/// The views of a list of steps.
pub open spec fn step_views(v: Seq<Step>) -> Seq<StepView> {
    Seq::new(v.len(), |i: int| v[i]@)
}

/// The log after `line` is added: the oldest line gives way when the log is full.
pub open spec fn logged(logs: Seq<Seq<char>>, line: Seq<char>) -> Seq<Seq<char>> {
    if logs.len() >= LOG_CAPACITY {
        logs.skip(1).push(line)
    } else {
        logs.push(line)
    }
}

/// Adds `line` to the log; the oldest line gives way when the log is full.
pub fn push_log(logs: &mut VecDeque<String>, line: String)
    ensures
        texts(final(logs)@) == logged(texts(old(logs)@), line@),
{
    if logs.len() >= LOG_CAPACITY {
        let _ = logs.pop_front();
    }
    logs.push_back(line);
}

/// The lines that are written to the log file for a report on a step.
pub open spec fn step_lines(name: Seq<char>, status: StepStatus, err: Option<Seq<char>>) -> Seq<
    Seq<char>,
> {
    seq!["STEP "@ + name + ": "@ + status.label_text()] + (match err {
        Some(e) => seq!["ERROR: "@ + e],
        None => Seq::empty(),
    })
}

/// The line that is written to the log file for the end of the installation.
pub open spec fn done_line(err: Option<Seq<char>>) -> Seq<char> {
    match err {
        Some(e) => "DONE: "@ + e,
        None => "DONE: ok"@,
    }
}

impl App {
    /// The screen before the installation: every step pending, nothing
    /// done, and the given lines in the log.
    pub fn new(steps: Vec<Step>, logs: VecDeque<String>) -> (app: App)
        ensures
            app.steps == steps,
            app.logs == logs,
            app.progress == (Fraction { num: 0, den: 1 }),
            app.spinner_idx == 0,
            !app.done,
            app.err is None,
    {
        App {
            steps,
            progress: Fraction { num: 0, den: 1 },
            logs,
            spinner_idx: 0,
            done: false,
            err: None,
        }
    }

    /// Moves the spinner on by one frame.
    pub fn tick(&mut self)
        requires
            old(self).spinner_idx < usize::MAX,
        ensures
            final(self).spinner_idx == (old(self).spinner_idx + 1) % SPINNER_LEN as int,
            final(self).steps == old(self).steps,
            final(self).progress == old(self).progress,
            final(self).logs == old(self).logs,
            final(self).done == old(self).done,
            final(self).err == old(self).err,
    {
        self.spinner_idx = (self.spinner_idx + 1) % SPINNER_LEN;
    }
}

/// Takes an event of the installer into the screen's state, and returns
/// the lines that the event adds to the log file.
///
/// A log line goes to the screen's log and to the file. Progress is taken
/// as it is. A report on a step changes that step, if there is one with that
/// index, and is written to the file with the error, if any. The end of the
/// installation is noted and written to the file; if it ended well and
/// `packages_failed` says that optional packages could not be installed, a
/// notice goes to the screen's log and to the file.
pub fn handle_event(app: &mut App, evt: InstallerEvent, packages_failed: bool) -> (lines: Vec<
    String,
>)
    ensures
        final(app).spinner_idx == old(app).spinner_idx,
        match evt {
            InstallerEvent::Log(line) => {
                &&& texts(final(app).logs@) == logged(texts(old(app).logs@), line@)
                &&& texts(lines@) == seq![line@]
                &&& final(app).steps == old(app).steps
                &&& final(app).progress == old(app).progress
                &&& final(app).done == old(app).done
                &&& final(app).err == old(app).err
            },
            InstallerEvent::Progress(p) => {
                &&& final(app).progress == p
                &&& lines@.len() == 0
                &&& final(app).steps == old(app).steps
                &&& final(app).logs == old(app).logs
                &&& final(app).done == old(app).done
                &&& final(app).err == old(app).err
            },
            InstallerEvent::Step { index, status, err } => {
                &&& final(app).progress == old(app).progress
                &&& final(app).logs == old(app).logs
                &&& final(app).done == old(app).done
                &&& final(app).err == old(app).err
                &&& if index < old(app).steps@.len() {
                    &&& step_views(final(app).steps@) == step_views(old(app).steps@).update(
                        index as int,
                        StepView {
                            name: old(app).steps@[index as int].name@,
                            status,
                            err: opt_text(err),
                        },
                    )
                    &&& texts(lines@) == step_lines(
                        old(app).steps@[index as int].name@,
                        status,
                        opt_text(err),
                    )
                } else {
                    &&& final(app).steps == old(app).steps
                    &&& lines@.len() == 0
                }
            },
            InstallerEvent::Done(err) => {
                &&& final(app).done
                &&& opt_text(final(app).err) == opt_text(err)
                &&& final(app).steps == old(app).steps
                &&& final(app).progress == old(app).progress
                &&& if err is None && packages_failed {
                    &&& texts(final(app).logs@) == logged(
                        texts(old(app).logs@),
                        FAILED_PACKAGES_NOTICE@,
                    )
                    &&& texts(lines@) == seq![done_line(None), FAILED_PACKAGES_NOTICE@]
                } else {
                    &&& final(app).logs == old(app).logs
                    &&& texts(lines@) == seq![done_line(opt_text(err))]
                }
            },
        },
{
    let mut lines: Vec<String> = Vec::new();
    match evt {
        InstallerEvent::Log(line) => {
            lines.push(line.clone());
            push_log(&mut app.logs, line);
        },
        InstallerEvent::Progress(p) => {
            app.progress = p;
        },
        InstallerEvent::Step { index, status, err } => {
            if index < app.steps.len() {
                let name = app.steps[index].name.clone();
                let mut line = to_chars("STEP ");
                append_str(&mut line, name.as_str());
                append_str(&mut line, ": ");
                append_str(&mut line, status.label());
                lines.push(from_chars(&line));
                match &err {
                    Some(e) => {
                        let mut detail = to_chars("ERROR: ");
                        append_str(&mut detail, e.as_str());
                        lines.push(from_chars(&detail));
                    },
                    None => {},
                }
                app.steps.set(index, Step { name, status, err });
            }
        },
        InstallerEvent::Done(err) => {
            app.done = true;
            app.err = clone_opt(&err);
            match err {
                Some(e) => {
                    let mut line = to_chars("DONE: ");
                    append_str(&mut line, e.as_str());
                    lines.push(from_chars(&line));
                },
                None => {
                    lines.push("DONE: ok".to_owned());
                    if packages_failed {
                        push_log(&mut app.logs, FAILED_PACKAGES_NOTICE.to_owned());
                        lines.push(FAILED_PACKAGES_NOTICE.to_owned());
                    }
                },
            }
        },
    }
    lines
}

} // verus!
