//! The data that the installer and its front end exchange: step states and
//! the events that report them.

use vstd::prelude::*;

verus! {

/// Where one step of the installation stands.
#[derive(Clone, Copy, PartialEq, Eq, Debug, Structural)]
pub enum StepStatus {
    /// Not yet started.
    Pending,
    /// In progress.
    Running,
    /// Completed successfully.
    Done,
    /// Left out on purpose.
    Skipped,
    /// Stopped with an error.
    Failed,
}

impl StepStatus {
    /// The word under which the status is written to the log file.
    pub open spec fn label_text(self) -> Seq<char> {
        match self {
            StepStatus::Pending => "PENDING"@,
            StepStatus::Running => "RUNNING"@,
            StepStatus::Done => "OK"@,
            StepStatus::Skipped => "SKIP"@,
            StepStatus::Failed => "FAIL"@,
        }
    }

    /// The word under which the status is written to the log file.
    pub fn label(self) -> (r: &'static str)
        ensures
            r@ == self.label_text(),
    {
        match self {
            StepStatus::Pending => "PENDING",
            StepStatus::Running => "RUNNING",
            StepStatus::Done => "OK",
            StepStatus::Skipped => "SKIP",
            StepStatus::Failed => "FAIL",
        }
    }
}

/// The text of an optional string.
pub open spec fn opt_text(s: Option<String>) -> Option<Seq<char>> {
    match s {
        Some(t) => Some(t@),
        None => None,
    }
}

/// A copy of an optional string.
pub fn clone_opt(s: &Option<String>) -> (r: Option<String>)
    ensures
        r == *s,
{
    match s {
        Some(t) => Some(t.clone()),
        None => None,
    }
}

/// One installation step.
#[derive(Debug, Clone, PartialEq, Eq)]
pub struct Step {
    /// The name shown for the step.
    pub name: String,
    /// Where the step stands.
    pub status: StepStatus,
    /// The error message, if the step failed.
    pub err: Option<String>,
}

/// What a `Step` holds, as plain text.
pub struct StepView {
    pub name: Seq<char>,
    pub status: StepStatus,
    pub err: Option<Seq<char>>,
}

impl View for Step {
    type V = StepView;

    open spec fn view(&self) -> StepView {
        StepView { name: self.name@, status: self.status, err: opt_text(self.err) }
    }
}

impl Step {
    /// A step that has not started.
    pub fn pending(name: String) -> (s: Step)
        ensures
            s.name == name,
            s.status == StepStatus::Pending,
            s.err is None,
    {
        Step { name, status: StepStatus::Pending, err: None }
    }
}

/// A part of a whole: `num` out of `den`.
#[derive(Clone, Copy, PartialEq, Eq, Debug, Structural)]
pub struct Fraction {
    pub num: usize,
    pub den: usize,
}

impl Fraction {
    /// `self <= other`, for fractions with positive denominators.
    pub open spec fn le(self, other: Fraction) -> bool {
        self.num * other.den <= other.num * self.den
    }

    /// The fraction is one.
    pub open spec fn is_one(self) -> bool {
        0 < self.den && self.num == self.den
    }
}

/// What the installer tells its front end.
#[derive(Debug, Clone, PartialEq, Eq)]
pub enum InstallerEvent {
    /// A line for the log.
    Log(String),
    /// The part of the installation that is done.
    Progress(Fraction),
    /// A step changed its status.
    Step { index: usize, status: StepStatus, err: Option<String> },
    /// The installation ended, with the error that stopped it, if any.
    Done(Option<String>),
}

/// What an `InstallerEvent` holds, as plain text.
pub enum EventView {
    Log(Seq<char>),
    Progress(Fraction),
    Step { index: int, status: StepStatus, err: Option<Seq<char>> },
    Done(Option<Seq<char>>),
}

impl View for InstallerEvent {
    type V = EventView;

    open spec fn view(&self) -> EventView {
        match *self {
            InstallerEvent::Log(line) => EventView::Log(line@),
            InstallerEvent::Progress(p) => EventView::Progress(p),
            InstallerEvent::Step { index, status, err } => EventView::Step {
                index: index as int,
                status,
                err: opt_text(err),
            },
            InstallerEvent::Done(err) => EventView::Done(opt_text(err)),
        }
    }
}

impl EventView {
    /// The event reports that step `i` took `status`.
    pub open spec fn is_step(self, i: int, status: StepStatus) -> bool {
        self matches EventView::Step { index, status: s, .. } && index == i && s == status
    }
}

} // verus!
