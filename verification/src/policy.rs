//! The two ways in which the installer lives with failure: optional packages
//! are installed as far as they can be, and the encrypted volume is closed
//! with a bounded number of tries. Neither ever fails the installation.

use crate::channel::EventSender;
use crate::command::InstallError;
use crate::model::{EventView, InstallerEvent};
use crate::text::{
    append_str,
    decimal,
    from_chars,
    push_decimal,
    push_signed,
    signed_decimal,
    texts,
    to_chars,
};
use vstd::prelude::*;

verus! {

/// What it means for the installation that a policy's work fails as a
/// whole. The caller of a policy says which it is.
#[derive(Clone, Copy, PartialEq, Eq, Debug, Structural)]
pub enum Severity {
    /// The step fails.
    Fatal,
    /// The failure is logged, and the installation goes on.
    NonFatal,
}

/// What a best-effort installation tries next.
#[derive(Clone, Copy, PartialEq, Eq, Debug, Structural)]
pub enum Attempt {
    /// All items in one call.
    Batch,
    /// The item with this index, alone.
    Item(usize),
    /// Nothing: the work is over.
    Nothing,
}

/// The state of a best-effort installation, as plain values.
pub struct BestEffortView {
    /// The items to install.
    pub items: Seq<Seq<char>>,
    /// What is tried next.
    pub next: Attempt,
    /// The items that failed when tried alone, in the order of `items`.
    pub failed: Seq<Seq<char>>,
    /// What it means that every item fails.
    pub severity: Severity,
}

impl BestEffortView {
    /// The next attempt is in range, and nothing has failed before the items
    /// are tried one by one.
    pub open spec fn wf(self) -> bool {
        &&& self.items.len() <= usize::MAX
        &&& match self.next {
            Attempt::Batch => self.items.len() > 0 && self.failed.len() == 0,
            Attempt::Item(i) => i < self.items.len() && self.failed.len() <= i,
            Attempt::Nothing => self.failed.len() <= self.items.len(),
        }
    }

    /// The work fails the step: the caller declared a failure fatal, the
    /// work is over, and every item failed.
    pub open spec fn fails_step(self) -> bool {
        &&& self.severity == Severity::Fatal
        &&& self.next == Attempt::Nothing
        &&& self.items.len() > 0
        &&& self.failed.len() == self.items.len()
    }

    /// The attempt that follows the item with index `i`.
    pub open spec fn after_item(self, i: int) -> Attempt {
        if i + 1 < self.items.len() {
            Attempt::Item((i + 1) as usize)
        } else {
            Attempt::Nothing
        }
    }

    /// The state after the attempt that was due has ended, well or not.
    pub open spec fn recorded(self, ok: bool) -> BestEffortView {
        match self.next {
            Attempt::Batch => BestEffortView {
                next: if ok {
                    Attempt::Nothing
                } else {
                    Attempt::Item(0)
                },
                ..self
            },
            Attempt::Item(i) => BestEffortView {
                next: self.after_item(i as int),
                failed: if ok {
                    self.failed
                } else {
                    self.failed.push(self.items[i as int])
                },
                ..self
            },
            Attempt::Nothing => self,
        }
    }

    /// The log events that the end of the attempt that was due causes; `err`
    /// is the message of the failure.
    pub open spec fn record_events(self, err: Option<Seq<char>>) -> Seq<EventView> {
        match (self.next, err) {
            (Attempt::Batch, Some(_)) => seq![
                EventView::Log("Optional package batch install failed. Retrying individually..."@),
            ],
            (Attempt::Item(i), Some(e)) => seq![
                EventView::Log(
                    "Optional package failed: "@ + self.items[i as int] + " ("@ + e + ")"@,
                ),
            ],
            _ => Seq::empty(),
        }
    }
}

/// The items of `items` whose individual attempt failed, where `outcomes`
/// says of each item in order whether its attempt went well.
pub open spec fn failures(items: Seq<Seq<char>>, outcomes: Seq<bool>) -> Seq<Seq<char>>
    decreases items.len(),
{
    if items.len() == 0 || outcomes.len() != items.len() {
        Seq::empty()
    } else {
        failures(items.drop_last(), outcomes.drop_last()) + (if outcomes.last() {
            Seq::empty()
        } else {
            seq![items.last()]
        })
    }
}

/// The state of a best-effort installation after the batch has failed and
/// the first `outcomes.len()` items were tried alone.
pub open spec fn after_outcomes(start: BestEffortView, outcomes: Seq<bool>) -> BestEffortView
    decreases outcomes.len(),
{
    if outcomes.len() == 0 {
        start.recorded(false)
    } else {
        after_outcomes(start, outcomes.drop_last()).recorded(outcomes.last())
    }
}

/// Where the batch fails and each item is then tried alone, the report holds
/// exactly the items whose own attempt failed, in their order, and the work
/// is over: there is no outcome that makes the policy fail.
pub proof fn law_report_is_failed_items(start: BestEffortView, outcomes: Seq<bool>)
    requires
        start.wf(),
        start.next == Attempt::Batch,
        outcomes.len() <= start.items.len(),
    ensures
        after_outcomes(start, outcomes).wf(),
        after_outcomes(start, outcomes).items == start.items,
        after_outcomes(start, outcomes).failed == failures(
            start.items.take(outcomes.len() as int),
            outcomes,
        ),
        after_outcomes(start, outcomes).next == (if outcomes.len() < start.items.len() {
            Attempt::Item(outcomes.len() as usize)
        } else {
            Attempt::Nothing
        }),
    decreases outcomes.len(),
{
    let n = outcomes.len() as int;
    if n != 0 {
        law_report_is_failed_items(start, outcomes.drop_last());
        lemma_failures_len(start.items.take(n - 1), outcomes.drop_last());
        assert(start.items.take(n).drop_last() =~= start.items.take(n - 1));
    }
}

/// No more items fail than there are.
pub proof fn lemma_failures_len(items: Seq<Seq<char>>, outcomes: Seq<bool>)
    ensures
        failures(items, outcomes).len() <= items.len(),
    decreases items.len(),
{
    if items.len() > 0 && outcomes.len() == items.len() {
        lemma_failures_len(items.drop_last(), outcomes.drop_last());
    }
}

/// Installs a batch of items as far as it goes: all at once, and if that
/// fails, one by one, keeping a list of those that still fail.
pub struct BestEffort {
    items: Vec<String>,
    next: Attempt,
    failed: Vec<String>,
    severity: Severity,
}

impl View for BestEffort {
    type V = BestEffortView;

    closed spec fn view(&self) -> BestEffortView {
        BestEffortView {
            items: texts(self.items@),
            next: self.next,
            failed: texts(self.failed@),
            severity: self.severity,
        }
    }
}

impl BestEffort {
    /// A best-effort installation of `items`: the batch is due, or nothing
    /// where there are no items. `severity` says what it means that every
    /// item fails.
    pub fn new(items: Vec<String>, severity: Severity) -> (b: BestEffort)
        ensures
            b@.wf(),
            b@.items == texts(items@),
            b@.severity == severity,
            b@.failed == Seq::<Seq<char>>::empty(),
            b@.next == (if items.len() == 0 {
                Attempt::Nothing
            } else {
                Attempt::Batch
            }),
    {
        let next = if items.len() == 0 {
            Attempt::Nothing
        } else {
            Attempt::Batch
        };
        let b = BestEffort { items, next, failed: Vec::new(), severity };
        b
    }

    /// What to try next.
    pub fn next(&self) -> (a: Attempt)
        ensures
            a == self@.next,
    {
        self.next
    }

    /// The items to install.
    pub fn items(&self) -> (r: &Vec<String>)
        ensures
            texts(r@) == self@.items,
    {
        &self.items
    }

    /// Records how the attempt that was due ended, and logs a failure. A
    /// failure of the batch makes the first item due, a failure of an item
    /// puts it on the list; neither is an error of the installation.
    pub fn record(&mut self, outcome: Result<(), String>, tx: &mut EventSender)
        requires
            old(self)@.wf(),
        ensures
            final(self)@.wf(),
            final(self)@ == old(self)@.recorded(outcome is Ok),
            final(tx).offered() == old(tx).offered() + old(self)@.record_events(
                match outcome {
                    Ok(_) => None,
                    Err(e) => Some(e@),
                },
            ),
    {
        let ghost before = self@;
        match self.next {
            Attempt::Batch => {
                match outcome {
                    Ok(_) => {
                        self.next = Attempt::Nothing;
                    },
                    Err(_) => {
                        self.next = Attempt::Item(0);
                        tx.send(
                            InstallerEvent::Log(
                                "Optional package batch install failed. Retrying individually...".to_owned(),
                            ),
                        );
                    },
                }
            },
            Attempt::Item(i) => {
                match outcome {
                    Ok(_) => {},
                    Err(e) => {
                        let mut line = to_chars("Optional package failed: ");
                        append_str(&mut line, self.items[i].as_str());
                        append_str(&mut line, " (");
                        append_str(&mut line, e.as_str());
                        append_str(&mut line, ")");
                        tx.send(InstallerEvent::Log(from_chars(&line)));
                        let item = self.items[i].clone();
                        self.failed.push(item);
                        assert(texts(self.failed@) =~= before.failed.push(before.items[i as int]));
                    },
                }
                self.next = if i + 1 < self.items.len() {
                    Attempt::Item(i + 1)
                } else {
                    Attempt::Nothing
                };
            },
            Attempt::Nothing => {},
        }
    }

    /// The items that failed when tried alone.
    pub fn report(&self) -> (r: &Vec<String>)
        ensures
            texts(r@) == self@.failed,
    {
        &self.failed
    }

    /// What the work means for the step: an error only where the caller
    /// declared a failure fatal, the work is over, and every item failed.
    pub fn verdict(&self) -> (r: Result<(), InstallError>)
        requires
            self@.wf(),
        ensures
            r is Err <==> self@.fails_step(),
            r is Err ==> r->Err_0 is GaveUp && r->Err_0->GaveUp_what@
                == "Every optional package failed to install"@,
    {
        let over = match self.next {
            Attempt::Nothing => true,
            _ => false,
        };
        let fatal = match self.severity {
            Severity::Fatal => true,
            Severity::NonFatal => false,
        };
        if fatal && over && self.items.len() > 0 && self.failed.len() == self.items.len() {
            Err(
                InstallError::GaveUp {
                    what: "Every optional package failed to install".to_owned(),
                },
            )
        } else {
            Ok(())
        }
    }
}

/// How often the encrypted volume is tried to be closed.
pub const MAX_TRIES: usize = 5;

/// The milliseconds to wait after a failed try.
pub const RETRY_DELAY_MS: u64 = 1000;

/// How one try of closing the volume ended.
#[derive(Debug, Clone, PartialEq, Eq)]
pub enum TryOutcome {
    /// The program reported success.
    Closed,
    /// The program reported failure, with this exit code if it gave one.
    Exited(Option<i32>),
    /// The program could not be run; the text says why.
    NotRun(String),
}

/// What to do after a try.
#[derive(Clone, Copy, PartialEq, Eq, Debug, Structural)]
pub enum AfterTry {
    /// The volume is closed: stop.
    Stop,
    /// The try failed: log what holds the volume busy, wait for
    /// `RETRY_DELAY_MS`, then ask `resume`.
    DiagnoseAndWait,
}

/// What to do after the wait.
#[derive(Clone, Copy, PartialEq, Eq, Debug, Structural)]
pub enum AfterWait {
    /// Try once more.
    TryAgain,
    /// Every try has failed: go on without closing the volume.
    GiveUp,
}

/// The line that reports a failed try.
pub open spec fn failure_line(tries: int, outcome: TryOutcome) -> Seq<char> {
    let head = "cryptsetup close failed (attempt "@ + decimal(tries as nat) + "/"@ + decimal(
        MAX_TRIES as nat,
    ) + "): "@;
    match outcome {
        TryOutcome::Closed => head,
        TryOutcome::Exited(code) => head + "exit "@ + signed_decimal(
            match code {
                Some(c) => c as int,
                None => -1,
            },
        ),
        TryOutcome::NotRun(why) => head + why@,
    }
}

/// The state of a bounded retry, as plain values.
pub struct RetryView {
    /// The number of tries whose outcome was recorded.
    pub tries: int,
    /// Whether the work is over: the volume is closed or was given up.
    pub over: bool,
    /// Whether a try closed the volume.
    pub closed: bool,
    /// What it means that every try fails.
    pub severity: Severity,
}

impl RetryView {
    /// No more than `MAX_TRIES` tries are made, and a closed volume ends the work.
    pub open spec fn wf(self) -> bool {
        &&& 0 <= self.tries <= MAX_TRIES
        &&& self.closed ==> self.over
    }

    /// A try is due: the work is not over and fewer than `MAX_TRIES` tries
    /// were made.
    pub open spec fn due(self) -> bool {
        !self.over && self.tries < MAX_TRIES
    }

    /// The state after a try was recorded that closed the volume, or did
    /// not. Where no try was due, nothing is recorded.
    pub open spec fn recorded(self, closed: bool) -> RetryView {
        if self.due() {
            RetryView { tries: self.tries + 1, over: closed, closed, ..self }
        } else {
            self
        }
    }

    /// The state after the wait that follows a failed try: the work is over
    /// unless another try is due.
    pub open spec fn resumed(self) -> RetryView {
        if self.due() {
            self
        } else {
            RetryView { over: true, ..self }
        }
    }

    /// The state after `n` tries that failed, each followed by the wait.
    pub open spec fn after_failures(self, n: nat) -> RetryView
        decreases n,
    {
        if n == 0 {
            self
        } else {
            self.after_failures((n - 1) as nat).recorded(false).resumed()
        }
    }

    /// Whether the work fails the step: only where a failure was declared
    /// fatal and the volume was given up.
    pub open spec fn fails(self) -> bool {
        self.severity == Severity::Fatal && self.over && !self.closed
    }
}

/// However often the closing fails, no more than `MAX_TRIES` tries are
/// recorded; the work is over once that many have failed, and not before;
/// and unless a failure was declared fatal, the step does not fail.
pub proof fn law_retry_is_bounded(start: RetryView, n: nat)
    requires
        start.tries == 0,
        !start.over,
        !start.closed,
    ensures
        start.after_failures(n).wf(),
        start.after_failures(n).tries == if n < MAX_TRIES {
            n as int
        } else {
            MAX_TRIES as int
        },
        start.after_failures(n).over == (n >= MAX_TRIES),
        !start.after_failures(n).closed,
        start.after_failures(n).severity == start.severity,
        start.severity == Severity::NonFatal ==> !start.after_failures(n).fails(),
    decreases n,
{
    if n > 0 {
        law_retry_is_bounded(start, (n - 1) as nat);
    }
}

/// Closes the encrypted volume with a bounded number of tries. That every
/// try fails is no error: the installation goes on.
pub struct BoundedRetry {
    tries: usize,
    over: bool,
    closed: bool,
    severity: Severity,
}

impl View for BoundedRetry {
    type V = RetryView;

    closed spec fn view(&self) -> RetryView {
        RetryView {
            tries: self.tries as int,
            over: self.over,
            closed: self.closed,
            severity: self.severity,
        }
    }
}

impl BoundedRetry {
    /// The number of tries whose outcome was recorded.
    pub open spec fn tries(&self) -> int {
        self@.tries
    }

    /// Whether the work is over: the volume is closed or was given up.
    pub open spec fn over(&self) -> bool {
        self@.over
    }

    /// Whether a try closed the volume.
    pub open spec fn closed(&self) -> bool {
        self@.closed
    }

    /// What it means that every try fails.
    pub open spec fn severity(&self) -> Severity {
        self@.severity
    }

    /// No more than `MAX_TRIES` tries are made, and a closed volume ends the work.
    pub open spec fn wf(&self) -> bool {
        self@.wf()
    }

    /// Announces the closing; the first try is due. `severity` says what
    /// it means that every try fails.
    pub fn begin(tx: &mut EventSender, severity: Severity) -> (r: BoundedRetry)
        ensures
            r.wf(),
            r.tries() == 0,
            !r.over(),
            !r.closed(),
            r.severity() == severity,
            final(tx).offered() == old(tx).offered().push(EventView::Log("Closing cryptroot..."@)),
    {
        tx.send(InstallerEvent::Log("Closing cryptroot...".to_owned()));
        BoundedRetry { tries: 0, over: false, closed: false, severity }
    }

    /// A try is due: the work is not over and fewer than `MAX_TRIES` tries
    /// were made.
    pub open spec fn due(&self) -> bool {
        self@.due()
    }

    /// Whether a try is due.
    pub fn may_try(&self) -> (b: bool)
        ensures
            b == self.due(),
    {
        !self.over && self.tries < MAX_TRIES
    }

    /// The number of tries whose outcome was recorded.
    pub fn tries_made(&self) -> (n: usize)
        ensures
            n == self.tries(),
    {
        self.tries
    }

    /// Records how a try ended and logs it. Where no try was due, nothing
    /// is recorded or logged, and there is nothing more to do.
    pub fn record(&mut self, outcome: TryOutcome, tx: &mut EventSender) -> (r: AfterTry)
        requires
            old(self).wf(),
        ensures
            final(self).wf(),
            final(self)@ == old(self)@.recorded(outcome is Closed),
            r == (if old(self).due() && !(outcome is Closed) {
                AfterTry::DiagnoseAndWait
            } else {
                AfterTry::Stop
            }),
            old(self).due() ==> final(tx).offered() == old(tx).offered().push(
                EventView::Log(
                    if outcome is Closed {
                        "cryptroot closed."@
                    } else {
                        failure_line(old(self).tries() + 1, outcome)
                    },
                ),
            ),
            !old(self).due() ==> final(tx).offered() == old(tx).offered(),
    {
        if self.over || self.tries >= MAX_TRIES {
            return AfterTry::Stop;
        }
        self.tries = self.tries + 1;
        let mut line = to_chars("cryptsetup close failed (attempt ");
        push_decimal(&mut line, self.tries as u64);
        append_str(&mut line, "/");
        push_decimal(&mut line, MAX_TRIES as u64);
        append_str(&mut line, "): ");
        match outcome {
            TryOutcome::Closed => {
                self.over = true;
                self.closed = true;
                tx.send(InstallerEvent::Log("cryptroot closed.".to_owned()));
                AfterTry::Stop
            },
            TryOutcome::Exited(code) => {
                append_str(&mut line, "exit ");
                let shown: i32 = match code {
                    Some(c) => c,
                    None => -1,
                };
                push_signed(&mut line, shown);
                tx.send(InstallerEvent::Log(from_chars(&line)));
                AfterTry::DiagnoseAndWait
            },
            TryOutcome::NotRun(why) => {
                append_str(&mut line, why.as_str());
                tx.send(InstallerEvent::Log(from_chars(&line)));
                AfterTry::DiagnoseAndWait
            },
        }
    }

    /// Says what follows the wait after a failed try: another try, or, after
    /// `MAX_TRIES` tries, giving up with a warning in the log. Where the work
    /// is over already, it stays given up and nothing is logged.
    pub fn resume(&mut self, tx: &mut EventSender) -> (r: AfterWait)
        requires
            old(self).wf(),
        ensures
            final(self).wf(),
            final(self)@ == old(self)@.resumed(),
            r == (if old(self).due() {
                AfterWait::TryAgain
            } else {
                AfterWait::GiveUp
            }),
            old(self).due() || old(self).over() ==> final(tx).offered() == old(tx).offered(),
            !old(self).due() && !old(self).over() ==> final(tx).offered() == old(
                tx,
            ).offered().push(
                EventView::Log("cryptroot still busy after retries; continuing without closing."@),
            ),
    {
        if self.over {
            AfterWait::GiveUp
        } else if self.tries < MAX_TRIES {
            AfterWait::TryAgain
        } else {
            self.over = true;
            tx.send(
                InstallerEvent::Log(
                    "cryptroot still busy after retries; continuing without closing.".to_owned(),
                ),
            );
            AfterWait::GiveUp
        }
    }

    /// What the work means for the step: an error only where the caller
    /// declared a failure fatal and the volume was given up.
    pub fn verdict(&self) -> (r: Result<(), InstallError>)
        ensures
            r is Err <==> self@.fails(),
            r is Err ==> r->Err_0 is GaveUp && r->Err_0->GaveUp_what@
                == "cryptroot still busy after retries"@,
    {
        let fatal = match self.severity {
            Severity::Fatal => true,
            Severity::NonFatal => false,
        };
        if fatal && self.over && !self.closed {
            Err(InstallError::GaveUp { what: "cryptroot still busy after retries".to_owned() })
        } else {
            Ok(())
        }
    }
}

} // verus!
