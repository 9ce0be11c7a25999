//! The step pipeline: an ordered list of steps that are run one after the
//! other, each reported to the front end, where the first failure ends the run.

use crate::channel::EventSender;
use crate::model::{EventView, Fraction, InstallerEvent, Step, StepStatus, StepView, clone_opt};
use vstd::prelude::*;

verus! {

/// The state of a pipeline, as plain values.
pub struct PipelineView {
    /// The steps, in the order in which they run.
    pub steps: Seq<StepView>,
    /// The index of the first step that is not settled.
    pub cursor: int,
    /// Whether the end of the run has been reported.
    pub finished: bool,
}

/// The event that reports `status` for step `i`.
pub open spec fn transition(i: int, status: StepStatus, err: Option<Seq<char>>) -> EventView {
    EventView::Step { index: i, status, err }
}

/// The event that reports `num` steps out of `total` as done.
pub open spec fn progress(num: int, total: int) -> EventView {
    EventView::Progress(Fraction { num: num as usize, den: total as usize })
}

/// The events that step `i` has caused when it stands as `s` says.
pub open spec fn step_events(i: int, s: StepView, total: int) -> Seq<EventView> {
    match s.status {
        StepStatus::Pending => Seq::empty(),
        StepStatus::Running => seq![transition(i, StepStatus::Running, None)],
        StepStatus::Done => seq![
            transition(i, StepStatus::Running, None),
            transition(i, StepStatus::Done, None),
            progress(i + 1, total),
        ],
        StepStatus::Skipped => seq![
            transition(i, StepStatus::Skipped, None),
            progress(i + 1, total),
        ],
        StepStatus::Failed => seq![
            transition(i, StepStatus::Running, None),
            transition(i, StepStatus::Failed, s.err),
        ],
    }
}

/// The events that the first `n` steps have caused, in order.
pub open spec fn events_upto(steps: Seq<StepView>, n: int) -> Seq<EventView>
    decreases n,
{
    if n <= 0 {
        Seq::empty()
    } else {
        events_upto(steps, n - 1) + step_events(n - 1, steps[n - 1], steps.len() as int)
    }
}

impl PipelineView {
    /// The steps before the cursor are done or skipped, those after it have
    /// not started, and only a failed step carries an error.
    pub open spec fn wf(self) -> bool {
        &&& 0 <= self.cursor <= self.steps.len() <= usize::MAX
        &&& forall|i: int|
            0 <= i < self.cursor ==> {
                &&& ((#[trigger] self.steps[i]).status == StepStatus::Done || self.steps[i].status
                    == StepStatus::Skipped)
                &&& self.steps[i].err is None
            }
        &&& forall|i: int|
            self.cursor < i < self.steps.len() ==> {
                &&& (#[trigger] self.steps[i]).status == StepStatus::Pending
                &&& self.steps[i].err is None
            }
        &&& self.cursor < self.steps.len() ==> {
            let s = self.steps[self.cursor];
            &&& s.status == StepStatus::Pending || s.status == StepStatus::Running || s.status
                == StepStatus::Failed
            &&& s.err is Some <==> s.status == StepStatus::Failed
        }
        &&& self.finished ==> self.cursor == self.steps.len() || self.failed()
    }

    /// The step at the cursor has failed.
    pub open spec fn failed(self) -> bool {
        self.cursor < self.steps.len() && self.steps[self.cursor].status == StepStatus::Failed
    }

    /// The error that stopped the run, if a step has failed.
    pub open spec fn error(self) -> Option<Seq<char>> {
        if self.failed() {
            self.steps[self.cursor].err
        } else {
            None
        }
    }

    /// Every event that the pipeline has emitted, oldest first.
    pub open spec fn trace(self) -> Seq<EventView> {
        events_upto(self.steps, self.steps.len() as int) + if self.finished {
            seq![EventView::Done(self.error())]
        } else {
            Seq::empty()
        }
    }

    /// The state with the step at the cursor changed to `status` and `err`.
    pub open spec fn with_current(
        self,
        status: StepStatus,
        err: Option<Seq<char>>,
    ) -> PipelineView {
        PipelineView {
            steps: self.steps.update(
                self.cursor,
                StepView { name: self.steps[self.cursor].name, status, err },
            ),
            ..self
        }
    }

    /// A step can start: the run goes on and the next step is pending.
    pub open spec fn can_begin(self) -> bool {
        !self.finished && 0 <= self.cursor < self.steps.len() && self.steps[self.cursor].status
            == StepStatus::Pending
    }

    /// The state after the next step has started.
    pub open spec fn begun(self) -> PipelineView {
        self.with_current(StepStatus::Running, None)
    }

    /// A step can end: the run goes on and the step at the cursor is running.
    pub open spec fn can_settle(self) -> bool {
        !self.finished && 0 <= self.cursor < self.steps.len() && self.steps[self.cursor].status
            == StepStatus::Running
    }

    /// The state after the running step has ended, with the error it gave, if any.
    pub open spec fn settled(self, err: Option<Seq<char>>) -> PipelineView {
        match err {
            None => PipelineView {
                cursor: self.cursor + 1,
                ..self.with_current(StepStatus::Done, None)
            },
            Some(e) => self.with_current(StepStatus::Failed, Some(e)),
        }
    }

    /// The events that the end of the running step causes.
    pub open spec fn settle_events(self, err: Option<Seq<char>>) -> Seq<EventView> {
        match err {
            None => seq![
                transition(self.cursor, StepStatus::Done, None),
                progress(self.cursor + 1, self.steps.len() as int),
            ],
            Some(e) => seq![transition(self.cursor, StepStatus::Failed, Some(e))],
        }
    }

    /// The state after the next step has been skipped.
    pub open spec fn skipped(self) -> PipelineView {
        PipelineView { cursor: self.cursor + 1, ..self.with_current(StepStatus::Skipped, None) }
    }

    /// The events that skipping the next step causes.
    pub open spec fn skip_events(self) -> Seq<EventView> {
        seq![
            transition(self.cursor, StepStatus::Skipped, None),
            progress(self.cursor + 1, self.steps.len() as int),
        ]
    }

    /// The end of the run can be reported: every step is settled or one has failed.
    pub open spec fn can_finish(self) -> bool {
        !self.finished && (self.cursor == self.steps.len() || self.failed())
    }

    /// The state after the end of the run has been reported.
    pub open spec fn ended(self) -> PipelineView {
        PipelineView { finished: true, ..self }
    }

    /// The state after the pipeline has moved on as far as it can without
    /// any work being done: the steps that `skips` marks are skipped, up to the
    /// first that is not marked, which starts; where no step is left, or one
    /// has failed, the end of the run is reported. While a step runs, and
    /// after the end, nothing changes.
    pub open spec fn advanced(self, skips: Seq<bool>) -> PipelineView
        decreases self.steps.len() - self.cursor,
    {
        if self.can_begin() {
            if skip_at(skips, self.cursor) {
                self.skipped().advanced(skips)
            } else {
                self.begun()
            }
        } else if self.can_finish() {
            self.ended()
        } else {
            self
        }
    }

    /// The events that moving on causes.
    pub open spec fn advance_events(self, skips: Seq<bool>) -> Seq<EventView>
        decreases self.steps.len() - self.cursor,
    {
        if self.can_begin() {
            if skip_at(skips, self.cursor) {
                self.skip_events() + self.skipped().advance_events(skips)
            } else {
                seq![transition(self.cursor, StepStatus::Running, None)]
            }
        } else if self.can_finish() {
            seq![EventView::Done(self.error())]
        } else {
            Seq::empty()
        }
    }
}

impl PipelineView {
    /// No step is running and the end has not been reported: the state of a
    /// pipeline before its first step and between two steps.
    pub open spec fn at_rest(self) -> bool {
        &&& !self.finished
        &&& self.cursor < self.steps.len() ==> self.steps[self.cursor].status
            == StepStatus::Pending
    }

    /// The state in which the run ends when it goes on from here: each
    /// step in turn is skipped where `skips` marks it and is done otherwise,
    /// up to the first whose work ends with an error in `outcomes`; the
    /// run ends there, or after the last step.
    pub open spec fn run(
        self,
        skips: Seq<bool>,
        outcomes: Seq<Option<Seq<char>>>,
    ) -> PipelineView
        decreases self.steps.len() - self.cursor,
        via Self::run_ends
    {
        if self.can_begin() {
            if skip_at(skips, self.cursor) {
                self.skipped().run(skips, outcomes)
            } else {
                match outcome_at(outcomes, self.cursor) {
                    None => self.begun().settled(None).run(skips, outcomes),
                    Some(e) => self.begun().settled(Some(e)).ended(),
                }
            }
        } else if self.can_finish() {
            self.ended()
        } else {
            self
        }
    }

    #[via_fn]
    proof fn run_ends(self, skips: Seq<bool>, outcomes: Seq<Option<Seq<char>>>) {
        if self.can_begin() {
            assert(self.begun().settled(None).steps.len() == self.steps.len());
        }
    }
}

/// The error with which the work of step `i` ends, as `outcomes` has it. A
/// step without an entry succeeds.
pub open spec fn outcome_at(outcomes: Seq<Option<Seq<char>>>, i: int) -> Option<Seq<char>> {
    if 0 <= i < outcomes.len() {
        outcomes[i]
    } else {
        None
    }
}

/// Whether `skips` marks step `i` as one to skip. A step without a mark is
/// not skipped.
pub open spec fn skip_at(skips: Seq<bool>, i: int) -> bool {
    0 <= i < skips.len() && skips[i]
}

/// What the one who drives a pipeline does next.
#[derive(Debug, Clone, PartialEq, Eq)]
pub enum Directive {
    /// Do the work of the step with this index, which has been reported as
    /// running, and then report how it ended.
    Run(usize),
    /// Nothing more: the end of the run has been reported, with this error
    /// if a step failed.
    Over(Option<String>),
}

/// Steps at or after `n` do not matter to the events of the first `n`.
pub proof fn lemma_events_frame(a: Seq<StepView>, b: Seq<StepView>, n: int)
    requires
        a.len() == b.len(),
        n <= a.len(),
        forall|i: int| 0 <= i < n ==> a[i] == b[i],
    ensures
        events_upto(a, n) == events_upto(b, n),
    decreases n,
{
    if n > 0 {
        lemma_events_frame(a, b, n - 1);
    }
}

/// Pending steps cause no events.
pub proof fn lemma_events_pending(steps: Seq<StepView>, k: int, n: int)
    requires
        0 <= k <= n <= steps.len(),
        forall|i: int| k <= i < n ==> (#[trigger] steps[i]).status == StepStatus::Pending,
    ensures
        events_upto(steps, n) == events_upto(steps, k),
    decreases n - k,
{
    if k < n {
        lemma_events_pending(steps, k, n - 1);
    }
}

/// The trace of a well-formed pipeline is what the settled steps caused, then
/// what the step at the cursor has caused so far, then the report of the end.
pub proof fn lemma_trace_parts(p: PipelineView)
    requires
        p.wf(),
    ensures
        p.trace() == events_upto(p.steps, p.cursor) + (if p.cursor < p.steps.len() {
            step_events(p.cursor, p.steps[p.cursor], p.steps.len() as int)
        } else {
            Seq::empty()
        }) + (if p.finished {
            seq![EventView::Done(p.error())]
        } else {
            Seq::empty()
        }),
{
    let n = p.steps.len() as int;
    if p.cursor < n {
        lemma_events_pending(p.steps, p.cursor + 1, n);
    }
}

/// An ordered list of steps and how far the run has come.
pub struct Pipeline {
    steps: Vec<Step>,
    cursor: usize,
    finished: bool,
}

impl View for Pipeline {
    type V = PipelineView;

    closed spec fn view(&self) -> PipelineView {
        PipelineView {
            steps: Seq::new(self.steps@.len(), |i: int| self.steps@[i]@),
            cursor: self.cursor as int,
            finished: self.finished,
        }
    }
}

impl Pipeline {
    /// A pipeline of pending steps with the given names.
    pub fn new(names: Vec<String>) -> (p: Pipeline)
        ensures
            p@.wf(),
            p@.cursor == 0,
            !p@.finished,
            p@.steps.len() == names.len(),
            forall|i: int|
                0 <= i < names.len() ==> #[trigger] p@.steps[i] == (StepView {
                    name: names@[i]@,
                    status: StepStatus::Pending,
                    err: None,
                }),
            p@.trace() == Seq::<EventView>::empty(),
    {
        let mut steps: Vec<Step> = Vec::new();
        let mut i: usize = 0;
        while i < names.len()
            invariant
                i <= names.len(),
                steps.len() == i,
                forall|j: int|
                    0 <= j < i ==> (#[trigger] steps@[j])@ == (StepView {
                        name: names@[j]@,
                        status: StepStatus::Pending,
                        err: None,
                    }),
            decreases names.len() - i,
        {
            steps.push(Step::pending(names[i].clone()));
            i += 1;
        }
        let p = Pipeline { steps, cursor: 0, finished: false };
        proof {
            assert forall|i: int| 0 <= i < names.len() implies #[trigger] p@.steps[i] == (StepView {
                name: names@[i]@,
                status: StepStatus::Pending,
                err: None,
            }) by {
            }
            lemma_events_pending(p@.steps, 0, p@.steps.len() as int);
        }
        p
    }

    /// The number of steps.
    pub fn len(&self) -> (n: usize)
        ensures
            n == self@.steps.len(),
    {
        self.steps.len()
    }

    /// The index of the first step that is not settled.
    pub fn cursor(&self) -> (c: usize)
        ensures
            c == self@.cursor,
    {
        self.cursor
    }

    /// Whether the end of the run has been reported.
    pub fn is_finished(&self) -> (b: bool)
        ensures
            b == self@.finished,
    {
        self.finished
    }

    /// The status of step `i`.
    pub fn status(&self, i: usize) -> (s: StepStatus)
        requires
            i < self@.steps.len(),
        ensures
            s == self@.steps[i as int].status,
    {
        self.steps[i].status
    }

    /// The error that stopped the run, if a step has failed.
    pub fn error(&self) -> (e: Option<String>)
        requires
            self@.wf(),
        ensures
            crate::model::opt_text(e) == self@.error(),
    {
        if self.cursor < self.steps.len() {
            match self.steps[self.cursor].status {
                StepStatus::Failed => clone_opt(&self.steps[self.cursor].err),
                _ => None,
            }
        } else {
            None
        }
    }

    fn set_current(&mut self, status: StepStatus, err: Option<String>)
        requires
            old(self).cursor < old(self).steps.len(),
        ensures
            final(self)@ == old(self)@.with_current(status, crate::model::opt_text(err)),
            final(self).cursor == old(self).cursor,
    {
        let name = self.steps[self.cursor].name.clone();
        self.steps.set(self.cursor, Step { name, status, err });
        assert(self@.steps =~= old(self)@.with_current(status, crate::model::opt_text(err)).steps);
    }

    /// Starts the next step and reports it as running. Returns whether a step
    /// could start; if not, nothing changes and nothing is reported.
    pub fn begin_step(&mut self, tx: &mut EventSender) -> (ok: bool)
        requires
            old(self)@.wf(),
        ensures
            final(self)@.wf(),
            ok == old(self)@.can_begin(),
            ok ==> {
                let emitted = seq![transition(old(self)@.cursor, StepStatus::Running, None)];
                &&& final(self)@ == old(self)@.begun()
                &&& final(tx).offered() == old(tx).offered() + emitted
                &&& final(self)@.trace() == old(self)@.trace() + emitted
            },
            !ok ==> final(self)@ == old(self)@ && final(tx).offered() == old(tx).offered(),
    {
        if self.finished || self.cursor >= self.steps.len() {
            return false;
        }
        match self.steps[self.cursor].status {
            StepStatus::Pending => {},
            _ => {
                return false;
            },
        }
        let index = self.cursor;
        self.set_current(StepStatus::Running, None);
        tx.send(InstallerEvent::Step { index, status: StepStatus::Running, err: None });
        proof {
            let a = old(self)@;
            let b = self@;
            lemma_trace_parts(a);
            lemma_trace_parts(b);
            lemma_events_frame(a.steps, b.steps, a.cursor);
        }
        true
    }

    /// Ends the running step with `outcome` and reports it: done, and the
    /// progress made, or failed with the error. Returns whether a step was
    /// running; if not, nothing changes and nothing is reported.
    pub fn end_step(&mut self, tx: &mut EventSender, outcome: Result<(), String>) -> (ok: bool)
        requires
            old(self)@.wf(),
        ensures
            final(self)@.wf(),
            ok == old(self)@.can_settle(),
            ok ==> {
                let err = match outcome {
                    Ok(_) => None,
                    Err(e) => Some(e@),
                };
                let emitted = old(self)@.settle_events(err);
                &&& final(self)@ == old(self)@.settled(err)
                &&& final(tx).offered() == old(tx).offered() + emitted
                &&& final(self)@.trace() == old(self)@.trace() + emitted
            },
            !ok ==> final(self)@ == old(self)@ && final(tx).offered() == old(tx).offered(),
    {
        if self.finished || self.cursor >= self.steps.len() {
            return false;
        }
        match self.steps[self.cursor].status {
            StepStatus::Running => {},
            _ => {
                return false;
            },
        }
        let index = self.cursor;
        let total = self.steps.len();
        let ghost a = old(self)@;
        match outcome {
            Ok(_) => {
                self.set_current(StepStatus::Done, None);
                self.cursor = index + 1;
                tx.send(InstallerEvent::Step { index, status: StepStatus::Done, err: None });
                tx.send(InstallerEvent::Progress(Fraction { num: index + 1, den: total }));
                proof {
                    let b = self@;
                    lemma_trace_parts(a);
                    lemma_trace_parts(b);
                    lemma_events_frame(a.steps, b.steps, a.cursor);
                }
            },
            Err(e) => {
                let shown = e.clone();
                self.set_current(StepStatus::Failed, Some(e));
                tx.send(
                    InstallerEvent::Step { index, status: StepStatus::Failed, err: Some(shown) },
                );
                proof {
                    let b = self@;
                    lemma_trace_parts(a);
                    lemma_trace_parts(b);
                    lemma_events_frame(a.steps, b.steps, a.cursor);
                }
            },
        }
        true
    }

    /// Skips the next step and reports it as skipped, with the progress made.
    /// Returns whether a step could be skipped; if not, nothing changes and
    /// nothing is reported.
    pub fn skip_step(&mut self, tx: &mut EventSender) -> (ok: bool)
        requires
            old(self)@.wf(),
        ensures
            final(self)@.wf(),
            ok == old(self)@.can_begin(),
            ok ==> {
                let emitted = old(self)@.skip_events();
                &&& final(self)@ == old(self)@.skipped()
                &&& final(tx).offered() == old(tx).offered() + emitted
                &&& final(self)@.trace() == old(self)@.trace() + emitted
            },
            !ok ==> final(self)@ == old(self)@ && final(tx).offered() == old(tx).offered(),
    {
        if self.finished || self.cursor >= self.steps.len() {
            return false;
        }
        match self.steps[self.cursor].status {
            StepStatus::Pending => {},
            _ => {
                return false;
            },
        }
        let index = self.cursor;
        let total = self.steps.len();
        let ghost a = old(self)@;
        self.set_current(StepStatus::Skipped, None);
        self.cursor = index + 1;
        tx.send(InstallerEvent::Step { index, status: StepStatus::Skipped, err: None });
        tx.send(InstallerEvent::Progress(Fraction { num: index + 1, den: total }));
        proof {
            let b = self@;
            lemma_trace_parts(a);
            lemma_trace_parts(b);
            lemma_events_frame(a.steps, b.steps, a.cursor);
        }
        true
    }

    /// Reports the end of the run, with the error of the failed step, if any.
    /// Returns whether the run could end: every step settled, or one failed,
    /// and the end not yet reported; if not, nothing changes and nothing is
    /// reported.
    pub fn finish(&mut self, tx: &mut EventSender) -> (ok: bool)
        requires
            old(self)@.wf(),
        ensures
            final(self)@.wf(),
            ok == old(self)@.can_finish(),
            ok ==> {
                let emitted = seq![EventView::Done(old(self)@.error())];
                &&& final(self)@ == old(self)@.ended()
                &&& final(tx).offered() == old(tx).offered() + emitted
                &&& final(self)@.trace() == old(self)@.trace() + emitted
            },
            !ok ==> final(self)@ == old(self)@ && final(tx).offered() == old(tx).offered(),
    {
        if self.finished {
            return false;
        }
        let err = self.error();
        if self.cursor < self.steps.len() && err.is_none() {
            return false;
        }
        self.finished = true;
        tx.send(InstallerEvent::Done(err));
        true
    }

    fn skips_next(&self, skips: &[bool]) -> (r: bool)
        ensures
            r == (self@.can_begin() && skip_at(skips@, self@.cursor)),
    {
        if self.finished || self.cursor >= self.steps.len() || self.cursor >= skips.len() {
            return false;
        }
        match self.steps[self.cursor].status {
            StepStatus::Pending => skips[self.cursor],
            _ => false,
        }
    }

    /// Moves on as far as the pipeline can without any work being done, and
    /// says what to do next. The steps that `skips` marks are skipped and
    /// reported so; the first step that is not marked starts and is to be
    /// run. Where no step is left, or the step at the cursor has failed, the
    /// end of the run is reported and the run is over: after a failure no
    /// step starts any more. While a step runs, that step is still to be run;
    /// after the end, the run is still over.
    pub fn advance(&mut self, tx: &mut EventSender, skips: &[bool]) -> (d: Directive)
        requires
            old(self)@.wf(),
        ensures
            final(self)@.wf(),
            final(self)@ == old(self)@.advanced(skips@),
            final(tx).offered() == old(tx).offered() + old(self)@.advance_events(skips@),
            final(self)@.trace() == old(self)@.trace() + old(self)@.advance_events(skips@),
            match d {
                Directive::Run(index) => !final(self)@.finished && final(self)@.can_settle()
                    && index == final(self)@.cursor,
                Directive::Over(err) => final(self)@.finished && crate::model::opt_text(err)
                    == final(self)@.error(),
            },
    {
        let ghost mut emitted = Seq::<EventView>::empty();
        while self.skips_next(skips)
            invariant
                self@.wf(),
                self@.advanced(skips@) == old(self)@.advanced(skips@),
                emitted + self@.advance_events(skips@) == old(self)@.advance_events(skips@),
                tx.offered() == old(tx).offered() + emitted,
                self@.trace() == old(self)@.trace() + emitted,
            decreases self@.steps.len() - self@.cursor,
        {
            let ghost before = self@;
            self.skip_step(tx);
            proof {
                assert(emitted + (before.skip_events() + self@.advance_events(skips@)) =~= (emitted
                    + before.skip_events()) + self@.advance_events(skips@));
                assert(old(tx).offered() + emitted + before.skip_events() =~= old(tx).offered() + (
                emitted + before.skip_events()));
                assert(old(self)@.trace() + emitted + before.skip_events() =~= old(self)@.trace()
                    + (emitted + before.skip_events()));
                emitted = emitted + before.skip_events();
            }
        }
        let index = self.cursor;
        if self.begin_step(tx) {
            proof {
                assert(old(tx).offered() + emitted + seq![
                    transition(index as int, StepStatus::Running, None),
                ] =~= old(tx).offered() + (emitted + seq![
                    transition(index as int, StepStatus::Running, None),
                ]));
                assert(old(self)@.trace() + emitted + seq![
                    transition(index as int, StepStatus::Running, None),
                ] =~= old(self)@.trace() + (emitted + seq![
                    transition(index as int, StepStatus::Running, None),
                ]));
            }
            return Directive::Run(index);
        }
        let ghost before = self@;
        if self.finish(tx) {
            proof {
                assert(old(tx).offered() + emitted + seq![EventView::Done(before.error())]
                    =~= old(tx).offered() + (emitted + seq![EventView::Done(before.error())]));
                assert(old(self)@.trace() + emitted + seq![EventView::Done(before.error())]
                    =~= old(self)@.trace() + (emitted + seq![EventView::Done(before.error())]));
            }
            return Directive::Over(self.error());
        }
        proof {
            assert(emitted + Seq::<EventView>::empty() =~= emitted);
        }
        if self.finished {
            Directive::Over(self.error())
        } else {
            Directive::Run(index)
        }
    }
}

/// The statuses that the events of `t` report for step `i`, oldest first.
pub open spec fn statuses_of(t: Seq<EventView>, i: int) -> Seq<StepStatus>
    decreases t.len(),
{
    if t.len() == 0 {
        Seq::empty()
    } else {
        statuses_of(t.drop_last(), i) + (match t.last() {
            EventView::Step { index, status, .. } => if index == i {
                seq![status]
            } else {
                Seq::empty()
            },
            _ => Seq::empty(),
        })
    }
}

/// The statuses that a step has been reported with when it stands at `status`.
pub open spec fn history(status: StepStatus) -> Seq<StepStatus> {
    match status {
        StepStatus::Pending => Seq::empty(),
        StepStatus::Running => seq![StepStatus::Running],
        StepStatus::Done => seq![StepStatus::Running, StepStatus::Done],
        StepStatus::Skipped => seq![StepStatus::Skipped],
        StepStatus::Failed => seq![StepStatus::Running, StepStatus::Failed],
    }
}

/// What an event caused by one of the first `n` steps, all of them done or
/// skipped, can be.
pub open spec fn settled_event(e: EventView, n: int, total: int) -> bool {
    match e {
        EventView::Step { index, status, err } => {
            &&& 0 <= index < n
            &&& err is None
            &&& (status == StepStatus::Running || status == StepStatus::Done || status
                == StepStatus::Skipped)
        },
        EventView::Progress(f) => 1 <= f.num <= n && f.den == total,
        _ => false,
    }
}

/// Event `k` of `t` reports progress and follows the report that the step it
/// counts last was done or skipped.
pub open spec fn progress_follows_step(t: Seq<EventView>, k: int) -> bool {
    t[k] matches EventView::Progress(f) ==> {
        &&& k > 0
        &&& (t[k - 1] == transition(f.num - 1, StepStatus::Done, None) || t[k - 1] == transition(
            f.num - 1,
            StepStatus::Skipped,
            None,
        ))
    }
}

/// Of two progress reports in `t`, the later counts at least as many steps.
pub open spec fn progress_ordered(t: Seq<EventView>, k: int, m: int) -> bool {
    progress_of(t[k]) is Some && progress_of(t[m]) is Some ==> progress_of(t[k])->0.num
        <= progress_of(t[m])->0.num
}

/// The fraction that a progress report carries.
pub open spec fn progress_of(e: EventView) -> Option<Fraction> {
    match e {
        EventView::Progress(f) => Some(f),
        _ => None,
    }
}

proof fn lemma_statuses_concat(a: Seq<EventView>, b: Seq<EventView>, i: int)
    ensures
        statuses_of(a + b, i) == statuses_of(a, i) + statuses_of(b, i),
    decreases b.len(),
{
    if b.len() != 0 {
        lemma_statuses_concat(a, b.drop_last(), i);
        assert((a + b).drop_last() =~= a + b.drop_last());
    }
}

proof fn lemma_statuses_one(e: EventView, i: int)
    ensures
        statuses_of(seq![e], i) == (match e {
            EventView::Step { index, status, .. } => if index == i {
                seq![status]
            } else {
                Seq::empty()
            },
            _ => Seq::<StepStatus>::empty(),
        }),
{
    let t = seq![e];
    assert(statuses_of(t.drop_last(), i) =~= Seq::<StepStatus>::empty());
}

proof fn lemma_statuses_block(j: int, s: StepView, total: int, i: int)
    ensures
        statuses_of(step_events(j, s, total), i) == (if i == j {
            history(s.status)
        } else {
            Seq::empty()
        }),
{
    let run = transition(j, StepStatus::Running, None);
    let done = transition(j, StepStatus::Done, None);
    let skip = transition(j, StepStatus::Skipped, None);
    let fail = transition(j, StepStatus::Failed, s.err);
    let prog = progress(j + 1, total);
    lemma_statuses_one(run, i);
    lemma_statuses_one(done, i);
    lemma_statuses_one(skip, i);
    lemma_statuses_one(fail, i);
    lemma_statuses_one(prog, i);
    match s.status {
        StepStatus::Pending => {},
        StepStatus::Running => {},
        StepStatus::Done => {
            assert(step_events(j, s, total) =~= seq![run] + seq![done] + seq![prog]);
            lemma_statuses_concat(seq![run], seq![done], i);
            lemma_statuses_concat(seq![run] + seq![done], seq![prog], i);
        },
        StepStatus::Skipped => {
            assert(step_events(j, s, total) =~= seq![skip] + seq![prog]);
            lemma_statuses_concat(seq![skip], seq![prog], i);
        },
        StepStatus::Failed => {
            assert(step_events(j, s, total) =~= seq![run] + seq![fail]);
            lemma_statuses_concat(seq![run], seq![fail], i);
        },
    }
}

proof fn lemma_statuses_upto(steps: Seq<StepView>, n: int, i: int)
    requires
        0 <= n <= steps.len(),
    ensures
        statuses_of(events_upto(steps, n), i) == (if 0 <= i < n {
            history(steps[i].status)
        } else {
            Seq::empty()
        }),
    decreases n,
{
    if n > 0 {
        lemma_statuses_upto(steps, n - 1, i);
        lemma_statuses_block(n - 1, steps[n - 1], steps.len() as int, i);
        lemma_statuses_concat(
            events_upto(steps, n - 1),
            step_events(n - 1, steps[n - 1], steps.len() as int),
            i,
        );
    }
}

proof fn lemma_settled_events(steps: Seq<StepView>, n: int)
    requires
        0 <= n <= steps.len() <= usize::MAX,
        forall|i: int|
            0 <= i < n ==> {
                &&& ((#[trigger] steps[i]).status == StepStatus::Done || steps[i].status
                    == StepStatus::Skipped)
                &&& steps[i].err is None
            },
    ensures
        forall|k: int|
            0 <= k < events_upto(steps, n).len() ==> settled_event(
                #[trigger] events_upto(steps, n)[k],
                n,
                steps.len() as int,
            ),
        forall|k: int|
            0 <= k < events_upto(steps, n).len() ==> #[trigger] progress_follows_step(
                events_upto(steps, n),
                k,
            ),
        forall|k: int, m: int|
            0 <= k <= m < events_upto(steps, n).len() ==> #[trigger] progress_ordered(
                events_upto(steps, n),
                k,
                m,
            ),
    decreases n,
{
    if n > 0 {
        lemma_settled_events(steps, n - 1);
        let before = events_upto(steps, n - 1);
        let all = events_upto(steps, n);
        assert forall|k: int| 0 <= k < all.len() implies #[trigger] progress_follows_step(
            all,
            k,
        ) by {
            if k < before.len() {
                assert(progress_follows_step(before, k));
            }
        }
        assert forall|k: int, m: int| 0 <= k <= m < all.len() implies #[trigger] progress_ordered(
            all,
            k,
            m,
        ) by {
            if m < before.len() {
                assert(progress_ordered(before, k, m));
            }
        }
    }
}

/// Once a step is reported as failed, the trace holds nothing after that
/// report but the end of the run, reported once and with that step's error: no
/// step starts any more.
pub proof fn law_failure_ends_run(p: PipelineView, k: int, i: int, err: Option<Seq<char>>)
    requires
        p.wf(),
        0 <= k < p.trace().len(),
        p.trace()[k] == transition(i, StepStatus::Failed, err),
    ensures
        i == p.cursor,
        p.failed(),
        err is Some,
        err == p.error(),
        forall|m: int, j: int|
            k < m < p.trace().len() ==> !(#[trigger] p.trace()[m].is_step(j, StepStatus::Running)),
        forall|m: int| 0 <= m <= k ==> !((#[trigger] p.trace()[m]) is Done),
        p.finished ==> p.trace().len() == k + 2 && p.trace()[k + 1] == EventView::Done(err),
        !p.finished ==> p.trace().len() == k + 1,
{
    let t = p.trace();
    let total = p.steps.len() as int;
    let before = events_upto(p.steps, p.cursor);
    lemma_trace_parts(p);
    lemma_settled_events(p.steps, p.cursor);
    let cur = if p.cursor < p.steps.len() {
        step_events(p.cursor, p.steps[p.cursor], total)
    } else {
        Seq::empty()
    };
    let tail = if p.finished {
        seq![EventView::Done(p.error())]
    } else {
        Seq::empty()
    };
    if k >= before.len() + cur.len() {
        assert(t[k] == tail[k - before.len() - cur.len()]);
    }
}

/// In a run that ended without an error, every step was reported as running
/// and then done, or as skipped and nothing else; progress never went back; and
/// full progress was reported only right after the last step was done or
/// skipped. The last event reports the end, without an error.
pub proof fn law_successful_run(p: PipelineView)
    requires
        p.wf(),
        p.finished,
        p.error() is None,
    ensures
        forall|i: int|
            0 <= i < p.steps.len() ==> {
                ||| #[trigger] statuses_of(p.trace(), i) == seq![
                    StepStatus::Running,
                    StepStatus::Done,
                ]
                ||| statuses_of(p.trace(), i) == seq![StepStatus::Skipped]
            },
        forall|k: int, m: int|
            0 <= k <= m < p.trace().len() && progress_of(#[trigger] p.trace()[k]) is Some
                && progress_of(#[trigger] p.trace()[m]) is Some ==> progress_of(
                p.trace()[k],
            )->0.le(progress_of(p.trace()[m])->0),
        forall|k: int|
            0 <= k < p.trace().len() && progress_of(#[trigger] p.trace()[k]) is Some && progress_of(
                p.trace()[k],
            )->0.is_one() ==> k > 0 && (p.trace()[k - 1].is_step(
                p.steps.len() - 1,
                StepStatus::Done,
            ) || p.trace()[k - 1].is_step(p.steps.len() - 1, StepStatus::Skipped)),
        p.trace().last() == EventView::Done(None),
{
    let t = p.trace();
    let n = p.steps.len() as int;
    let body = events_upto(p.steps, n);
    let tail = seq![EventView::Done(None)];
    lemma_settled_events(p.steps, n);
    assert forall|i: int| 0 <= i < n implies {
        ||| #[trigger] statuses_of(t, i) == seq![StepStatus::Running, StepStatus::Done]
        ||| statuses_of(t, i) == seq![StepStatus::Skipped]
    } by {
        lemma_statuses_upto(p.steps, n, i);
        lemma_statuses_concat(body, tail, i);
        lemma_statuses_one(EventView::Done(None), i);
    }
    assert forall|k: int, m: int|
        0 <= k <= m < t.len() && progress_of(#[trigger] t[k]) is Some && progress_of(
            #[trigger] t[m],
        ) is Some implies progress_of(t[k])->0.le(progress_of(t[m])->0) by {
        if m < body.len() {
            assert(progress_ordered(body, k, m));
            let a = progress_of(t[k])->0;
            let b = progress_of(t[m])->0;
            assert(a.num * b.den <= b.num * a.den) by (nonlinear_arith)
                requires
                    a.num <= b.num,
                    a.den == b.den,
            ;
        }
    }
    assert forall|k: int|
        0 <= k < t.len() && progress_of(#[trigger] t[k]) is Some && progress_of(
            t[k],
        )->0.is_one() implies k > 0 && (t[k - 1].is_step(n - 1, StepStatus::Done) || t[k
            - 1].is_step(n - 1, StepStatus::Skipped)) by {
        if k < body.len() {
            assert(progress_follows_step(body, k));
        }
    }
}

/// Whatever state a pipeline is in, each step has been reported as its status
/// says and in no other way: it entered `Running` at most once, and nothing
/// was reported of it after `Done`, `Skipped` or `Failed`.
pub proof fn law_step_history(p: PipelineView, i: int)
    requires
        p.wf(),
        0 <= i < p.steps.len(),
    ensures
        statuses_of(p.trace(), i) == history(p.steps[i].status),
{
    let n = p.steps.len() as int;
    let body = events_upto(p.steps, n);
    lemma_statuses_upto(p.steps, n, i);
    if p.finished {
        let tail = seq![EventView::Done(p.error())];
        lemma_statuses_concat(body, tail, i);
        lemma_statuses_one(EventView::Done(p.error()), i);
    }
}

/// Every progress report counts at least one step and at most all of them.
pub proof fn law_progress_is_fraction(p: PipelineView, k: int)
    requires
        p.wf(),
        0 <= k < p.trace().len(),
        progress_of(p.trace()[k]) is Some,
    ensures
        1 <= progress_of(p.trace()[k])->0.num <= progress_of(p.trace()[k])->0.den,
        progress_of(p.trace()[k])->0.den == p.steps.len(),
{
    lemma_trace_parts(p);
    lemma_settled_events(p.steps, p.cursor);
}

/// The end of the run is reported at most once, as the last event, and
/// with the error of the step that failed, if one did.
pub proof fn law_done_is_last(p: PipelineView)
    requires
        p.wf(),
    ensures
        forall|k: int|
            0 <= k < p.trace().len() && (#[trigger] p.trace()[k]) is Done ==> p.finished && k
                == p.trace().len() - 1,
        p.finished ==> p.trace().len() > 0 && p.trace().last() == EventView::Done(p.error()),
{
    lemma_trace_parts(p);
    lemma_settled_events(p.steps, p.cursor);
}

/// After a failure the pipeline only reports the end of the run, with the
/// error of the failed step: it starts and skips nothing, whatever `skips`
/// marks.
pub proof fn law_failure_halts(p: PipelineView, skips: Seq<bool>)
    requires
        p.wf(),
        p.failed(),
    ensures
        !p.finished ==> p.advanced(skips) == p.ended() && p.advance_events(skips) == seq![
            EventView::Done(p.error()),
        ],
        p.finished ==> p.advanced(skips) == p && p.advance_events(skips) == Seq::<
            EventView,
        >::empty(),
        p.error() is Some,
{
}

/// Driving a pipeline that is at rest gives the run: it moves on; if a
/// step has started, that step ends as `outcomes` says and the pipeline is
/// driven on from there; if none has, the run is over.
pub proof fn law_run_is_driven(
    p: PipelineView,
    skips: Seq<bool>,
    outcomes: Seq<Option<Seq<char>>>,
)
    requires
        p.wf(),
        p.at_rest(),
    ensures
        ({
            let q = p.advanced(skips);
            let r = q.settled(outcome_at(outcomes, q.cursor));
            &&& q.wf()
            &&& q.can_settle() ==> r.wf() && (r.at_rest() || r.failed()) && p.run(skips, outcomes)
                == (if r.failed() {
                r.advanced(skips)
            } else {
                r.run(skips, outcomes)
            })
            &&& !q.can_settle() ==> q.finished && p.run(skips, outcomes) == q
        }),
    decreases p.steps.len() - p.cursor,
{
    if p.can_begin() && skip_at(skips, p.cursor) {
        law_run_is_driven(p.skipped(), skips, outcomes);
    }
}

/// How a run from a pipeline at rest ends. The steps that were settled
/// before stay as they were. From there on each step up to the one where the
/// run stops is skipped if `skips` marks it, and done otherwise, its work
/// having succeeded. The run stops at the first step that is not marked and
/// whose work fails: that step is failed with the error of its work, which is
/// the error of the run, and the steps after it are still pending. Where no
/// such step is, the run stops after the last step, without an error. Either
/// way the end has been reported.
pub proof fn law_run_result(p: PipelineView, skips: Seq<bool>, outcomes: Seq<Option<Seq<char>>>)
    requires
        p.wf(),
        p.at_rest(),
    ensures
        ({
            let r = p.run(skips, outcomes);
            &&& r.wf()
            &&& r.finished
            &&& r.steps.len() == p.steps.len()
            &&& p.cursor <= r.cursor
            &&& forall|i: int| 0 <= i < p.cursor ==> #[trigger] r.steps[i] == p.steps[i]
            &&& forall|i: int|
                0 <= i < r.steps.len() ==> (#[trigger] r.steps[i]).name == p.steps[i].name
            &&& forall|i: int|
                p.cursor <= i < r.cursor ==> {
                    &&& skip_at(skips, i) ==> (#[trigger] r.steps[i]).status == StepStatus::Skipped
                    &&& !skip_at(skips, i) ==> r.steps[i].status == StepStatus::Done && outcome_at(
                        outcomes,
                        i,
                    ) is None
                }
            &&& r.cursor < r.steps.len() ==> {
                &&& !skip_at(skips, r.cursor)
                &&& outcome_at(outcomes, r.cursor) is Some
                &&& r.steps[r.cursor].status == StepStatus::Failed
                &&& r.error() == outcome_at(outcomes, r.cursor)
            }
            &&& r.cursor == r.steps.len() ==> r.error() is None
        }),
    decreases p.steps.len() - p.cursor,
{
    if p.can_begin() {
        if skip_at(skips, p.cursor) {
            law_run_result(p.skipped(), skips, outcomes);
        } else {
            match outcome_at(outcomes, p.cursor) {
                None => {
                    law_run_result(p.begun().settled(None), skips, outcomes);
                },
                Some(e) => {},
            }
        }
    }
}

} // verus!
