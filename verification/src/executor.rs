//! The pipeline executor: which process to spawn or wait for next, and what
//! each answer of the operating system means for the pipeline's outcome.
//!
//! The executor owns the decisions, not the processes. Its owner performs
//! each [`Action`] and hands back a [`ProcessEvent`].
//!
//! Steps run strictly in order. A run of steps joined by pipes is spawned as
//! a whole before any of its processes is waited for, so that each process
//! has its reader. A step is skipped when the pipe it should read from is
//! missing; a failure never stops the steps that do not depend on it.

use crate::model::{pipeline_view, InputSource, Step, StepView};
use crate::text::decode_text;
use vstd::prelude::*;
use vstd::utf8::{decode_utf8, valid_utf8};

verus! {

/// How a process ended: its exit code, unless a signal ended it.
#[derive(Clone, Copy, Debug, PartialEq, Eq)]
pub struct ExitInfo {
    pub code: Option<i32>,
}

/// A [`StepResult`] as plain values.
pub enum StepResultView {
    Skipped,
    SpawnFailed { detail: Seq<char> },
    Running,
    WaitFailed { detail: Seq<char> },
    DecodeFailed { exit: ExitInfo },
    Completed { exit: ExitInfo, captured_text: Option<Seq<char>> },
}

impl StepResultView {
    /// A process was created for the step.
    pub open spec fn spawn_succeeded(self) -> bool {
        self is Running || self is WaitFailed || self is DecodeFailed || self is Completed
    }

    /// The process was waited for until it exited.
    pub open spec fn waited(self) -> bool {
        self is DecodeFailed || self is Completed
    }

    /// How the process ended, where it was waited for.
    pub open spec fn exit_info(self) -> Option<ExitInfo> {
        match self {
            StepResultView::DecodeFailed { exit } => Some(exit),
            StepResultView::Completed { exit, .. } => Some(exit),
            _ => None,
        }
    }

    /// What the process printed, where that was collected and is text.
    pub open spec fn captured_text(self) -> Option<Seq<char>> {
        match self {
            StepResultView::Completed { captured_text, .. } => captured_text,
            _ => None,
        }
    }
}

/// What became of one step.
#[derive(Debug, PartialEq, Eq)]
pub enum StepResult {
    /// Not run: the pipe it should have read from was never there.
    Skipped,
    /// No process could be created.
    SpawnFailed { detail: String },
    /// Spawned and not yet waited for.
    Running,
    /// The process was created, but waiting for it failed.
    WaitFailed { detail: String },
    /// The process exited, but its captured output is not valid UTF-8.
    DecodeFailed { exit: ExitInfo },
    /// The process exited, whatever its exit code.
    Completed { exit: ExitInfo, captured_text: Option<String> },
}

impl View for StepResult {
    type V = StepResultView;

    open spec fn view(&self) -> StepResultView {
        match *self {
            StepResult::Skipped => StepResultView::Skipped,
            StepResult::SpawnFailed { detail } => StepResultView::SpawnFailed { detail: detail@ },
            StepResult::Running => StepResultView::Running,
            StepResult::WaitFailed { detail } => StepResultView::WaitFailed { detail: detail@ },
            StepResult::DecodeFailed { exit } => StepResultView::DecodeFailed { exit },
            StepResult::Completed { exit, captured_text } => StepResultView::Completed {
                exit,
                captured_text: match captured_text {
                    Some(t) => Some(t@),
                    None => None,
                },
            },
        }
    }
}

/// A [`StepOutcome`] as plain values.
pub struct StepOutcomeView {
    pub step: StepView,
    pub result: StepResultView,
}

/// A step together with what became of it.
#[derive(Debug, PartialEq, Eq)]
pub struct StepOutcome {
    pub step: Step,
    pub result: StepResult,
}

impl View for StepOutcome {
    type V = StepOutcomeView;

    open spec fn view(&self) -> StepOutcomeView {
        StepOutcomeView { step: self.step@, result: self.result@ }
    }
}

impl StepOutcome {
    pub fn spawn_succeeded(&self) -> (r: bool)
        ensures
            r == self@.result.spawn_succeeded(),
    {
        match &self.result {
            StepResult::Running => true,
            StepResult::WaitFailed { .. } => true,
            StepResult::DecodeFailed { .. } => true,
            StepResult::Completed { .. } => true,
            _ => false,
        }
    }

    pub fn waited(&self) -> (r: bool)
        ensures
            r == self@.result.waited(),
    {
        match &self.result {
            StepResult::DecodeFailed { .. } => true,
            StepResult::Completed { .. } => true,
            _ => false,
        }
    }

    pub fn exit_info(&self) -> (r: Option<ExitInfo>)
        ensures
            r == self@.result.exit_info(),
    {
        match &self.result {
            StepResult::DecodeFailed { exit } => Some(*exit),
            StepResult::Completed { exit, .. } => Some(*exit),
            _ => None,
        }
    }

    pub fn captured_text(&self) -> (r: Option<&String>)
        ensures
            r is Some <==> self@.result.captured_text() is Some,
            r matches Some(t) ==> Some(t@) == self@.result.captured_text(),
    {
        match &self.result {
            StepResult::Completed { captured_text: Some(t), .. } => Some(t),
            _ => None,
        }
    }

    /// The step was left out for want of its upstream input.
    pub fn is_skipped(&self) -> (r: bool)
        ensures
            r == (self@.result is Skipped),
    {
        match &self.result {
            StepResult::Skipped => true,
            _ => false,
        }
    }

    /// The step ran to its end and what it printed, if taken, is text.
    pub fn succeeded(&self) -> (r: bool)
        ensures
            r == (self@.result is Completed),
    {
        match &self.result {
            StepResult::Completed { .. } => true,
            _ => false,
        }
    }
}

/// The outcomes of a list as plain values.
pub open spec fn outcomes_view(outcomes: Seq<StepOutcome>) -> Seq<StepOutcomeView> {
    Seq::new(outcomes.len(), |i: int| outcomes[i]@)
}

/// A pipeline has succeeded when each of its steps has.
pub open spec fn pipeline_succeeded(outcomes: Seq<StepOutcomeView>) -> bool {
    forall|k: int| 0 <= k < outcomes.len() ==> (#[trigger] outcomes[k]).result is Completed
}

/// The result of a pipeline: the outcome of each step, in the order of the
/// steps.
#[derive(Debug, PartialEq, Eq)]
pub struct PipelineOutcome {
    pub outcomes: Vec<StepOutcome>,
}

impl View for PipelineOutcome {
    type V = Seq<StepOutcomeView>;

    open spec fn view(&self) -> Seq<StepOutcomeView> {
        outcomes_view(self.outcomes@)
    }
}

impl PipelineOutcome {
    /// The verdict on the pipeline as a whole.
    pub fn succeeded(&self) -> (r: bool)
        ensures
            r == pipeline_succeeded(self@),
    {
        let mut k: usize = 0;
        while k < self.outcomes.len()
            invariant
                k <= self.outcomes.len(),
                forall|j: int| 0 <= j < k ==> (#[trigger] self@[j]).result is Completed,
            decreases self.outcomes.len() - k,
        {
            if !self.outcomes[k].succeeded() {
                assert(!(self@[k as int].result is Completed));
                return false;
            }
            k += 1;
        }
        true
    }
}

/// What the operating system answered to the last [`Action`].
#[derive(Debug, PartialEq, Eq)]
pub enum ProcessEvent {
    /// The process asked for now exists.
    Spawned,
    /// The process asked for could not be created.
    SpawnFailed { detail: String },
    /// The process waited for has exited. `output` is what it wrote to its
    /// standard output where that was to be collected, and empty otherwise.
    Exited { code: Option<i32>, output: Vec<u8> },
    /// Waiting for the process failed.
    WaitFailed { detail: String },
}

/// A [`ProcessEvent`] as plain values.
pub enum ProcessEventView {
    Spawned,
    SpawnFailed { detail: Seq<char> },
    Exited { code: Option<i32>, output: Seq<u8> },
    WaitFailed { detail: Seq<char> },
}

impl View for ProcessEvent {
    type V = ProcessEventView;

    open spec fn view(&self) -> ProcessEventView {
        match *self {
            ProcessEvent::Spawned => ProcessEventView::Spawned,
            ProcessEvent::SpawnFailed { detail } => ProcessEventView::SpawnFailed {
                detail: detail@,
            },
            ProcessEvent::Exited { code, output } => ProcessEventView::Exited {
                code,
                output: output@,
            },
            ProcessEvent::WaitFailed { detail } => ProcessEventView::WaitFailed { detail: detail@ },
        }
    }
}

/// Where the standard output of a process goes.
#[derive(Clone, Copy, Debug, PartialEq, Eq, Structural)]
pub enum OutputSink {
    /// To the terminal of the run.
    Inherit,
    /// Into a pipe that the next step reads as its standard input.
    PipeToNextStep,
    /// Into a pipe that is read to the end when the process is waited for.
    Capture,
}

/// What the owner of an executor has to do next.
#[derive(Debug, PartialEq, Eq)]
pub enum Action {
    /// Create the process of step `index`. Its standard input is what the
    /// step names; where that is the pipe, it is the standard output of the
    /// process of step `index - 1`.
    Spawn { index: usize, step: Step, stdout: OutputSink },
    /// Wait for the process of step `index` to exit, first reading its output
    /// to the end where `collect_output` is set.
    Wait { index: usize, collect_output: bool },
    /// Nothing: every step has its outcome.
    Finished,
}

/// An [`Action`] as plain values.
pub enum ActionView {
    Spawn { index: int, step: StepView, stdout: OutputSink },
    Wait { index: int, collect_output: bool },
    Finished,
}

impl View for Action {
    type V = ActionView;

    open spec fn view(&self) -> ActionView {
        match *self {
            Action::Spawn { index, step, stdout } => ActionView::Spawn {
                index: index as int,
                step: step@,
                stdout,
            },
            Action::Wait { index, collect_output } => ActionView::Wait {
                index: index as int,
                collect_output,
            },
            Action::Finished => ActionView::Finished,
        }
    }
}

/// The state of an executor as plain values: the pipeline, the outcomes of
/// the steps decided so far, and how many of those are settled for good.
pub struct ExecutorView {
    pub steps: Seq<StepView>,
    pub records: Seq<StepOutcomeView>,
    pub settled: nat,
}

impl ExecutorView {
    /// Step `k` reads the output of the step before it.
    pub open spec fn pipe_fed(self, k: int) -> bool {
        self.steps[k].input_source == InputSource::PipeFromPreviousStep
    }

    /// Where the output of step `k` goes.
    pub open spec fn sink(self, k: int) -> OutputSink {
        if !self.steps[k].captures_output {
            OutputSink::Inherit
        } else if k + 1 < self.steps.len() && self.pipe_fed(k + 1) {
            OutputSink::PipeToNextStep
        } else {
            OutputSink::Capture
        }
    }

    /// Step `k` has the input it asks for: it reads from no pipe, or the step
    /// before it fills one and its process was created.
    pub open spec fn upstream_ready(self, k: int) -> bool {
        self.pipe_fed(k) ==> k > 0 && self.steps[k - 1].captures_output && self.records[k
            - 1].result.spawn_succeeded()
    }

    /// The next thing to decide is a step's spawn: either nothing is running,
    /// or the next step belongs to the run of piped steps being set up.
    pub open spec fn spawning(self) -> bool {
        let s = self.records.len();
        s < self.steps.len() && (s == self.settled || self.pipe_fed(s as int))
    }

    /// The action that the executor's owner is asked for.
    pub open spec fn pending(self) -> ActionView {
        let s = self.records.len() as int;
        if self.spawning() {
            ActionView::Spawn { index: s, step: self.steps[s], stdout: self.sink(s) }
        } else if self.settled < s {
            ActionView::Wait {
                index: self.settled as int,
                collect_output: self.sink(self.settled as int) == OutputSink::Capture,
            }
        } else {
            ActionView::Finished
        }
    }

    /// Every step has its outcome.
    pub open spec fn finished(self) -> bool {
        self.pending() is Finished
    }

    /// Marks as skipped the steps next in line whose pipe is missing.
    pub open spec fn skip_unfed(self) -> ExecutorView
        decreases self.steps.len() - self.records.len(),
    {
        let s = self.records.len() as int;
        if self.spawning() && !self.upstream_ready(s) {
            (ExecutorView {
                records: self.records.push(
                    StepOutcomeView { step: self.steps[s], result: StepResultView::Skipped },
                ),
                ..self
            }).skip_unfed()
        } else {
            self
        }
    }

    /// Passes over the steps next to be waited for that have no process.
    pub open spec fn pass_settled(self) -> ExecutorView
        decreases self.records.len() - self.settled,
    {
        let w = self.settled as int;
        if !self.spawning() && w < self.records.len() && !(self.records[w].result is Running) {
            (ExecutorView { settled: self.settled + 1, ..self }).pass_settled()
        } else {
            self
        }
    }

    /// Brings the state to a point where an answer is awaited, or to the end.
    pub open spec fn normalized(self) -> ExecutorView {
        self.skip_unfed().pass_settled()
    }

    /// The state in which a pipeline starts.
    pub open spec fn initial(steps: Seq<StepView>) -> ExecutorView {
        (ExecutorView { steps, records: Seq::empty(), settled: 0 }).normalized()
    }

    /// Whether an event answers the pending action.
    pub open spec fn accepts(self, event: ProcessEventView) -> bool {
        match self.pending() {
            ActionView::Spawn { .. } => event is Spawned || event is SpawnFailed,
            ActionView::Wait { .. } => event is Exited || event is WaitFailed,
            ActionView::Finished => false,
        }
    }

    /// The result of step `k` once its process has exited.
    pub open spec fn exited(self, k: int, code: Option<i32>, output: Seq<u8>) -> StepResultView {
        let exit = ExitInfo { code };
        if self.sink(k) == OutputSink::Capture {
            if valid_utf8(output) {
                StepResultView::Completed { exit, captured_text: Some(decode_utf8(output)) }
            } else {
                StepResultView::DecodeFailed { exit }
            }
        } else {
            StepResultView::Completed { exit, captured_text: None }
        }
    }

    /// The state with an accepted event written down.
    pub open spec fn recorded(self, event: ProcessEventView) -> ExecutorView {
        let s = self.records.len() as int;
        let w = self.settled as int;
        match event {
            ProcessEventView::Spawned => ExecutorView {
                records: self.records.push(
                    StepOutcomeView { step: self.steps[s], result: StepResultView::Running },
                ),
                ..self
            },
            ProcessEventView::SpawnFailed { detail } => ExecutorView {
                records: self.records.push(
                    StepOutcomeView {
                        step: self.steps[s],
                        result: StepResultView::SpawnFailed { detail },
                    },
                ),
                ..self
            },
            ProcessEventView::Exited { code, output } => ExecutorView {
                records: self.records.update(
                    w,
                    StepOutcomeView { step: self.steps[w], result: self.exited(w, code, output) },
                ),
                settled: self.settled + 1,
                ..self
            },
            ProcessEventView::WaitFailed { detail } => ExecutorView {
                records: self.records.update(
                    w,
                    StepOutcomeView {
                        step: self.steps[w],
                        result: StepResultView::WaitFailed { detail },
                    },
                ),
                settled: self.settled + 1,
                ..self
            },
        }
    }

    /// The state after an event: an event that does not answer the pending
    /// action changes nothing.
    pub open spec fn advance(self, event: ProcessEventView) -> ExecutorView {
        if self.accepts(event) {
            self.recorded(event).normalized()
        } else {
            self
        }
    }

    /// The state after a sequence of events.
    pub open spec fn run(self, events: Seq<ProcessEventView>) -> ExecutorView
        decreases events.len(),
    {
        if events.len() == 0 {
            self
        } else {
            self.run(events.drop_last()).advance(events.last())
        }
    }

    /// How far the executor has come: every accepted event adds to it, and
    /// it never exceeds twice the number of steps.
    pub open spec fn progress(self) -> nat {
        self.records.len() + self.settled
    }

    /// What holds of the outcomes written down, wherever the executor stands.
    pub open spec fn consistent(self) -> bool {
        &&& self.settled <= self.records.len() <= self.steps.len()
        &&& forall|k: int|
            0 <= k < self.records.len() ==> (#[trigger] self.records[k]).step == self.steps[k]
        &&& forall|k: int|
            0 <= k < self.settled ==> !((#[trigger] self.records[k]).result is Running)
        &&& forall|k: int|
            self.settled <= k < self.records.len() ==> {
                let r = (#[trigger] self.records[k]).result;
                r is Running || r is Skipped || r is SpawnFailed
            }
        &&& forall|k: int|
            0 <= k < self.records.len() ==> ((#[trigger] self.records[k]).result is Skipped
                <==> !self.upstream_ready(k))
        &&& forall|k: int|
            0 <= k < self.records.len() ==> ((#[trigger] self.records[k]).result.captured_text()
                is Some ==> self.sink(k) == OutputSink::Capture)
    }

    /// The invariant of an executor: its outcomes are consistent, and it
    /// stands where an answer is awaited, or at the end.
    pub open spec fn inv(self) -> bool {
        &&& self.consistent()
        &&& self.spawning() ==> self.upstream_ready(self.records.len() as int)
        &&& !self.spawning() && self.settled < self.records.len()
            ==> self.records[self.settled as int].result is Running
    }
}

proof fn lemma_skip_unfed(v: ExecutorView)
    requires
        v.consistent(),
    ensures
        v.skip_unfed().consistent(),
        v.skip_unfed().steps == v.steps,
        v.skip_unfed().settled == v.settled,
        v.skip_unfed().spawning() ==> v.skip_unfed().upstream_ready(
            v.skip_unfed().records.len() as int,
        ),
        v.skip_unfed().records.len() >= v.records.len(),
        forall|k: int| 0 <= k < v.records.len() ==> v.skip_unfed().records[k] == v.records[k],
    decreases v.steps.len() - v.records.len(),
{
    let s = v.records.len() as int;
    if v.spawning() && !v.upstream_ready(s) {
        let next = ExecutorView {
            records: v.records.push(
                StepOutcomeView { step: v.steps[s], result: StepResultView::Skipped },
            ),
            ..v
        };
        assert forall|k: int| 0 <= k < next.records.len() implies ((
        #[trigger] next.records[k]).result is Skipped <==> !next.upstream_ready(k)) by {
            if k < s {
                assert(next.records[k] == v.records[k]);
                if k > 0 {
                    assert(next.records[k - 1] == v.records[k - 1]);
                }
            } else if k > 0 {
                assert(next.records[k - 1] == v.records[k - 1]);
            }
        }
        assert(next.consistent());
        lemma_skip_unfed(next);
        assert forall|k: int| 0 <= k < v.records.len() implies v.skip_unfed().records[k]
            == v.records[k] by {
            assert(next.records[k] == v.records[k]);
        }
    }
}

proof fn lemma_pass_settled(v: ExecutorView)
    requires
        v.consistent(),
        v.spawning() ==> v.upstream_ready(v.records.len() as int),
    ensures
        v.pass_settled().inv(),
        v.pass_settled().steps == v.steps,
        v.pass_settled().records == v.records,
        v.pass_settled().settled >= v.settled,
    decreases v.records.len() - v.settled,
{
    let w = v.settled as int;
    if !v.spawning() && w < v.records.len() && !(v.records[w].result is Running) {
        let next = ExecutorView { settled: v.settled + 1, ..v };
        assert(next.consistent());
        lemma_pass_settled(next);
    }
}

proof fn lemma_normalized(v: ExecutorView)
    requires
        v.consistent(),
    ensures
        v.normalized().inv(),
        v.normalized().steps == v.steps,
        v.normalized().records.len() >= v.records.len(),
        v.normalized().settled >= v.settled,
        forall|k: int| 0 <= k < v.records.len() ==> v.normalized().records[k] == v.records[k],
{
    lemma_skip_unfed(v);
    lemma_pass_settled(v.skip_unfed());
}

proof fn lemma_recorded(v: ExecutorView, event: ProcessEventView)
    requires
        v.inv(),
        v.accepts(event),
    ensures
        v.recorded(event).consistent(),
        v.recorded(event).steps == v.steps,
{
    let next = v.recorded(event);
    let s = v.records.len() as int;
    let w = v.settled as int;
    if v.spawning() {
        assert forall|k: int| 0 <= k < next.records.len() implies ((
        #[trigger] next.records[k]).result is Skipped <==> !next.upstream_ready(k)) by {
            if k < s {
                assert(next.records[k] == v.records[k]);
                if k > 0 {
                    assert(next.records[k - 1] == v.records[k - 1]);
                }
            } else if k > 0 {
                assert(next.records[k - 1] == v.records[k - 1]);
            }
        }
        assert(next.consistent());
    } else {
        assert(v.records[w].result is Running);
        assert forall|k: int| 0 <= k < next.records.len() implies ((
        #[trigger] next.records[k]).result is Skipped <==> !next.upstream_ready(k)) by {
            if k != w {
                assert(next.records[k] == v.records[k]);
            }
            if k > 0 && k - 1 != w {
                assert(next.records[k - 1] == v.records[k - 1]);
            }
            assert(v.records[k].result is Skipped <==> !v.upstream_ready(k));
        }
        assert forall|k: int| 0 <= k < next.settled implies !((
        #[trigger] next.records[k]).result is Running) by {
            if k != w {
                assert(next.records[k] == v.records[k]);
            }
        }
        assert forall|k: int| next.settled <= k < next.records.len() implies {
            let r = (#[trigger] next.records[k]).result;
            r is Running || r is Skipped || r is SpawnFailed
        } by {
            assert(next.records[k] == v.records[k]);
        }
        assert forall|k: int|
            0 <= k < next.records.len() && (#[trigger] next.records[k]).result.captured_text()
                is Some implies next.sink(k) == OutputSink::Capture by {
            if k != w {
                assert(next.records[k] == v.records[k]);
            }
        }
        assert forall|k: int| 0 <= k < next.records.len() implies (
        #[trigger] next.records[k]).step == next.steps[k] by {
            if k != w {
                assert(next.records[k] == v.records[k]);
            }
        }
        assert(next.consistent());
    }
}

/// A pipeline starts in a state that meets the invariant.
pub proof fn lemma_initial_inv(steps: Seq<StepView>)
    ensures
        ExecutorView::initial(steps).inv(),
        ExecutorView::initial(steps).steps == steps,
{
    let v = ExecutorView { steps, records: Seq::empty(), settled: 0 };
    assert(v.consistent());
    lemma_normalized(v);
}

/// No event leads out of the invariant, and none changes the pipeline.
pub proof fn lemma_advance_inv(v: ExecutorView, event: ProcessEventView)
    requires
        v.inv(),
    ensures
        v.advance(event).inv(),
        v.advance(event).steps == v.steps,
{
    if v.accepts(event) {
        lemma_recorded(v, event);
        lemma_normalized(v.recorded(event));
    }
}

/// Whatever events follow, the invariant holds and the pipeline stays as it
/// is.
pub proof fn lemma_run_inv(v: ExecutorView, events: Seq<ProcessEventView>)
    requires
        v.inv(),
    ensures
        v.run(events).inv(),
        v.run(events).steps == v.steps,
    decreases events.len(),
{
    if events.len() > 0 {
        lemma_run_inv(v, events.drop_last());
        lemma_advance_inv(v.run(events.drop_last()), events.last());
    }
}

/// The executor only moves forward. Every event that it accepts adds to its
/// progress, which twice the number of steps bounds: a pipeline of `n` steps
/// is finished after at most `2 * n` answers. No outcome is taken back, and
/// the outcome of a settled step is never changed.
pub proof fn lemma_progress(v: ExecutorView, event: ProcessEventView)
    requires
        v.inv(),
    ensures
        v.advance(event).records.len() >= v.records.len(),
        v.advance(event).settled >= v.settled,
        v.accepts(event) ==> v.advance(event).progress() > v.progress(),
        v.advance(event).progress() <= 2 * v.steps.len(),
        forall|k: int| 0 <= k < v.settled ==> v.advance(event).records[k] == v.records[k],
        !v.finished() ==> v.accepts(ProcessEventView::Spawned) || v.accepts(
            ProcessEventView::Exited { code: None, output: Seq::empty() },
        ),
{
    lemma_advance_inv(v, event);
    if v.accepts(event) {
        let next = v.recorded(event);
        lemma_recorded(v, event);
        lemma_normalized(next);
        assert forall|k: int| 0 <= k < v.settled implies v.advance(event).records[k]
            == v.records[k] by {
            assert(next.records[k] == v.records[k]);
        }
    }
}

/// Pipeline ordering. Whatever the operating system answers, outcomes are
/// recorded in the order of the steps, and a step that reads from the step
/// before it is skipped whenever that step's process was not created.
pub proof fn lemma_pipeline_ordering(
    steps: Seq<StepView>,
    events: Seq<ProcessEventView>,
    k: int,
)
    requires
        0 <= k < ExecutorView::initial(steps).run(events).records.len(),
    ensures
        ({
            let v = ExecutorView::initial(steps).run(events);
            &&& v.records.len() <= steps.len()
            &&& v.records[k].step == steps[k]
            &&& k > 0 && steps[k].input_source == InputSource::PipeFromPreviousStep
                && !v.records[k - 1].result.spawn_succeeded() ==> v.records[k].result is Skipped
            &&& v.finished() ==> v.records.len() == steps.len()
        }),
{
    lemma_initial_inv(steps);
    lemma_run_inv(ExecutorView::initial(steps), events);
    let v = ExecutorView::initial(steps).run(events);
    assert(v.records[k].result is Skipped <==> !v.upstream_ready(k));
}

/// A step is skipped exactly when it reads from a pipe that is not there:
/// where the step before it fills none, or where that step's process was
/// never created (its spawn failed, or it was itself skipped).
pub proof fn lemma_skipped_iff_unfed(v: ExecutorView, k: int)
    requires
        v.inv(),
        0 <= k < v.records.len(),
    ensures
        v.records[k].result is Skipped <==> v.pipe_fed(k) && (k == 0 || !v.steps[k
            - 1].captures_output || !v.records[k - 1].result.spawn_succeeded()),
{
    assert(v.records[k].result is Skipped <==> !v.upstream_ready(k));
}

/// Once the pipeline is finished no process is left that was spawned and not
/// waited for.
pub proof fn lemma_finished_leaves_no_process(v: ExecutorView, k: int)
    requires
        v.inv(),
        v.finished(),
        0 <= k < v.records.len(),
    ensures
        !(v.records[k].result is Running),
{
}

/// A pipeline whose first step reads from no pipe starts by asking for that
/// step's process.
pub proof fn lemma_initial_pending(steps: Seq<StepView>)
    requires
        steps.len() > 0,
        steps[0].input_source != InputSource::PipeFromPreviousStep,
    ensures
        ExecutorView::initial(steps).records.len() == 0,
        ExecutorView::initial(steps).pending() is Spawn,
        !ExecutorView::initial(steps).finished(),
{
    let v = ExecutorView { steps, records: Seq::empty(), settled: 0 };
    assert(v.spawning());
    assert(v.upstream_ready(0));
    assert(v.skip_unfed() == v);
    assert(v.pass_settled() == v);
}

/// When the process of a pipeline's only step cannot be created, the
/// pipeline is finished, with that failure as its one outcome.
pub proof fn lemma_single_step_spawn_failure(v: ExecutorView, detail: Seq<char>)
    requires
        v.inv(),
        v.steps.len() == 1,
        v.pending() is Spawn,
    ensures
        v.accepts(ProcessEventView::SpawnFailed { detail }),
        v.advance(ProcessEventView::SpawnFailed { detail }).finished(),
        v.advance(ProcessEventView::SpawnFailed { detail }).records.len() == 1,
        v.advance(ProcessEventView::SpawnFailed { detail }).records[0].result == (
        StepResultView::SpawnFailed { detail }),
{
    let next = v.recorded(ProcessEventView::SpawnFailed { detail });
    assert(next.skip_unfed() == next);
    let passed = ExecutorView { settled: next.settled + 1, ..next };
    assert(next.pass_settled() == passed.pass_settled());
    assert(passed.pass_settled() == passed);
}

/// The executor of one pipeline.
#[derive(Debug)]
pub struct Executor {
    steps: Vec<Step>,
    records: Vec<StepOutcome>,
    settled: usize,
}

/// The state that the parts of an executor stand for.
spec fn state_of(steps: Seq<Step>, records: Seq<StepOutcome>, settled: usize)
    -> ExecutorView {
    ExecutorView {
        steps: pipeline_view(steps),
        records: outcomes_view(records),
        settled: settled as nat,
    }
}

impl View for Executor {
    type V = ExecutorView;

    closed spec fn view(&self) -> ExecutorView {
        state_of(self.steps@, self.records@, self.settled)
    }
}

fn step_is_ready(steps: &Vec<Step>, records: &Vec<StepOutcome>, s: usize) -> (r: bool)
    requires
        s == records.len(),
        s < steps.len(),
    ensures
        r == state_of(steps@, records@, 0).upstream_ready(s as int),
{
    if steps[s].is_pipe_fed() {
        s > 0 && steps[s - 1].captures_output() && records[s - 1].spawn_succeeded()
    } else {
        true
    }
}

fn is_spawning(steps: &Vec<Step>, records: &Vec<StepOutcome>, settled: usize) -> (r: bool)
    ensures
        r == state_of(steps@, records@, settled).spawning(),
{
    let s = records.len();
    s < steps.len() && (s == settled || steps[s].is_pipe_fed())
}

fn sink_of(steps: &Vec<Step>, k: usize) -> (r: OutputSink)
    requires
        k < steps.len(),
    ensures
        r == state_of(steps@, Seq::empty(), 0).sink(k as int),
{
    if !steps[k].captures_output() {
        OutputSink::Inherit
    } else if k + 1 < steps.len() && steps[k + 1].is_pipe_fed() {
        OutputSink::PipeToNextStep
    } else {
        OutputSink::Capture
    }
}

fn normalize(steps: &Vec<Step>, records: Vec<StepOutcome>, settled: usize) -> (r: (
    Vec<StepOutcome>,
    usize,
))
    requires
        settled <= records.len() <= steps.len(),
    ensures
        state_of(steps@, r.0@, r.1) == state_of(steps@, records@, settled).normalized(),
{
    let ghost start = state_of(steps@, records@, settled);
    let mut records = records;
    let mut settled = settled;
    loop
        invariant
            settled <= records.len() <= steps.len(),
            state_of(steps@, records@, settled).skip_unfed() == start.skip_unfed(),
        ensures
            settled <= records.len() <= steps.len(),
            state_of(steps@, records@, settled) == start.skip_unfed(),
        decreases steps.len() - records.len(),
    {
        let s = records.len();
        if !is_spawning(steps, &records, settled) {
            break ;
        }
        if step_is_ready(steps, &records, s) {
            break ;
        }
        let ghost before = state_of(steps@, records@, settled);
        records.push(StepOutcome { step: steps[s].clone(), result: StepResult::Skipped });
        assert(state_of(steps@, records@, settled).records =~= before.records.push(
            StepOutcomeView { step: before.steps[s as int], result: StepResultView::Skipped },
        ));
    }
    let ghost middle = state_of(steps@, records@, settled);
    loop
        invariant
            settled <= records.len() <= steps.len(),
            state_of(steps@, records@, settled).pass_settled() == middle.pass_settled(),
        ensures
            state_of(steps@, records@, settled) == middle.pass_settled(),
        decreases records.len() - settled,
    {
        if is_spawning(steps, &records, settled) {
            break ;
        }
        if settled >= records.len() {
            break ;
        }
        match &records[settled].result {
            StepResult::Running => {
                break ;
            },
            _ => {},
        }
        settled += 1;
    }
    (records, settled)
}

impl Executor {
    #[verifier::type_invariant]
    spec fn well_formed(self) -> bool {
        self@.inv()
    }

    /// An executor for a pipeline, before its first step.
    pub fn new(pipeline: Vec<Step>) -> (e: Executor)
        ensures
            e@ == ExecutorView::initial(pipeline_view(pipeline@)),
            e@.inv(),
    {
        let records: Vec<StepOutcome> = Vec::new();
        assert(outcomes_view(records@) =~= Seq::empty());
        let (records, settled) = normalize(&pipeline, records, 0);
        proof {
            lemma_initial_inv(pipeline_view(pipeline@));
        }
        Executor { steps: pipeline, records, settled }
    }

    /// What to do next.
    pub fn next_action(&self) -> (a: Action)
        ensures
            a@ == self@.pending(),
            self@.inv(),
    {
        proof {
            use_type_invariant(self);
        }
        let s = self.records.len();
        if is_spawning(&self.steps, &self.records, self.settled) {
            Action::Spawn {
                index: s,
                step: self.steps[s].clone(),
                stdout: sink_of(&self.steps, s),
            }
        } else if self.settled < s {
            let collect_output = match sink_of(&self.steps, self.settled) {
                OutputSink::Capture => true,
                _ => false,
            };
            Action::Wait { index: self.settled, collect_output }
        } else {
            Action::Finished
        }
    }

    /// Whether every step has its outcome.
    pub fn is_finished(&self) -> (r: bool)
        ensures
            r == self@.finished(),
    {
        !is_spawning(&self.steps, &self.records, self.settled) && self.settled
            >= self.records.len()
    }

    /// Takes the answer to the pending action. The flag returned says
    /// whether the event was such an answer; one that was not is dropped.
    pub fn handle(self, event: ProcessEvent) -> (r: (Executor, bool))
        ensures
            r.1 == self@.accepts(event@),
            r.0@ == self@.advance(event@),
            r.0@.inv(),
    {
        proof {
            use_type_invariant(&self);
            lemma_advance_inv(self@, event@);
        }
        let ghost before = self@;
        let Executor { steps, mut records, mut settled } = self;
        let s = records.len();
        if is_spawning(&steps, &records, settled) {
            let result = match event {
                ProcessEvent::Spawned => StepResult::Running,
                ProcessEvent::SpawnFailed { detail } => StepResult::SpawnFailed { detail },
                _ => {
                    return (Executor { steps, records, settled }, false);
                },
            };
            records.push(StepOutcome { step: steps[s].clone(), result });
            assert(state_of(steps@, records@, settled).records =~= before.recorded(
                event@,
            ).records);
        } else if settled < s {
            let result = match event {
                ProcessEvent::Exited { code, output } => {
                    let exit = ExitInfo { code };
                    match sink_of(&steps, settled) {
                        OutputSink::Capture => match decode_text(output) {
                            Ok(text) => StepResult::Completed { exit, captured_text: Some(text) },
                            Err(_) => StepResult::DecodeFailed { exit },
                        },
                        _ => StepResult::Completed { exit, captured_text: None },
                    }
                },
                ProcessEvent::WaitFailed { detail } => StepResult::WaitFailed { detail },
                _ => {
                    return (Executor { steps, records, settled }, false);
                },
            };
            records.set(settled, StepOutcome { step: steps[settled].clone(), result });
            assert(state_of(steps@, records@, settled).records =~= before.recorded(
                event@,
            ).records);
            settled += 1;
        } else {
            return (Executor { steps, records, settled }, false);
        }
        proof {
            lemma_recorded(before, event@);
        }
        let (records, settled) = normalize(&steps, records, settled);
        (Executor { steps, records, settled }, true)
    }

    /// The outcomes written down so far: those of all the steps once the
    /// executor is finished.
    pub fn into_outcome(self) -> (o: PipelineOutcome)
        ensures
            o@ == self@.records,
            self@.inv(),
    {
        proof {
            use_type_invariant(&self);
        }
        PipelineOutcome { outcomes: self.records }
    }
}

} // verus!
