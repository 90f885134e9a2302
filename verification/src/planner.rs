//! The plan runner: one best-effort pass over the requests.
//!
//! Requests are taken in the order given. An update is always run. A tool is
//! looked for first and installed only where it is absent; so is an SSH key,
//! by the directory it is kept in. The facts about the machine are resolved
//! once, before the first tool is installed, and kept for the rest of the
//! run. A failed step never stops the run; a failed fact probe does, for
//! without the facts no tool can be installed.
//!
//! The planner decides and its owner acts: the owner performs each
//! [`PlanAction`] and hands back a [`PlanEvent`].

use crate::executor::{
    lemma_initial_pending, Action, ActionView, Executor, ExecutorView, PipelineOutcome,
    ProcessEvent, ProcessEventView, StepOutcomeView,
};
use crate::facts::{
    next_probe_steps, probe_at, resolution, FactError, FactErrorView, FactResolver,
    ProbeFailureView, Resolution, ResolutionView,
};
use crate::model::{
    pipeline_view, requests_view, FactsView, InputSource, ProvisionRequest, RequestView, Step,
    StepView, SystemFacts,
};
use crate::presence::{presence_pipeline, is_present, presence_steps, shows_presence};
use crate::recipe::{
    ssh_key_recipe, lemma_recipe_well_formed, recipe, ssh_key_location, ssh_key_path,
    ssh_key_steps, tool_recipe, tool_steps, update_recipe, update_steps,
};
use vstd::prelude::*;

verus! {

/// An [`ItemOutcome`] as plain values.
pub enum ItemOutcomeView {
    AlreadyPresent,
    Ran(Seq<StepOutcomeView>),
}

/// What was done for one request.
#[derive(Debug, PartialEq, Eq)]
pub enum ItemOutcome {
    /// Nothing: what was asked for is already there.
    AlreadyPresent,
    /// Its recipe was run, with this outcome.
    Ran(PipelineOutcome),
}

impl View for ItemOutcome {
    type V = ItemOutcomeView;

    open spec fn view(&self) -> ItemOutcomeView {
        match *self {
            ItemOutcome::AlreadyPresent => ItemOutcomeView::AlreadyPresent,
            ItemOutcome::Ran(outcome) => ItemOutcomeView::Ran(outcome@),
        }
    }
}

/// A [`ReportEntry`] as plain values.
pub struct EntryView {
    pub request: RequestView,
    pub outcome: ItemOutcomeView,
}

/// A request and what was done for it.
#[derive(Debug, PartialEq, Eq)]
pub struct ReportEntry {
    pub request: ProvisionRequest,
    pub outcome: ItemOutcome,
}

impl View for ReportEntry {
    type V = EntryView;

    open spec fn view(&self) -> EntryView {
        EntryView { request: self.request@, outcome: self.outcome@ }
    }
}

/// The entries of a list as plain values.
pub open spec fn entries_view(entries: Seq<ReportEntry>) -> Seq<EntryView> {
    Seq::new(entries.len(), |i: int| entries[i]@)
}

/// A [`RunReport`] as plain values.
pub struct ReportView {
    pub entries: Seq<EntryView>,
    pub failure: Option<FactErrorView>,
}

/// What a run did: an entry for each request that was dealt with, in the
/// order of the requests, and the failure that ended the run early, if one
/// did.
#[derive(Debug, PartialEq, Eq)]
pub struct RunReport {
    pub entries: Vec<ReportEntry>,
    pub failure: Option<FactError>,
}

impl View for RunReport {
    type V = ReportView;

    open spec fn view(&self) -> ReportView {
        ReportView {
            entries: entries_view(self.entries@),
            failure: match self.failure {
                Some(error) => Some(error@),
                None => None,
            },
        }
    }
}

/// What happened when the last [`PlanAction`] was performed.
#[derive(Debug, PartialEq, Eq)]
pub enum PlanEvent {
    /// The answer to a process action.
    Process(ProcessEvent),
    /// The answer to a directory check: whether the path is an existing
    /// directory.
    Directory { exists: bool },
}

/// A [`PlanEvent`] as plain values.
pub enum PlanEventView {
    Process(ProcessEventView),
    Directory { exists: bool },
}

impl View for PlanEvent {
    type V = PlanEventView;

    open spec fn view(&self) -> PlanEventView {
        match *self {
            PlanEvent::Process(event) => PlanEventView::Process(event@),
            PlanEvent::Directory { exists } => PlanEventView::Directory { exists },
        }
    }
}

/// What the owner of a planner has to do next.
#[derive(Debug, PartialEq, Eq)]
pub enum PlanAction {
    /// Spawn a process or wait for one.
    Process(Action),
    /// Find out whether `path` is an existing directory.
    CheckDirectory { path: String },
    /// Nothing: the run is over.
    Finished,
}

/// A [`PlanAction`] as plain values.
pub enum PlanActionView {
    Process(ActionView),
    CheckDirectory { path: Seq<char> },
    Finished,
}

impl View for PlanAction {
    type V = PlanActionView;

    open spec fn view(&self) -> PlanActionView {
        match *self {
            PlanAction::Process(action) => PlanActionView::Process(action@),
            PlanAction::CheckDirectory { path } => PlanActionView::CheckDirectory { path: path@ },
            PlanAction::Finished => PlanActionView::Finished,
        }
    }
}

/// What the planner is doing for the request it stands at.
pub enum StageView {
    /// Looking for the tool.
    Checking(ExecutorView),
    /// Waiting to hear whether the key's directory exists.
    AwaitingDirectory,
    /// Resolving the facts: the readings taken, and the probe under way.
    Probing(Seq<Seq<char>>, ExecutorView),
    /// Running the recipe.
    Installing(ExecutorView),
    /// Nothing any more.
    Done,
}

/// The steps run for a request, given the facts as far as they are known. A
/// tool has no steps before the facts are.
pub open spec fn planned_steps(facts: Option<FactsView>, request: RequestView) -> Seq<StepView> {
    match request {
        RequestView::Tool(tool) => match facts {
            Some(f) => tool_steps(f, tool),
            None => Seq::empty(),
        },
        RequestView::SshKey { algorithm, email, .. } => ssh_key_steps(algorithm, email),
        RequestView::SystemUpdate(kind) => update_steps(kind),
    }
}

/// The steps of the outcomes of a pipeline.
pub open spec fn ran_steps(outcomes: Seq<StepOutcomeView>) -> Seq<StepView> {
    Seq::new(outcomes.len(), |k: int| outcomes[k].step)
}

/// What an entry may say of its request: an update was run; whatever was
/// run, was run to the end by its recipe; and a tool's recipe was made with
/// the facts of this run.
pub open spec fn entry_sound(facts: Option<FactsView>, request: RequestView, entry: EntryView)
    -> bool {
    &&& entry.request == request
    &&& request is SystemUpdate ==> entry.outcome is Ran
    &&& entry.outcome matches ItemOutcomeView::Ran(outcomes) ==> {
        &&& request is Tool ==> facts is Some
        &&& ran_steps(outcomes) == planned_steps(facts, request)
        &&& forall|k: int| 0 <= k < outcomes.len() ==> !((#[trigger] outcomes[k]).result is Running)
    }
}

/// The stage in which the request at `cursor` is taken up: an update is
/// run, a tool is looked for, and so is the directory of a key. Past the last
/// request there is nothing to do.
pub open spec fn stage_at(requests: Seq<RequestView>, cursor: int) -> StageView {
    if cursor >= requests.len() {
        StageView::Done
    } else {
        match requests[cursor] {
            RequestView::SystemUpdate(kind) => StageView::Installing(
                ExecutorView::initial(update_steps(kind)),
            ),
            RequestView::Tool(tool) => StageView::Checking(
                ExecutorView::initial(presence_steps(tool)),
            ),
            RequestView::SshKey { .. } => StageView::AwaitingDirectory,
        }
    }
}

/// The state of a planner as plain values.
pub struct PlannerView {
    pub requests: Seq<RequestView>,
    pub entries: Seq<EntryView>,
    pub facts: Option<FactsView>,
    pub stage: StageView,
    pub failure: Option<FactErrorView>,
}

impl PlannerView {
    /// The index of the request that the planner stands at.
    pub open spec fn cursor(self) -> int {
        self.entries.len() as int
    }

    /// The request that the planner stands at.
    pub open spec fn current(self) -> RequestView {
        self.requests[self.cursor()]
    }

    /// The stage in which the request at the cursor is taken up.
    pub open spec fn enter(self) -> StageView {
        stage_at(self.requests, self.cursor())
    }

    /// The state in which a run starts.
    pub open spec fn initial(requests: Seq<RequestView>) -> PlannerView {
        let blank = PlannerView {
            requests,
            entries: Seq::empty(),
            facts: None,
            stage: StageView::Done,
            failure: None,
        };
        PlannerView { stage: blank.enter(), ..blank }
    }

    /// The action that the planner's owner is asked for.
    pub open spec fn pending(self) -> PlanActionView {
        match self.stage {
            StageView::Checking(exec) => PlanActionView::Process(exec.pending()),
            StageView::Probing(_, exec) => PlanActionView::Process(exec.pending()),
            StageView::Installing(exec) => PlanActionView::Process(exec.pending()),
            StageView::AwaitingDirectory => PlanActionView::CheckDirectory {
                path: match self.current() {
                    RequestView::SshKey { algorithm, .. } => ssh_key_location(algorithm),
                    _ => Seq::empty(),
                },
            },
            StageView::Done => PlanActionView::Finished,
        }
    }

    /// The run is over.
    pub open spec fn finished(self) -> bool {
        self.stage is Done
    }

    /// Whether an event answers the pending action.
    pub open spec fn accepts(self, event: PlanEventView) -> bool {
        match (self.stage, event) {
            (StageView::Checking(exec), PlanEventView::Process(e)) => exec.accepts(e),
            (StageView::Probing(_, exec), PlanEventView::Process(e)) => exec.accepts(e),
            (StageView::Installing(exec), PlanEventView::Process(e)) => exec.accepts(e),
            (StageView::AwaitingDirectory, PlanEventView::Directory { .. }) => true,
            _ => false,
        }
    }

    /// The request at the cursor is dealt with: its entry is written and the
    /// next request taken up.
    pub open spec fn conclude(self, outcome: ItemOutcomeView) -> PlannerView {
        let next = PlannerView {
            entries: self.entries.push(EntryView { request: self.current(), outcome }),
            ..self
        };
        PlannerView { stage: next.enter(), ..next }
    }

    /// The recipe of the request at the cursor is started.
    pub open spec fn install(self) -> PlannerView {
        PlannerView {
            stage: StageView::Installing(
                ExecutorView::initial(planned_steps(self.facts, self.current())),
            ),
            ..self
        }
    }

    /// The tool at the cursor is absent: it is installed, after the facts
    /// have been resolved where they are not known yet.
    pub open spec fn provide(self) -> PlannerView {
        match self.facts {
            Some(_) => self.install(),
            None => PlannerView {
                stage: StageView::Probing(
                    Seq::empty(),
                    ExecutorView::initial(next_probe_steps(0)),
                ),
                ..self
            },
        }
    }

    /// A probe has answered.
    pub open spec fn probed(self, readings: Seq<Seq<char>>, outcomes: Seq<StepOutcomeView>)
        -> PlannerView {
        match resolution(readings, outcomes) {
            ResolutionView::Failed(error) => PlannerView {
                failure: Some(error),
                stage: StageView::Done,
                ..self
            },
            ResolutionView::Pending(taken) => PlannerView {
                stage: StageView::Probing(
                    taken,
                    ExecutorView::initial(next_probe_steps(taken.len() as int)),
                ),
                ..self
            },
            ResolutionView::Resolved(facts) => (PlannerView {
                facts: Some(facts),
                ..self
            }).install(),
        }
    }

    /// The state after an event: an event that does not answer the pending
    /// action changes nothing.
    pub open spec fn advance(self, event: PlanEventView) -> PlannerView {
        if !self.accepts(event) {
            self
        } else {
            match (self.stage, event) {
                (StageView::Checking(exec), PlanEventView::Process(e)) => {
                    let after = exec.advance(e);
                    if !after.finished() {
                        PlannerView { stage: StageView::Checking(after), ..self }
                    } else if shows_presence(after.records) {
                        self.conclude(ItemOutcomeView::AlreadyPresent)
                    } else {
                        self.provide()
                    }
                },
                (StageView::Probing(readings, exec), PlanEventView::Process(e)) => {
                    let after = exec.advance(e);
                    if !after.finished() {
                        PlannerView { stage: StageView::Probing(readings, after), ..self }
                    } else {
                        self.probed(readings, after.records)
                    }
                },
                (StageView::Installing(exec), PlanEventView::Process(e)) => {
                    let after = exec.advance(e);
                    if !after.finished() {
                        PlannerView { stage: StageView::Installing(after), ..self }
                    } else {
                        self.conclude(ItemOutcomeView::Ran(after.records))
                    }
                },
                (StageView::AwaitingDirectory, PlanEventView::Directory { exists }) => {
                    if exists {
                        self.conclude(ItemOutcomeView::AlreadyPresent)
                    } else {
                        self.install()
                    }
                },
                _ => self,
            }
        }
    }

    /// The state after a sequence of events.
    pub open spec fn run(self, events: Seq<PlanEventView>) -> PlannerView
        decreases events.len(),
    {
        if events.len() == 0 {
            self
        } else {
            self.run(events.drop_last()).advance(events.last())
        }
    }

    /// The pipeline under way: that of the presence check, of the probe or of
    /// the recipe of the request at the cursor. None while a directory is
    /// looked for, and none once the run is over.
    pub open spec fn pipeline(self) -> Seq<StepView> {
        match self.stage {
            StageView::Checking(_) => match self.current() {
                RequestView::Tool(tool) => presence_steps(tool),
                _ => Seq::empty(),
            },
            StageView::Probing(readings, _) => next_probe_steps(readings.len() as int),
            StageView::Installing(_) => planned_steps(self.facts, self.current()),
            StageView::AwaitingDirectory => Seq::empty(),
            StageView::Done => Seq::empty(),
        }
    }

    /// A pipeline under way is that of the stage, and an answer to it is
    /// awaited.
    pub open spec fn under_way(exec: ExecutorView, steps: Seq<StepView>) -> bool {
        &&& exec.inv()
        &&& !exec.finished()
        &&& exec.steps == steps
    }

    /// The invariant of a planner.
    pub open spec fn inv(self) -> bool {
        &&& self.entries.len() <= self.requests.len()
        &&& forall|i: int|
            0 <= i < self.entries.len() ==> entry_sound(
                self.facts,
                self.requests[i],
                #[trigger] self.entries[i],
            )
        &&& self.failure is Some ==> self.stage is Done && self.facts is None
        &&& match self.stage {
            StageView::Checking(exec) => {
                &&& self.cursor() < self.requests.len()
                &&& self.current() matches RequestView::Tool(tool)
                &&& Self::under_way(exec, presence_steps(tool))
            },
            StageView::AwaitingDirectory => {
                &&& self.cursor() < self.requests.len()
                &&& self.current() is SshKey
            },
            StageView::Probing(readings, exec) => {
                &&& self.cursor() < self.requests.len()
                &&& self.current() is Tool
                &&& self.facts is None
                &&& probe_at(readings.len() as int) is Some
                &&& Self::under_way(exec, next_probe_steps(readings.len() as int))
            },
            StageView::Installing(exec) => {
                &&& self.cursor() < self.requests.len()
                &&& self.current() is Tool ==> self.facts is Some
                &&& Self::under_way(exec, planned_steps(self.facts, self.current()))
            },
            StageView::Done => self.failure is Some || self.cursor() == self.requests.len(),
        }
    }
}

proof fn lemma_started(steps: Seq<StepView>)
    requires
        steps.len() > 0,
        steps[0].input_source != InputSource::PipeFromPreviousStep,
    ensures
        PlannerView::under_way(ExecutorView::initial(steps), steps),
{
    crate::executor::lemma_initial_inv(steps);
    lemma_initial_pending(steps);
}

proof fn lemma_planned_steps_start(facts: Option<FactsView>, request: RequestView)
    requires
        request is Tool ==> facts is Some,
    ensures
        PlannerView::under_way(
            ExecutorView::initial(planned_steps(facts, request)),
            planned_steps(facts, request),
        ),
{
    let f = match facts {
        Some(f) => f,
        None => arbitrary(),
    };
    lemma_recipe_well_formed(f, request);
    assert(planned_steps(facts, request) == recipe(f, request));
    let steps = planned_steps(facts, request);
    assert(steps[0].input_source != InputSource::PipeFromPreviousStep);
    lemma_started(steps);
}

proof fn lemma_enter(v: PlannerView)
    requires
        v.entries.len() <= v.requests.len(),
        forall|i: int|
            0 <= i < v.entries.len() ==> entry_sound(
                v.facts,
                v.requests[i],
                #[trigger] v.entries[i],
            ),
        v.failure is None,
    ensures
        (PlannerView { stage: v.enter(), ..v }).inv(),
{
    if v.cursor() < v.requests.len() {
        match v.current() {
            RequestView::SystemUpdate(kind) => {
                lemma_planned_steps_start(v.facts, v.current());
            },
            RequestView::Tool(tool) => {
                lemma_started(presence_steps(tool));
            },
            RequestView::SshKey { .. } => {},
        }
    }
}

proof fn lemma_conclude(v: PlannerView, outcome: ItemOutcomeView)
    requires
        v.inv(),
        !v.finished(),
        entry_sound(v.facts, v.current(), EntryView { request: v.current(), outcome }),
    ensures
        v.conclude(outcome).inv(),
{
    let next = PlannerView {
        entries: v.entries.push(EntryView { request: v.current(), outcome }),
        ..v
    };
    assert forall|i: int| 0 <= i < next.entries.len() implies entry_sound(
        next.facts,
        next.requests[i],
        #[trigger] next.entries[i],
    ) by {
        if i < v.entries.len() {
            assert(next.entries[i] == v.entries[i]);
        }
    }
    lemma_enter(next);
}

proof fn lemma_install(v: PlannerView)
    requires
        v.inv(),
        !v.finished(),
        v.current() is Tool ==> v.facts is Some,
    ensures
        v.install().inv(),
{
    lemma_planned_steps_start(v.facts, v.current());
}

/// A run starts in a state that meets the invariant.
pub proof fn lemma_initial_inv(requests: Seq<RequestView>)
    ensures
        PlannerView::initial(requests).inv(),
        PlannerView::initial(requests).requests == requests,
{
    let blank = PlannerView {
        requests,
        entries: Seq::empty(),
        facts: None,
        stage: StageView::Done,
        failure: None,
    };
    lemma_enter(blank);
}

/// No event leads out of the invariant. The requests stay as they are, and
/// so does every entry written, and the facts once they are known.
pub proof fn lemma_advance_inv(v: PlannerView, event: PlanEventView)
    requires
        v.inv(),
    ensures
        v.advance(event).inv(),
        v.advance(event).requests == v.requests,
        v.advance(event).entries.len() >= v.entries.len(),
        forall|i: int|
            0 <= i < v.entries.len() ==> v.advance(event).entries[i] == v.entries[i],
        v.facts is Some ==> v.advance(event).facts == v.facts,
{
    if v.accepts(event) {
        match (v.stage, event) {
            (StageView::Checking(exec), PlanEventView::Process(e)) => {
                crate::executor::lemma_advance_inv(exec, e);
                let after = exec.advance(e);
                if !after.finished() {
                } else if shows_presence(after.records) {
                    lemma_conclude(v, ItemOutcomeView::AlreadyPresent);
                } else {
                    match v.facts {
                        Some(_) => {
                            lemma_install(v);
                        },
                        None => {
                            lemma_started(next_probe_steps(0));
                        },
                    }
                }
            },
            (StageView::Probing(readings, exec), PlanEventView::Process(e)) => {
                crate::executor::lemma_advance_inv(exec, e);
                let after = exec.advance(e);
                if after.finished() {
                    match resolution(readings, after.records) {
                        ResolutionView::Failed(error) => {},
                        ResolutionView::Pending(taken) => {
                            lemma_started(next_probe_steps(taken.len() as int));
                        },
                        ResolutionView::Resolved(facts) => {
                            let known = PlannerView { facts: Some(facts), ..v };
                            assert forall|i: int| 0 <= i < known.entries.len() implies entry_sound(
                                known.facts,
                                known.requests[i],
                                #[trigger] known.entries[i],
                            ) by {
                                assert(entry_sound(v.facts, v.requests[i], v.entries[i]));
                            }
                            lemma_planned_steps_start(known.facts, known.current());
                        },
                    }
                }
            },
            (StageView::Installing(exec), PlanEventView::Process(e)) => {
                crate::executor::lemma_advance_inv(exec, e);
                let after = exec.advance(e);
                if after.finished() {
                    assert(ran_steps(after.records) =~= after.steps);
                    lemma_conclude(v, ItemOutcomeView::Ran(after.records));
                }
            },
            (StageView::AwaitingDirectory, PlanEventView::Directory { exists }) => {
                if exists {
                    lemma_conclude(v, ItemOutcomeView::AlreadyPresent);
                } else {
                    lemma_install(v);
                }
            },
            _ => {},
        }
    }
}

/// Whatever events follow, the invariant holds, the requests stay as they
/// are, and an entry once written is never changed.
pub proof fn lemma_run_inv(v: PlannerView, events: Seq<PlanEventView>)
    requires
        v.inv(),
    ensures
        v.run(events).inv(),
        v.run(events).requests == v.requests,
        v.run(events).entries.len() >= v.entries.len(),
        forall|i: int| 0 <= i < v.entries.len() ==> v.run(events).entries[i] == v.entries[i],
        v.facts is Some ==> v.run(events).facts == v.facts,
    decreases events.len(),
{
    if events.len() > 0 {
        lemma_run_inv(v, events.drop_last());
        lemma_advance_inv(v.run(events.drop_last()), events.last());
    }
}

/// Once the run is over, no event changes anything.
pub proof fn lemma_finished_is_final(v: PlannerView, events: Seq<PlanEventView>)
    requires
        v.finished(),
    ensures
        v.run(events) == v,
    decreases events.len(),
{
    if events.len() > 0 {
        lemma_finished_is_final(v, events.drop_last());
    }
}

/// Idempotency. When the presence check of the tool at the cursor ends and
/// shows the tool, the tool's entry says `AlreadyPresent`, which holds no
/// step, and the planner has moved on: whatever events follow, the entry
/// stays as it is, and the planner stands at a later request, so that no
/// action it asks for belongs to this tool.
pub proof fn lemma_present_tool_is_never_installed(
    v: PlannerView,
    event: ProcessEventView,
    later: Seq<PlanEventView>,
)
    requires
        v.inv(),
        v.stage matches StageView::Checking(exec) && exec.accepts(event) && exec.advance(
            event,
        ).finished() && shows_presence(exec.advance(event).records),
    ensures
        v.advance(PlanEventView::Process(event)).run(later).cursor() > v.cursor(),
        v.advance(PlanEventView::Process(event)).run(later).entries[v.cursor()] == (EntryView {
            request: v.requests[v.cursor()],
            outcome: ItemOutcomeView::AlreadyPresent,
        }),
{
    let next = v.advance(PlanEventView::Process(event));
    let i = v.cursor();
    lemma_advance_inv(v, PlanEventView::Process(event));
    assert(next.entries[i].outcome is AlreadyPresent);
    assert(entry_sound(next.facts, next.requests[i], next.entries[i]));
    lemma_run_inv(next, later);
    assert(next.run(later).entries[i] == next.entries[i]);
}

/// The same for a key: when its directory exists, nothing is generated.
pub proof fn lemma_present_key_is_never_generated(v: PlannerView, later: Seq<PlanEventView>)
    requires
        v.inv(),
        v.stage is AwaitingDirectory,
    ensures
        v.advance(PlanEventView::Directory { exists: true }).run(later).cursor() > v.cursor(),
        v.advance(PlanEventView::Directory { exists: true }).run(later).entries[v.cursor()] == (
        EntryView { request: v.requests[v.cursor()], outcome: ItemOutcomeView::AlreadyPresent }),
{
    let next = v.advance(PlanEventView::Directory { exists: true });
    let i = v.cursor();
    lemma_advance_inv(v, PlanEventView::Directory { exists: true });
    assert(next.entries[i].outcome is AlreadyPresent);
    assert(entry_sound(next.facts, next.requests[i], next.entries[i]));
    lemma_run_inv(next, later);
    assert(next.run(later).entries[i] == next.entries[i]);
}

/// Fatal fact failure. When a probe ends without a reading, the run is over
/// with that failure, whatever events follow. No entry is added, and no
/// tool's recipe was ever run: every tool in the report was already present.
pub proof fn lemma_failed_probe_is_fatal(
    v: PlannerView,
    event: ProcessEventView,
    later: Seq<PlanEventView>,
)
    requires
        v.inv(),
        v.stage matches StageView::Probing(readings, exec) && exec.accepts(event) && exec.advance(
            event,
        ).finished() && resolution(readings, exec.advance(event).records) is Failed,
    ensures
        ({
            let end = v.advance(PlanEventView::Process(event)).run(later);
            &&& end.finished()
            &&& end.pending() is Finished
            &&& v.stage matches StageView::Probing(readings, exec) && resolution(
                readings,
                exec.advance(event).records,
            ) == ResolutionView::Failed(end.failure->0)
            &&& end.failure is Some
            &&& end.entries == v.entries
            &&& forall|i: int|
                0 <= i < end.entries.len() && end.requests[i] is Tool ==> (
                #[trigger] end.entries[i]).outcome is AlreadyPresent
        }),
{
    let next = v.advance(PlanEventView::Process(event));
    lemma_advance_inv(v, PlanEventView::Process(event));
    lemma_finished_is_final(next, later);
    assert forall|i: int| 0 <= i < next.entries.len() && next.requests[i] is Tool implies (
    #[trigger] next.entries[i]).outcome is AlreadyPresent by {
        assert(entry_sound(next.facts, next.requests[i], next.entries[i]));
    }
}

/// Fatal fact failure, for the spawn of any of the four probes: when the
/// probe's process cannot be created, the run is over with a failure that
/// names the probe and the cause, and no tool's recipe is run.
pub proof fn lemma_probe_spawn_failure_is_fatal(
    v: PlannerView,
    detail: Seq<char>,
    later: Seq<PlanEventView>,
)
    requires
        v.inv(),
        v.stage matches StageView::Probing(_, exec) && exec.pending() is Spawn,
    ensures
        ({
            let event = PlanEventView::Process(ProcessEventView::SpawnFailed { detail });
            let end = v.advance(event).run(later);
            &&& end.finished()
            &&& v.stage matches StageView::Probing(readings, _) && end.failure == Some(
                FactErrorView {
                    probe: probe_at(readings.len() as int)->0,
                    cause: ProbeFailureView::Spawn { detail },
                },
            )
            &&& end.entries == v.entries
            &&& forall|i: int|
                0 <= i < end.entries.len() && end.requests[i] is Tool ==> (
                #[trigger] end.entries[i]).outcome is AlreadyPresent
        }),
{
    let event = ProcessEventView::SpawnFailed { detail };
    match v.stage {
        StageView::Probing(readings, exec) => {
            crate::executor::lemma_single_step_spawn_failure(exec, detail);
            lemma_failed_probe_is_fatal(v, event, later);
        },
        _ => {},
    }
}

/// Best-effort continuation. Only a probe can end a run early: whatever
/// happens to the steps of a presence check or of a recipe, no failure is set.
pub proof fn lemma_step_failures_never_abort(v: PlannerView, event: PlanEventView)
    requires
        v.inv(),
        v.failure is None,
        !(v.stage is Probing),
    ensures
        v.advance(event).failure is None,
{
}

/// Best-effort continuation. A run that is over and that no probe has ended
/// has an entry for every request, in the order of the requests, and has
/// run every update.
pub proof fn lemma_finished_run_covers_every_request(v: PlannerView)
    requires
        v.inv(),
        v.finished(),
        v.failure is None,
    ensures
        v.entries.len() == v.requests.len(),
        forall|i: int|
            0 <= i < v.entries.len() ==> (#[trigger] v.entries[i]).request == v.requests[i],
        forall|i: int|
            0 <= i < v.entries.len() && v.requests[i] is SystemUpdate ==> (
            #[trigger] v.entries[i]).outcome is Ran,
{
    assert forall|i: int| 0 <= i < v.entries.len() implies (#[trigger] v.entries[i]).request
        == v.requests[i] by {
        assert(entry_sound(v.facts, v.requests[i], v.entries[i]));
    }
    assert forall|i: int| 0 <= i < v.entries.len() && v.requests[i] is SystemUpdate implies (
    #[trigger] v.entries[i]).outcome is Ran by {
        assert(entry_sound(v.facts, v.requests[i], v.entries[i]));
    }
}

/// Facts of which no recipe's length depends.
pub open spec fn blank_facts() -> FactsView {
    FactsView {
        architecture: Seq::empty(),
        kernel_name: Seq::empty(),
        hardware_name: Seq::empty(),
        distro_codename: Seq::empty(),
    }
}

/// The answers that resolving the facts takes at most: a spawn and a wait
/// for each of the four probes.
pub open spec fn probing_budget() -> int {
    8
}

/// The answers that one request takes at most: for an update, a spawn and a
/// wait for each step of its recipe; for a tool, those of its presence
/// check, of the probes and of its recipe; for a key, the directory check
/// and those of its recipe.
pub open spec fn request_budget(request: RequestView) -> int {
    match request {
        RequestView::SystemUpdate(kind) => 2 * update_steps(kind).len() as int,
        RequestView::Tool(tool) => 2 + probing_budget() + 2 * tool_steps(
            blank_facts(),
            tool,
        ).len(),
        RequestView::SshKey { algorithm, email, .. } => 1int + 2 * ssh_key_steps(
            algorithm,
            email,
        ).len(),
    }
}

/// The answers that the requests from `from` on take at most.
pub open spec fn requests_budget(requests: Seq<RequestView>, from: int) -> int
    decreases requests.len() - from,
{
    if 0 <= from < requests.len() {
        request_budget(requests[from]) + requests_budget(requests, from + 1)
    } else {
        0
    }
}

/// The answers that a run takes at most from where the planner stands.
pub open spec fn budget(v: PlannerView) -> int {
    let rest = requests_budget(v.requests, v.cursor() + 1);
    let recipe_budget = 2 * planned_steps(Some(blank_facts()), v.current()).len() as int;
    match v.stage {
        StageView::Done => 0,
        StageView::AwaitingDirectory => 1 + recipe_budget + rest,
        StageView::Checking(exec) => (2 - exec.progress()) + probing_budget() + recipe_budget
            + rest,
        StageView::Probing(readings, exec) => (2 - exec.progress()) + 2 * (3 - readings.len())
            + recipe_budget + rest,
        StageView::Installing(exec) => (2 * exec.steps.len() - exec.progress()) + rest,
    }
}

proof fn lemma_recipe_length(facts: Option<FactsView>, request: RequestView)
    requires
        request is Tool ==> facts is Some,
    ensures
        planned_steps(facts, request).len() == planned_steps(Some(blank_facts()), request).len(),
{
}

proof fn lemma_requests_budget(requests: Seq<RequestView>, from: int)
    ensures
        requests_budget(requests, from) >= 0,
    decreases requests.len() - from,
{
    if 0 <= from < requests.len() {
        lemma_requests_budget(requests, from + 1);
    }
}

/// The progress of an executor lies between nothing and a spawn and a wait
/// for each of its steps.
proof fn lemma_progress_bounds(exec: ExecutorView)
    requires
        exec.inv(),
    ensures
        0 <= exec.progress() <= 2 * exec.steps.len(),
{
    crate::executor::lemma_progress(exec, ProcessEventView::Spawned);
}

proof fn lemma_stage_bounds(v: PlannerView)
    requires
        v.inv(),
    ensures
        match v.stage {
            StageView::Checking(exec) => 0 <= exec.progress() <= 2,
            StageView::Probing(_, exec) => 0 <= exec.progress() <= 2,
            StageView::Installing(exec) => 0 <= exec.progress() <= 2 * exec.steps.len()
                && exec.steps.len() == planned_steps(Some(blank_facts()), v.current()).len(),
            _ => true,
        },
{
    match v.stage {
        StageView::Checking(exec) => {
            lemma_progress_bounds(exec);
        },
        StageView::Probing(_, exec) => {
            lemma_progress_bounds(exec);
        },
        StageView::Installing(exec) => {
            lemma_progress_bounds(exec);
            lemma_recipe_length(v.facts, v.current());
        },
        _ => {},
    }
}

proof fn lemma_entered_budget(v: PlannerView)
    requires
        v.inv(),
        v.stage == v.enter(),
    ensures
        0 <= budget(v) <= requests_budget(v.requests, v.cursor()),
{
    lemma_requests_budget(v.requests, v.cursor() + 1);
    lemma_stage_bounds(v);
}

/// A run is one pass, and it ends. The budget of a planner is never
/// negative, it is zero exactly when the run is over, and every event that
/// the planner accepts takes from it: a run takes no more answers than the
/// budget of its requests.
pub proof fn lemma_every_answer_spends_budget(v: PlannerView, event: PlanEventView)
    requires
        v.inv(),
    ensures
        budget(v) >= 0,
        budget(v) == 0 <==> v.finished(),
        v.accepts(event) ==> budget(v.advance(event)) < budget(v),
        budget(PlannerView::initial(v.requests)) <= requests_budget(v.requests, 0),
{
    let next = v.advance(event);
    lemma_requests_budget(v.requests, v.cursor() + 1);
    lemma_initial_inv(v.requests);
    lemma_entered_budget(PlannerView::initial(v.requests));
    lemma_advance_inv(v, event);
    lemma_stage_bounds(v);
    lemma_stage_bounds(next);
    if v.accepts(event) {
        if next.cursor() > v.cursor() {
            lemma_entered_budget(next);
        }
        match (v.stage, event) {
            (StageView::Checking(exec), PlanEventView::Process(e)) => {
                crate::executor::lemma_progress(exec, e);
            },
            (StageView::Probing(_, exec), PlanEventView::Process(e)) => {
                crate::executor::lemma_progress(exec, e);
            },
            (StageView::Installing(exec), PlanEventView::Process(e)) => {
                crate::executor::lemma_progress(exec, e);
            },
            _ => {},
        }
    }
}

/// As long as the run is not over there is something to do, and every
/// process asked for is a step of the pipeline under way: of the presence
/// check, of the probe or of the recipe of the request at the cursor, and of
/// nothing else.
pub proof fn lemma_pending_belongs_to_current_request(v: PlannerView)
    requires
        v.inv(),
    ensures
        v.pending() is Finished <==> v.finished(),
        !(v.pending() matches PlanActionView::Process(ActionView::Finished)),
        v.pending() matches PlanActionView::Process(ActionView::Spawn { index, step, .. }) ==> 0
            <= index < v.pipeline().len() && step == v.pipeline()[index],
        v.pending() matches PlanActionView::Process(ActionView::Wait { index, .. }) ==> 0 <= index
            < v.pipeline().len(),
        v.pending() matches PlanActionView::CheckDirectory { path } ==> v.current() is SshKey
            && path == ssh_key_location(v.current()->SshKey_algorithm),
{
}

/// An update is never looked for: its entry always holds a run.
pub proof fn lemma_updates_are_always_run(v: PlannerView, i: int)
    requires
        v.inv(),
        0 <= i < v.entries.len(),
        v.requests[i] is SystemUpdate,
    ensures
        v.entries[i].outcome is Ran,
{
    assert(entry_sound(v.facts, v.requests[i], v.entries[i]));
}

/// What was run for a request is its recipe, step for step and to the end:
/// for a tool, the recipe made with the facts of this run.
pub proof fn lemma_entries_ran_their_recipes(v: PlannerView, i: int)
    requires
        v.inv(),
        0 <= i < v.entries.len(),
        v.entries[i].outcome is Ran,
    ensures
        v.requests[i] is Tool ==> v.facts is Some,
        v.facts matches Some(f) ==> ran_steps(v.entries[i].outcome->Ran_0) == recipe(
            f,
            v.requests[i],
        ),
        !(v.requests[i] is Tool) ==> forall|f: FactsView|
            ran_steps(v.entries[i].outcome->Ran_0) == #[trigger] recipe(f, v.requests[i]),
{
    assert(entry_sound(v.facts, v.requests[i], v.entries[i]));
}

/// What the planner is doing for the request it stands at.
#[derive(Debug)]
enum Stage {
    Checking(Executor),
    AwaitingDirectory,
    Probing(FactResolver, Executor),
    Installing(Executor),
    Done,
}

spec fn stage_view(stage: Stage) -> StageView {
    match stage {
        Stage::Checking(exec) => StageView::Checking(exec@),
        Stage::AwaitingDirectory => StageView::AwaitingDirectory,
        Stage::Probing(resolver, exec) => StageView::Probing(resolver@, exec@),
        Stage::Installing(exec) => StageView::Installing(exec@),
        Stage::Done => StageView::Done,
    }
}

spec fn facts_view(facts: Option<SystemFacts>) -> Option<FactsView> {
    match facts {
        Some(f) => Some(f@),
        None => None,
    }
}

spec fn failure_view(failure: Option<FactError>) -> Option<FactErrorView> {
    match failure {
        Some(error) => Some(error@),
        None => None,
    }
}

spec fn state_of(
    requests: Seq<ProvisionRequest>,
    entries: Seq<ReportEntry>,
    facts: Option<SystemFacts>,
    stage: Stage,
    failure: Option<FactError>,
) -> PlannerView {
    PlannerView {
        requests: requests_view(requests),
        entries: entries_view(entries),
        facts: facts_view(facts),
        stage: stage_view(stage),
        failure: failure_view(failure),
    }
}

fn enter(requests: &Vec<ProvisionRequest>, cursor: usize) -> (stage: Stage)
    ensures
        stage_view(stage) == stage_at(requests_view(requests@), cursor as int),
{
    if cursor >= requests.len() {
        Stage::Done
    } else {
        match &requests[cursor] {
            ProvisionRequest::SystemUpdate(kind) => Stage::Installing(
                Executor::new(update_recipe(*kind)),
            ),
            ProvisionRequest::Tool(tool) => Stage::Checking(Executor::new(presence_pipeline(tool))),
            ProvisionRequest::SshKey { .. } => Stage::AwaitingDirectory,
        }
    }
}

fn planned_pipeline(facts: &Option<SystemFacts>, request: &ProvisionRequest) -> (steps: Vec<Step>)
    ensures
        pipeline_view(steps@) == planned_steps(facts_view(*facts), request@),
{
    match request {
        ProvisionRequest::Tool(tool) => match facts {
            Some(f) => tool_recipe(f, tool),
            None => {
                let steps: Vec<Step> = Vec::new();
                assert(pipeline_view(steps@) =~= Seq::<StepView>::empty());
                steps
            },
        },
        ProvisionRequest::SshKey { algorithm, email, title: _ } => ssh_key_recipe(
            algorithm.as_str(),
            email.as_str(),
        ),
        ProvisionRequest::SystemUpdate(kind) => update_recipe(*kind),
    }
}

fn conclude(
    requests: &Vec<ProvisionRequest>,
    entries: Vec<ReportEntry>,
    outcome: ItemOutcome,
) -> (r: (Vec<ReportEntry>, Stage))
    requires
        entries.len() < requests.len(),
    ensures
        entries_view(r.0@) == entries_view(entries@).push(
            EntryView { request: requests[entries.len() as int]@, outcome: outcome@ },
        ),
        stage_view(r.1) == stage_at(requests_view(requests@), entries.len() + 1),
{
    let cursor = entries.len();
    let mut entries = entries;
    let ghost before = entries@;
    let entry = ReportEntry { request: requests[cursor].clone(), outcome };
    entries.push(entry);
    assert(entries_view(entries@) =~= entries_view(before).push(entry@));
    let stage = enter(requests, cursor + 1);
    (entries, stage)
}

fn install(
    requests: &Vec<ProvisionRequest>,
    cursor: usize,
    facts: &Option<SystemFacts>,
) -> (stage: Stage)
    requires
        cursor < requests.len(),
    ensures
        stage_view(stage) == StageView::Installing(
            ExecutorView::initial(planned_steps(facts_view(*facts), requests[cursor as int]@)),
        ),
{
    Stage::Installing(Executor::new(planned_pipeline(facts, &requests[cursor])))
}

fn probe(resolver: FactResolver) -> (stage: Stage)
    ensures
        stage_view(stage) == StageView::Probing(
            resolver@,
            ExecutorView::initial(next_probe_steps(resolver@.len() as int)),
        ),
{
    let exec = Executor::new(resolver.next_pipeline());
    Stage::Probing(resolver, exec)
}

/// The plan runner of one pass.
#[derive(Debug)]
pub struct Planner {
    requests: Vec<ProvisionRequest>,
    entries: Vec<ReportEntry>,
    facts: Option<SystemFacts>,
    stage: Stage,
    failure: Option<FactError>,
}

impl View for Planner {
    type V = PlannerView;

    closed spec fn view(&self) -> PlannerView {
        state_of(self.requests@, self.entries@, self.facts, self.stage, self.failure)
    }
}

impl Planner {
    #[verifier::type_invariant]
    spec fn well_formed(self) -> bool {
        self@.inv()
    }

    /// A planner for the requests, in the order in which they are to be
    /// dealt with.
    pub fn new(requests: Vec<ProvisionRequest>) -> (p: Planner)
        ensures
            p@ == PlannerView::initial(requests_view(requests@)),
            p@.inv(),
    {
        let entries: Vec<ReportEntry> = Vec::new();
        assert(entries_view(entries@) =~= Seq::<EntryView>::empty());
        let stage = enter(&requests, 0);
        proof {
            lemma_initial_inv(requests_view(requests@));
        }
        Planner { requests, entries, facts: None, stage, failure: None }
    }

    /// What to do next.
    pub fn next_action(&self) -> (a: PlanAction)
        ensures
            a@ == self@.pending(),
            self@.inv(),
    {
        proof {
            use_type_invariant(self);
        }
        match &self.stage {
            Stage::Checking(exec) => PlanAction::Process(exec.next_action()),
            Stage::Probing(_, exec) => PlanAction::Process(exec.next_action()),
            Stage::Installing(exec) => PlanAction::Process(exec.next_action()),
            Stage::AwaitingDirectory => {
                let cursor = self.entries.len();
                match &self.requests[cursor] {
                    ProvisionRequest::SshKey { algorithm, .. } => PlanAction::CheckDirectory {
                        path: ssh_key_path(algorithm.as_str()),
                    },
                    _ => PlanAction::CheckDirectory { path: String::new() },
                }
            },
            Stage::Done => PlanAction::Finished,
        }
    }

    /// Whether the run is over.
    pub fn is_finished(&self) -> (r: bool)
        ensures
            r == self@.finished(),
    {
        match &self.stage {
            Stage::Done => true,
            _ => false,
        }
    }

    /// The facts about the machine, once they have been resolved.
    pub fn facts(&self) -> (r: Option<&SystemFacts>)
        ensures
            r is Some <==> self@.facts is Some,
            r matches Some(f) ==> Some(f@) == self@.facts,
    {
        self.facts.as_ref()
    }

    /// Takes the answer to the pending action. The flag returned says
    /// whether the event was such an answer; one that was not is dropped.
    pub fn handle(self, event: PlanEvent) -> (r: (Planner, bool))
        ensures
            r.1 == self@.accepts(event@),
            r.0@ == self@.advance(event@),
            r.0@.inv(),
    {
        proof {
            use_type_invariant(&self);
            lemma_advance_inv(self@, event@);
        }
        let ghost before = self@;
        let Planner { requests, entries, facts, stage, failure } = self;
        let cursor = entries.len();
        let (entries, facts, stage, failure, accepted) = match stage {
            Stage::Checking(exec) => match event {
                PlanEvent::Process(e) => {
                    let (exec, accepted) = exec.handle(e);
                    if !accepted || !exec.is_finished() {
                        (entries, facts, Stage::Checking(exec), failure, accepted)
                    } else {
                        let outcome = exec.into_outcome();
                        if is_present(&outcome) {
                            let (entries, stage) = conclude(
                                &requests,
                                entries,
                                ItemOutcome::AlreadyPresent,
                            );
                            (entries, facts, stage, failure, true)
                        } else {
                            let stage = match &facts {
                                Some(_) => install(&requests, cursor, &facts),
                                None => probe(FactResolver::new()),
                            };
                            (entries, facts, stage, failure, true)
                        }
                    }
                },
                _ => (entries, facts, Stage::Checking(exec), failure, false),
            },
            Stage::Probing(resolver, exec) => match event {
                PlanEvent::Process(e) => {
                    let (exec, accepted) = exec.handle(e);
                    if !accepted || !exec.is_finished() {
                        (entries, facts, Stage::Probing(resolver, exec), failure, accepted)
                    } else {
                        let outcome = exec.into_outcome();
                        match resolver.record(&outcome) {
                            Resolution::Failed(error) => (
                                entries,
                                facts,
                                Stage::Done,
                                Some(error),
                                true,
                            ),
                            Resolution::Pending(resolver) => (
                                entries,
                                facts,
                                probe(resolver),
                                failure,
                                true,
                            ),
                            Resolution::Resolved(resolved) => {
                                let facts = Some(resolved);
                                let stage = install(&requests, cursor, &facts);
                                (entries, facts, stage, failure, true)
                            },
                        }
                    }
                },
                _ => (entries, facts, Stage::Probing(resolver, exec), failure, false),
            },
            Stage::Installing(exec) => match event {
                PlanEvent::Process(e) => {
                    let (exec, accepted) = exec.handle(e);
                    if !accepted || !exec.is_finished() {
                        (entries, facts, Stage::Installing(exec), failure, accepted)
                    } else {
                        let outcome = exec.into_outcome();
                        let (entries, stage) = conclude(
                            &requests,
                            entries,
                            ItemOutcome::Ran(outcome),
                        );
                        (entries, facts, stage, failure, true)
                    }
                },
                _ => (entries, facts, Stage::Installing(exec), failure, false),
            },
            Stage::AwaitingDirectory => match event {
                PlanEvent::Directory { exists } => {
                    if exists {
                        let (entries, stage) = conclude(
                            &requests,
                            entries,
                            ItemOutcome::AlreadyPresent,
                        );
                        (entries, facts, stage, failure, true)
                    } else {
                        let stage = install(&requests, cursor, &facts);
                        (entries, facts, stage, failure, true)
                    }
                },
                _ => (entries, facts, Stage::AwaitingDirectory, failure, false),
            },
            Stage::Done => (entries, facts, Stage::Done, failure, false),
        };
        assert(state_of(requests@, entries@, facts, stage, failure) == before.advance(event@));
        (Planner { requests, entries, facts, stage, failure }, accepted)
    }

    /// The report of the run: complete once the run is over.
    pub fn into_report(self) -> (r: RunReport)
        ensures
            r@ == (ReportView { entries: self@.entries, failure: self@.failure }),
            self@.inv(),
    {
        proof {
            use_type_invariant(&self);
        }
        RunReport { entries: self.entries, failure: self.failure }
    }
}

} // verus!
