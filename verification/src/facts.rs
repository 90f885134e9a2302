//! The fact resolver: what the machine says of itself.
//!
//! Four read-only probes are run, one after the other. Each prints one fact
//! on its standard output, which is decoded and trimmed. The first probe
//! that fails ends the resolution: there are no partial facts.

use crate::executor::{PipelineOutcome, StepOutcome, StepOutcomeView, StepResult, StepResultView};
use crate::model::{
    pipeline_view, texts, FactsView, InputSource, Step, StepView, SystemFacts,
};
use crate::text::{trim_text, trimmed};
use vstd::prelude::*;

verus! {

/// The four facts, in the order in which they are asked for.
#[derive(Clone, Copy, Debug, PartialEq, Eq, Structural)]
pub enum FactProbe {
    /// `dpkg --print-architecture`
    Architecture,
    /// `lsb_release -cs`
    DistroCodename,
    /// `uname -s`
    KernelName,
    /// `uname -m`
    HardwareName,
}

/// How many facts there are.
pub const FACT_COUNT: usize = 4;

/// The probe that is run after `done` of them have answered.
pub open spec fn probe_at(done: int) -> Option<FactProbe> {
    if done == 0 {
        Some(FactProbe::Architecture)
    } else if done == 1 {
        Some(FactProbe::DistroCodename)
    } else if done == 2 {
        Some(FactProbe::KernelName)
    } else if done == 3 {
        Some(FactProbe::HardwareName)
    } else {
        None
    }
}

/// The program and the argument of each probe.
pub open spec fn probe_command(probe: FactProbe) -> (Seq<char>, Seq<char>) {
    match probe {
        FactProbe::Architecture => ("dpkg"@, "--print-architecture"@),
        FactProbe::DistroCodename => ("lsb_release"@, "-cs"@),
        FactProbe::KernelName => ("uname"@, "-s"@),
        FactProbe::HardwareName => ("uname"@, "-m"@),
    }
}

/// The step of a probe: no standard input, its output collected.
pub open spec fn probe_step(probe: FactProbe) -> StepView {
    StepView {
        program: probe_command(probe).0,
        arguments: Seq::<Seq<char>>::empty().push(probe_command(probe).1),
        input_source: InputSource::Nothing,
        captures_output: true,
    }
}

/// The pipeline of a probe: its one step.
pub open spec fn probe_steps(probe: FactProbe) -> Seq<StepView> {
    Seq::<StepView>::empty().push(probe_step(probe))
}

/// The pipeline to run for a probe.
pub fn probe_pipeline(probe: FactProbe) -> (steps: Vec<Step>)
    ensures
        pipeline_view(steps@) == probe_steps(probe),
{
    let (program, argument) = match probe {
        FactProbe::Architecture => ("dpkg", "--print-architecture"),
        FactProbe::DistroCodename => ("lsb_release", "-cs"),
        FactProbe::KernelName => ("uname", "-s"),
        FactProbe::HardwareName => ("uname", "-m"),
    };
    let mut args: Vec<String> = Vec::new();
    args.push(argument.to_owned());
    assert(texts(args@) =~= Seq::<Seq<char>>::empty().push(argument@));
    let step = Step::new(program.to_owned(), args, InputSource::Nothing, true);
    let mut steps: Vec<Step> = Vec::new();
    steps.push(step);
    assert(pipeline_view(steps@) =~= probe_steps(probe));
    steps
}

/// A [`ProbeFailure`] as plain values.
pub enum ProbeFailureView {
    Spawn { detail: Seq<char> },
    Wait { detail: Seq<char> },
    Decode,
    NoOutput,
}

/// Why a probe gave no fact.
#[derive(Debug, PartialEq, Eq)]
pub enum ProbeFailure {
    /// Its process could not be created.
    Spawn { detail: String },
    /// Its process could not be waited for.
    Wait { detail: String },
    /// What it printed is not valid UTF-8.
    Decode,
    /// It never ran, or nothing was collected from it.
    NoOutput,
}

impl View for ProbeFailure {
    type V = ProbeFailureView;

    open spec fn view(&self) -> ProbeFailureView {
        match *self {
            ProbeFailure::Spawn { detail } => ProbeFailureView::Spawn { detail: detail@ },
            ProbeFailure::Wait { detail } => ProbeFailureView::Wait { detail: detail@ },
            ProbeFailure::Decode => ProbeFailureView::Decode,
            ProbeFailure::NoOutput => ProbeFailureView::NoOutput,
        }
    }
}

/// A [`FactError`] as plain values.
pub struct FactErrorView {
    pub probe: FactProbe,
    pub cause: ProbeFailureView,
}

/// The failure of the fact resolution: the probe that failed, and why.
#[derive(Debug, PartialEq, Eq)]
pub struct FactError {
    pub probe: FactProbe,
    pub cause: ProbeFailure,
}

impl View for FactError {
    type V = FactErrorView;

    open spec fn view(&self) -> FactErrorView {
        FactErrorView { probe: self.probe, cause: self.cause@ }
    }
}

/// What the outcome of a probe's pipeline yields: the trimmed text that the
/// probe printed, or the reason why there is none.
pub open spec fn probe_reading(outcomes: Seq<StepOutcomeView>) -> Result<
    Seq<char>,
    ProbeFailureView,
> {
    if outcomes.len() == 0 {
        Err(ProbeFailureView::NoOutput)
    } else {
        match outcomes[0].result {
            StepResultView::Completed { captured_text: Some(text), .. } => Ok(trimmed(text)),
            StepResultView::Completed { captured_text: None, .. } => Err(
                ProbeFailureView::NoOutput,
            ),
            StepResultView::DecodeFailed { .. } => Err(ProbeFailureView::Decode),
            StepResultView::WaitFailed { detail } => Err(ProbeFailureView::Wait { detail }),
            StepResultView::SpawnFailed { detail } => Err(ProbeFailureView::Spawn { detail }),
            StepResultView::Running => Err(ProbeFailureView::NoOutput),
            StepResultView::Skipped => Err(ProbeFailureView::NoOutput),
        }
    }
}

/// Reads the outcome of a probe's pipeline.
pub fn read_probe(outcome: &PipelineOutcome) -> (r: Result<String, ProbeFailure>)
    ensures
        match probe_reading(outcome@) {
            Ok(text) => r is Ok && r->Ok_0@ == text,
            Err(cause) => r is Err && r->Err_0@ == cause,
        },
{
    if outcome.outcomes.len() == 0 {
        return Err(ProbeFailure::NoOutput);
    }
    let first: &StepOutcome = &outcome.outcomes[0];
    assert(first@ == outcome@[0]);
    match &first.result {
        StepResult::Completed { captured_text: Some(text), .. } => Ok(trim_text(text.as_str())),
        StepResult::Completed { captured_text: None, .. } => Err(ProbeFailure::NoOutput),
        StepResult::DecodeFailed { .. } => Err(ProbeFailure::Decode),
        StepResult::WaitFailed { detail } => Err(ProbeFailure::Wait { detail: detail.clone() }),
        StepResult::SpawnFailed { detail } => Err(ProbeFailure::Spawn { detail: detail.clone() }),
        StepResult::Running => Err(ProbeFailure::NoOutput),
        StepResult::Skipped => Err(ProbeFailure::NoOutput),
    }
}

/// The facts that four readings stand for, in the order of the probes.
pub open spec fn facts_of(readings: Seq<Seq<char>>) -> FactsView {
    FactsView {
        architecture: readings[0],
        distro_codename: readings[1],
        kernel_name: readings[2],
        hardware_name: readings[3],
    }
}

/// The readings taken so far, in the order of the probes.
#[derive(Debug, PartialEq, Eq)]
pub struct FactResolver {
    readings: Vec<String>,
}

impl View for FactResolver {
    type V = Seq<Seq<char>>;

    closed spec fn view(&self) -> Seq<Seq<char>> {
        texts(self.readings@)
    }
}

/// A [`Resolution`] as plain values.
pub enum ResolutionView {
    Failed(FactErrorView),
    Pending(Seq<Seq<char>>),
    Resolved(FactsView),
}

/// Where the resolution stands after a probe has answered.
#[derive(Debug, PartialEq, Eq)]
pub enum Resolution {
    /// The probe gave no fact: there will be no facts.
    Failed(FactError),
    /// The probe gave its fact, and another probe is to be run.
    Pending(FactResolver),
    /// All four probes have answered.
    Resolved(SystemFacts),
}

impl View for Resolution {
    type V = ResolutionView;

    open spec fn view(&self) -> ResolutionView {
        match *self {
            Resolution::Failed(error) => ResolutionView::Failed(error@),
            Resolution::Pending(resolver) => ResolutionView::Pending(resolver@),
            Resolution::Resolved(facts) => ResolutionView::Resolved(facts@),
        }
    }
}

/// The pipeline to run after `done` probes have answered: that of the next
/// probe, and none once all have.
pub open spec fn next_probe_steps(done: int) -> Seq<StepView> {
    match probe_at(done) {
        Some(probe) => probe_steps(probe),
        None => Seq::empty(),
    }
}

/// Where the resolution stands, given the readings taken before and the
/// outcome of the pipeline of the probe that was due.
pub open spec fn resolution(readings: Seq<Seq<char>>, outcomes: Seq<StepOutcomeView>)
    -> ResolutionView {
    match probe_at(readings.len() as int) {
        None => ResolutionView::Resolved(facts_of(readings)),
        Some(probe) => match probe_reading(outcomes) {
            Err(cause) => ResolutionView::Failed(FactErrorView { probe, cause }),
            Ok(text) => if probe_at(readings.len() as int + 1) is Some {
                ResolutionView::Pending(readings.push(text))
            } else {
                ResolutionView::Resolved(facts_of(readings.push(text)))
            },
        },
    }
}

fn assemble(readings: &Vec<String>) -> (facts: SystemFacts)
    requires
        readings.len() >= FACT_COUNT,
    ensures
        facts@ == facts_of(texts(readings@)),
{
    SystemFacts::new(
        readings[0].clone(),
        readings[2].clone(),
        readings[3].clone(),
        readings[1].clone(),
    )
}

impl FactResolver {
    /// A resolver that has asked nothing yet.
    pub fn new() -> (r: FactResolver)
        ensures
            r@ == Seq::<Seq<char>>::empty(),
    {
        let readings: Vec<String> = Vec::new();
        assert(texts(readings@) =~= Seq::<Seq<char>>::empty());
        FactResolver { readings }
    }

    /// The probe to run next, until all four have answered.
    pub fn next_probe(&self) -> (r: Option<FactProbe>)
        ensures
            r == probe_at(self@.len() as int),
    {
        let done = self.readings.len();
        if done == 0 {
            Some(FactProbe::Architecture)
        } else if done == 1 {
            Some(FactProbe::DistroCodename)
        } else if done == 2 {
            Some(FactProbe::KernelName)
        } else if done == 3 {
            Some(FactProbe::HardwareName)
        } else {
            None
        }
    }

    /// The pipeline of the probe to run next.
    pub fn next_pipeline(&self) -> (steps: Vec<Step>)
        ensures
            pipeline_view(steps@) == next_probe_steps(self@.len() as int),
    {
        match self.next_probe() {
            Some(probe) => probe_pipeline(probe),
            None => {
                let steps: Vec<Step> = Vec::new();
                assert(pipeline_view(steps@) =~= Seq::<StepView>::empty());
                steps
            },
        }
    }

    /// Takes the outcome of the pipeline that [`next_pipeline`] gave. The
    /// probe's reading is added to those taken, and the facts are made once
    /// there are four. A probe that gave no reading ends the resolution, with
    /// its name and the cause.
    ///
    /// [`next_pipeline`]: FactResolver::next_pipeline
    pub fn record(self, outcome: &PipelineOutcome) -> (r: Resolution)
        ensures
            r@ == resolution(self@, outcome@),
    {
        match self.next_probe() {
            None => Resolution::Resolved(assemble(&self.readings)),
            Some(probe) => match read_probe(outcome) {
                Err(cause) => Resolution::Failed(FactError { probe, cause }),
                Ok(text) => {
                    let mut readings = self.readings;
                    let ghost before = readings@;
                    readings.push(text);
                    assert(texts(readings@) =~= texts(before).push(text@));
                    if readings.len() >= FACT_COUNT {
                        Resolution::Resolved(assemble(&readings))
                    } else {
                        Resolution::Pending(FactResolver { readings })
                    }
                },
            },
        }
    }
}

} // verus!
