//! The presence checker: is a tool already on the machine?
//!
//! A tool is looked for by running it with `--version`. It counts as present
//! when that process could be created and waited for, whatever exit code it
//! reported: some tools answer `--version` with a failure code though they
//! are installed. When the process cannot be created or waited for, the tool
//! counts as absent, and is installed.

use crate::executor::{PipelineOutcome, StepOutcomeView};
use crate::model::{pipeline_view, texts, InputSource, Step, StepView, Tool, ToolView, tool_command};
use vstd::prelude::*;

verus! {

/// The step that looks for a tool: the tool's command with `--version`, no
/// standard input, its output left alone.
pub open spec fn presence_step(tool: ToolView) -> StepView {
    StepView {
        program: tool_command(tool),
        arguments: Seq::<Seq<char>>::empty().push("--version"@),
        input_source: InputSource::Nothing,
        captures_output: false,
    }
}

/// The pipeline that looks for a tool: its one step.
pub open spec fn presence_steps(tool: ToolView) -> Seq<StepView> {
    Seq::<StepView>::empty().push(presence_step(tool))
}

/// Whether the outcome of a presence pipeline shows the tool: its step's
/// process was created and waited for until it exited.
pub open spec fn shows_presence(outcomes: Seq<StepOutcomeView>) -> bool {
    outcomes.len() > 0 && outcomes[0].result.waited()
}

/// The pipeline to run in order to find out whether `tool` is present.
pub fn presence_pipeline(tool: &Tool) -> (steps: Vec<Step>)
    ensures
        pipeline_view(steps@) == presence_steps(tool@),
{
    let mut args: Vec<String> = Vec::new();
    args.push("--version".to_owned());
    assert(texts(args@) =~= Seq::<Seq<char>>::empty().push("--version"@));
    let step = Step::new(tool.name().to_owned(), args, InputSource::Nothing, false);
    let mut steps: Vec<Step> = Vec::new();
    steps.push(step);
    assert(pipeline_view(steps@) =~= presence_steps(tool@));
    steps
}

/// Reads the outcome of a presence pipeline.
pub fn is_present(outcome: &PipelineOutcome) -> (found: bool)
    ensures
        found == shows_presence(outcome@),
{
    outcome.outcomes.len() > 0 && outcome.outcomes[0].waited()
}

} // verus!
