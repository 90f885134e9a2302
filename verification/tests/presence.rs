use setup_coding::executor::{ExitInfo, PipelineOutcome, StepOutcome, StepResult};
use setup_coding::model::{InputSource, Step, Tool};
use setup_coding::presence::{presence_pipeline, is_present};

fn outcome_of(result: StepResult) -> PipelineOutcome {
    let step = presence_pipeline(&Tool::Git).remove(0);
    PipelineOutcome { outcomes: vec![StepOutcome { step, result }] }
}

fn exited(code: Option<i32>) -> StepResult {
    StepResult::Completed { exit: ExitInfo { code }, captured_text: None }
}

#[test]
fn a_tool_is_looked_for_by_its_version_flag() {
    assert_eq!(
        presence_pipeline(&Tool::DockerCompose { version: "1.29.2".to_string() }),
        vec![Step::new(
            "docker-compose".to_string(),
            vec!["--version".to_string()],
            InputSource::Nothing,
            false,
        )]
    );
}

#[test]
fn a_process_that_exited_shows_the_tool() {
    assert!(is_present(&outcome_of(exited(Some(0)))));
}

#[test]
fn a_failure_code_shows_the_tool_too() {
    assert!(is_present(&outcome_of(exited(Some(127)))));
    assert!(is_present(&outcome_of(exited(None))));
}

#[test]
fn a_process_that_could_not_be_spawned_or_waited_for_shows_nothing() {
    assert!(!is_present(&outcome_of(StepResult::SpawnFailed {
        detail: "not found".to_string()
    })));
    assert!(!is_present(&outcome_of(StepResult::WaitFailed {
        detail: "lost".to_string()
    })));
    assert!(!is_present(&outcome_of(StepResult::Running)));
    assert!(!is_present(&outcome_of(StepResult::Skipped)));
    assert!(!is_present(&PipelineOutcome { outcomes: Vec::new() }));
}
