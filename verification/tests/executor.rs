use setup_coding::executor::{
    Action, Executor, ExitInfo, OutputSink, PipelineOutcome, ProcessEvent, StepResult,
};
use setup_coding::model::{InputSource, Step};

fn step(program: &str, input_source: InputSource, captures: bool) -> Step {
    Step::new(program.to_string(), Vec::new(), input_source, captures)
}

fn plain(program: &str) -> Step {
    step(program, InputSource::InheritStdin, false)
}

fn producer(program: &str) -> Step {
    step(program, InputSource::InheritStdin, true)
}

fn consumer(program: &str) -> Step {
    step(program, InputSource::PipeFromPreviousStep, false)
}

fn relay(program: &str) -> Step {
    step(program, InputSource::PipeFromPreviousStep, true)
}

fn exited(code: i32) -> ProcessEvent {
    ProcessEvent::Exited { code: Some(code), output: Vec::new() }
}

fn printed(text: &[u8]) -> ProcessEvent {
    ProcessEvent::Exited { code: Some(0), output: text.to_vec() }
}

fn spawn_failed() -> ProcessEvent {
    ProcessEvent::SpawnFailed { detail: "No such file or directory".to_string() }
}

fn wait_failed() -> ProcessEvent {
    ProcessEvent::WaitFailed { detail: "No child processes".to_string() }
}

/// Runs a pipeline against a host that answers each action by the program
/// of the step it is about. Gives the outcome and a log of the actions.
fn run(
    steps: Vec<Step>,
    host: &dyn Fn(&str, bool) -> ProcessEvent,
) -> (PipelineOutcome, Vec<String>) {
    let programs: Vec<String> = steps.iter().map(|s| s.program().clone()).collect();
    let mut executor = Executor::new(steps);
    let mut log = Vec::new();
    loop {
        let event = match executor.next_action() {
            Action::Spawn { index, step, .. } => {
                assert_eq!(step.program(), &programs[index]);
                log.push(format!("spawn {}", programs[index]));
                host(&programs[index], true)
            }
            Action::Wait { index, .. } => {
                log.push(format!("wait {}", programs[index]));
                host(&programs[index], false)
            }
            Action::Finished => break,
        };
        assert!(!executor.is_finished());
        let (next, accepted) = executor.handle(event);
        assert!(accepted);
        executor = next;
    }
    assert!(executor.is_finished());
    (executor.into_outcome(), log)
}

fn all_well(_program: &str, spawning: bool) -> ProcessEvent {
    if spawning {
        ProcessEvent::Spawned
    } else {
        exited(0)
    }
}

fn completed(code: i32) -> StepResult {
    StepResult::Completed { exit: ExitInfo { code: Some(code) }, captured_text: None }
}

#[test]
fn an_empty_pipeline_is_finished_at_once() {
    let executor = Executor::new(Vec::new());
    assert!(executor.is_finished());
    assert_eq!(executor.next_action(), Action::Finished);
    let outcome = executor.into_outcome();
    assert!(outcome.outcomes.is_empty());
    assert!(outcome.succeeded());
}

#[test]
fn steps_run_in_order_one_at_a_time() {
    let (outcome, log) = run(vec![plain("a"), plain("b"), plain("c")], &all_well);
    assert_eq!(log, vec!["spawn a", "wait a", "spawn b", "wait b", "spawn c", "wait c"]);
    assert_eq!(outcome.outcomes.len(), 3);
    assert!(outcome.succeeded());
}

#[test]
fn outcomes_come_in_the_order_of_the_steps() {
    let steps = vec![producer("a"), consumer("b"), plain("c"), producer("d"), consumer("e")];
    let (outcome, _) = run(steps.clone(), &all_well);
    let recorded: Vec<Step> = outcome.outcomes.iter().map(|o| o.step.clone()).collect();
    assert_eq!(recorded, steps);
}

#[test]
fn a_piped_pair_is_spawned_whole_before_it_is_waited_for() {
    let (outcome, log) = run(vec![producer("a"), consumer("b"), plain("c")], &all_well);
    assert_eq!(log, vec!["spawn a", "spawn b", "wait a", "wait b", "spawn c", "wait c"]);
    assert!(outcome.succeeded());
}

#[test]
fn a_chain_of_three_is_spawned_whole() {
    let (_, log) = run(vec![producer("a"), relay("b"), consumer("c")], &all_well);
    assert_eq!(log, vec!["spawn a", "spawn b", "spawn c", "wait a", "wait b", "wait c"]);
}

#[test]
fn spawn_action_says_where_the_output_goes() {
    let executor = Executor::new(vec![producer("a"), consumer("b"), producer("c")]);
    assert_eq!(
        executor.next_action(),
        Action::Spawn { index: 0, step: producer("a"), stdout: OutputSink::PipeToNextStep }
    );
    let (executor, _) = executor.handle(ProcessEvent::Spawned);
    assert_eq!(
        executor.next_action(),
        Action::Spawn { index: 1, step: consumer("b"), stdout: OutputSink::Inherit }
    );
    let (executor, _) = executor.handle(ProcessEvent::Spawned);
    assert_eq!(executor.next_action(), Action::Wait { index: 0, collect_output: false });
    let (executor, _) = executor.handle(exited(0));
    assert_eq!(executor.next_action(), Action::Wait { index: 1, collect_output: false });
    let (executor, _) = executor.handle(exited(0));
    assert_eq!(
        executor.next_action(),
        Action::Spawn { index: 2, step: producer("c"), stdout: OutputSink::Capture }
    );
    let (executor, _) = executor.handle(ProcessEvent::Spawned);
    assert_eq!(executor.next_action(), Action::Wait { index: 2, collect_output: true });
}

#[test]
fn pipe_fed_step_is_skipped_when_its_producer_fails_to_spawn() {
    let host = |program: &str, spawning: bool| {
        if program == "a" {
            spawn_failed()
        } else {
            all_well(program, spawning)
        }
    };
    let (outcome, log) = run(vec![producer("a"), consumer("b"), plain("c")], &host);
    assert_eq!(log, vec!["spawn a", "spawn c", "wait c"]);
    assert_eq!(
        outcome.outcomes[0].result,
        StepResult::SpawnFailed { detail: "No such file or directory".to_string() }
    );
    assert_eq!(outcome.outcomes[1].result, StepResult::Skipped);
    assert!(outcome.outcomes[1].is_skipped());
    assert_eq!(outcome.outcomes[2].result, completed(0));
    assert!(!outcome.succeeded());
}

#[test]
fn for_each_position_a_failed_producer_skips_its_consumer_alone() {
    let steps = vec![producer("a"), consumer("b"), producer("c"), consumer("d"), plain("e")];
    for failing in ["a", "c"] {
        let host = move |program: &str, spawning: bool| {
            if program == failing {
                spawn_failed()
            } else {
                all_well(program, spawning)
            }
        };
        let (outcome, _) = run(steps.clone(), &host);
        assert_eq!(outcome.outcomes.len(), steps.len());
        for k in 0..steps.len() {
            assert_eq!(outcome.outcomes[k].step, steps[k]);
            let upstream_missing =
                steps[k].is_pipe_fed() && !outcome.outcomes[k - 1].spawn_succeeded();
            assert_eq!(outcome.outcomes[k].is_skipped(), upstream_missing);
        }
    }
}

#[test]
fn a_skipped_step_skips_the_step_that_reads_from_it() {
    let host = |program: &str, spawning: bool| {
        if program == "a" {
            spawn_failed()
        } else {
            all_well(program, spawning)
        }
    };
    let (outcome, log) = run(vec![producer("a"), relay("b"), consumer("c"), plain("d")], &host);
    assert_eq!(log, vec!["spawn a", "spawn d", "wait d"]);
    assert_eq!(outcome.outcomes[1].result, StepResult::Skipped);
    assert_eq!(outcome.outcomes[2].result, StepResult::Skipped);
    assert_eq!(outcome.outcomes[3].result, completed(0));
}

#[test]
fn a_failed_consumer_still_has_its_producer_waited_for() {
    let host = |program: &str, spawning: bool| {
        if program == "b" {
            spawn_failed()
        } else {
            all_well(program, spawning)
        }
    };
    let (outcome, log) = run(vec![producer("a"), consumer("b"), plain("c")], &host);
    assert_eq!(log, vec!["spawn a", "spawn b", "wait a", "spawn c", "wait c"]);
    assert_eq!(outcome.outcomes[0].result, completed(0));
    assert!(matches!(outcome.outcomes[1].result, StepResult::SpawnFailed { .. }));
}

#[test]
fn a_step_that_reads_from_a_pipe_nobody_fills_is_skipped() {
    let (outcome, log) = run(vec![consumer("a"), plain("b"), consumer("c")], &all_well);
    assert_eq!(log, vec!["spawn b", "wait b"]);
    assert_eq!(outcome.outcomes[0].result, StepResult::Skipped);
    assert_eq!(outcome.outcomes[1].result, completed(0));
    assert_eq!(outcome.outcomes[2].result, StepResult::Skipped);
}

#[test]
fn a_pipeline_of_skipped_steps_alone_is_finished_at_once() {
    let executor = Executor::new(vec![consumer("a"), consumer("b")]);
    assert!(executor.is_finished());
    let outcome = executor.into_outcome();
    assert_eq!(outcome.outcomes.len(), 2);
    assert!(outcome.outcomes.iter().all(|o| o.is_skipped()));
    assert!(!outcome.succeeded());
}

#[test]
fn a_failed_step_does_not_stop_the_steps_after_it() {
    let host = |program: &str, spawning: bool| match (program, spawning) {
        ("a", true) => spawn_failed(),
        ("b", false) => wait_failed(),
        _ => all_well(program, spawning),
    };
    let (outcome, log) = run(vec![plain("a"), plain("b"), plain("c")], &host);
    assert_eq!(log, vec!["spawn a", "spawn b", "wait b", "spawn c", "wait c"]);
    assert!(matches!(outcome.outcomes[0].result, StepResult::SpawnFailed { .. }));
    assert_eq!(
        outcome.outcomes[1].result,
        StepResult::WaitFailed { detail: "No child processes".to_string() }
    );
    assert_eq!(outcome.outcomes[2].result, completed(0));
    assert!(!outcome.succeeded());
}

#[test]
fn an_exit_code_is_recorded_and_is_no_failure() {
    let host = |program: &str, spawning: bool| match (program, spawning) {
        ("a", false) => exited(3),
        ("b", false) => ProcessEvent::Exited { code: None, output: Vec::new() },
        _ => all_well(program, spawning),
    };
    let (outcome, _) = run(vec![plain("a"), plain("b")], &host);
    assert_eq!(outcome.outcomes[0].exit_info(), Some(ExitInfo { code: Some(3) }));
    assert_eq!(outcome.outcomes[1].exit_info(), Some(ExitInfo { code: None }));
    assert!(outcome.outcomes[0].succeeded());
    assert!(outcome.succeeded());
}

#[test]
fn collected_output_is_decoded_and_kept_as_it_is() {
    let host = |program: &str, spawning: bool| {
        if spawning {
            ProcessEvent::Spawned
        } else {
            printed(format!("{} says é\n", program).as_bytes())
        }
    };
    let (outcome, _) = run(vec![producer("a"), plain("b")], &host);
    assert_eq!(outcome.outcomes[0].captured_text(), Some(&"a says é\n".to_string()));
    // the output of a step that nothing was collected from is dropped
    assert_eq!(outcome.outcomes[1].captured_text(), None);
    assert_eq!(outcome.outcomes[1].result, completed(0));
}

#[test]
fn output_that_went_down_the_pipe_is_not_kept() {
    let host = |_: &str, spawning: bool| {
        if spawning {
            ProcessEvent::Spawned
        } else {
            printed(b"text")
        }
    };
    let (outcome, _) = run(vec![producer("a"), consumer("b")], &host);
    assert_eq!(outcome.outcomes[0].result, completed(0));
}

#[test]
fn collected_output_that_is_no_text_fails_the_step() {
    let host = |_: &str, spawning: bool| {
        if spawning {
            ProcessEvent::Spawned
        } else {
            printed(&[0xc3, 0x28])
        }
    };
    let (outcome, _) = run(vec![producer("a")], &host);
    assert_eq!(
        outcome.outcomes[0].result,
        StepResult::DecodeFailed { exit: ExitInfo { code: Some(0) } }
    );
    assert!(outcome.outcomes[0].spawn_succeeded());
    assert!(outcome.outcomes[0].waited());
    assert!(!outcome.outcomes[0].succeeded());
    assert!(!outcome.succeeded());
}

#[test]
fn an_event_that_answers_nothing_is_dropped() {
    let executor = Executor::new(vec![plain("a")]);
    let (executor, accepted) = executor.handle(exited(0));
    assert!(!accepted);
    let (executor, accepted) = executor.handle(wait_failed());
    assert!(!accepted);
    assert!(matches!(executor.next_action(), Action::Spawn { index: 0, .. }));
    let (executor, accepted) = executor.handle(ProcessEvent::Spawned);
    assert!(accepted);
    let (executor, accepted) = executor.handle(ProcessEvent::Spawned);
    assert!(!accepted);
    let (executor, accepted) = executor.handle(spawn_failed());
    assert!(!accepted);
    assert_eq!(executor.next_action(), Action::Wait { index: 0, collect_output: false });
    let (executor, accepted) = executor.handle(exited(0));
    assert!(accepted);
    assert!(executor.is_finished());
    let (executor, accepted) = executor.handle(exited(0));
    assert!(!accepted);
    assert_eq!(executor.into_outcome().outcomes.len(), 1);
}

#[test]
fn a_step_under_way_is_running() {
    let executor = Executor::new(vec![plain("a"), plain("b")]);
    let (executor, _) = executor.handle(ProcessEvent::Spawned);
    let outcome = executor.into_outcome();
    assert_eq!(outcome.outcomes.len(), 1);
    assert_eq!(outcome.outcomes[0].result, StepResult::Running);
    assert!(outcome.outcomes[0].spawn_succeeded());
    assert!(!outcome.outcomes[0].waited());
    assert_eq!(outcome.outcomes[0].exit_info(), None);
}

#[test]
fn no_process_is_left_when_the_pipeline_is_finished() {
    let steps = vec![producer("a"), relay("b"), consumer("c"), plain("d")];
    for failing in ["a", "b", "c", "d", "none"] {
        let host = move |program: &str, spawning: bool| {
            if program == failing && spawning {
                spawn_failed()
            } else if program == "d" && !spawning {
                wait_failed()
            } else {
                all_well(program, spawning)
            }
        };
        let (outcome, log) = run(steps.clone(), &host);
        for (k, o) in outcome.outcomes.iter().enumerate() {
            assert_ne!(o.result, StepResult::Running);
            let spawned = log.contains(&format!("spawn {}", steps[k].program()))
                && steps[k].program() != failing;
            let waited = log.contains(&format!("wait {}", steps[k].program()));
            assert_eq!(spawned, waited);
        }
    }
}
