use setup_coding::executor::{ExitInfo, PipelineOutcome, StepOutcome, StepResult};
use setup_coding::facts::{
    probe_pipeline, read_probe, FactError, FactProbe, FactResolver, ProbeFailure, Resolution,
};
use setup_coding::model::{InputSource, Step, SystemFacts};

fn probe_step(program: &str, argument: &str) -> Step {
    Step::new(program.to_string(), vec![argument.to_string()], InputSource::Nothing, true)
}

fn outcome_of(result: StepResult) -> PipelineOutcome {
    PipelineOutcome {
        outcomes: vec![StepOutcome { step: probe_step("uname", "-s"), result }],
    }
}

fn printed(text: &str) -> PipelineOutcome {
    outcome_of(StepResult::Completed {
        exit: ExitInfo { code: Some(0) },
        captured_text: Some(text.to_string()),
    })
}

fn pending(resolution: Resolution) -> FactResolver {
    match resolution {
        Resolution::Pending(resolver) => resolver,
        other => panic!("another probe should be due, not {:?}", other),
    }
}

#[test]
fn the_four_probes() {
    assert_eq!(
        probe_pipeline(FactProbe::Architecture),
        vec![probe_step("dpkg", "--print-architecture")]
    );
    assert_eq!(probe_pipeline(FactProbe::DistroCodename), vec![probe_step("lsb_release", "-cs")]);
    assert_eq!(probe_pipeline(FactProbe::KernelName), vec![probe_step("uname", "-s")]);
    assert_eq!(probe_pipeline(FactProbe::HardwareName), vec![probe_step("uname", "-m")]);
}

#[test]
fn a_reading_is_the_trimmed_output() {
    assert_eq!(read_probe(&printed("  jammy\n")), Ok("jammy".to_string()));
}

#[test]
fn a_probe_that_exits_with_a_failure_code_still_gives_its_reading() {
    let outcome = outcome_of(StepResult::Completed {
        exit: ExitInfo { code: Some(1) },
        captured_text: Some("x86_64\n".to_string()),
    });
    assert_eq!(read_probe(&outcome), Ok("x86_64".to_string()));
}

#[test]
fn each_way_in_which_a_probe_gives_no_reading() {
    let detail = "gone".to_string();
    assert_eq!(
        read_probe(&outcome_of(StepResult::SpawnFailed { detail: detail.clone() })),
        Err(ProbeFailure::Spawn { detail: detail.clone() })
    );
    assert_eq!(
        read_probe(&outcome_of(StepResult::WaitFailed { detail: detail.clone() })),
        Err(ProbeFailure::Wait { detail })
    );
    assert_eq!(
        read_probe(&outcome_of(StepResult::DecodeFailed { exit: ExitInfo { code: Some(0) } })),
        Err(ProbeFailure::Decode)
    );
    assert_eq!(
        read_probe(&outcome_of(StepResult::Completed {
            exit: ExitInfo { code: Some(0) },
            captured_text: None
        })),
        Err(ProbeFailure::NoOutput)
    );
    assert_eq!(read_probe(&outcome_of(StepResult::Skipped)), Err(ProbeFailure::NoOutput));
    assert_eq!(read_probe(&outcome_of(StepResult::Running)), Err(ProbeFailure::NoOutput));
    assert_eq!(
        read_probe(&PipelineOutcome { outcomes: Vec::new() }),
        Err(ProbeFailure::NoOutput)
    );
}

#[test]
fn four_readings_make_the_facts() {
    let resolver = FactResolver::new();
    assert_eq!(resolver.next_probe(), Some(FactProbe::Architecture));
    assert_eq!(resolver.next_pipeline(), probe_pipeline(FactProbe::Architecture));
    let resolver = pending(resolver.record(&printed("amd64\n")));
    assert_eq!(resolver.next_probe(), Some(FactProbe::DistroCodename));
    let resolver = pending(resolver.record(&printed("jammy\n")));
    assert_eq!(resolver.next_probe(), Some(FactProbe::KernelName));
    let resolver = pending(resolver.record(&printed("Linux\n")));
    assert_eq!(resolver.next_probe(), Some(FactProbe::HardwareName));
    assert_eq!(resolver.next_pipeline(), probe_pipeline(FactProbe::HardwareName));
    assert_eq!(
        resolver.record(&printed("x86_64\n")),
        Resolution::Resolved(SystemFacts::new(
            "amd64".to_string(),
            "Linux".to_string(),
            "x86_64".to_string(),
            "jammy".to_string(),
        ))
    );
}

#[test]
fn the_failure_names_the_probe_that_failed() {
    let resolver = pending(FactResolver::new().record(&printed("amd64\n")));
    let resolver = pending(resolver.record(&printed("jammy\n")));
    let failed = resolver.record(&outcome_of(StepResult::DecodeFailed {
        exit: ExitInfo { code: Some(0) },
    }));
    assert_eq!(
        failed,
        Resolution::Failed(FactError { probe: FactProbe::KernelName, cause: ProbeFailure::Decode })
    );
}

#[test]
fn the_first_probe_can_fail() {
    let failed = FactResolver::new()
        .record(&outcome_of(StepResult::SpawnFailed { detail: "no dpkg".to_string() }));
    assert_eq!(
        failed,
        Resolution::Failed(FactError {
            probe: FactProbe::Architecture,
            cause: ProbeFailure::Spawn { detail: "no dpkg".to_string() },
        })
    );
}

#[test]
fn an_empty_reading_is_a_reading() {
    let resolver = pending(FactResolver::new().record(&printed("\n")));
    assert_eq!(resolver.next_probe(), Some(FactProbe::DistroCodename));
}
