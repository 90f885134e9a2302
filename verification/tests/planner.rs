use setup_coding::config::{requests_from_config, Keys, Ssh, TargetEnvironment, ToolFlag, Tools, Updates};
use setup_coding::executor::{Action, ExitInfo, ProcessEvent, StepResult};
use setup_coding::facts::{FactError, FactProbe, ProbeFailure};
use setup_coding::model::{ProvisionRequest, SystemFacts, Tool, UpdateKind};
use setup_coding::planner::{ItemOutcome, PlanAction, PlanEvent, Planner, ReportEntry, RunReport};
use setup_coding::recipe::build;

/// A machine to run against: which commands cannot be spawned or waited
/// for, which directories exist, and what the probes print.
#[derive(Clone, Default)]
struct Machine {
    cannot_spawn: Vec<&'static str>,
    cannot_wait: Vec<&'static str>,
    exit_codes: Vec<(&'static str, i32)>,
    directories: Vec<&'static str>,
    garbled: Vec<&'static str>,
}

fn output_of(command: &str) -> &'static [u8] {
    match command {
        "dpkg --print-architecture" => b"amd64\n",
        "lsb_release -cs" => b"jammy\n",
        "uname -s" => b"Linux\n",
        "uname -m" => b"x86_64\n",
        _ => b"",
    }
}

fn facts() -> SystemFacts {
    SystemFacts::new(
        "amd64".to_string(),
        "Linux".to_string(),
        "x86_64".to_string(),
        "jammy".to_string(),
    )
}

/// Runs the requests on the machine. Gives the report and a log of what the
/// planner asked for.
fn run(requests: Vec<ProvisionRequest>, machine: &Machine) -> (RunReport, Vec<String>) {
    let mut planner = Planner::new(requests);
    let mut log: Vec<String> = Vec::new();
    let mut commands: Vec<String> = Vec::new();
    loop {
        let event = match planner.next_action() {
            PlanAction::Process(Action::Spawn { index, step, .. }) => {
                let mut command = step.program().clone();
                for argument in step.arguments() {
                    command.push(' ');
                    command.push_str(argument);
                }
                commands.truncate(index);
                commands.push(command.clone());
                log.push(format!("spawn {}", command));
                if machine.cannot_spawn.contains(&command.as_str()) {
                    PlanEvent::Process(ProcessEvent::SpawnFailed { detail: "not found".to_string() })
                } else {
                    PlanEvent::Process(ProcessEvent::Spawned)
                }
            }
            PlanAction::Process(Action::Wait { index, collect_output }) => {
                let command = commands[index].as_str();
                log.push(format!("wait {}", command));
                if machine.cannot_wait.contains(&command) {
                    PlanEvent::Process(ProcessEvent::WaitFailed { detail: "lost".to_string() })
                } else {
                    let code = machine
                        .exit_codes
                        .iter()
                        .find(|(c, _)| *c == command)
                        .map(|(_, code)| *code)
                        .unwrap_or(0);
                    let output = if !collect_output {
                        Vec::new()
                    } else if machine.garbled.contains(&command) {
                        vec![0xff, 0xfe]
                    } else {
                        output_of(command).to_vec()
                    };
                    PlanEvent::Process(ProcessEvent::Exited { code: Some(code), output })
                }
            }
            PlanAction::Process(Action::Finished) => unreachable!(),
            PlanAction::CheckDirectory { path } => {
                log.push(format!("directory {}", path));
                PlanEvent::Directory { exists: machine.directories.contains(&path.as_str()) }
            }
            PlanAction::Finished => break,
        };
        assert!(!planner.is_finished());
        let (next, accepted) = planner.handle(event);
        assert!(accepted);
        planner = next;
    }
    assert!(planner.is_finished());
    (planner.into_report(), log)
}

fn tool(tool: Tool) -> ProvisionRequest {
    ProvisionRequest::Tool(tool)
}

fn key() -> ProvisionRequest {
    ProvisionRequest::SshKey {
        algorithm: "ed25519".to_string(),
        email: "a@b.com".to_string(),
        title: Some("t".to_string()),
    }
}

const PROBES: [&str; 8] = [
    "spawn dpkg --print-architecture",
    "wait dpkg --print-architecture",
    "spawn lsb_release -cs",
    "wait lsb_release -cs",
    "spawn uname -s",
    "wait uname -s",
    "spawn uname -m",
    "wait uname -m",
];

/// The steps that an entry ran, with whether each succeeded.
fn ran(entry: &ReportEntry) -> Vec<(String, bool)> {
    match &entry.outcome {
        ItemOutcome::AlreadyPresent => panic!("nothing was run for {:?}", entry.request),
        ItemOutcome::Ran(outcome) => outcome
            .outcomes
            .iter()
            .map(|o| (o.step.program().clone(), o.succeeded()))
            .collect(),
    }
}

#[test]
fn a_run_without_requests_is_over_at_once() {
    let planner = Planner::new(Vec::new());
    assert!(planner.is_finished());
    assert_eq!(planner.next_action(), PlanAction::Finished);
    let report = planner.into_report();
    assert!(report.entries.is_empty());
    assert_eq!(report.failure, None);
}

#[test]
fn a_tool_that_is_present_is_not_installed() {
    let (report, log) = run(vec![tool(Tool::Git)], &Machine::default());
    assert_eq!(log, vec!["spawn git --version", "wait git --version"]);
    assert_eq!(
        report.entries,
        vec![ReportEntry { request: tool(Tool::Git), outcome: ItemOutcome::AlreadyPresent }]
    );
    assert_eq!(report.failure, None);
}

#[test]
fn no_step_is_issued_for_any_tool_that_is_present() {
    let tools = vec![
        tool(Tool::BraveBrowser),
        tool(Tool::Code),
        tool(Tool::Docker),
        tool(Tool::DockerCompose { version: "1.29.2".to_string() }),
        tool(Tool::Gh),
        tool(Tool::Git),
        tool(Tool::GoogleChrome),
        tool(Tool::Node { version: "17".to_string() }),
        tool(Tool::Rustc),
        tool(Tool::Solana { version: "1.9.7".to_string() }),
    ];
    let (report, log) = run(tools.clone(), &Machine::default());
    assert_eq!(log.len(), 2 * tools.len());
    assert!(log.iter().all(|line| line.ends_with(" --version")));
    assert_eq!(report.entries.len(), tools.len());
    for (entry, request) in report.entries.iter().zip(tools.iter()) {
        assert_eq!(&entry.request, request);
        assert_eq!(entry.outcome, ItemOutcome::AlreadyPresent);
    }
}

#[test]
fn a_tool_counts_as_present_whatever_the_exit_code() {
    let machine = Machine { exit_codes: vec![("git --version", 2)], ..Machine::default() };
    let (report, log) = run(vec![tool(Tool::Git)], &machine);
    assert_eq!(log.len(), 2);
    assert_eq!(report.entries[0].outcome, ItemOutcome::AlreadyPresent);
}

#[test]
fn a_tool_that_cannot_be_spawned_is_installed() {
    let machine = Machine { cannot_spawn: vec!["git --version"], ..Machine::default() };
    let (report, log) = run(vec![tool(Tool::Git)], &machine);
    let mut expected = vec!["spawn git --version"];
    expected.extend(PROBES);
    expected.extend(["spawn sudo apt install git-all", "wait sudo apt install git-all"]);
    assert_eq!(log, expected);
    assert_eq!(ran(&report.entries[0]), vec![("sudo".to_string(), true)]);
    assert_eq!(report.failure, None);
}

#[test]
fn a_tool_that_cannot_be_waited_for_is_installed() {
    let machine = Machine { cannot_wait: vec!["git --version"], ..Machine::default() };
    let (report, log) = run(vec![tool(Tool::Git)], &machine);
    assert_eq!(log.len(), 2 + PROBES.len() + 2);
    assert_eq!(ran(&report.entries[0]), vec![("sudo".to_string(), true)]);
}

#[test]
fn an_update_is_run_without_being_looked_for() {
    let requests = vec![
        ProvisionRequest::SystemUpdate(UpdateKind::System),
        ProvisionRequest::SystemUpdate(UpdateKind::Cleanup),
    ];
    let (report, log) = run(requests, &Machine::default());
    assert_eq!(
        log,
        vec![
            "spawn sudo apt-get update",
            "wait sudo apt-get update",
            "spawn sudo apt autoremove",
            "wait sudo apt autoremove",
        ]
    );
    assert_eq!(report.entries.len(), 2);
    assert!(report.entries.iter().all(|e| matches!(e.outcome, ItemOutcome::Ran(_))));
}

#[test]
fn the_facts_are_resolved_once_and_go_into_the_recipes() {
    let machine = Machine {
        cannot_spawn: vec!["docker --version", "gh --version"],
        ..Machine::default()
    };
    let (report, log) = run(vec![tool(Tool::Docker), tool(Tool::Gh)], &machine);
    assert_eq!(log.iter().filter(|line| *line == "spawn uname -s").count(), 1);
    assert_eq!(log.iter().filter(|line| line.starts_with("spawn dpkg")).count(), 1);
    assert!(log.contains(
        &"spawn echo deb [arch=amd64 signed-by=/usr/share/keyrings/docker-archive-keyring.gpg] https://download.docker.com/linux/ubuntu jammy stable"
            .to_string()
    ));
    for entry in &report.entries {
        match &entry.outcome {
            ItemOutcome::Ran(outcome) => {
                let steps: Vec<_> = outcome.outcomes.iter().map(|o| o.step.clone()).collect();
                assert_eq!(steps, build(&facts(), &entry.request));
                assert!(outcome.succeeded());
            }
            ItemOutcome::AlreadyPresent => panic!("the tool was absent"),
        }
    }
}

#[test]
fn the_facts_are_not_asked_for_while_no_tool_is_absent() {
    let machine = Machine { cannot_spawn: vec!["gh --version"], ..Machine::default() };
    let requests = vec![
        ProvisionRequest::SystemUpdate(UpdateKind::System),
        tool(Tool::Git),
        tool(Tool::Gh),
    ];
    let mut planner = Planner::new(requests);
    let mut seen_probe = false;
    while !planner.is_finished() {
        let event = match planner.next_action() {
            PlanAction::Process(Action::Spawn { step, .. }) => {
                if step.program() == "dpkg" {
                    seen_probe = true;
                }
                if !seen_probe {
                    assert_eq!(planner.facts(), None);
                }
                let missing = step.program() == "gh" && step.arguments()[0] == "--version";
                if missing {
                    ProcessEvent::SpawnFailed { detail: String::new() }
                } else {
                    ProcessEvent::Spawned
                }
            }
            PlanAction::Process(Action::Wait { collect_output, .. }) => ProcessEvent::Exited {
                code: Some(0),
                output: if collect_output { b"fact\n".to_vec() } else { Vec::new() },
            },
            _ => unreachable!(),
        };
        planner = planner.handle(PlanEvent::Process(event)).0;
    }
    assert!(seen_probe);
    assert_eq!(
        planner.facts(),
        Some(&SystemFacts::new(
            "fact".to_string(),
            "fact".to_string(),
            "fact".to_string(),
            "fact".to_string()
        ))
    );
}

#[test]
fn a_probe_that_cannot_be_spawned_ends_the_run() {
    let probes = [
        ("dpkg --print-architecture", FactProbe::Architecture),
        ("lsb_release -cs", FactProbe::DistroCodename),
        ("uname -s", FactProbe::KernelName),
        ("uname -m", FactProbe::HardwareName),
    ];
    for (command, probe) in probes {
        let machine = Machine {
            cannot_spawn: vec!["git --version", "gh --version", command],
            ..Machine::default()
        };
        let requests = vec![
            ProvisionRequest::SystemUpdate(UpdateKind::System),
            tool(Tool::Code),
            tool(Tool::Git),
            tool(Tool::Gh),
            key(),
        ];
        let (report, log) = run(requests, &machine);
        assert_eq!(
            report.failure,
            Some(FactError { probe, cause: ProbeFailure::Spawn { detail: "not found".to_string() } })
        );
        // the update was run and the first tool was found; nothing was installed
        assert_eq!(report.entries.len(), 2);
        assert_eq!(report.entries[1].outcome, ItemOutcome::AlreadyPresent);
        assert_eq!(log.last(), Some(&format!("spawn {}", command)));
        assert!(!log.iter().any(|line| line.contains("apt install")));
        assert!(!log.iter().any(|line| line.starts_with("directory")));
    }
}

#[test]
fn a_probe_that_prints_no_text_ends_the_run() {
    let machine = Machine {
        cannot_spawn: vec!["git --version"],
        garbled: vec!["lsb_release -cs"],
        ..Machine::default()
    };
    let (report, log) = run(vec![tool(Tool::Git), tool(Tool::Code)], &machine);
    assert_eq!(
        report.failure,
        Some(FactError { probe: FactProbe::DistroCodename, cause: ProbeFailure::Decode })
    );
    assert!(report.entries.is_empty());
    assert_eq!(log.last(), Some(&"wait lsb_release -cs".to_string()));
}

#[test]
fn a_probe_that_cannot_be_waited_for_ends_the_run() {
    let machine = Machine {
        cannot_spawn: vec!["git --version"],
        cannot_wait: vec!["uname -m"],
        ..Machine::default()
    };
    let (report, _) = run(vec![tool(Tool::Git)], &machine);
    assert_eq!(
        report.failure,
        Some(FactError {
            probe: FactProbe::HardwareName,
            cause: ProbeFailure::Wait { detail: "lost".to_string() }
        })
    );
    assert!(report.entries.is_empty());
}

#[test]
fn after_a_failed_probe_no_event_is_taken() {
    let mut planner = Planner::new(vec![tool(Tool::Git)]);
    planner = planner.handle(PlanEvent::Process(ProcessEvent::SpawnFailed { detail: String::new() })).0;
    let (planner, accepted) =
        planner.handle(PlanEvent::Process(ProcessEvent::SpawnFailed { detail: "x".to_string() }));
    assert!(accepted);
    assert!(planner.is_finished());
    assert_eq!(planner.next_action(), PlanAction::Finished);
    let (planner, accepted) = planner.handle(PlanEvent::Process(ProcessEvent::Spawned));
    assert!(!accepted);
    let (planner, accepted) = planner.handle(PlanEvent::Directory { exists: true });
    assert!(!accepted);
    let report = planner.into_report();
    assert_eq!(
        report.failure,
        Some(FactError {
            probe: FactProbe::Architecture,
            cause: ProbeFailure::Spawn { detail: "x".to_string() }
        })
    );
}

#[test]
fn a_failed_install_leaves_the_other_tools_as_they_would_be() {
    let requests = vec![tool(Tool::Git), tool(Tool::Code), tool(Tool::Rustc)];
    let absent = vec!["git --version", "code --version", "rustc --version"];
    let healthy = Machine { cannot_spawn: absent.clone(), ..Machine::default() };
    let mut broken = healthy.clone();
    broken.cannot_spawn.push("sudo snap install code --classic");

    let (expected, _) = run(requests.clone(), &healthy);
    let (report, _) = run(requests.clone(), &broken);

    assert_eq!(report.failure, None);
    assert_eq!(report.entries.len(), 3);
    for (entry, request) in report.entries.iter().zip(requests.iter()) {
        assert_eq!(&entry.request, request);
    }
    assert_eq!(report.entries[0], expected.entries[0]);
    assert_eq!(report.entries[2], expected.entries[2]);
    assert_eq!(ran(&report.entries[0]), vec![("sudo".to_string(), true)]);
    assert_eq!(ran(&report.entries[1]), vec![("sudo".to_string(), false)]);
    assert_eq!(
        ran(&report.entries[2]),
        vec![("curl".to_string(), true), ("sh".to_string(), true)]
    );
    match &report.entries[1].outcome {
        ItemOutcome::Ran(outcome) => {
            assert!(!outcome.succeeded());
            assert_eq!(
                outcome.outcomes[0].result,
                StepResult::SpawnFailed { detail: "not found".to_string() }
            );
        }
        ItemOutcome::AlreadyPresent => panic!("the tool was absent"),
    }
}

#[test]
fn a_failure_code_of_an_install_leaves_the_other_tools_as_they_would_be() {
    let requests = vec![tool(Tool::Git), tool(Tool::Code), tool(Tool::Rustc)];
    let absent = vec!["git --version", "code --version", "rustc --version"];
    let healthy = Machine { cannot_spawn: absent, ..Machine::default() };
    let mut broken = healthy.clone();
    broken.exit_codes.push(("sudo snap install code --classic", 100));

    let (expected, expected_log) = run(requests.clone(), &healthy);
    let (report, log) = run(requests, &broken);

    assert_eq!(log, expected_log);
    assert_eq!(report.entries[0], expected.entries[0]);
    assert_eq!(report.entries[2], expected.entries[2]);
    match &report.entries[1].outcome {
        ItemOutcome::Ran(outcome) => {
            assert_eq!(outcome.outcomes[0].exit_info(), Some(ExitInfo { code: Some(100) }));
        }
        ItemOutcome::AlreadyPresent => panic!("the tool was absent"),
    }
}

#[test]
fn a_failed_wait_in_a_recipe_does_not_end_the_run() {
    let machine = Machine {
        cannot_spawn: vec!["gh --version"],
        cannot_wait: vec!["sudo apt update"],
        ..Machine::default()
    };
    let (report, _) = run(vec![tool(Tool::Gh), key()], &machine);
    assert_eq!(report.failure, None);
    assert_eq!(report.entries.len(), 2);
    let steps = ran(&report.entries[0]);
    assert_eq!(steps.len(), 7);
    assert_eq!(steps.iter().filter(|(_, ok)| !ok).count(), 1);
    assert!(!steps[4].1);
    assert_eq!(ran(&report.entries[1]).len(), 3);
}

#[test]
fn a_key_whose_directory_exists_is_not_generated() {
    let machine = Machine { directories: vec!["~/.ssh/ed25519"], ..Machine::default() };
    let (report, log) = run(vec![key()], &machine);
    assert_eq!(log, vec!["directory ~/.ssh/ed25519"]);
    assert_eq!(
        report.entries,
        vec![ReportEntry { request: key(), outcome: ItemOutcome::AlreadyPresent }]
    );
}

#[test]
fn a_key_is_generated_without_the_facts() {
    let (report, log) = run(vec![key()], &Machine::default());
    assert_eq!(log.len(), 7);
    assert!(!log.iter().any(|line| line.contains("dpkg")));
    assert_eq!(ran(&report.entries[0]).len(), 3);
}

#[test]
fn an_event_of_the_wrong_kind_is_dropped() {
    let planner = Planner::new(vec![key(), tool(Tool::Git)]);
    let (planner, accepted) = planner.handle(PlanEvent::Process(ProcessEvent::Spawned));
    assert!(!accepted);
    assert_eq!(
        planner.next_action(),
        PlanAction::CheckDirectory { path: "~/.ssh/ed25519".to_string() }
    );
    let (planner, accepted) = planner.handle(PlanEvent::Directory { exists: true });
    assert!(accepted);
    let (planner, accepted) = planner.handle(PlanEvent::Directory { exists: true });
    assert!(!accepted);
    let (planner, accepted) = planner.handle(PlanEvent::Process(ProcessEvent::Exited {
        code: Some(0),
        output: Vec::new(),
    }));
    assert!(!accepted);
    assert!(matches!(planner.next_action(), PlanAction::Process(Action::Spawn { index: 0, .. })));
    assert_eq!(planner.into_report().entries.len(), 1);
}

#[test]
fn a_run_takes_no_more_answers_than_its_requests_allow() {
    // a spawn and a wait for each step; for a tool, the presence check and
    // the four probes besides; for a key, the directory check besides
    let requests = vec![
        ProvisionRequest::SystemUpdate(UpdateKind::Dependencies),
        tool(Tool::Gh),
        tool(Tool::Rustc),
        key(),
    ];
    let allowed: usize = requests
        .iter()
        .map(|request| {
            2 * build(&facts(), request).len()
                + match request {
                    ProvisionRequest::Tool(_) => 2 + 8,
                    ProvisionRequest::SshKey { .. } => 1,
                    ProvisionRequest::SystemUpdate(_) => 0,
                }
        })
        .sum();
    assert_eq!(allowed, 2 + (10 + 14) + (10 + 4) + (1 + 6));
    let absent = Machine {
        cannot_spawn: vec!["gh --version", "rustc --version"],
        ..Machine::default()
    };
    for machine in [Machine::default(), absent] {
        let (report, log) = run(requests.clone(), &machine);
        assert_eq!(report.entries.len(), requests.len());
        assert!(log.len() <= allowed);
    }
}

#[test]
fn end_to_end_update_git_and_key() {
    let environment = TargetEnvironment {
        updates: Some(Updates { system: Some(true), dependencies: None, cleanup: None }),
        tools: Some(Tools {
            brave_browser: None,
            code: None,
            docker: None,
            docker_compose: None,
            gh: None,
            git: Some(ToolFlag::Switch(true)),
            google_chrome: None,
            node: None,
            rustc: None,
            solana: None,
        }),
        keys: Some(Keys {
            ssh: Some(Ssh {
                algorithm: "ed25519".to_string(),
                email: "a@b.com".to_string(),
                title: Some("t".to_string()),
            }),
        }),
    };
    let requests = requests_from_config(&environment);
    let machine = Machine { cannot_spawn: vec!["git --version"], ..Machine::default() };
    let (report, log) = run(requests, &machine);

    let mut expected = vec![
        "spawn sudo apt-get update",
        "wait sudo apt-get update",
        "spawn git --version",
    ];
    expected.extend(PROBES);
    expected.extend([
        "spawn sudo apt install git-all",
        "wait sudo apt install git-all",
        "directory ~/.ssh/ed25519",
        "spawn ssh-keygen -t ed25519 -C a@b.com",
        "wait ssh-keygen -t ed25519 -C a@b.com",
        "spawn eval $(ssh-agent -s)",
        "wait eval $(ssh-agent -s)",
        "spawn ssh-add ~/.ssh/ed25519",
        "wait ssh-add ~/.ssh/ed25519",
    ]);
    assert_eq!(log, expected);

    assert_eq!(report.failure, None);
    assert_eq!(report.entries.len(), 3);
    assert_eq!(report.entries[0].request, ProvisionRequest::SystemUpdate(UpdateKind::System));
    assert_eq!(ran(&report.entries[0]), vec![("sudo".to_string(), true)]);
    assert_eq!(report.entries[1].request, tool(Tool::Git));
    assert_eq!(ran(&report.entries[1]), vec![("sudo".to_string(), true)]);
    assert_eq!(report.entries[2].request, key());
    assert_eq!(
        ran(&report.entries[2]),
        vec![
            ("ssh-keygen".to_string(), true),
            ("eval".to_string(), true),
            ("ssh-add".to_string(), true),
        ]
    );
    match &report.entries[2].outcome {
        ItemOutcome::Ran(outcome) => {
            assert!(outcome.succeeded());
            assert_eq!(
                outcome.outcomes[0].result,
                StepResult::Completed { exit: ExitInfo { code: Some(0) }, captured_text: None }
            );
        }
        ItemOutcome::AlreadyPresent => panic!("the key was absent"),
    }
}
