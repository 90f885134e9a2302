//! The recipe table: for each provisionable item, the ordered steps that
//! bring it about. Building a recipe runs nothing.

use crate::model::{
    pipeline_view, texts, FactsView, InputSource, ProvisionRequest, RequestView, Step, StepView,
    SystemFacts, Tool, ToolView, UpdateKind,
};
use vstd::prelude::*;
use vstd::string::StringExecFns;

verus! {

/// A step that runs on the terminal: it reads what the user types and its
/// output is left alone.
pub open spec fn plain_step(program: Seq<char>, arguments: Seq<Seq<char>>) -> StepView {
    StepView {
        program,
        arguments,
        input_source: InputSource::InheritStdin,
        captures_output: false,
    }
}

/// A step whose output is taken through a pipe, for the step after it.
pub open spec fn producer_step(program: Seq<char>, arguments: Seq<Seq<char>>) -> StepView {
    StepView {
        program,
        arguments,
        input_source: InputSource::InheritStdin,
        captures_output: true,
    }
}

/// A step that reads the output of the step before it.
pub open spec fn consumer_step(program: Seq<char>, arguments: Seq<Seq<char>>) -> StepView {
    StepView {
        program,
        arguments,
        input_source: InputSource::PipeFromPreviousStep,
        captures_output: false,
    }
}

/// An empty argument list.
pub open spec fn no_words() -> Seq<Seq<char>> {
    Seq::empty()
}

/// An empty pipeline.
pub open spec fn no_steps() -> Seq<StepView> {
    Seq::empty()
}

/// What holds of every pipeline in the table: it is not empty, a step reads
/// from a pipe only where the step before it fills one, and no output is
/// taken that nothing reads.
pub open spec fn well_formed_pipeline(steps: Seq<StepView>) -> bool {
    &&& steps.len() > 0
    &&& forall|k: int|
        0 <= k < steps.len() && #[trigger] steps[k].input_source
            == InputSource::PipeFromPreviousStep ==> k > 0 && steps[k - 1].captures_output
    &&& forall|k: int|
        0 <= k < steps.len() && #[trigger] steps[k].captures_output ==> k + 1 < steps.len()
            && steps[k + 1].input_source == InputSource::PipeFromPreviousStep
}

fn new_words() -> (args: Vec<String>)
    ensures
        texts(args@) == no_words(),
{
    let args: Vec<String> = Vec::new();
    assert(texts(args@) =~= no_words());
    args
}

fn word(args: &mut Vec<String>, text: &str)
    ensures
        texts(final(args)@) == texts(old(args)@).push(text@),
{
    args.push(text.to_owned());
    assert(texts(args@) =~= texts(old(args)@).push(text@));
}

fn new_steps() -> (steps: Vec<Step>)
    ensures
        pipeline_view(steps@) == no_steps(),
{
    let steps: Vec<Step> = Vec::new();
    assert(pipeline_view(steps@) =~= no_steps());
    steps
}

fn add_step(steps: &mut Vec<Step>, step: Step)
    ensures
        pipeline_view(final(steps)@) == pipeline_view(old(steps)@).push(step@),
{
    steps.push(step);
    assert(pipeline_view(steps@) =~= pipeline_view(old(steps)@).push(step@));
}

fn plain(program: &str, args: Vec<String>) -> (s: Step)
    ensures
        s@ == plain_step(program@, texts(args@)),
{
    Step::new(program.to_owned(), args, InputSource::InheritStdin, false)
}

fn producer(program: &str, args: Vec<String>) -> (s: Step)
    ensures
        s@ == producer_step(program@, texts(args@)),
{
    Step::new(program.to_owned(), args, InputSource::InheritStdin, true)
}

fn consumer(program: &str, args: Vec<String>) -> (s: Step)
    ensures
        s@ == consumer_step(program@, texts(args@)),
{
    Step::new(program.to_owned(), args, InputSource::PipeFromPreviousStep, false)
}

/// `sudo apt update`
pub open spec fn apt_update_step() -> StepView {
    plain_step("sudo"@, no_words().push("apt"@).push("update"@))
}

fn apt_update() -> (s: Step)
    ensures
        s@ == apt_update_step(),
{
    let mut args = new_words();
    word(&mut args, "apt");
    word(&mut args, "update");
    plain("sudo", args)
}

/// Refreshing the package index.
pub open spec fn system_update_steps() -> Seq<StepView> {
    no_steps().push(plain_step("sudo"@, no_words().push("apt-get"@).push("update"@)))
}

pub fn system_update_recipe() -> (steps: Vec<Step>)
    ensures
        pipeline_view(steps@) == system_update_steps(),
{
    let mut steps = new_steps();
    let mut args = new_words();
    word(&mut args, "apt-get");
    word(&mut args, "update");
    add_step(&mut steps, plain("sudo", args));
    steps
}

/// The packages that the tools are built with.
pub open spec fn dependency_packages() -> Seq<Seq<char>> {
    no_words().push("apt-transport-https"@).push("build-essential"@).push("ca-certificates"@).push(
        "clang"@,
    ).push("cmake"@).push("curl"@).push("gnupg"@).push("libappindicator3-dev"@).push(
        "libasound2-dev"@,
    ).push("libgl1-mesa-dev"@).push("libgtk-3-dev"@).push("libpq-dev"@).push("libssl-dev"@).push(
        "libudev-dev"@,
    ).push("libvulkan-dev"@).push("libwayland-dev"@).push("libwebkit2gtk-4.0-dev"@).push(
        "libxi-dev"@,
    ).push("libx11-dev"@).push("libxkbcommon-dev"@).push("lld"@).push("lsb-release"@).push(
        "musl-tools"@,
    ).push("pkg-config"@).push("postgresql-client"@).push("python"@)
}

/// Installing the build dependencies: `sudo apt install` and the packages.
pub open spec fn dependencies_update_steps() -> Seq<StepView> {
    no_steps().push(
        plain_step("sudo"@, no_words().push("apt"@).push("install"@) + dependency_packages()),
    )
}

pub fn dependencies_update_recipe() -> (steps: Vec<Step>)
    ensures
        pipeline_view(steps@) == dependencies_update_steps(),
{
    let mut steps = new_steps();
    let mut args = new_words();
    word(&mut args, "apt");
    word(&mut args, "install");
    let ghost head = texts(args@);
    word(&mut args, "apt-transport-https");
    word(&mut args, "build-essential");
    word(&mut args, "ca-certificates");
    word(&mut args, "clang");
    word(&mut args, "cmake");
    word(&mut args, "curl");
    word(&mut args, "gnupg");
    word(&mut args, "libappindicator3-dev");
    word(&mut args, "libasound2-dev");
    word(&mut args, "libgl1-mesa-dev");
    word(&mut args, "libgtk-3-dev");
    word(&mut args, "libpq-dev");
    word(&mut args, "libssl-dev");
    word(&mut args, "libudev-dev");
    word(&mut args, "libvulkan-dev");
    word(&mut args, "libwayland-dev");
    word(&mut args, "libwebkit2gtk-4.0-dev");
    word(&mut args, "libxi-dev");
    word(&mut args, "libx11-dev");
    word(&mut args, "libxkbcommon-dev");
    word(&mut args, "lld");
    word(&mut args, "lsb-release");
    word(&mut args, "musl-tools");
    word(&mut args, "pkg-config");
    word(&mut args, "postgresql-client");
    word(&mut args, "python");
    assert(texts(args@) =~= head + dependency_packages());
    add_step(&mut steps, plain("sudo", args));
    steps
}

/// Removing what nothing needs any more.
pub open spec fn cleanup_update_steps() -> Seq<StepView> {
    no_steps().push(plain_step("sudo"@, no_words().push("apt"@).push("autoremove"@)))
}

pub fn cleanup_update_recipe() -> (steps: Vec<Step>)
    ensures
        pipeline_view(steps@) == cleanup_update_steps(),
{
    let mut steps = new_steps();
    let mut args = new_words();
    word(&mut args, "apt");
    word(&mut args, "autoremove");
    add_step(&mut steps, plain("sudo", args));
    steps
}

/// The steps of each class of update.
pub open spec fn update_steps(kind: UpdateKind) -> Seq<StepView> {
    match kind {
        UpdateKind::System => system_update_steps(),
        UpdateKind::Dependencies => dependencies_update_steps(),
        UpdateKind::Cleanup => cleanup_update_steps(),
    }
}

pub fn update_recipe(kind: UpdateKind) -> (steps: Vec<Step>)
    ensures
        pipeline_view(steps@) == update_steps(kind),
{
    match kind {
        UpdateKind::System => system_update_recipe(),
        UpdateKind::Dependencies => dependencies_update_recipe(),
        UpdateKind::Cleanup => cleanup_update_recipe(),
    }
}

/// Brave: fetch the archive key, write the source line, install.
pub open spec fn brave_browser_steps() -> Seq<StepView> {
    no_steps().push(
        plain_step(
            "sudo"@,
            no_words().push("curl"@).push("-fsSLo"@).push(
                "/usr/share/keyrings/brave-browser-archive-keyring.gpg"@,
            ).push(
                "https://brave-browser-apt-release.s3.brave.com/brave-browser-archive-keyring.gpg"@,
            ),
        ),
    ).push(
        producer_step(
            "echo"@,
            no_words().push(
                "deb [signed-by=/usr/share/keyrings/brave-browser-archive-keyring.gpg arch=amd64] https://brave-browser-apt-release.s3.brave.com/ stable main"@,
            ),
        ),
    ).push(
        consumer_step(
            "sudo"@,
            no_words().push("tee"@).push("/etc/apt/sources.list.d/brave-browser-release.list"@),
        ),
    ).push(apt_update_step()).push(
        plain_step("sudo"@, no_words().push("apt"@).push("install"@).push("brave-browser"@)),
    )
}

pub fn brave_browser_recipe() -> (steps: Vec<Step>)
    ensures
        pipeline_view(steps@) == brave_browser_steps(),
{
    let mut steps = new_steps();

    let mut args = new_words();
    word(&mut args, "curl");
    word(&mut args, "-fsSLo");
    word(&mut args, "/usr/share/keyrings/brave-browser-archive-keyring.gpg");
    word(
        &mut args,
        "https://brave-browser-apt-release.s3.brave.com/brave-browser-archive-keyring.gpg",
    );
    add_step(&mut steps, plain("sudo", args));

    let mut args = new_words();
    word(
        &mut args,
        "deb [signed-by=/usr/share/keyrings/brave-browser-archive-keyring.gpg arch=amd64] https://brave-browser-apt-release.s3.brave.com/ stable main",
    );
    add_step(&mut steps, producer("echo", args));

    let mut args = new_words();
    word(&mut args, "tee");
    word(&mut args, "/etc/apt/sources.list.d/brave-browser-release.list");
    add_step(&mut steps, consumer("sudo", args));

    add_step(&mut steps, apt_update());

    let mut args = new_words();
    word(&mut args, "apt");
    word(&mut args, "install");
    word(&mut args, "brave-browser");
    add_step(&mut steps, plain("sudo", args));
    steps
}

/// Visual Studio Code, from the snap store.
pub open spec fn code_steps() -> Seq<StepView> {
    no_steps().push(
        plain_step(
            "sudo"@,
            no_words().push("snap"@).push("install"@).push("code"@).push("--classic"@),
        ),
    )
}

pub fn code_recipe() -> (steps: Vec<Step>)
    ensures
        pipeline_view(steps@) == code_steps(),
{
    let mut steps = new_steps();
    let mut args = new_words();
    word(&mut args, "snap");
    word(&mut args, "install");
    word(&mut args, "code");
    word(&mut args, "--classic");
    add_step(&mut steps, plain("sudo", args));
    steps
}

/// The package source line of Docker for an architecture and a release.
pub open spec fn docker_source_line(architecture: Seq<char>, codename: Seq<char>) -> Seq<char> {
    "deb [arch="@ + architecture
        + " signed-by=/usr/share/keyrings/docker-archive-keyring.gpg] https://download.docker.com/linux/ubuntu "@
        + codename + " stable"@
}

/// Docker: import the archive key, write the source line, install.
pub open spec fn docker_steps(architecture: Seq<char>, codename: Seq<char>) -> Seq<StepView> {
    no_steps().push(
        producer_step(
            "curl"@,
            no_words().push("-fsSL"@).push("https://download.docker.com/linux/ubuntu/gpg"@),
        ),
    ).push(
        consumer_step(
            "sudo"@,
            no_words().push("gpg"@).push("--dearmor"@).push("-o"@).push(
                "/usr/share/keyrings/docker-archive-keyring.gpg"@,
            ),
        ),
    ).push(producer_step("echo"@, no_words().push(docker_source_line(architecture, codename)))).push(
        consumer_step(
            "sudo"@,
            no_words().push("tee"@).push("/etc/apt/sources.list.d/docker.list"@),
        ),
    ).push(
        plain_step(
            "sudo"@,
            no_words().push("apt-get"@).push("install"@).push("docker-ce"@).push(
                "docker-ce-cli"@,
            ).push("containerd.io"@),
        ),
    )
}

pub fn docker_recipe(architecture_name: &str, release_name: &str) -> (steps: Vec<Step>)
    ensures
        pipeline_view(steps@) == docker_steps(architecture_name@, release_name@),
{
    let mut steps = new_steps();

    let mut args = new_words();
    word(&mut args, "-fsSL");
    word(&mut args, "https://download.docker.com/linux/ubuntu/gpg");
    add_step(&mut steps, producer("curl", args));

    let mut args = new_words();
    word(&mut args, "gpg");
    word(&mut args, "--dearmor");
    word(&mut args, "-o");
    word(&mut args, "/usr/share/keyrings/docker-archive-keyring.gpg");
    add_step(&mut steps, consumer("sudo", args));

    let mut line = "deb [arch=".to_owned();
    line.append(architecture_name);
    line.append(
        " signed-by=/usr/share/keyrings/docker-archive-keyring.gpg] https://download.docker.com/linux/ubuntu ",
    );
    line.append(release_name);
    line.append(" stable");
    let mut args = new_words();
    word(&mut args, line.as_str());
    add_step(&mut steps, producer("echo", args));

    let mut args = new_words();
    word(&mut args, "tee");
    word(&mut args, "/etc/apt/sources.list.d/docker.list");
    add_step(&mut steps, consumer("sudo", args));

    let mut args = new_words();
    word(&mut args, "apt-get");
    word(&mut args, "install");
    word(&mut args, "docker-ce");
    word(&mut args, "docker-ce-cli");
    word(&mut args, "containerd.io");
    add_step(&mut steps, plain("sudo", args));
    steps
}

/// Where the Docker Compose binary is downloaded from.
pub open spec fn docker_compose_url(kernel_name: Seq<char>, hardware_name: Seq<char>) -> Seq<char> {
    "https://github.com/docker/compose/releases/download/1.29.2/docker-compose-"@ + kernel_name
        + "-"@ + hardware_name
}

/// Docker Compose: download the binary, make it executable, link it. The
/// release is fixed, whatever version was asked for.
pub open spec fn docker_compose_steps(
    kernel_name: Seq<char>,
    hardware_name: Seq<char>,
) -> Seq<StepView> {
    no_steps().push(
        plain_step(
            "sudo"@,
            no_words().push("curl"@).push("-L"@).push(
                docker_compose_url(kernel_name, hardware_name),
            ).push("-o"@).push("/usr/local/bin/docker-compose"@),
        ),
    ).push(
        plain_step(
            "sudo"@,
            no_words().push("chmod"@).push("+x"@).push("/usr/local/bin/docker-compose"@),
        ),
    ).push(
        plain_step(
            "sudo"@,
            no_words().push("ln"@).push("-s"@).push("/usr/local/bin/docker-compose"@).push(
                "/usr/bin/docker-compose"@,
            ),
        ),
    )
}

pub fn docker_compose_recipe(
    _version: &str,
    kernel_name: &str,
    machine_hardware_name: &str,
) -> (steps: Vec<Step>)
    ensures
        pipeline_view(steps@) == docker_compose_steps(kernel_name@, machine_hardware_name@),
{
    let mut steps = new_steps();

    let mut url =
        "https://github.com/docker/compose/releases/download/1.29.2/docker-compose-".to_owned();
    url.append(kernel_name);
    url.append("-");
    url.append(machine_hardware_name);
    let mut args = new_words();
    word(&mut args, "curl");
    word(&mut args, "-L");
    word(&mut args, url.as_str());
    word(&mut args, "-o");
    word(&mut args, "/usr/local/bin/docker-compose");
    add_step(&mut steps, plain("sudo", args));

    let mut args = new_words();
    word(&mut args, "chmod");
    word(&mut args, "+x");
    word(&mut args, "/usr/local/bin/docker-compose");
    add_step(&mut steps, plain("sudo", args));

    let mut args = new_words();
    word(&mut args, "ln");
    word(&mut args, "-s");
    word(&mut args, "/usr/local/bin/docker-compose");
    word(&mut args, "/usr/bin/docker-compose");
    add_step(&mut steps, plain("sudo", args));
    steps
}

/// The package source line of the GitHub CLI for an architecture.
pub open spec fn gh_source_line(architecture: Seq<char>) -> Seq<char> {
    "deb [arch="@ + architecture
        + " signed-by=/usr/share/keyrings/githubcli-archive-keyring.gpg] https://cli.github.com/packages stable main"@
}

/// GitHub CLI: store the archive key, write the source line, install, log in.
pub open spec fn gh_steps(architecture: Seq<char>) -> Seq<StepView> {
    no_steps().push(
        producer_step(
            "curl"@,
            no_words().push("-fsSL"@).push(
                "https://cli.github.com/packages/githubcli-archive-keyring.gpg"@,
            ),
        ),
    ).push(
        consumer_step(
            "sudo"@,
            no_words().push("dd"@).push("of=/usr/share/keyrings/githubcli-archive-keyring.gpg"@),
        ),
    ).push(producer_step("echo"@, no_words().push(gh_source_line(architecture)))).push(
        consumer_step(
            "sudo"@,
            no_words().push("tee"@).push("/etc/apt/sources.list.d/github-cli.list"@),
        ),
    ).push(apt_update_step()).push(
        plain_step("sudo"@, no_words().push("apt"@).push("install"@).push("gh"@)),
    ).push(plain_step("gh"@, no_words().push("auth"@).push("login"@)))
}

pub fn gh_recipe(architecture_name: &str) -> (steps: Vec<Step>)
    ensures
        pipeline_view(steps@) == gh_steps(architecture_name@),
{
    let mut steps = new_steps();

    let mut args = new_words();
    word(&mut args, "-fsSL");
    word(&mut args, "https://cli.github.com/packages/githubcli-archive-keyring.gpg");
    add_step(&mut steps, producer("curl", args));

    let mut args = new_words();
    word(&mut args, "dd");
    word(&mut args, "of=/usr/share/keyrings/githubcli-archive-keyring.gpg");
    add_step(&mut steps, consumer("sudo", args));

    let mut line = "deb [arch=".to_owned();
    line.append(architecture_name);
    line.append(
        " signed-by=/usr/share/keyrings/githubcli-archive-keyring.gpg] https://cli.github.com/packages stable main",
    );
    let mut args = new_words();
    word(&mut args, line.as_str());
    add_step(&mut steps, producer("echo", args));

    let mut args = new_words();
    word(&mut args, "tee");
    word(&mut args, "/etc/apt/sources.list.d/github-cli.list");
    add_step(&mut steps, consumer("sudo", args));

    add_step(&mut steps, apt_update());

    let mut args = new_words();
    word(&mut args, "apt");
    word(&mut args, "install");
    word(&mut args, "gh");
    add_step(&mut steps, plain("sudo", args));

    let mut args = new_words();
    word(&mut args, "auth");
    word(&mut args, "login");
    add_step(&mut steps, plain("gh", args));
    steps
}

/// Git, from the distribution.
pub open spec fn git_steps() -> Seq<StepView> {
    no_steps().push(
        plain_step("sudo"@, no_words().push("apt"@).push("install"@).push("git-all"@)),
    )
}

pub fn git_recipe() -> (steps: Vec<Step>)
    ensures
        pipeline_view(steps@) == git_steps(),
{
    let mut steps = new_steps();
    let mut args = new_words();
    word(&mut args, "apt");
    word(&mut args, "install");
    word(&mut args, "git-all");
    add_step(&mut steps, plain("sudo", args));
    steps
}

/// Chrome: import the signing key, write the source line, install.
pub open spec fn google_chrome_steps() -> Seq<StepView> {
    no_steps().push(
        producer_step(
            "wget"@,
            no_words().push("-q"@).push("-O"@).push("-"@).push(
                "https://dl.google.com/linux/linux_signing_key.pub"@,
            ),
        ),
    ).push(consumer_step("sudo"@, no_words().push("apt-key"@).push("add"@).push("-"@))).push(
        producer_step(
            "echo"@,
            no_words().push(
                "deb [arch=amd64] http://dl.google.com/linux/chrome/deb/ stable main"@,
            ),
        ),
    ).push(
        consumer_step(
            "sudo"@,
            no_words().push("tee"@).push("/etc/apt/sources.list.d/google-chrome.list"@),
        ),
    ).push(apt_update_step()).push(
        plain_step(
            "sudo"@,
            no_words().push("apt"@).push("install"@).push("google-chrome-stable"@),
        ),
    )
}

pub fn google_chrome_recipe() -> (steps: Vec<Step>)
    ensures
        pipeline_view(steps@) == google_chrome_steps(),
{
    let mut steps = new_steps();

    let mut args = new_words();
    word(&mut args, "-q");
    word(&mut args, "-O");
    word(&mut args, "-");
    word(&mut args, "https://dl.google.com/linux/linux_signing_key.pub");
    add_step(&mut steps, producer("wget", args));

    let mut args = new_words();
    word(&mut args, "apt-key");
    word(&mut args, "add");
    word(&mut args, "-");
    add_step(&mut steps, consumer("sudo", args));

    let mut args = new_words();
    word(&mut args, "deb [arch=amd64] http://dl.google.com/linux/chrome/deb/ stable main");
    add_step(&mut steps, producer("echo", args));

    let mut args = new_words();
    word(&mut args, "tee");
    word(&mut args, "/etc/apt/sources.list.d/google-chrome.list");
    add_step(&mut steps, consumer("sudo", args));

    add_step(&mut steps, apt_update());

    let mut args = new_words();
    word(&mut args, "apt");
    word(&mut args, "install");
    word(&mut args, "google-chrome-stable");
    add_step(&mut steps, plain("sudo", args));
    steps
}

/// Where the setup script of a Node release line is downloaded from.
pub open spec fn node_setup_url(version: Seq<char>) -> Seq<char> {
    "https://deb.nodesource.com/setup_"@ + version + ".x"@
}

/// Node: run the setup script of the release line, install.
pub open spec fn node_steps(version: Seq<char>) -> Seq<StepView> {
    no_steps().push(
        producer_step("curl"@, no_words().push("-fsSL"@).push(node_setup_url(version))),
    ).push(consumer_step("sudo"@, no_words().push("-E"@).push("bash"@).push("-"@))).push(
        plain_step(
            "sudo"@,
            no_words().push("apt-get"@).push("install"@).push("-y"@).push("nodejs"@),
        ),
    )
}

pub fn node_recipe(version: &str) -> (steps: Vec<Step>)
    ensures
        pipeline_view(steps@) == node_steps(version@),
{
    let mut steps = new_steps();

    let mut url = "https://deb.nodesource.com/setup_".to_owned();
    url.append(version);
    url.append(".x");
    let mut args = new_words();
    word(&mut args, "-fsSL");
    word(&mut args, url.as_str());
    add_step(&mut steps, producer("curl", args));

    let mut args = new_words();
    word(&mut args, "-E");
    word(&mut args, "bash");
    word(&mut args, "-");
    add_step(&mut steps, consumer("sudo", args));

    let mut args = new_words();
    word(&mut args, "apt-get");
    word(&mut args, "install");
    word(&mut args, "-y");
    word(&mut args, "nodejs");
    add_step(&mut steps, plain("sudo", args));
    steps
}

/// Rust: pipe the rustup installer into a shell.
pub open spec fn rustc_steps() -> Seq<StepView> {
    no_steps().push(
        producer_step(
            "curl"@,
            no_words().push("--proto"@).push("=https"@).push("--tlsv1.2"@).push("-sSf"@).push(
                "https://sh.rustup.rs"@,
            ),
        ),
    ).push(consumer_step("sh"@, no_words()))
}

pub fn rustc_recipe() -> (steps: Vec<Step>)
    ensures
        pipeline_view(steps@) == rustc_steps(),
{
    let mut steps = new_steps();

    let mut args = new_words();
    word(&mut args, "--proto");
    word(&mut args, "=https");
    word(&mut args, "--tlsv1.2");
    word(&mut args, "-sSf");
    word(&mut args, "https://sh.rustup.rs");
    add_step(&mut steps, producer("curl", args));

    add_step(&mut steps, consumer("sh", new_words()));
    steps
}

/// The shell command that installs a Solana release.
pub open spec fn solana_command(version: Seq<char>) -> Seq<char> {
    "$(curl -sSfL https://release.solana.com/v"@ + version + "/install)"@
}

/// Solana: hand the release's installer to a shell.
pub open spec fn solana_steps(version: Seq<char>) -> Seq<StepView> {
    no_steps().push(plain_step("sh"@, no_words().push("-c"@).push(solana_command(version))))
}

pub fn solana_recipe(version: &str) -> (steps: Vec<Step>)
    ensures
        pipeline_view(steps@) == solana_steps(version@),
{
    let mut steps = new_steps();

    let mut command = "$(curl -sSfL https://release.solana.com/v".to_owned();
    command.append(version);
    command.append("/install)");
    let mut args = new_words();
    word(&mut args, "-c");
    word(&mut args, command.as_str());
    add_step(&mut steps, plain("sh", args));
    steps
}

/// Where a key of an algorithm is kept. It is both the marker by which an
/// existing key is found and the argument of `ssh-add`.
pub open spec fn ssh_key_location(algorithm: Seq<char>) -> Seq<char> {
    "~/.ssh/"@ + algorithm
}

pub fn ssh_key_path(algorithm: &str) -> (path: String)
    ensures
        path@ == ssh_key_location(algorithm@),
{
    let mut path = "~/.ssh/".to_owned();
    path.append(algorithm);
    path
}

/// A new SSH key: generate it, start the agent, add the key to the agent.
pub open spec fn ssh_key_steps(algorithm: Seq<char>, email: Seq<char>) -> Seq<StepView> {
    no_steps().push(
        plain_step(
            "ssh-keygen"@,
            no_words().push("-t"@).push(algorithm).push("-C"@).push(email),
        ),
    ).push(plain_step("eval"@, no_words().push("$(ssh-agent -s)"@))).push(
        plain_step("ssh-add"@, no_words().push(ssh_key_location(algorithm))),
    )
}

pub fn ssh_key_recipe(algorithm: &str, email: &str) -> (steps: Vec<Step>)
    ensures
        pipeline_view(steps@) == ssh_key_steps(algorithm@, email@),
{
    let mut steps = new_steps();

    let mut args = new_words();
    word(&mut args, "-t");
    word(&mut args, algorithm);
    word(&mut args, "-C");
    word(&mut args, email);
    add_step(&mut steps, plain("ssh-keygen", args));

    let mut args = new_words();
    word(&mut args, "$(ssh-agent -s)");
    add_step(&mut steps, plain("eval", args));

    let path = ssh_key_path(algorithm);
    let mut args = new_words();
    word(&mut args, path.as_str());
    add_step(&mut steps, plain("ssh-add", args));
    steps
}

/// The steps that install a tool on a machine with the given facts.
pub open spec fn tool_steps(facts: FactsView, tool: ToolView) -> Seq<StepView> {
    match tool {
        ToolView::BraveBrowser => brave_browser_steps(),
        ToolView::Code => code_steps(),
        ToolView::Docker => docker_steps(facts.architecture, facts.distro_codename),
        ToolView::DockerCompose { .. } => docker_compose_steps(
            facts.kernel_name,
            facts.hardware_name,
        ),
        ToolView::Gh => gh_steps(facts.architecture),
        ToolView::Git => git_steps(),
        ToolView::GoogleChrome => google_chrome_steps(),
        ToolView::Node { version } => node_steps(version),
        ToolView::Rustc => rustc_steps(),
        ToolView::Solana { version } => solana_steps(version),
    }
}

pub fn tool_recipe(facts: &SystemFacts, tool: &Tool) -> (steps: Vec<Step>)
    ensures
        pipeline_view(steps@) == tool_steps(facts@, tool@),
{
    match tool {
        Tool::BraveBrowser => brave_browser_recipe(),
        Tool::Code => code_recipe(),
        Tool::Docker => docker_recipe(
            facts.architecture().as_str(),
            facts.distro_codename().as_str(),
        ),
        Tool::DockerCompose { version } => docker_compose_recipe(
            version.as_str(),
            facts.kernel_name().as_str(),
            facts.hardware_name().as_str(),
        ),
        Tool::Gh => gh_recipe(facts.architecture().as_str()),
        Tool::Git => git_recipe(),
        Tool::GoogleChrome => google_chrome_recipe(),
        Tool::Node { version } => node_recipe(version.as_str()),
        Tool::Rustc => rustc_recipe(),
        Tool::Solana { version } => solana_recipe(version.as_str()),
    }
}

/// The recipe table: the steps that fulfil a request on a machine with the
/// given facts.
pub open spec fn recipe(facts: FactsView, request: RequestView) -> Seq<StepView> {
    match request {
        RequestView::Tool(tool) => tool_steps(facts, tool),
        RequestView::SshKey { algorithm, email, .. } => ssh_key_steps(algorithm, email),
        RequestView::SystemUpdate(kind) => update_steps(kind),
    }
}

/// Instantiates the recipe of a request. Nothing is run.
pub fn build(facts: &SystemFacts, request: &ProvisionRequest) -> (steps: Vec<Step>)
    ensures
        pipeline_view(steps@) == recipe(facts@, request@),
{
    match request {
        ProvisionRequest::Tool(tool) => tool_recipe(facts, tool),
        ProvisionRequest::SshKey { algorithm, email, title: _ } => ssh_key_recipe(
            algorithm.as_str(),
            email.as_str(),
        ),
        ProvisionRequest::SystemUpdate(kind) => update_recipe(*kind),
    }
}

/// Every recipe in the table is a well-formed pipeline, whatever the facts
/// and the request's parameters.
pub proof fn lemma_recipe_well_formed(facts: FactsView, request: RequestView)
    ensures
        well_formed_pipeline(recipe(facts, request)),
{
}

} // verus!
