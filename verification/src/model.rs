//! The data of a provisioning pass: facts about the machine, what is asked
//! for, and the single process invocations that recipes are made of.

use vstd::prelude::*;

verus! {

/// The texts of a list of strings.
pub open spec fn texts(v: Seq<String>) -> Seq<Seq<char>> {
    Seq::new(v.len(), |i: int| v[i]@)
}

/// The text of an optional string.
pub open spec fn opt_text(o: Option<String>) -> Option<Seq<char>> {
    match o {
        Some(s) => Some(s@),
        None => None,
    }
}

/// Copies a list of strings.
pub fn clone_texts(v: &Vec<String>) -> (r: Vec<String>)
    ensures
        texts(r@) == texts(v@),
{
    let mut out: Vec<String> = Vec::new();
    let mut i: usize = 0;
    while i < v.len()
        invariant
            i <= v.len(),
            out.len() == i,
            forall|k: int| 0 <= k < i ==> out[k]@ == v[k]@,
        decreases v.len() - i,
    {
        out.push(v[i].clone());
        i += 1;
    }
    assert(texts(out@) =~= texts(v@));
    out
}

/// Copies an optional string.
pub fn clone_opt_text(o: &Option<String>) -> (r: Option<String>)
    ensures
        opt_text(r) == opt_text(*o),
{
    match o {
        Some(s) => Some(s.clone()),
        None => None,
    }
}

/// Where a step's standard input comes from.
#[derive(Clone, Copy, Debug, PartialEq, Eq, Structural)]
pub enum InputSource {
    /// No standard input at all.
    Nothing,
    /// The standard input of the provisioning run itself.
    InheritStdin,
    /// The live standard output of the step just before this one.
    PipeFromPreviousStep,
}

/// A [`Step`] as plain values.
pub struct StepView {
    pub program: Seq<char>,
    pub arguments: Seq<Seq<char>>,
    pub input_source: InputSource,
    pub captures_output: bool,
}

/// One invocation of an external process. Fixed once constructed.
#[derive(Debug, PartialEq, Eq)]
pub struct Step {
    program: String,
    arguments: Vec<String>,
    input_source: InputSource,
    captures_output: bool,
}

impl View for Step {
    type V = StepView;

    closed spec fn view(&self) -> StepView {
        StepView {
            program: self.program@,
            arguments: texts(self.arguments@),
            input_source: self.input_source,
            captures_output: self.captures_output,
        }
    }
}

impl Step {
    pub fn new(
        program: String,
        arguments: Vec<String>,
        input_source: InputSource,
        captures_output: bool,
    ) -> (s: Step)
        ensures
            s@ == (StepView {
                program: program@,
                arguments: texts(arguments@),
                input_source,
                captures_output,
            }),
    {
        Step { program, arguments, input_source, captures_output }
    }

    /// The executable to run.
    pub fn program(&self) -> (r: &String)
        ensures
            r@ == self@.program,
    {
        &self.program
    }

    /// The arguments, in order.
    pub fn arguments(&self) -> (r: &Vec<String>)
        ensures
            texts(r@) == self@.arguments,
    {
        &self.arguments
    }

    pub fn input_source(&self) -> (r: InputSource)
        ensures
            r == self@.input_source,
    {
        self.input_source
    }

    /// Whether the step's standard output is taken through a pipe instead of
    /// being left on the terminal.
    pub fn captures_output(&self) -> (r: bool)
        ensures
            r == self@.captures_output,
    {
        self.captures_output
    }

    /// Whether the step reads the output of the step before it.
    pub fn is_pipe_fed(&self) -> (r: bool)
        ensures
            r == (self@.input_source == InputSource::PipeFromPreviousStep),
    {
        match self.input_source {
            InputSource::PipeFromPreviousStep => true,
            _ => false,
        }
    }
}

impl Clone for Step {
    fn clone(&self) -> (r: Step)
        ensures
            r@ == self@,
    {
        Step {
            program: self.program.clone(),
            arguments: clone_texts(&self.arguments),
            input_source: self.input_source,
            captures_output: self.captures_output,
        }
    }
}

/// A pipeline as plain values.
pub open spec fn pipeline_view(steps: Seq<Step>) -> Seq<StepView> {
    Seq::new(steps.len(), |i: int| steps[i]@)
}

/// [`SystemFacts`] as plain values.
pub struct FactsView {
    pub architecture: Seq<char>,
    pub kernel_name: Seq<char>,
    pub hardware_name: Seq<char>,
    pub distro_codename: Seq<char>,
}

/// What the machine said of itself, taken once per run and never changed.
#[derive(Debug, PartialEq, Eq)]
pub struct SystemFacts {
    architecture: String,
    kernel_name: String,
    hardware_name: String,
    distro_codename: String,
}

impl View for SystemFacts {
    type V = FactsView;

    closed spec fn view(&self) -> FactsView {
        FactsView {
            architecture: self.architecture@,
            kernel_name: self.kernel_name@,
            hardware_name: self.hardware_name@,
            distro_codename: self.distro_codename@,
        }
    }
}

impl SystemFacts {
    pub fn new(
        architecture: String,
        kernel_name: String,
        hardware_name: String,
        distro_codename: String,
    ) -> (f: SystemFacts)
        ensures
            f@ == (FactsView {
                architecture: architecture@,
                kernel_name: kernel_name@,
                hardware_name: hardware_name@,
                distro_codename: distro_codename@,
            }),
    {
        SystemFacts { architecture, kernel_name, hardware_name, distro_codename }
    }

    /// The package architecture, such as `amd64`.
    pub fn architecture(&self) -> (r: &String)
        ensures
            r@ == self@.architecture,
    {
        &self.architecture
    }

    /// The kernel's name, such as `Linux`.
    pub fn kernel_name(&self) -> (r: &String)
        ensures
            r@ == self@.kernel_name,
    {
        &self.kernel_name
    }

    /// The machine hardware name, such as `x86_64`.
    pub fn hardware_name(&self) -> (r: &String)
        ensures
            r@ == self@.hardware_name,
    {
        &self.hardware_name
    }

    /// The distribution's codename, such as `jammy`.
    pub fn distro_codename(&self) -> (r: &String)
        ensures
            r@ == self@.distro_codename,
    {
        &self.distro_codename
    }
}

impl Clone for SystemFacts {
    fn clone(&self) -> (r: SystemFacts)
        ensures
            r@ == self@,
    {
        SystemFacts {
            architecture: self.architecture.clone(),
            kernel_name: self.kernel_name.clone(),
            hardware_name: self.hardware_name.clone(),
            distro_codename: self.distro_codename.clone(),
        }
    }
}

/// A class of system update.
#[derive(Clone, Copy, Debug, PartialEq, Eq, Structural)]
pub enum UpdateKind {
    /// Refresh the package index.
    System,
    /// Install the build dependencies that the tools rely on.
    Dependencies,
    /// Remove packages that nothing needs any more.
    Cleanup,
}

/// A [`Tool`] as plain values.
pub enum ToolView {
    BraveBrowser,
    Code,
    Docker,
    DockerCompose { version: Seq<char> },
    Gh,
    Git,
    GoogleChrome,
    Node { version: Seq<char> },
    Rustc,
    Solana { version: Seq<char> },
}

/// A tool that can be provisioned, with the parameters its recipe takes.
#[derive(Debug, PartialEq, Eq)]
pub enum Tool {
    BraveBrowser,
    Code,
    Docker,
    DockerCompose { version: String },
    Gh,
    Git,
    GoogleChrome,
    Node { version: String },
    Rustc,
    Solana { version: String },
}

impl View for Tool {
    type V = ToolView;

    open spec fn view(&self) -> ToolView {
        match *self {
            Tool::BraveBrowser => ToolView::BraveBrowser,
            Tool::Code => ToolView::Code,
            Tool::Docker => ToolView::Docker,
            Tool::DockerCompose { version } => ToolView::DockerCompose { version: version@ },
            Tool::Gh => ToolView::Gh,
            Tool::Git => ToolView::Git,
            Tool::GoogleChrome => ToolView::GoogleChrome,
            Tool::Node { version } => ToolView::Node { version: version@ },
            Tool::Rustc => ToolView::Rustc,
            Tool::Solana { version } => ToolView::Solana { version: version@ },
        }
    }
}

impl Clone for Tool {
    fn clone(&self) -> (r: Tool)
        ensures
            r@ == self@,
    {
        match self {
            Tool::BraveBrowser => Tool::BraveBrowser,
            Tool::Code => Tool::Code,
            Tool::Docker => Tool::Docker,
            Tool::DockerCompose { version } => Tool::DockerCompose { version: version.clone() },
            Tool::Gh => Tool::Gh,
            Tool::Git => Tool::Git,
            Tool::GoogleChrome => Tool::GoogleChrome,
            Tool::Node { version } => Tool::Node { version: version.clone() },
            Tool::Rustc => Tool::Rustc,
            Tool::Solana { version } => Tool::Solana { version: version.clone() },
        }
    }
}

/// The command by which a tool is called, and so looked for.
pub open spec fn tool_command(tool: ToolView) -> Seq<char> {
    match tool {
        ToolView::BraveBrowser => "brave-browser"@,
        ToolView::Code => "code"@,
        ToolView::Docker => "docker"@,
        ToolView::DockerCompose { .. } => "docker-compose"@,
        ToolView::Gh => "gh"@,
        ToolView::Git => "git"@,
        ToolView::GoogleChrome => "google-chrome"@,
        ToolView::Node { .. } => "node"@,
        ToolView::Rustc => "rustc"@,
        ToolView::Solana { .. } => "solana"@,
    }
}

/// The version that a tool was asked for in, where it takes one.
pub open spec fn tool_version(tool: ToolView) -> Option<Seq<char>> {
    match tool {
        ToolView::DockerCompose { version } => Some(version),
        ToolView::Node { version } => Some(version),
        ToolView::Solana { version } => Some(version),
        _ => None,
    }
}

impl Tool {
    /// The command by which the tool is called.
    pub fn name(&self) -> (r: &'static str)
        ensures
            r@ == tool_command(self@),
    {
        match self {
            Tool::BraveBrowser => "brave-browser",
            Tool::Code => "code",
            Tool::Docker => "docker",
            Tool::DockerCompose { .. } => "docker-compose",
            Tool::Gh => "gh",
            Tool::Git => "git",
            Tool::GoogleChrome => "google-chrome",
            Tool::Node { .. } => "node",
            Tool::Rustc => "rustc",
            Tool::Solana { .. } => "solana",
        }
    }

    /// The version asked for, for the tools that take one.
    pub fn version(&self) -> (r: Option<&String>)
        ensures
            r is Some <==> tool_version(self@) is Some,
            r matches Some(v) ==> Some(v@) == tool_version(self@),
    {
        match self {
            Tool::DockerCompose { version } => Some(version),
            Tool::Node { version } => Some(version),
            Tool::Solana { version } => Some(version),
            _ => None,
        }
    }
}

/// A [`ProvisionRequest`] as plain values.
pub enum RequestView {
    Tool(ToolView),
    SshKey { algorithm: Seq<char>, email: Seq<char>, title: Option<Seq<char>> },
    SystemUpdate(UpdateKind),
}

/// One unit of desired state, taken from the configuration.
#[derive(Debug, PartialEq, Eq)]
pub enum ProvisionRequest {
    Tool(Tool),
    SshKey { algorithm: String, email: String, title: Option<String> },
    SystemUpdate(UpdateKind),
}

impl View for ProvisionRequest {
    type V = RequestView;

    open spec fn view(&self) -> RequestView {
        match *self {
            ProvisionRequest::Tool(tool) => RequestView::Tool(tool@),
            ProvisionRequest::SshKey { algorithm, email, title } => RequestView::SshKey {
                algorithm: algorithm@,
                email: email@,
                title: opt_text(title),
            },
            ProvisionRequest::SystemUpdate(kind) => RequestView::SystemUpdate(kind),
        }
    }
}

impl Clone for ProvisionRequest {
    fn clone(&self) -> (r: ProvisionRequest)
        ensures
            r@ == self@,
    {
        match self {
            ProvisionRequest::Tool(tool) => ProvisionRequest::Tool(tool.clone()),
            ProvisionRequest::SshKey { algorithm, email, title } => ProvisionRequest::SshKey {
                algorithm: algorithm.clone(),
                email: email.clone(),
                title: clone_opt_text(title),
            },
            ProvisionRequest::SystemUpdate(kind) => ProvisionRequest::SystemUpdate(*kind),
        }
    }
}

/// A list of requests as plain values.
pub open spec fn requests_view(requests: Seq<ProvisionRequest>) -> Seq<RequestView> {
    Seq::new(requests.len(), |i: int| requests[i]@)
}

} // verus!
