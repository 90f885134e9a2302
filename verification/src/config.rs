//! The configuration of a run, and the requests that it stands for.
//!
//! The configuration has three optional sections. Their requests are made in
//! a fixed order: updates first, then tools, then keys, for a tool may need
//! the package index that an update has just refreshed.

use crate::model::{
    clone_opt_text, opt_text, requests_view, ProvisionRequest, RequestView, Tool, ToolView,
    UpdateKind,
};
use vstd::prelude::*;

verus! {

/// How a tool without parameters is asked for: by a switch, or by any text.
#[derive(Debug, PartialEq, Eq)]
pub enum ToolFlag {
    Switch(bool),
    Label(String),
}

/// The Docker Compose release asked for.
#[derive(Debug, PartialEq, Eq)]
pub struct DockerCompose {
    pub version: String,
}

/// The Node release line asked for.
#[derive(Debug, PartialEq, Eq)]
pub struct Node {
    pub version: String,
}

/// The Solana release asked for.
#[derive(Debug, PartialEq, Eq)]
pub struct Solana {
    pub version: String,
}

/// The SSH key asked for.
#[derive(Debug, PartialEq, Eq)]
pub struct Ssh {
    pub algorithm: String,
    pub email: String,
    pub title: Option<String>,
}

/// The section `keys`.
#[derive(Debug, PartialEq, Eq)]
pub struct Keys {
    pub ssh: Option<Ssh>,
}

/// The section `tools`.
#[derive(Debug, PartialEq, Eq)]
pub struct Tools {
    pub brave_browser: Option<ToolFlag>,
    pub code: Option<ToolFlag>,
    pub docker: Option<ToolFlag>,
    pub docker_compose: Option<DockerCompose>,
    pub gh: Option<ToolFlag>,
    pub git: Option<ToolFlag>,
    pub google_chrome: Option<ToolFlag>,
    pub node: Option<Node>,
    pub rustc: Option<ToolFlag>,
    pub solana: Option<Solana>,
}

/// The section `updates`.
#[derive(Debug, PartialEq, Eq)]
pub struct Updates {
    pub cleanup: Option<bool>,
    pub dependencies: Option<bool>,
    pub system: Option<bool>,
}

/// A configuration.
#[derive(Debug, PartialEq, Eq)]
pub struct TargetEnvironment {
    pub keys: Option<Keys>,
    pub tools: Option<Tools>,
    pub updates: Option<Updates>,
}

/// No requests.
pub open spec fn nothing() -> Seq<RequestView> {
    Seq::empty()
}

/// Whether a flag asks for its tool: a switch that is on does, and so does
/// any text.
pub open spec fn asks_for(flag: Option<ToolFlag>) -> bool {
    match flag {
        Some(ToolFlag::Switch(on)) => on,
        Some(ToolFlag::Label(_)) => true,
        None => false,
    }
}

/// The request of an update, where its switch is on.
pub open spec fn update_request(switch: Option<bool>, kind: UpdateKind) -> Seq<RequestView> {
    if switch == Some(true) {
        nothing().push(RequestView::SystemUpdate(kind))
    } else {
        nothing()
    }
}

/// The request of a tool without parameters, where its flag asks for it.
pub open spec fn flag_request(flag: Option<ToolFlag>, tool: ToolView) -> Seq<RequestView> {
    if asks_for(flag) {
        nothing().push(RequestView::Tool(tool))
    } else {
        nothing()
    }
}

/// The request of a tool with parameters, where it is named.
pub open spec fn named_request(tool: Option<ToolView>) -> Seq<RequestView> {
    match tool {
        Some(tool) => nothing().push(RequestView::Tool(tool)),
        None => nothing(),
    }
}

/// The requests of the section `updates`: the package index, then the
/// dependencies, then the cleanup.
pub open spec fn update_requests(updates: Option<Updates>) -> Seq<RequestView> {
    match updates {
        None => nothing(),
        Some(u) => nothing() + update_request(u.system, UpdateKind::System) + update_request(
            u.dependencies,
            UpdateKind::Dependencies,
        ) + update_request(u.cleanup, UpdateKind::Cleanup),
    }
}

/// The requests of the section `tools`, in the order of the tools' names.
pub open spec fn tool_requests(tools: Option<Tools>) -> Seq<RequestView> {
    match tools {
        None => nothing(),
        Some(t) => nothing() + flag_request(t.brave_browser, ToolView::BraveBrowser) + flag_request(
            t.code,
            ToolView::Code,
        ) + flag_request(t.docker, ToolView::Docker) + named_request(
            match t.docker_compose {
                Some(d) => Some(ToolView::DockerCompose { version: d.version@ }),
                None => None,
            },
        ) + flag_request(t.gh, ToolView::Gh) + flag_request(t.git, ToolView::Git) + flag_request(
            t.google_chrome,
            ToolView::GoogleChrome,
        ) + named_request(
            match t.node {
                Some(n) => Some(ToolView::Node { version: n.version@ }),
                None => None,
            },
        ) + flag_request(t.rustc, ToolView::Rustc) + named_request(
            match t.solana {
                Some(s) => Some(ToolView::Solana { version: s.version@ }),
                None => None,
            },
        ),
    }
}

/// The requests of the section `keys`.
pub open spec fn key_requests(keys: Option<Keys>) -> Seq<RequestView> {
    match keys {
        Some(Keys { ssh: Some(ssh) }) => nothing().push(
            RequestView::SshKey {
                algorithm: ssh.algorithm@,
                email: ssh.email@,
                title: opt_text(ssh.title),
            },
        ),
        _ => nothing(),
    }
}

/// The requests of a configuration: updates, then tools, then keys.
pub open spec fn planned_requests(environment: TargetEnvironment) -> Seq<RequestView> {
    update_requests(environment.updates) + tool_requests(environment.tools) + key_requests(
        environment.keys,
    )
}

fn request(requests: &mut Vec<ProvisionRequest>, wanted: ProvisionRequest)
    ensures
        requests_view(final(requests)@) == requests_view(old(requests)@) + nothing().push(wanted@),
{
    requests.push(wanted);
    assert(requests_view(requests@) =~= requests_view(old(requests)@) + nothing().push(wanted@));
}

fn keep(requests: &Vec<ProvisionRequest>)
    ensures
        requests_view(requests@) == requests_view(requests@) + nothing(),
{
    assert(requests_view(requests@) =~= requests_view(requests@) + nothing());
}

fn request_update(requests: &mut Vec<ProvisionRequest>, switch: Option<bool>, kind: UpdateKind)
    ensures
        requests_view(final(requests)@) == requests_view(old(requests)@) + update_request(
            switch,
            kind,
        ),
{
    match switch {
        Some(true) => request(requests, ProvisionRequest::SystemUpdate(kind)),
        _ => keep(requests),
    }
}

fn request_flagged(requests: &mut Vec<ProvisionRequest>, flag: &Option<ToolFlag>, tool: Tool)
    ensures
        requests_view(final(requests)@) == requests_view(old(requests)@) + flag_request(
            *flag,
            tool@,
        ),
{
    let wanted = match flag {
        Some(ToolFlag::Switch(on)) => *on,
        Some(ToolFlag::Label(_)) => true,
        None => false,
    };
    if wanted {
        request(requests, ProvisionRequest::Tool(tool));
    } else {
        keep(requests);
    }
}

fn request_named(requests: &mut Vec<ProvisionRequest>, tool: Option<Tool>)
    ensures
        requests_view(final(requests)@) == requests_view(old(requests)@) + named_request(
            match tool {
                Some(t) => Some(t@),
                None => None,
            },
        ),
{
    match tool {
        Some(tool) => request(requests, ProvisionRequest::Tool(tool)),
        None => keep(requests),
    }
}

fn no_requests() -> (requests: Vec<ProvisionRequest>)
    ensures
        requests_view(requests@) == nothing(),
{
    let requests: Vec<ProvisionRequest> = Vec::new();
    assert(requests_view(requests@) =~= nothing());
    requests
}

/// The requests of the section `updates`.
pub fn target_updates(updates: &Option<Updates>) -> (requests: Vec<ProvisionRequest>)
    ensures
        requests_view(requests@) == update_requests(*updates),
{
    let mut requests = no_requests();
    match updates {
        None => {},
        Some(u) => {
            request_update(&mut requests, u.system, UpdateKind::System);
            request_update(&mut requests, u.dependencies, UpdateKind::Dependencies);
            request_update(&mut requests, u.cleanup, UpdateKind::Cleanup);
        },
    }
    requests
}

/// The requests of the section `tools`.
pub fn target_tools(tools: &Option<Tools>) -> (requests: Vec<ProvisionRequest>)
    ensures
        requests_view(requests@) == tool_requests(*tools),
{
    let mut requests = no_requests();
    match tools {
        None => {},
        Some(t) => {
            request_flagged(&mut requests, &t.brave_browser, Tool::BraveBrowser);
            request_flagged(&mut requests, &t.code, Tool::Code);
            request_flagged(&mut requests, &t.docker, Tool::Docker);
            request_named(
                &mut requests,
                match &t.docker_compose {
                    Some(d) => Some(Tool::DockerCompose { version: d.version.clone() }),
                    None => None,
                },
            );
            request_flagged(&mut requests, &t.gh, Tool::Gh);
            request_flagged(&mut requests, &t.git, Tool::Git);
            request_flagged(&mut requests, &t.google_chrome, Tool::GoogleChrome);
            request_named(
                &mut requests,
                match &t.node {
                    Some(n) => Some(Tool::Node { version: n.version.clone() }),
                    None => None,
                },
            );
            request_flagged(&mut requests, &t.rustc, Tool::Rustc);
            request_named(
                &mut requests,
                match &t.solana {
                    Some(s) => Some(Tool::Solana { version: s.version.clone() }),
                    None => None,
                },
            );
        },
    }
    requests
}

/// The requests of the section `keys`.
pub fn target_keys(keys: &Option<Keys>) -> (requests: Vec<ProvisionRequest>)
    ensures
        requests_view(requests@) == key_requests(*keys),
{
    let mut requests = no_requests();
    match keys {
        Some(Keys { ssh: Some(ssh) }) => {
            requests.push(
                ProvisionRequest::SshKey {
                    algorithm: ssh.algorithm.clone(),
                    email: ssh.email.clone(),
                    title: clone_opt_text(&ssh.title),
                },
            );
            assert(requests_view(requests@) =~= key_requests(*keys));
        },
        _ => {},
    }
    requests
}

/// The requests that a configuration stands for, in the order in which they
/// are to be dealt with.
pub fn requests_from_config(environment: &TargetEnvironment) -> (requests: Vec<ProvisionRequest>)
    ensures
        requests_view(requests@) == planned_requests(*environment),
{
    let mut requests = target_updates(&environment.updates);
    let mut tools = target_tools(&environment.tools);
    let mut keys = target_keys(&environment.keys);
    let ghost first = requests@;
    let ghost second = tools@;
    let ghost third = keys@;
    requests.append(&mut tools);
    requests.append(&mut keys);
    assert(requests_view(requests@) =~= requests_view(first) + requests_view(second)
        + requests_view(third));
    requests
}

/// The section that a request comes from: 0 for updates, 1 for tools, 2 for
/// keys.
pub open spec fn section_of(request: RequestView) -> int {
    match request {
        RequestView::SystemUpdate(_) => 0,
        RequestView::Tool(_) => 1,
        RequestView::SshKey { .. } => 2,
    }
}

/// Every request of a list comes from one section.
spec fn within_section(requests: Seq<RequestView>, section: int) -> bool {
    forall|n: int| 0 <= n < requests.len() ==> section_of(#[trigger] requests[n]) == section
}

proof fn lemma_within_concat(a: Seq<RequestView>, b: Seq<RequestView>, section: int)
    requires
        within_section(a, section),
        within_section(b, section),
    ensures
        within_section(a + b, section),
{
    assert forall|n: int| 0 <= n < (a + b).len() implies section_of(#[trigger] (a + b)[n])
        == section by {
        if n < a.len() {
            assert((a + b)[n] == a[n]);
        } else {
            assert((a + b)[n] == b[n - a.len()]);
        }
    }
}

proof fn lemma_updates_section(updates: Option<Updates>)
    ensures
        within_section(update_requests(updates), 0),
{
    match updates {
        None => {},
        Some(u) => {
            let a = nothing() + update_request(u.system, UpdateKind::System);
            lemma_within_concat(nothing(), update_request(u.system, UpdateKind::System), 0);
            let b = a + update_request(u.dependencies, UpdateKind::Dependencies);
            lemma_within_concat(a, update_request(u.dependencies, UpdateKind::Dependencies), 0);
            lemma_within_concat(b, update_request(u.cleanup, UpdateKind::Cleanup), 0);
        },
    }
}

proof fn lemma_tools_section(tools: Option<Tools>)
    ensures
        within_section(tool_requests(tools), 1),
{
    match tools {
        None => {},
        Some(t) => {
            let p0 = nothing();
            let x1 = flag_request(t.brave_browser, ToolView::BraveBrowser);
            let x2 = flag_request(t.code, ToolView::Code);
            let x3 = flag_request(t.docker, ToolView::Docker);
            let x4 = named_request(
                match t.docker_compose {
                    Some(d) => Some(ToolView::DockerCompose { version: d.version@ }),
                    None => None,
                },
            );
            let x5 = flag_request(t.gh, ToolView::Gh);
            let x6 = flag_request(t.git, ToolView::Git);
            let x7 = flag_request(t.google_chrome, ToolView::GoogleChrome);
            let x8 = named_request(
                match t.node {
                    Some(n) => Some(ToolView::Node { version: n.version@ }),
                    None => None,
                },
            );
            let x9 = flag_request(t.rustc, ToolView::Rustc);
            let x10 = named_request(
                match t.solana {
                    Some(s) => Some(ToolView::Solana { version: s.version@ }),
                    None => None,
                },
            );
            lemma_within_concat(p0, x1, 1);
            lemma_within_concat(p0 + x1, x2, 1);
            lemma_within_concat(p0 + x1 + x2, x3, 1);
            lemma_within_concat(p0 + x1 + x2 + x3, x4, 1);
            lemma_within_concat(p0 + x1 + x2 + x3 + x4, x5, 1);
            lemma_within_concat(p0 + x1 + x2 + x3 + x4 + x5, x6, 1);
            lemma_within_concat(p0 + x1 + x2 + x3 + x4 + x5 + x6, x7, 1);
            lemma_within_concat(p0 + x1 + x2 + x3 + x4 + x5 + x6 + x7, x8, 1);
            lemma_within_concat(p0 + x1 + x2 + x3 + x4 + x5 + x6 + x7 + x8, x9, 1);
            lemma_within_concat(p0 + x1 + x2 + x3 + x4 + x5 + x6 + x7 + x8 + x9, x10, 1);
        },
    }
}

/// In the requests of a configuration every update comes before every tool,
/// and every tool before the key.
pub proof fn lemma_sections_in_order(environment: TargetEnvironment, i: int, j: int)
    requires
        0 <= i <= j < planned_requests(environment).len(),
    ensures
        section_of(planned_requests(environment)[i]) <= section_of(
            planned_requests(environment)[j],
        ),
{
    let u = update_requests(environment.updates);
    let t = tool_requests(environment.tools);
    let k = key_requests(environment.keys);
    lemma_updates_section(environment.updates);
    lemma_tools_section(environment.tools);
    assert(within_section(k, 2));
    let all = u + t + k;
    assert forall|n: int| 0 <= n < all.len() implies section_of(#[trigger] all[n]) == (if n
        < u.len() {
        0int
    } else if n < u.len() + t.len() {
        1int
    } else {
        2int
    }) by {
        if n < u.len() {
            assert(all[n] == u[n]);
        } else if n < u.len() + t.len() {
            assert(all[n] == t[n - u.len()]);
        } else {
            assert(all[n] == k[n - u.len() - t.len()]);
        }
    }
}

} // verus!
