//! Start-up: making sure the service's network, backup volume and proxy
//! exist before it serves requests. The decisions are a state machine; the
//! caller performs each action against Docker, prints the step's text, and
//! hands back what it found.

use crate::instance::text_of;
use crate::plans::PROXY_NAME;
use crate::text::text_eq;
use vstd::prelude::*;
use vstd::string::StringExecFns;

verus! {

/// What start-up asks the caller to do next.
#[derive(Debug, Clone, PartialEq, Eq)]
pub enum InitAction {
    /// Look for the service's network.
    CheckNetwork,
    /// Create the service's network.
    CreateNetwork,
    /// Look for the backup volume.
    CheckVolume,
    /// Create the backup volume.
    CreateVolume,
    /// Look for the proxy container.
    FindProxy,
    /// Start the existing proxy container with this name.
    StartProxy(String),
    /// Create the proxy container.
    CreateProxy,
    /// Start the proxy container just created.
    StartCreatedProxy,
    /// Nothing left: the service is ready.
    Ready,
}

/// What the caller found when it performed an action.
#[derive(Debug, Clone)]
pub enum InitOutcome {
    /// The result of a check: whether the thing looked for exists.
    Exists(bool),
    /// A create or start action completed.
    Done,
    /// The first proxy container found, if any.
    Proxy(Option<ProxyFacts>),
}

/// What start-up reads of the proxy container.
#[derive(Debug, Clone)]
pub struct ProxyFacts {
    /// Its state, as Docker reports it.
    pub state: Option<String>,
    /// Its first name, if it has one.
    pub first_name: Option<String>,
}

/// The next action, and the text to print before performing it.
#[derive(Debug, Clone)]
pub struct InitStep {
    pub action: InitAction,
    pub output: String,
}

/// An action as a mathematical value.
pub enum InitActionView {
    CheckNetwork,
    CreateNetwork,
    CheckVolume,
    CreateVolume,
    FindProxy,
    StartProxy(Seq<char>),
    CreateProxy,
    StartCreatedProxy,
    Ready,
}

impl View for InitAction {
    type V = InitActionView;

    open spec fn view(&self) -> InitActionView {
        match self {
            InitAction::CheckNetwork => InitActionView::CheckNetwork,
            InitAction::CreateNetwork => InitActionView::CreateNetwork,
            InitAction::CheckVolume => InitActionView::CheckVolume,
            InitAction::CreateVolume => InitActionView::CreateVolume,
            InitAction::FindProxy => InitActionView::FindProxy,
            InitAction::StartProxy(name) => InitActionView::StartProxy(name@),
            InitAction::CreateProxy => InitActionView::CreateProxy,
            InitAction::StartCreatedProxy => InitActionView::StartCreatedProxy,
            InitAction::Ready => InitActionView::Ready,
        }
    }
}

/// Whether a proxy in this state is running.
pub open spec fn proxy_running(state: Option<Seq<char>>) -> bool {
    state == Some("running"@)
}

/// Whether `outcome` is what performing `done` can yield: a check yields
/// whether the thing exists, a create or start yields completion, looking for
/// the proxy yields the proxy found, and a proxy found that is not running
/// has a name to start it by.
pub open spec fn outcome_fits(done: InitActionView, outcome: InitOutcome) -> bool {
    match done {
        InitActionView::CheckNetwork | InitActionView::CheckVolume => outcome is Exists,
        InitActionView::CreateNetwork
        | InitActionView::CreateVolume
        | InitActionView::StartProxy(_)
        | InitActionView::CreateProxy
        | InitActionView::StartCreatedProxy => outcome is Done,
        InitActionView::FindProxy => match outcome {
            InitOutcome::Proxy(Some(p)) => !proxy_running(text_of(p.state)) ==> p.first_name
                is Some,
            InitOutcome::Proxy(None) => true,
            _ => false,
        },
        InitActionView::Ready => false,
    }
}

/// The text that ends start-up.
pub open spec fn ready_text() -> Seq<char> {
    "READY! \u{1F680}\n"@
}

/// The step after `done` yielded `outcome`: the next action and the text to
/// print. A missing network, volume or proxy is created; a proxy that is not
/// running is started; start-up is ready once the proxy runs.
pub open spec fn next_step(done: InitActionView, outcome: InitOutcome) -> (InitActionView, Seq<
    char,
>) {
    match done {
        InitActionView::CheckNetwork => if outcome == InitOutcome::Exists(true) {
            (InitActionView::CheckVolume, "FOUND\nChecking for backup volume..."@)
        } else {
            (InitActionView::CreateNetwork, "MISSING\nCreating network..."@)
        },
        InitActionView::CreateNetwork => (
            InitActionView::CheckVolume,
            "DONE\nChecking for backup volume..."@,
        ),
        InitActionView::CheckVolume => if outcome == InitOutcome::Exists(true) {
            (InitActionView::FindProxy, "FOUND\nChecking for proxy..."@)
        } else {
            (InitActionView::CreateVolume, "MISSING\nCreating backup volume..."@)
        },
        InitActionView::CreateVolume => (InitActionView::FindProxy, "DONE\nChecking for proxy..."@),
        InitActionView::FindProxy => match outcome {
            InitOutcome::Proxy(Some(p)) => if proxy_running(text_of(p.state)) {
                (InitActionView::Ready, "FOUND\n"@ + ready_text())
            } else {
                (
                    InitActionView::StartProxy(text_of(p.first_name)->0),
                    "NOT RUNNING\nStarting proxy..."@,
                )
            },
            _ => (InitActionView::CreateProxy, "MISSING\nCreating proxy..."@),
        },
        InitActionView::StartProxy(_) => (InitActionView::Ready, "DONE;\n"@ + ready_text()),
        InitActionView::CreateProxy => (InitActionView::StartCreatedProxy, "DONE\nStarting proxy..."@),
        InitActionView::StartCreatedProxy => (InitActionView::Ready, "DONE\n"@ + ready_text()),
        InitActionView::Ready => (InitActionView::Ready, ""@),
    }
}

/// How many actions at most remain from an action until start-up is ready.
pub open spec fn remaining(action: InitActionView) -> nat {
    match action {
        InitActionView::CheckNetwork => 8,
        InitActionView::CreateNetwork => 7,
        InitActionView::CheckVolume => 6,
        InitActionView::CreateVolume => 5,
        InitActionView::FindProxy => 4,
        InitActionView::CreateProxy => 3,
        InitActionView::StartCreatedProxy => 2,
        InitActionView::StartProxy(_) => 1,
        InitActionView::Ready => 0,
    }
}

/// The first step: look for the network.
pub fn init_start() -> (step: InitStep)
    ensures
        step.action@ == InitActionView::CheckNetwork,
        step.output@ == "Checking for network..."@,
{
    InitStep { action: InitAction::CheckNetwork, output: String::from_str("Checking for network...") }
}

/// Whether a proxy in this state is running.
fn is_running(state: &Option<String>) -> (running: bool)
    ensures
        running == proxy_running(text_of(*state)),
{
    match state {
        Some(s) => text_eq(s.as_str(), "running"),
        None => false,
    }
}

/// The text that ends start-up, after `prefix`.
fn ready_after(prefix: &str) -> (text: String)
    ensures
        text@ == prefix@ + ready_text(),
{
    let mut text = String::from_str(prefix);
    text.append("READY! \u{1F680}\n");
    text
}

/// The step after `done` yielded `outcome` (see `next_step`).
pub fn init_step(done: &InitAction, outcome: InitOutcome) -> (step: InitStep)
    requires
        outcome_fits(done@, outcome),
    ensures
        (step.action@, step.output@) == next_step(done@, outcome),
{
    match done {
        InitAction::CheckNetwork => match outcome {
            InitOutcome::Exists(true) => InitStep {
                action: InitAction::CheckVolume,
                output: String::from_str("FOUND\nChecking for backup volume..."),
            },
            _ => InitStep {
                action: InitAction::CreateNetwork,
                output: String::from_str("MISSING\nCreating network..."),
            },
        },
        InitAction::CreateNetwork => InitStep {
            action: InitAction::CheckVolume,
            output: String::from_str("DONE\nChecking for backup volume..."),
        },
        InitAction::CheckVolume => match outcome {
            InitOutcome::Exists(true) => InitStep {
                action: InitAction::FindProxy,
                output: String::from_str("FOUND\nChecking for proxy..."),
            },
            _ => InitStep {
                action: InitAction::CreateVolume,
                output: String::from_str("MISSING\nCreating backup volume..."),
            },
        },
        InitAction::CreateVolume => InitStep {
            action: InitAction::FindProxy,
            output: String::from_str("DONE\nChecking for proxy..."),
        },
        InitAction::FindProxy => match outcome {
            InitOutcome::Proxy(Some(p)) => {
                if is_running(&p.state) {
                    InitStep { action: InitAction::Ready, output: ready_after("FOUND\n") }
                } else {
                    let name = match p.first_name {
                        Some(n) => n,
                        None => String::new(),  // not reached: a stopped proxy has a name
                    };
                    InitStep {
                        action: InitAction::StartProxy(name),
                        output: String::from_str("NOT RUNNING\nStarting proxy..."),
                    }
                }
            },
            _ => InitStep {
                action: InitAction::CreateProxy,
                output: String::from_str("MISSING\nCreating proxy..."),
            },
        },
        InitAction::StartProxy(_) => InitStep {
            action: InitAction::Ready,
            output: ready_after("DONE;\n"),
        },
        InitAction::CreateProxy => InitStep {
            action: InitAction::StartCreatedProxy,
            output: String::from_str("DONE\nStarting proxy..."),
        },
        InitAction::StartCreatedProxy => InitStep {
            action: InitAction::Ready,
            output: ready_after("DONE\n"),
        },
        InitAction::Ready => InitStep { action: InitAction::Ready, output: String::new() },
    }
}

/// The name under which a freshly created proxy is started.
pub fn created_proxy_name() -> (name: String)
    ensures
        name@ == PROXY_NAME@,
{
    String::from_str(PROXY_NAME)
}

/// Start-up always ends: every step brings it strictly closer to ready, so
/// it takes at most eight actions after the first.
pub proof fn lemma_init_progresses(done: InitActionView, outcome: InitOutcome)
    requires
        outcome_fits(done, outcome),
    ensures
        remaining(next_step(done, outcome).0) < remaining(done),
{
}

} // verus!
