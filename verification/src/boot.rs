use vstd::prelude::*;

use crate::engine::Engine;

verus! {

/// The answer to the interface when it asks for dsh: the address, or why there is none.
#[derive(Debug)]
pub enum DshStartup {
    Ready { url: String },
    /// The system lacks Node.js, so the engine can be neither installed nor run.
    NodeMissing,
    /// The engine is not installed yet; the user has to install it first.
    NotInstalled,
    /// dsh was started but did not become ready (timeout or exit).
    StartupFailed { message: String },
}

/// Which request is being served.
#[derive(Debug, Clone, Copy, PartialEq, Eq, Structural)]
pub enum BootFlow {
    /// Connect to dsh: reuse a running instance when there is one, else start one.
    Connect,
    /// Restart dsh: stop every instance, then start a fresh one.
    Restart,
}

/// What the application reports back after performing an action.
#[derive(Debug)]
pub enum BootEvent {
    /// The request begins.
    Begin,
    /// The child process and the recorded instance were stopped.
    InstancesStopped,
    /// Whether Node.js is usable.
    NodeChecked { available: bool },
    /// The recorded instance's address if it answered, `None` otherwise.
    LiveProbed { url: Option<String> },
    /// Whether this process's dsh child is still running, and the address cached for it.
    ChildInspected { running: bool, cached_url: Option<String> },
    /// The system node, or why it could not be resolved.
    NodeResolved { node: Result<String, String> },
    /// The engine to run, if there is one.
    EngineFound { engine: Option<Engine> },
    /// The address of the started dsh, or why it did not start.
    Launched { result: Result<String, String> },
}

/// What the application does next.
#[derive(Debug)]
pub enum BootAction {
    /// Stop this process's dsh child and the instance recorded in the live file.
    StopInstances,
    /// Check that Node.js is usable.
    CheckNode,
    /// Ask the recorded instance whether it is alive.
    ProbeLive,
    /// Look at this process's dsh child.
    InspectChild,
    /// Resolve the system node.
    ResolveNode,
    /// Pick the engine for this node.
    PickEngine { node: String },
    /// Resolve node and pick the engine in one go (the active engine).
    FindActiveEngine,
    /// Start dsh web with this engine.
    Launch { engine: Engine },
    /// Answer the interface; `remember_url` is an address to cache for this process.
    Reply { startup: DshStartup, remember_url: Option<String> },
    /// The event does not belong at this point of the request; nothing to do.
    Ignore,
}

/// One decision of a connect or restart request.
///
/// Connect: check node (missing: `NodeMissing`); reuse a recorded instance that is
/// alive; else return the address of this process's running child; else resolve
/// node (failure: `StartupFailed`), pick an engine (none: `NotInstalled`) and start it.
///
/// Restart: stop the child and the recorded instance; check node (missing:
/// `NodeMissing`); find the active engine (none: `NotInstalled`) and start it,
/// never reusing an instance.
pub fn boot_step(flow: BootFlow, event: BootEvent) -> (r: BootAction)
    ensures
        match (flow, event) {
            (BootFlow::Connect, BootEvent::Begin) => r is CheckNode,
            (BootFlow::Restart, BootEvent::Begin) => r is StopInstances,
            (BootFlow::Restart, BootEvent::InstancesStopped) => r is CheckNode,
            (_, BootEvent::NodeChecked { available }) => if !available {
                r matches BootAction::Reply { startup: DshStartup::NodeMissing, remember_url: None }
            } else if flow == BootFlow::Connect {
                r is ProbeLive
            } else {
                r is FindActiveEngine
            },
            (BootFlow::Connect, BootEvent::LiveProbed { url }) => match url {
                Some(u) => r matches BootAction::Reply {
                    startup: DshStartup::Ready { url: a },
                    remember_url: Some(b),
                } && a@ == u@ && b@ == u@,
                None => r is InspectChild,
            },
            (BootFlow::Connect, BootEvent::ChildInspected { running, cached_url }) => if running
                && cached_url is Some {
                r matches BootAction::Reply { startup: DshStartup::Ready { url: a }, remember_url: None }
                    && a@ == cached_url->0@
            } else {
                r is ResolveNode
            },
            (BootFlow::Connect, BootEvent::NodeResolved { node }) => match node {
                Ok(n) => r matches BootAction::PickEngine { node: m } && m@ == n@,
                Err(e) => r matches BootAction::Reply {
                    startup: DshStartup::StartupFailed { message: m },
                    remember_url: None,
                } && m@ == e@,
            },
            (_, BootEvent::EngineFound { engine }) => match engine {
                Some(e) => r matches BootAction::Launch { engine: x } && x == e,
                None => r matches BootAction::Reply {
                    startup: DshStartup::NotInstalled,
                    remember_url: None,
                },
            },
            (_, BootEvent::Launched { result }) => match result {
                Ok(u) => r matches BootAction::Reply {
                    startup: DshStartup::Ready { url: a },
                    remember_url: None,
                } && a@ == u@,
                Err(e) => r matches BootAction::Reply {
                    startup: DshStartup::StartupFailed { message: m },
                    remember_url: None,
                } && m@ == e@,
            },
            _ => r is Ignore,
        },
        flow == BootFlow::Restart ==> !(r is ProbeLive) && !(r is InspectChild),
        (flow == BootFlow::Connect && event matches BootEvent::LiveProbed { url: Some(_) }) ==> r is Reply,
{
    match event {
        BootEvent::Begin => match flow {
            BootFlow::Connect => BootAction::CheckNode,
            BootFlow::Restart => BootAction::StopInstances,
        },
        BootEvent::InstancesStopped => match flow {
            BootFlow::Restart => BootAction::CheckNode,
            BootFlow::Connect => BootAction::Ignore,
        },
        BootEvent::NodeChecked { available } => {
            if !available {
                BootAction::Reply { startup: DshStartup::NodeMissing, remember_url: None }
            } else {
                match flow {
                    BootFlow::Connect => BootAction::ProbeLive,
                    BootFlow::Restart => BootAction::FindActiveEngine,
                }
            }
        },
        BootEvent::LiveProbed { url } => match flow {
            BootFlow::Connect => match url {
                Some(u) => {
                    let remembered = u.clone();
                    BootAction::Reply {
                        startup: DshStartup::Ready { url: u },
                        remember_url: Some(remembered),
                    }
                },
                None => BootAction::InspectChild,
            },
            BootFlow::Restart => BootAction::Ignore,
        },
        BootEvent::ChildInspected { running, cached_url } => match flow {
            BootFlow::Connect => {
                if running {
                    match cached_url {
                        Some(u) => BootAction::Reply {
                            startup: DshStartup::Ready { url: u },
                            remember_url: None,
                        },
                        None => BootAction::ResolveNode,
                    }
                } else {
                    BootAction::ResolveNode
                }
            },
            BootFlow::Restart => BootAction::Ignore,
        },
        BootEvent::NodeResolved { node } => match flow {
            BootFlow::Connect => match node {
                Ok(n) => BootAction::PickEngine { node: n },
                Err(e) => BootAction::Reply {
                    startup: DshStartup::StartupFailed { message: e },
                    remember_url: None,
                },
            },
            BootFlow::Restart => BootAction::Ignore,
        },
        BootEvent::EngineFound { engine } => match engine {
            Some(e) => BootAction::Launch { engine: e },
            None => BootAction::Reply { startup: DshStartup::NotInstalled, remember_url: None },
        },
        BootEvent::Launched { result } => match result {
            Ok(u) => BootAction::Reply { startup: DshStartup::Ready { url: u }, remember_url: None },
            Err(e) => BootAction::Reply {
                startup: DshStartup::StartupFailed { message: e },
                remember_url: None,
            },
        },
    }
}

} // verus!
