use vstd::prelude::*;

use crate::engine::{spec_engine_bin, Engine, EngineSource, DEFAULT_DSH_VERSION};
use crate::paths::{opt_view, path_with_node, spec_path_with_node};
use crate::text::strings_view;

verus! {

/// The line dsh web prints once it listens, e.g. `dsh web: http://127.0.0.1:50721`;
/// the first group is the address.
pub const URL_PATTERN: &'static str = "dsh web: (http://\\d+\\.\\d+\\.\\d+\\.\\d+:\\d+)";

/// The error when the engine's entry script is missing.
pub const NOT_INSTALLED_MESSAGE: &'static str = "dsh 未安装";

/// The error when dsh did not print its address in time.
pub const STARTUP_TIMEOUT_MESSAGE: &'static str = "启动超时: 30 秒内未获取到 dsh web 地址";

/// How long to wait for dsh to print its address, in milliseconds.
pub const STARTUP_TIMEOUT_MS: u64 = 30000;

/// How long to wait for old dsh processes to exit, in milliseconds.
pub const TERMINATION_WAIT_MS: u64 = 6000;

/// The pause between two looks for old dsh processes, in milliseconds.
pub const TERMINATION_POLL_MS: u64 = 200;

// ---------------------------------------------------------------------------
// The dsh web address
// ---------------------------------------------------------------------------

/// What the regex crate gives for `pattern` and `haystack`: compile the pattern with
/// `Regex::new`, take the leftmost-first match with `Regex::captures`, and the text of
/// its group 1 with `Captures::get(1)`; `None` when the pattern does not compile,
/// nothing matches, or group 1 did not take part in the match.
pub uninterp spec fn regex_group1(pattern: Seq<char>, haystack: Seq<char>) -> Option<Seq<char>>;

/// regex: the text of capture group 1 of the first match of `pattern` in `haystack`
/// (`Regex::new`, `Regex::captures`, `Captures::get`). The calls are made together because
/// a compiled `Regex` is opaque here: only their joint result, a function of the pattern
/// and the haystack, can be named. It is named `regex_group1`; nothing more is claimed.
#[verifier::external_body]
fn regex_first_group(pattern: &str, haystack: &str) -> (r: Option<String>)
    ensures
        opt_view(r) == regex_group1(pattern@, haystack@),
{
    regex::Regex::new(pattern).ok().and_then(
        |re| re.captures(haystack).and_then(|caps| caps.get(1)).map(|m| m.as_str().to_string()),
    )
}

/// The dsh web address announced in one line of dsh's output, if the line has one.
pub fn dsh_url_in_line(line: &str) -> (r: Option<String>)
    ensures
        opt_view(r) == regex_group1(URL_PATTERN@, line@),
{
    regex_first_group(URL_PATTERN, line)
}

/// What the start of dsh gives: the address dsh printed within the time limit, or
/// the timeout error when it printed none.
pub fn startup_result(url: Option<String>) -> (r: Result<String, String>)
    ensures
        match url {
            Some(u) => r matches Ok(v) && v@ == u@,
            None => r matches Err(m) && m@ == STARTUP_TIMEOUT_MESSAGE@,
        },
{
    match url {
        Some(u) => Ok(u),
        None => Err(STARTUP_TIMEOUT_MESSAGE.to_owned()),
    }
}

// ---------------------------------------------------------------------------
// The command that starts dsh web
// ---------------------------------------------------------------------------

/// A process to start: program, arguments, and the PATH to give it (when it
/// needs one other than the inherited PATH).
#[derive(Debug)]
pub struct LaunchPlan {
    pub program: String,
    pub args: Vec<String>,
    pub path_env: Option<String>,
}

/// The arguments that make dsh serve its web interface on a free port.
pub open spec fn web_args() -> Seq<Seq<char>> {
    seq!["--profile"@, "web"@, "--port"@, "0"@]
}

/// The npm package spec of dsh at `version`.
pub open spec fn spec_package_spec(version: Seq<char>) -> Seq<char> {
    "@deepseek-ai/dsh@"@ + version
}

/// `@deepseek-ai/dsh@<version>`.
pub fn dsh_package_spec(version: &str) -> (r: String)
    ensures
        r@ == spec_package_spec(version@),
{
    let mut s = "@deepseek-ai/dsh@".to_owned();
    s.append(version);
    s
}

fn push_web_args(args: &mut Vec<String>)
    ensures
        strings_view(final(args)@) == strings_view(old(args)@) + web_args(),
{
    let ghost before = strings_view(args@);
    args.push("--profile".to_owned());
    args.push("web".to_owned());
    args.push("--port".to_owned());
    args.push("0".to_owned());
    assert(strings_view(args@) =~= before + web_args());
}

/// How dsh web is started for `engine`. A global or private engine runs its entry
/// script on the system node (its native modules are built for that node) and needs
/// the entry script (`bin_exists` tells whether `engine.bin()` exists); an npx engine
/// runs the pinned default version through `npx --yes`, with the directories of node
/// and npx put first on PATH, so that npx's `#!/usr/bin/env node` finds that node. `existing_path` is the inherited PATH, if set.
pub fn launch_plan(
    engine: &Engine,
    node: &str,
    npx: &str,
    bin_exists: bool,
    existing_path: Option<String>,
) -> (r: Result<LaunchPlan, String>)
    ensures
        match engine.source {
            EngineSource::Npx => r matches Ok(p) && {
                &&& p.program@ == npx@
                &&& strings_view(p.args@) == seq!["--yes"@, spec_package_spec(DEFAULT_DSH_VERSION@)]
                    + web_args()
                &&& opt_view(p.path_env) == Some(
                    spec_path_with_node(node@, npx@, opt_view(existing_path)),
                )
            },
            _ => if bin_exists {
                r matches Ok(p) && {
                    &&& p.program@ == node@
                    &&& strings_view(p.args@) == seq![spec_engine_bin(engine.dir@, engine.source)]
                        + web_args()
                    &&& p.path_env is None
                }
            } else {
                r matches Err(m) && m@ == NOT_INSTALLED_MESSAGE@
            },
        },
{
    match engine.source {
        EngineSource::Npx => {
            let mut args: Vec<String> = Vec::new();
            args.push("--yes".to_owned());
            args.push(dsh_package_spec(DEFAULT_DSH_VERSION));
            push_web_args(&mut args);
            let path = path_with_node(node, npx, existing_path);
            Ok(LaunchPlan { program: npx.to_owned(), args, path_env: Some(path) })
        },
        _ => {
            if !bin_exists {
                return Err(NOT_INSTALLED_MESSAGE.to_owned());
            }
            let mut args: Vec<String> = Vec::new();
            args.push(engine.bin());
            push_web_args(&mut args);
            Ok(LaunchPlan { program: node.to_owned(), args, path_env: None })
        },
    }
}

/// `npm install --prefix <runtime> @deepseek-ai/dsh@<version> --loglevel=info`; the log
/// level is raised so that download and install progress reaches the user.
pub fn npm_install_args(runtime: &str, version: &str) -> (r: Vec<String>)
    ensures
        strings_view(r@) == seq![
            "install"@,
            "--prefix"@,
            runtime@,
            spec_package_spec(version@),
            "--loglevel=info"@,
        ],
{
    let mut r: Vec<String> = Vec::new();
    r.push("install".to_owned());
    r.push("--prefix".to_owned());
    r.push(runtime.to_owned());
    r.push(dsh_package_spec(version));
    r.push("--loglevel=info".to_owned());
    assert(strings_view(r@) =~= seq![
        "install"@,
        "--prefix"@,
        runtime@,
        spec_package_spec(version@),
        "--loglevel=info"@,
    ]);
    r
}

/// The engine to restart after an upgrade: the active engine, or else the private
/// runtime that was just installed into.
pub fn engine_after_upgrade(active: Option<Engine>, runtime: String) -> (r: Engine)
    ensures
        match active {
            Some(e) => r == e,
            None => r.dir@ == runtime@ && r.source == EngineSource::App,
        },
{
    match active {
        Some(e) => e,
        None => Engine { dir: runtime, source: EngineSource::App },
    }
}

// ---------------------------------------------------------------------------
// Waiting for old dsh servers to exit
// ---------------------------------------------------------------------------

/// What happened since the last step of the wait for old dsh servers.
#[derive(Debug)]
pub enum WaitEvent {
    /// The time elapsed since the wait began.
    Clock { elapsed_ms: u64 },
    /// The two process searches (npx-started servers, then servers started from
    /// `lib/bin.js`): `Some(found)` when the search ran, `None` when it could not.
    Searched { npx_servers: Option<bool>, entry_servers: Option<bool> },
}

/// What to do next while waiting for old dsh servers to exit.
#[derive(Debug, PartialEq, Eq, Structural)]
pub enum WaitAction {
    /// Search for remaining servers.
    Search,
    /// Pause, then read the clock again.
    Sleep { ms: u64 },
    /// Stop waiting.
    Done,
}

/// One step of the wait for old dsh servers to exit, so that the new instance does
/// not find the task-board ledger still owned by one of them: within the time limit,
/// search; while a search finds a server, pause and look again; stop once none is
/// found or the time is up. A search that could not run counts as finding nothing.
pub fn wait_dsh_terminated(event: WaitEvent) -> (r: WaitAction)
    ensures
        match event {
            WaitEvent::Clock { elapsed_ms } => if elapsed_ms < TERMINATION_WAIT_MS {
                r == WaitAction::Search
            } else {
                r == WaitAction::Done
            },
            WaitEvent::Searched { npx_servers, entry_servers } => if npx_servers == Some(true)
                || entry_servers == Some(true) {
                r == (WaitAction::Sleep { ms: TERMINATION_POLL_MS })
            } else {
                r == WaitAction::Done
            },
        },
{
    match event {
        WaitEvent::Clock { elapsed_ms } => {
            if elapsed_ms < TERMINATION_WAIT_MS {
                WaitAction::Search
            } else {
                WaitAction::Done
            }
        },
        WaitEvent::Searched { npx_servers, entry_servers } => {
            let a = match npx_servers {
                Some(f) => f,
                None => false,
            };
            let b = match entry_servers {
                Some(f) => f,
                None => false,
            };
            if a || b {
                WaitAction::Sleep { ms: TERMINATION_POLL_MS }
            } else {
                WaitAction::Done
            }
        },
    }
}

// ---------------------------------------------------------------------------
// Reusing a running instance
// ---------------------------------------------------------------------------

/// Whether a recorded instance is alive: its address answered with a success (2xx)
/// or redirection (3xx) status. `status` is `None` when the request failed.
pub fn instance_alive(status: Option<u16>) -> (r: bool)
    ensures
        r == (status matches Some(s) && 200 <= s && s <= 399),
{
    match status {
        Some(s) => 200 <= s && s <= 399,
        None => false,
    }
}

/// Where "reveal the engine" goes: the engine's directory in the file manager, or
/// the package's page on npm when there is no engine.
pub fn reveal_target(engine: Option<&Engine>) -> (r: String)
    ensures
        match engine {
            Some(e) => r@ == "file://"@ + e.dir@,
            None => r@ == "https://www.npmjs.com/package/@deepseek-ai/dsh"@,
        },
{
    match engine {
        Some(e) => {
            let mut s = "file://".to_owned();
            s.append(e.dir.as_str());
            s
        },
        None => "https://www.npmjs.com/package/@deepseek-ai/dsh".to_owned(),
    }
}

} // verus!
