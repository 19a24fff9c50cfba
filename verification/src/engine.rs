use vstd::prelude::*;

use crate::paths::{
    dsh_bin_path, dsh_package_dir, join_path, opt_view, package_entry, package_manifest,
    parent_path, path_join, path_parent, resolve_global_dsh, resolve_npx, spec_bin_js,
    spec_dsh_package, spec_global_dsh, spec_resolve_tool,
};

verus! {

/// The dsh version installed when the engine is first set up.
pub const DEFAULT_DSH_VERSION: &'static str = "0.1.0-rc.7";

/// The version shown for an engine whose version cannot be read.
pub const UNKNOWN_VERSION: &'static str = "未知";

/// The version of the engine (web view runtime) shown in the interface.
pub const ENGINE_VERSION: &'static str = "2";

// ---------------------------------------------------------------------------
// package.json
// ---------------------------------------------------------------------------

/// What `serde_json::from_str::<serde_json::Value>(text)`, then `Value::get(key)`, then
/// `Value::as_str` give: the string member `key` of the JSON object in `text`, if the
/// text parses, is an object, has that member, and the member is a string.
pub uninterp spec fn json_str_member(text: Seq<char>, key: Seq<char>) -> Option<Seq<char>>;

/// serde_json: parses `text` as a `serde_json::Value` (`serde_json::from_str`) and reads
/// the string member `key` (`Value::get`, `Value::as_str`). The three calls are made
/// together because a `Value` is opaque here: only their joint result, a function of
/// `text` and `key`, can be named. It is named `json_str_member`; nothing more is claimed.
#[verifier::external_body]
fn json_string_member(text: &str, key: &str) -> (r: Option<String>)
    ensures
        opt_view(r) == json_str_member(text@, key@),
{
    serde_json::from_str::<serde_json::Value>(text).ok().and_then(
        |v| v.get(key).and_then(|m| m.as_str()).map(String::from),
    )
}

/// The version recorded in a `package.json` whose contents are `contents`
/// (`None` when the file could not be read), `未知` when there is none.
pub open spec fn spec_read_pkg_version(contents: Option<Seq<char>>) -> Seq<char> {
    match contents {
        Some(t) => match json_str_member(t, "version"@) {
            Some(v) => v,
            None => UNKNOWN_VERSION@,
        },
        None => UNKNOWN_VERSION@,
    }
}

/// The `version` of a `package.json`, given its contents (`None` when the file
/// could not be read); `未知` when it cannot be read, is not JSON, or has no
/// string `version`.
pub fn read_pkg_version(contents: Option<&str>) -> (r: String)
    ensures
        r@ == spec_read_pkg_version(match contents {
            Some(t) => Some(t@),
            None => None,
        }),
{
    match contents {
        Some(t) => match json_string_member(t, "version") {
            Some(v) => v,
            None => UNKNOWN_VERSION.to_owned(),
        },
        None => UNKNOWN_VERSION.to_owned(),
    }
}

// ---------------------------------------------------------------------------
// Engines
// ---------------------------------------------------------------------------

/// Where a dsh engine comes from.
#[derive(Clone, Copy, Debug, PartialEq, Eq, Structural)]
pub enum EngineSource {
    /// A global npm install (`npm i -g @deepseek-ai/dsh`), reused as it is.
    Global,
    /// The copy in this application's private runtime directory.
    App,
    /// Available through `npx @deepseek-ai/dsh`; the fallback when nothing else is installed.
    Npx,
}

/// A dsh engine located on disk.
#[derive(Debug)]
pub struct Engine {
    /// The install location shown to the user (and revealed in the file manager).
    pub dir: String,
    pub source: EngineSource,
}

/// What the application could learn of an engine's `package.json`.
#[derive(Debug)]
pub enum ManifestRead {
    /// The file does not exist.
    Absent,
    /// The file exists but could not be read.
    Unreadable,
    /// The file's contents.
    Text(String),
}

pub open spec fn spec_engine_bin(dir: Seq<char>, source: EngineSource) -> Seq<char> {
    match source {
        EngineSource::Global => spec_bin_js(dir),
        EngineSource::App => spec_bin_js(spec_dsh_package(dir)),
        EngineSource::Npx => Seq::empty(),
    }
}

pub open spec fn spec_engine_manifest(dir: Seq<char>, source: EngineSource) -> Seq<char> {
    match source {
        EngineSource::App => path_join(spec_dsh_package(dir), "package.json"@),
        _ => path_join(dir, "package.json"@),
    }
}

pub open spec fn spec_engine_version(source: EngineSource, manifest: ManifestRead) -> Seq<char> {
    match manifest {
        ManifestRead::Text(t) => spec_read_pkg_version(Some(t@)),
        ManifestRead::Absent => if source == EngineSource::Npx {
            DEFAULT_DSH_VERSION@
        } else {
            UNKNOWN_VERSION@
        },
        ManifestRead::Unreadable => UNKNOWN_VERSION@,
    }
}

/// The label of an engine source shown in the version panel.
pub open spec fn spec_source_label(source: EngineSource) -> Seq<char> {
    match source {
        EngineSource::Global => "global"@,
        EngineSource::App => "app"@,
        EngineSource::Npx => "npx"@,
    }
}

impl Engine {
    /// The entry script `lib/bin.js` that node runs; empty for an npx engine,
    /// which is started through the `npx` command and has no fixed entry.
    pub fn bin(&self) -> (r: String)
        ensures
            r@ == spec_engine_bin(self.dir@, self.source),
    {
        match self.source {
            EngineSource::Global => package_entry(self.dir.as_str()),
            EngineSource::App => dsh_bin_path(self.dir.as_str()),
            EngineSource::Npx => String::new(),
        }
    }

    /// The `package.json` that records this engine's version.
    pub fn manifest(&self) -> (r: String)
        ensures
            r@ == spec_engine_manifest(self.dir@, self.source),
    {
        match self.source {
            EngineSource::App => {
                let pkg = dsh_package_dir(self.dir.as_str());
                package_manifest(pkg.as_str())
            },
            _ => package_manifest(self.dir.as_str()),
        }
    }

    /// The engine's version, given what was read of `self.manifest()`.
    /// An npx engine without a `package.json` runs the pinned default version.
    pub fn version(&self, manifest: &ManifestRead) -> (r: String)
        ensures
            r@ == spec_engine_version(self.source, *manifest),
            manifest matches ManifestRead::Text(t) ==> r@ == (match json_str_member(
                t@,
                "version"@,
            ) {
                Some(v) => v,
                None => UNKNOWN_VERSION@,
            }),
    {
        match manifest {
            ManifestRead::Text(t) => read_pkg_version(Some(t.as_str())),
            ManifestRead::Absent => {
                if self.source == EngineSource::Npx {
                    DEFAULT_DSH_VERSION.to_owned()
                } else {
                    UNKNOWN_VERSION.to_owned()
                }
            },
            ManifestRead::Unreadable => UNKNOWN_VERSION.to_owned(),
        }
    }

    /// The label of this engine's source.
    pub fn source_label(&self) -> (r: String)
        ensures
            r@ == spec_source_label(self.source),
    {
        match self.source {
            EngineSource::Global => "global".to_owned(),
            EngineSource::App => "app".to_owned(),
            EngineSource::Npx => "npx".to_owned(),
        }
    }
}

// ---------------------------------------------------------------------------
// The npx cache
// ---------------------------------------------------------------------------

/// The npx cache directory `~/.npm/_npx` for the home directory `home`.
pub open spec fn spec_npx_cache_root(home: Seq<char>) -> Seq<char> {
    path_join(path_join(home, ".npm"@), "_npx"@)
}

/// The npx cache directory `~/.npm/_npx`.
pub fn npx_cache_root(home: &str) -> (r: String)
    ensures
        r@ == spec_npx_cache_root(home@),
{
    let npm = join_path(home, ".npm");
    join_path(npm.as_str(), "_npx")
}

/// One entry of the npx cache directory, as listed by the application.
#[derive(Debug)]
pub struct NpxCacheEntry {
    /// The entry's path (`~/.npm/_npx/<hash>`).
    pub path: String,
    /// Whether `package.json` exists in `dsh_package_dir(path)`.
    pub has_dsh_manifest: bool,
}

/// The first cached dsh package in listing order; otherwise the cache root itself
/// when it exists; otherwise nothing.
pub open spec fn spec_npx_engine_dir(root: Seq<char>, entries: Seq<NpxCacheEntry>, root_exists: bool) -> Option<
    Seq<char>,
> {
    if exists|i: int| 0 <= i < entries.len() && #[trigger] entries[i].has_dsh_manifest {
        let i = choose|i: int|
            0 <= i < entries.len() && #[trigger] entries[i].has_dsh_manifest && forall|j: int|
                0 <= j < i ==> !(#[trigger] entries[j].has_dsh_manifest);
        Some(spec_dsh_package(entries[i].path@))
    } else if root_exists {
        Some(root)
    } else {
        None
    }
}

/// Where an engine that was run with `npx @deepseek-ai/dsh` lives: the first cached
/// package `<entry>/node_modules/@deepseek-ai/dsh` that has a `package.json`, in the
/// order the cache directory was listed; else the cache root `root` if it exists.
pub fn resolve_npx_engine_dir(root: &str, entries: &Vec<NpxCacheEntry>, root_exists: bool) -> (r:
    Option<String>)
    ensures
        opt_view(r) == spec_npx_engine_dir(root@, entries@, root_exists),
{
    let mut i: usize = 0;
    while i < entries.len()
        invariant
            i <= entries@.len(),
            forall|j: int| 0 <= j < i ==> !(#[trigger] entries@[j].has_dsh_manifest),
        decreases entries@.len() - i,
    {
        if entries[i].has_dsh_manifest {
            let r = dsh_package_dir(entries[i].path.as_str());
            proof {
                let k = choose|k: int|
                    0 <= k < entries@.len() && #[trigger] entries@[k].has_dsh_manifest && forall|
                        j: int,
                    |
                        0 <= j < k ==> !(#[trigger] entries@[j].has_dsh_manifest);
                assert(entries@[i as int].has_dsh_manifest);
                if k < i {
                } else if k > i {
                    assert(!entries@[i as int].has_dsh_manifest);
                }
                assert(k == i);
            }
            return Some(r);
        }
        i = i + 1;
    }
    if root_exists {
        Some(root.to_owned())
    } else {
        None
    }
}

// ---------------------------------------------------------------------------
// Choosing the engine
// ---------------------------------------------------------------------------

/// What the application found on disk for `pick_engine`.
#[derive(Debug)]
pub struct EngineProbe {
    /// Whether `lib/bin.js` exists inside `global_dsh_candidate(node)`.
    pub global_entry_exists: bool,
    /// The private runtime directory, `None` when the data directory is unavailable.
    pub runtime: Option<String>,
    /// Whether `dsh_bin_path(runtime)` exists.
    pub runtime_entry_exists: bool,
    /// Whether `sibling_tool(node, "npx")` exists.
    pub npx_sibling_exists: bool,
    /// Whether the file `resolve_npx(node, npx_sibling_exists)` exists.
    pub npx_exists: bool,
    /// The home directory (empty when unknown).
    pub home: String,
    /// `resolve_npx_engine_dir` for the npx cache under `home`.
    pub npx_engine_dir: Option<String>,
}

/// The directory shown for an npx engine: the cached package or cache root when
/// known, else the directory of `npx`, else the home directory.
pub open spec fn spec_npx_display_dir(npx: Seq<char>, p: EngineProbe) -> Seq<char> {
    match p.npx_engine_dir {
        Some(d) => d@,
        None => match path_parent(npx) {
            Some(d) => d,
            None => p.home@,
        },
    }
}

/// Engine choice: a global npm install first, then the private runtime (when the
/// data directory is known and the runtime holds the entry script), then npx.
pub open spec fn spec_pick_engine(node: Seq<char>, p: EngineProbe) -> Option<(Seq<char>, EngineSource)> {
    match (if p.global_entry_exists {
        spec_global_dsh(node)
    } else {
        None
    }) {
        Some(g) => Some((g, EngineSource::Global)),
        None => match p.runtime {
            Some(rt) if p.runtime_entry_exists => Some((rt@, EngineSource::App)),
            _ => if p.npx_exists {
                Some(
                    (
                        spec_npx_display_dir(
                            spec_resolve_tool(node, "npx"@, p.npx_sibling_exists),
                            p,
                        ),
                        EngineSource::Npx,
                    ),
                )
            } else {
                None
            },
        },
    }
}

pub open spec fn engine_view(e: Option<Engine>) -> Option<(Seq<char>, EngineSource)> {
    match e {
        Some(e) => Some((e.dir@, e.source)),
        None => None,
    }
}

/// Picks the engine to use: a global npm install first, then this application's
/// private runtime, finally npx; `None` only when none of them is available. An
/// unknown data directory only rules out the private runtime.
pub fn pick_engine(node: &str, probe: &EngineProbe) -> (r: Option<Engine>)
    ensures
        engine_view(r) == spec_pick_engine(node@, *probe),
{
    match resolve_global_dsh(node, probe.global_entry_exists) {
        Some(g) => {
            return Some(Engine { dir: g, source: EngineSource::Global });
        },
        None => {},
    }
    match &probe.runtime {
        Some(rt) => if probe.runtime_entry_exists {
            return Some(Engine { dir: rt.clone(), source: EngineSource::App });
        },
        None => {},
    }
    let npx = resolve_npx(node, probe.npx_sibling_exists);
    if probe.npx_exists {
        let dir = match &probe.npx_engine_dir {
            Some(d) => d.clone(),
            None => match parent_path(npx.as_str()) {
                Some(d) => d,
                None => probe.home.clone(),
            },
        };
        return Some(Engine { dir, source: EngineSource::Npx });
    }
    None
}

// ---------------------------------------------------------------------------
// Version panel
// ---------------------------------------------------------------------------

/// Versions and engine details shown in the version panel.
#[derive(Debug)]
pub struct VersionInfo {
    pub app_version: String,
    pub engine_version: String,
    pub dsh_version: String,
    pub platform: String,
    /// `global`, `app`, `npx`, or `none`.
    pub engine_source: String,
    /// Where the engine is: the running instance's address while one answers, the
    /// install directory otherwise; empty when there is no engine.
    pub engine_address: String,
}

/// Assembles the version panel: `engine` is the active engine with its version
/// (as `Engine::version` gives it), if there is one; `live_url` is the address of the
/// running dsh instance when one answers. The engine's address is that instance's
/// address while it runs, else the install directory.
pub fn build_version_info(
    app_version: String,
    platform: String,
    engine: Option<(Engine, String)>,
    live_url: Option<String>,
) -> (r: VersionInfo)
    ensures
        r.app_version@ == app_version@,
        r.engine_version@ == ENGINE_VERSION@,
        r.platform@ == platform@,
        match engine {
            Some((e, v)) => {
                &&& r.dsh_version@ == v@
                &&& r.engine_source@ == spec_source_label(e.source)
                &&& r.engine_address@ == (match live_url {
                    Some(u) => u@,
                    None => e.dir@,
                })
            },
            None => {
                &&& r.dsh_version@ == UNKNOWN_VERSION@
                &&& r.engine_source@ == "none"@
                &&& r.engine_address@ == Seq::<char>::empty()
            },
        },
{
    let (source, address, ver) = match engine {
        Some((e, v)) => {
            let label = e.source_label();
            let address = match live_url {
                Some(u) => u,
                None => e.dir,
            };
            (label, address, v)
        },
        None => ("none".to_owned(), String::new(), UNKNOWN_VERSION.to_owned()),
    };
    VersionInfo {
        app_version,
        engine_version: ENGINE_VERSION.to_owned(),
        dsh_version: ver,
        platform,
        engine_source: source,
        engine_address: address,
    }
}

/// Engine priority: a global npm install is used whenever it is present; the private
/// runtime whenever there is no global install and its entry script is present; npx
/// exactly when neither is present and npx itself exists (whether or not the data
/// directory is known); nothing only when npx is missing too.
pub proof fn law_engine_priority(node: Seq<char>, p: EngineProbe)
    ensures
        (p.global_entry_exists && spec_global_dsh(node) is Some) ==> (spec_pick_engine(node, p)
            matches Some((_, s)) && s == EngineSource::Global),
        (!(p.global_entry_exists && spec_global_dsh(node) is Some) && p.runtime is Some
            && p.runtime_entry_exists) ==> (spec_pick_engine(node, p) matches Some((_, s)) && s
            == EngineSource::App),
        spec_pick_engine(node, p) matches Some((_, s)) && s == EngineSource::Npx ==> {
            &&& p.npx_exists
            &&& !(p.runtime is Some && p.runtime_entry_exists)
            &&& !(p.global_entry_exists && spec_global_dsh(node) is Some)
        },
        (!(p.global_entry_exists && spec_global_dsh(node) is Some) && !(p.runtime is Some
            && p.runtime_entry_exists) && p.npx_exists) ==> (spec_pick_engine(node, p) matches Some(
            (_, s),
        ) && s == EngineSource::Npx),
        spec_pick_engine(node, p) is None ==> !p.npx_exists,
{
}

/// An engine's version comes from what was read of its `package.json`: when the file
/// was read, it is the string member `version` of the text (`未知` without one), the
/// same for every kind of engine; an unreadable file gives `未知`; a missing file gives
/// the pinned default version for an npx engine and `未知` for the others.
pub proof fn law_engine_version_from_manifest(source: EngineSource, t: String)
    ensures
        spec_engine_version(source, ManifestRead::Text(t)) == (match json_str_member(
            t@,
            "version"@,
        ) {
            Some(v) => v,
            None => UNKNOWN_VERSION@,
        }),
        forall|other: EngineSource|
            #![trigger spec_engine_version(other, ManifestRead::Text(t))]
            spec_engine_version(other, ManifestRead::Text(t)) == spec_engine_version(
                source,
                ManifestRead::Text(t),
            ),
        spec_engine_version(source, ManifestRead::Unreadable) == UNKNOWN_VERSION@,
        spec_engine_version(source, ManifestRead::Absent) == (if source == EngineSource::Npx {
            DEFAULT_DSH_VERSION@
        } else {
            UNKNOWN_VERSION@
        }),
{
}

} // verus!
