use vstd::prelude::*;

use crate::text::{all_white_space, join_strings, join_with, strings_view, trims_to_empty};

verus! {

// ---------------------------------------------------------------------------
// Paths are carried as strings. Joining and taking the parent are std's
// `Path::join` and `Path::parent`; their results are named here, and the
// library's own path logic is stated over these names.
// ---------------------------------------------------------------------------

/// What std's `Path::join` gives for `base` and `part` (as a string), under the path
/// rules of the platform the library is built for.
pub uninterp spec fn path_join(base: Seq<char>, part: Seq<char>) -> Seq<char>;

/// What std's `Path::parent` gives for `p` (as a string), under the path rules of the
/// platform the library is built for.
pub uninterp spec fn path_parent(p: Seq<char>) -> Option<Seq<char>>;

/// The view of an optional string.
pub open spec fn opt_view(o: Option<String>) -> Option<Seq<char>> {
    match o {
        Some(s) => Some(s@),
        None => None,
    }
}

/// std's `Path::join`: `part` adjoined to `base`. The result is named `path_join`
/// of the two strings; nothing more is claimed of it. A path built from `&str`
/// is valid UTF-8, so the conversion back to `String` loses nothing.
#[verifier::external_body]
pub(crate) fn join_path(base: &str, part: &str) -> (r: String)
    ensures
        r@ == path_join(base@, part@),
{
    std::path::Path::new(base).join(part).to_string_lossy().into_owned()
}

/// std's `Path::parent`: the path without its final component, `None` when there is
/// none. The result is named `path_parent` of the input; nothing more is claimed.
#[verifier::external_body]
pub(crate) fn parent_path(p: &str) -> (r: Option<String>)
    ensures
        opt_view(r) == path_parent(p@),
{
    std::path::Path::new(p).parent().map(|d| d.to_string_lossy().into_owned())
}

// ---------------------------------------------------------------------------
// Well-known locations
// ---------------------------------------------------------------------------

pub open spec fn spec_dsh_package(base: Seq<char>) -> Seq<char> {
    path_join(path_join(path_join(base, "node_modules"@), "@deepseek-ai"@), "dsh"@)
}

pub open spec fn spec_bin_js(pkg: Seq<char>) -> Seq<char> {
    path_join(path_join(pkg, "lib"@), "bin.js"@)
}

/// The `@deepseek-ai/dsh` package directory under `base/node_modules`.
pub fn dsh_package_dir(base: &str) -> (r: String)
    ensures
        r@ == spec_dsh_package(base@),
{
    let a = join_path(base, "node_modules");
    let b = join_path(a.as_str(), "@deepseek-ai");
    join_path(b.as_str(), "dsh")
}

/// The entry script `lib/bin.js` of a dsh package directory.
pub fn package_entry(pkg: &str) -> (r: String)
    ensures
        r@ == spec_bin_js(pkg@),
{
    let a = join_path(pkg, "lib");
    join_path(a.as_str(), "bin.js")
}

/// The dsh entry script inside a per-user runtime directory.
pub fn dsh_bin_path(runtime: &str) -> (r: String)
    ensures
        r@ == spec_bin_js(spec_dsh_package(runtime@)),
{
    let pkg = dsh_package_dir(runtime);
    package_entry(pkg.as_str())
}

/// The per-user runtime directory inside the application data directory.
pub fn runtime_dir(data_dir: &str) -> (r: String)
    ensures
        r@ == path_join(data_dir@, "dsh-runtime"@),
{
    join_path(data_dir, "dsh-runtime")
}

/// The file that records the last running dsh instance, inside the data directory.
pub fn live_file(data_dir: &str) -> (r: String)
    ensures
        r@ == path_join(data_dir@, "dsh-live.json"@),
{
    join_path(data_dir, "dsh-live.json")
}

/// The `package.json` of a package directory.
pub fn package_manifest(pkg: &str) -> (r: String)
    ensures
        r@ == path_join(pkg@, "package.json"@),
{
    join_path(pkg, "package.json")
}

// ---------------------------------------------------------------------------
// Tools that ship next to node
// ---------------------------------------------------------------------------

/// The path of `tool` in the directory of `node`, if `node` has a parent.
pub open spec fn spec_sibling(node: Seq<char>, tool: Seq<char>) -> Option<Seq<char>> {
    match path_parent(node) {
        Some(dir) => Some(path_join(dir, tool)),
        None => None,
    }
}

/// A tool next to node when that file exists, the bare tool name otherwise.
pub open spec fn spec_resolve_tool(node: Seq<char>, tool: Seq<char>, sibling_exists: bool) -> Seq<
    char,
> {
    match spec_sibling(node, tool) {
        Some(p) => if sibling_exists {
            p
        } else {
            tool
        },
        None => tool,
    }
}

/// The path of `tool` in the same directory as `node` (`None` when `node` has no parent).
pub fn sibling_tool(node: &str, tool: &str) -> (r: Option<String>)
    ensures
        opt_view(r) == spec_sibling(node@, tool@),
{
    match parent_path(node) {
        Some(dir) => Some(join_path(dir.as_str(), tool)),
        None => None,
    }
}

fn resolve_tool(node: &str, tool: &str, sibling_exists: bool) -> (r: String)
    ensures
        r@ == spec_resolve_tool(node@, tool@, sibling_exists),
{
    match sibling_tool(node, tool) {
        Some(p) => if sibling_exists {
            p
        } else {
            tool.to_owned()
        },
        None => tool.to_owned(),
    }
}

/// The npm shipped next to `node`. `sibling_exists` tells whether the file
/// `sibling_tool(node, "npm")` exists; without it the bare `npm` is used.
pub fn resolve_npm(node: &str, sibling_exists: bool) -> (r: String)
    ensures
        r@ == spec_resolve_tool(node@, "npm"@, sibling_exists),
{
    resolve_tool(node, "npm", sibling_exists)
}

/// The npx shipped next to `node`. `sibling_exists` tells whether the file
/// `sibling_tool(node, "npx")` exists; without it the bare `npx` is used.
pub fn resolve_npx(node: &str, sibling_exists: bool) -> (r: String)
    ensures
        r@ == spec_resolve_tool(node@, "npx"@, sibling_exists),
{
    resolve_tool(node, "npx", sibling_exists)
}

// ---------------------------------------------------------------------------
// A global npm install of dsh
// ---------------------------------------------------------------------------

/// Where a global npm install puts dsh for this node: two levels above the node
/// binary, then `lib/node_modules/@deepseek-ai/dsh`.
pub open spec fn spec_global_dsh(node: Seq<char>) -> Option<Seq<char>> {
    match path_parent(node) {
        Some(d1) => match path_parent(d1) {
            Some(d2) => Some(spec_dsh_package(path_join(d2, "lib"@))),
            None => None,
        },
        None => None,
    }
}

/// The directory a global npm install of dsh would occupy for this node.
pub fn global_dsh_candidate(node: &str) -> (r: Option<String>)
    ensures
        opt_view(r) == spec_global_dsh(node@),
{
    match parent_path(node) {
        Some(d1) => match parent_path(d1.as_str()) {
            Some(d2) => {
                let lib = join_path(d2.as_str(), "lib");
                Some(dsh_package_dir(lib.as_str()))
            },
            None => None,
        },
        None => None,
    }
}

/// The globally installed dsh package, if any. `entry_exists` tells whether
/// `lib/bin.js` exists inside `global_dsh_candidate(node)`.
pub fn resolve_global_dsh(node: &str, entry_exists: bool) -> (r: Option<String>)
    ensures
        opt_view(r) == (if entry_exists {
            spec_global_dsh(node@)
        } else {
            None
        }),
{
    let pkg = global_dsh_candidate(node);
    if entry_exists {
        pkg
    } else {
        None
    }
}

// ---------------------------------------------------------------------------
// PATH for child processes
// ---------------------------------------------------------------------------

/// The distinct parent directories of `node` and `npm`, in that order.
pub open spec fn spec_node_dirs(node: Seq<char>, npm: Seq<char>) -> Seq<Seq<char>> {
    let first = match path_parent(node) {
        Some(d) => seq![d],
        None => Seq::<Seq<char>>::empty(),
    };
    match path_parent(npm) {
        Some(d) => if first.contains(d) {
            first
        } else {
            first.push(d)
        },
        None => first,
    }
}

/// The PATH for a child process: the directories of `node` and `npm` joined with `:`,
/// then the inherited PATH (`existing`) unless it is absent or blank.
pub open spec fn spec_path_with_node(node: Seq<char>, npm: Seq<char>, existing: Option<Seq<char>>) -> Seq<
    char,
> {
    let front = join_with(spec_node_dirs(node, npm), ":"@);
    match existing {
        Some(e) => if all_white_space(e) {
            front
        } else if front.len() == 0 {
            e
        } else {
            front + ":"@ + e
        },
        None => front,
    }
}

/// A PATH that puts the directories of `node` and `npm` first, so that scripts
/// starting with `#!/usr/bin/env node` find node even when the application was
/// started with a minimal PATH. `existing` is the inherited PATH, if it is set.
pub fn path_with_node(node: &str, npm: &str, existing: Option<String>) -> (r: String)
    ensures
        r@ == spec_path_with_node(node@, npm@, opt_view(existing)),
{
    let mut dirs: Vec<String> = Vec::new();
    let d1 = parent_path(node);
    let d2 = parent_path(npm);
    match d1 {
        Some(d) => dirs.push(d),
        None => {},
    }
    let ghost first = strings_view(dirs@);
    assert(first =~= match path_parent(node@) {
        Some(d) => seq![d],
        None => Seq::<Seq<char>>::empty(),
    });
    match d2 {
        Some(d) => {
            let mut dup = false;
            if dirs.len() > 0 {
                dup = dirs[0] == d;
            }
            proof {
                if first.contains(d@) {
                    let k = choose|k: int| 0 <= k < first.len() && first[k] == d@;
                    assert(k == 0);
                }
            }
            assert(dup == first.contains(d@)) by {
                if dirs@.len() > 0 {
                    assert(first[0] == dirs@[0]@);
                }
                if dup {
                    assert(first[0] == d@);
                }
            }
            let ghost dv = d@;
            if !dup {
                dirs.push(d);
                assert(strings_view(dirs@) =~= first.push(dv));
            }
        },
        None => {},
    }
    proof {
        assert(strings_view(dirs@) =~= spec_node_dirs(node@, npm@));
    }
    let mut path = join_strings(&dirs, ":");
    match existing {
        Some(e) => {
            if !trims_to_empty(e.as_str()) {
                if !path.as_str().is_empty() {
                    path.append(":");
                }
                path.append(e.as_str());
            }
        },
        None => {},
    }
    path
}

/// The directories put in front of PATH are distinct, at most the two of node and npm.
pub proof fn law_node_dirs_distinct(node: Seq<char>, npm: Seq<char>)
    ensures
        spec_node_dirs(node, npm).no_duplicates(),
        spec_node_dirs(node, npm).len() <= 2,
{
}

/// A non-blank inherited PATH is kept whole, after the directories of node and npm.
pub proof fn law_path_keeps_inherited(node: Seq<char>, npm: Seq<char>, inherited: Seq<char>)
    requires
        !all_white_space(inherited),
    ensures
        ({
            let p = spec_path_with_node(node, npm, Some(inherited));
            let front = join_with(spec_node_dirs(node, npm), ":"@);
            &&& p.len() >= inherited.len()
            &&& p.subrange(p.len() - inherited.len(), p.len() as int) == inherited
            &&& p.subrange(0, front.len() as int) == front
        }),
{
    let p = spec_path_with_node(node, npm, Some(inherited));
    let front = join_with(spec_node_dirs(node, npm), ":"@);
    if front.len() == 0 {
        assert(p.subrange(0, 0) =~= front);
        assert(p.subrange(p.len() - inherited.len(), p.len() as int) =~= inherited);
    } else {
        assert(p =~= front + ":"@ + inherited);
        assert(p.subrange(p.len() - inherited.len(), p.len() as int) =~= inherited);
        assert(p.subrange(0, front.len() as int) =~= front);
    }
}

} // verus!
