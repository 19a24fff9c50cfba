use vstd::prelude::*;

use crate::paths::{join_path, opt_view, path_join};
use crate::text::{
    lemma_str_lt_asymmetric, lemma_str_lt_transitive, str_less, str_lt, strings_view,
};
use crate::version::{version_numbers, version_parts};

verus! {

// ---------------------------------------------------------------------------
// The order of nvm versions
// ---------------------------------------------------------------------------

/// Component `i` (major, minor, patch) of a version name as `version_parts` reads it,
/// 0 when the name has fewer components.
pub open spec fn version_component(name: Seq<char>, i: int) -> int {
    let p = version_parts(name);
    if 0 <= i < p.len() {
        p[i]
    } else {
        0
    }
}

/// Lexicographic "less than" on the components from index `i` on.
pub open spec fn components_lt(a: Seq<char>, b: Seq<char>, i: int) -> bool
    decreases 3 - i,
{
    if i >= 3 || i < 0 {
        false
    } else if version_component(a, i) != version_component(b, i) {
        version_component(a, i) < version_component(b, i)
    } else {
        components_lt(a, b, i + 1)
    }
}

/// The two names have the same major, minor and patch.
pub open spec fn same_components(a: Seq<char>, b: Seq<char>) -> bool {
    forall|i: int| 0 <= i < 3 ==> #[trigger] version_component(a, i) == version_component(b, i)
}

/// `a` is an older nvm version than `b`: a smaller major.minor.patch; names with the
/// same numbers are ordered as strings, so that the order is total.
pub open spec fn nvm_older(a: Seq<char>, b: Seq<char>) -> bool {
    components_lt(a, b, 0) || (same_components(a, b) && str_lt(a, b))
}

/// Newest version first.
pub open spec fn newest_first(s: Seq<Seq<char>>) -> bool {
    forall|i: int, j: int| 0 <= i < j < s.len() ==> !nvm_older(#[trigger] s[i], #[trigger] s[j])
}

proof fn lemma_components_lt_asymmetric(a: Seq<char>, b: Seq<char>, i: int)
    ensures
        components_lt(a, b, i) ==> !components_lt(b, a, i),
    decreases 3 - i,
{
    if 0 <= i < 3 {
        lemma_components_lt_asymmetric(a, b, i + 1);
    }
}

proof fn lemma_components_lt_transitive(a: Seq<char>, b: Seq<char>, c: Seq<char>, i: int)
    requires
        components_lt(a, b, i),
        components_lt(b, c, i),
    ensures
        components_lt(a, c, i),
    decreases 3 - i,
{
    if 0 <= i < 3 && version_component(a, i) == version_component(b, i) && version_component(
        b,
        i,
    ) == version_component(c, i) {
        lemma_components_lt_transitive(a, b, c, i + 1);
    }
}

proof fn lemma_components_same(a: Seq<char>, b: Seq<char>, c: Seq<char>, i: int)
    requires
        same_components(b, c),
    ensures
        components_lt(a, b, i) == components_lt(a, c, i),
        components_lt(b, a, i) == components_lt(c, a, i),
        !components_lt(b, c, i),
    decreases 3 - i,
{
    if 0 <= i < 3 {
        assert(version_component(b, i) == version_component(c, i));
        lemma_components_same(a, b, c, i + 1);
    }
}

/// No version is older than itself, and of two versions at most one is older.
pub proof fn law_nvm_order_asymmetric(a: Seq<char>, b: Seq<char>)
    ensures
        !nvm_older(a, a),
        nvm_older(a, b) ==> !nvm_older(b, a),
{
    lemma_components_lt_asymmetric(a, b, 0);
    lemma_components_same(a, a, a, 0);
    lemma_str_lt_asymmetric(a, b);
    lemma_str_lt_asymmetric(a, a);
    if same_components(a, b) {
        lemma_components_same(b, a, b, 0);
        lemma_components_same(a, a, b, 0);
    }
    if same_components(b, a) {
        assert(same_components(a, b));
    }
}

/// Older-than is transitive.
pub proof fn law_nvm_order_transitive(a: Seq<char>, b: Seq<char>, c: Seq<char>)
    requires
        nvm_older(a, b),
        nvm_older(b, c),
    ensures
        nvm_older(a, c),
{
    if components_lt(a, b, 0) && components_lt(b, c, 0) {
        lemma_components_lt_transitive(a, b, c, 0);
    } else if components_lt(a, b, 0) {
        lemma_components_same(a, b, c, 0);
    } else if components_lt(b, c, 0) {
        assert(same_components(b, a));
        lemma_components_same(c, b, a, 0);
    } else {
        lemma_str_lt_transitive(a, b, c);
        assert(same_components(a, c));
    }
}

/// Whether the nvm version named `a` is older than the one named `b`.
pub fn nvm_older_than(a: &str, b: &str) -> (r: bool)
    ensures
        r == nvm_older(a@, b@),
{
    let pa = version_numbers(a);
    let pb = version_numbers(b);
    let mut i: usize = 0;
    while i < 3
        invariant
            i <= 3,
            pa@.map_values(|x: i32| x as int) == version_parts(a@),
            pb@.map_values(|x: i32| x as int) == version_parts(b@),
            components_lt(a@, b@, 0) == components_lt(a@, b@, i as int),
            forall|j: int| 0 <= j < i ==> #[trigger] version_component(a@, j) == version_component(b@, j),
        decreases 3 - i,
    {
        let ca: i32 = if i < pa.len() {
            pa[i]
        } else {
            0
        };
        let cb: i32 = if i < pb.len() {
            pb[i]
        } else {
            0
        };
        assert(version_component(a@, i as int) == ca as int);
        assert(version_component(b@, i as int) == cb as int);
        if ca != cb {
            assert(!same_components(a@, b@));
            return ca < cb;
        }
        i = i + 1;
    }
    proof {
        assert(same_components(a@, b@));
        lemma_components_same(a@, b@, b@, 0);
        lemma_components_same(b@, b@, b@, 0);
    }
    str_less(a, b)
}

/// The version names, newest first (what the nvm directory listing is tried in).
pub fn sort_newest_first(v: Vec<String>) -> (r: Vec<String>)
    ensures
        strings_view(r@).to_multiset() == strings_view(v@).to_multiset(),
        newest_first(strings_view(r@)),
{
    broadcast use vstd::seq_lib::group_to_multiset_ensures;

    let mut out: Vec<String> = Vec::new();
    let mut i: usize = 0;
    while i < v.len()
        invariant
            i <= v@.len(),
            strings_view(out@).to_multiset() == strings_view(v@.take(i as int)).to_multiset(),
            newest_first(strings_view(out@)),
        decreases v@.len() - i,
    {
        let x = v[i].clone();
        let ghost xv = x@;
        let mut j: usize = 0;
        while j < out.len() && !nvm_older_than(out[j].as_str(), x.as_str())
            invariant
                j <= out@.len(),
                xv == x@,
                forall|k: int| 0 <= k < j ==> !nvm_older(#[trigger] strings_view(out@)[k], xv),
            decreases out@.len() - j,
        {
            j = j + 1;
        }
        let ghost old_view = strings_view(out@);
        out.insert(j, x);
        proof {
            assert(strings_view(out@) =~= old_view.insert(j as int, xv));
            assert(strings_view(v@.take(i + 1)) =~= strings_view(v@.take(i as int)).push(xv));
            vstd::seq_lib::to_multiset_insert(old_view, j as int, xv);
            vstd::seq_lib::to_multiset_build(strings_view(v@.take(i as int)), xv);
            let nv = strings_view(out@);
            assert forall|a: int, b: int| 0 <= a < b < nv.len() implies !nvm_older(
                #[trigger] nv[a],
                #[trigger] nv[b],
            ) by {
                if b < j {
                    assert(nv[a] == old_view[a] && nv[b] == old_view[b]);
                } else if b == j {
                    assert(nv[a] == old_view[a]);
                } else if a == j {
                    // the inserted name against one at or after the insertion point
                    assert(nv[b] == old_view[b - 1]);
                    assert(nvm_older(old_view[j as int], xv));
                    if b - 1 > j {
                        assert(!nvm_older(old_view[j as int], old_view[b - 1]));
                    }
                    law_nvm_order_asymmetric(old_view[b - 1], xv);
                    if nvm_older(xv, old_view[b - 1]) {
                        law_nvm_order_transitive(old_view[j as int], xv, old_view[b - 1]);
                    }
                } else if a < j {
                    assert(nv[a] == old_view[a] && nv[b] == old_view[b - 1]);
                } else {
                    assert(nv[a] == old_view[a - 1] && nv[b] == old_view[b - 1]);
                }
            }
        }
        i = i + 1;
    }
    assert(v@.take(v@.len() as int) =~= v@);
    out
}

// ---------------------------------------------------------------------------
// Locating the system node
// ---------------------------------------------------------------------------

/// The node binaries tried before any nvm install, in order: Apple Silicon
/// Homebrew, Intel Homebrew / global installs, the system node.
pub open spec fn fixed_node_candidates() -> Seq<Seq<char>> {
    seq!["/opt/homebrew/bin/node"@, "/usr/local/bin/node"@, "/usr/bin/node"@]
}

/// The nvm installs directory `~/.nvm/versions/node`.
pub open spec fn spec_nvm_dir(home: Seq<char>) -> Seq<char> {
    path_join(path_join(path_join(home, ".nvm"@), "versions"@), "node"@)
}

/// The node binary of one nvm version.
pub open spec fn spec_nvm_node(home: Seq<char>, version: Seq<char>) -> Seq<char> {
    path_join(path_join(path_join(spec_nvm_dir(home), version), "bin"@), "node"@)
}

/// The node binaries to try: the fixed ones, then each nvm version in the order of
/// `sorted` (the version names, newest first).
pub open spec fn spec_node_candidates(home: Seq<char>, sorted: Seq<Seq<char>>) -> Seq<Seq<char>> {
    fixed_node_candidates() + sorted.map_values(|v: Seq<char>| spec_nvm_node(home, v))
}

/// The node binaries to try, in order: `/opt/homebrew/bin/node`,
/// `/usr/local/bin/node`, `/usr/bin/node`, then `<home>/.nvm/versions/node/<v>/bin/node`
/// for each installed nvm version `v` (the names listed in `nvm_versions`), newest
/// first: by major, minor and patch as numbers, names with equal numbers in
/// descending string order.
pub fn node_candidates(home: &str, nvm_versions: Vec<String>) -> (r: Vec<String>)
    ensures
        exists|sorted: Seq<Seq<char>>|
            {
                &&& sorted.to_multiset() == strings_view(nvm_versions@).to_multiset()
                &&& newest_first(sorted)
                &&& strings_view(r@) == spec_node_candidates(home@, sorted)
            },
        r@.len() == 3 + nvm_versions@.len(),
        r@[0]@ == "/opt/homebrew/bin/node"@,
        r@[1]@ == "/usr/local/bin/node"@,
        r@[2]@ == "/usr/bin/node"@,
{
    let mut r: Vec<String> = Vec::new();
    r.push("/opt/homebrew/bin/node".to_owned());
    r.push("/usr/local/bin/node".to_owned());
    r.push("/usr/bin/node".to_owned());
    let a = join_path(home, ".nvm");
    let b = join_path(a.as_str(), "versions");
    let nvm_dir = join_path(b.as_str(), "node");
    let vers = sort_newest_first(nvm_versions);
    let ghost sorted = strings_view(vers@);
    let mut i: usize = 0;
    while i < vers.len()
        invariant
            i <= vers@.len(),
            sorted == strings_view(vers@),
            nvm_dir@ == spec_nvm_dir(home@),
            strings_view(r@) =~= spec_node_candidates(home@, sorted.take(i as int)),
        decreases vers@.len() - i,
    {
        let d = join_path(nvm_dir.as_str(), vers[i].as_str());
        let e = join_path(d.as_str(), "bin");
        let f = join_path(e.as_str(), "node");
        let ghost before = strings_view(r@);
        r.push(f);
        proof {
            let t = sorted.take(i as int);
            assert(sorted.take(i + 1) =~= t.push(sorted[i as int]));
            assert(sorted[i as int] == vers@[i as int]@);
            assert(t.push(sorted[i as int]).map_values(|v: Seq<char>| spec_nvm_node(home@, v))
                =~= t.map_values(|v: Seq<char>| spec_nvm_node(home@, v)).push(spec_nvm_node(home@, sorted[i as int])));
            assert(strings_view(r@) =~= before.push(f@));
        }
        i = i + 1;
    }
    assert(sorted.take(vers@.len() as int) =~= sorted);
    proof {
        vstd::seq_lib::to_multiset_len(sorted);
        vstd::seq_lib::to_multiset_len(strings_view(nvm_versions@));
        let sv = strings_view(r@);
        assert(sv.len() == r@.len());
        assert(sv[0] == r@[0]@ && sv[1] == r@[1]@ && sv[2] == r@[2]@);
        assert(sv[0] == fixed_node_candidates()[0]);
        assert(sv[1] == fixed_node_candidates()[1]);
        assert(sv[2] == fixed_node_candidates()[2]);
    }
    r
}

/// How the resolved node is chosen: a non-empty `npm_node_execpath`, else a non-empty
/// `NODE`, else the first candidate that exists, else the bare `node` (left to PATH).
pub open spec fn spec_resolve_node(
    execpath: Option<Seq<char>>,
    node_env: Option<Seq<char>>,
    candidates: Seq<Seq<char>>,
    exists: Seq<bool>,
) -> Seq<char> {
    if execpath is Some && execpath->0.len() > 0 {
        execpath->0
    } else if node_env is Some && node_env->0.len() > 0 {
        node_env->0
    } else if exists|i: int| 0 <= i < candidates.len() && i < exists.len() && #[trigger] exists[i] {
        let i = choose|i: int|
            0 <= i < candidates.len() && i < exists.len() && #[trigger] exists[i] && forall|j: int|
                0 <= j < i ==> !#[trigger] exists[j];
        candidates[i]
    } else {
        "node"@
    }
}

/// Resolves the system node: `execpath` and `node_env` are the variables
/// `npm_node_execpath` and `NODE` when set, `candidates` comes from `node_candidates`,
/// and `exists[i]` tells whether `candidates[i]` exists (a missing flag counts as no).
pub fn resolve_node(
    execpath: Option<String>,
    node_env: Option<String>,
    candidates: &Vec<String>,
    exists: &Vec<bool>,
) -> (r: String)
    ensures
        r@ == spec_resolve_node(
            opt_view(execpath),
            opt_view(node_env),
            strings_view(candidates@),
            exists@,
        ),
{
    let ghost e1 = opt_view(execpath);
    let ghost e2 = opt_view(node_env);
    match execpath {
        Some(p) => if !p.as_str().is_empty() {
            return p;
        },
        None => {},
    }
    match node_env {
        Some(p) => if !p.as_str().is_empty() {
            return p;
        },
        None => {},
    }
    let ghost cv = strings_view(candidates@);
    let mut i: usize = 0;
    while i < candidates.len() && i < exists.len()
        invariant
            i <= candidates@.len(),
            cv == strings_view(candidates@),
            !(e1 is Some && e1->0.len() > 0),
            !(e2 is Some && e2->0.len() > 0),
            e1 == opt_view(execpath),
            e2 == opt_view(node_env),
            forall|j: int| 0 <= j < i ==> !#[trigger] exists@[j],
        decreases candidates@.len() - i,
    {
        if exists[i] {
            proof {
                let k = choose|k: int|
                    0 <= k < cv.len() && k < exists@.len() && #[trigger] exists@[k] && forall|
                        j: int,
                    |
                        0 <= j < k ==> !#[trigger] exists@[j];
                assert(exists@[i as int]);
                if k > i {
                    assert(!exists@[i as int]);
                }
                assert(k == i);
            }
            return candidates[i].clone();
        }
        i = i + 1;
    }
    "node".to_owned()
}

/// How to tell whether node is usable.
#[derive(Debug)]
pub enum NodeCheck {
    /// Node was left to PATH: run `node --version` and look at its exit status.
    RunVersion,
    /// Node resolved to a file: it is usable when that file exists.
    FileExists(String),
}

/// Node is usable when it resolved to a file that exists; when it fell back to the
/// bare `node`, running `node --version` decides (so a PATH without node is not
/// taken for an available node).
pub fn node_check(node: &str) -> (r: NodeCheck)
    ensures
        node@ == "node"@ ==> r is RunVersion,
        node@ != "node"@ ==> (r matches NodeCheck::FileExists(p) && p@ == node@),
{
    let s = node.to_owned();
    let bare = "node".to_owned();
    if s == bare {
        NodeCheck::RunVersion
    } else {
        NodeCheck::FileExists(s)
    }
}

/// The order of nvm versions is lexicographic over major, minor and patch read as
/// numbers (a missing component counts as 0): the first component that differs
/// decides, whatever the later ones are; names with equal numbers are ordered as strings.
pub proof fn law_nvm_order_lexicographic(a: Seq<char>, b: Seq<char>)
    ensures
        ({
            let pa = version_parts(a);
            let pb = version_parts(b);
            let a0 = if pa.len() > 0 { pa[0] } else { 0 };
            let a1 = if pa.len() > 1 { pa[1] } else { 0 };
            let a2 = if pa.len() > 2 { pa[2] } else { 0 };
            let b0 = if pb.len() > 0 { pb[0] } else { 0 };
            let b1 = if pb.len() > 1 { pb[1] } else { 0 };
            let b2 = if pb.len() > 2 { pb[2] } else { 0 };
            &&& a0 < b0 ==> nvm_older(a, b)
            &&& a0 > b0 ==> !nvm_older(a, b)
            &&& (a0 == b0 && a1 < b1) ==> nvm_older(a, b)
            &&& (a0 == b0 && a1 > b1) ==> !nvm_older(a, b)
            &&& (a0 == b0 && a1 == b1 && a2 < b2) ==> nvm_older(a, b)
            &&& (a0 == b0 && a1 == b1 && a2 > b2) ==> !nvm_older(a, b)
            &&& (a0 == b0 && a1 == b1 && a2 == b2) ==> (nvm_older(a, b) <==> str_lt(a, b))
        }),
{
    let pa = version_parts(a);
    let pb = version_parts(b);
    assert(version_component(a, 0) == if pa.len() > 0 { pa[0] } else { 0 });
    assert(version_component(a, 1) == if pa.len() > 1 { pa[1] } else { 0 });
    assert(version_component(a, 2) == if pa.len() > 2 { pa[2] } else { 0 });
    assert(version_component(b, 0) == if pb.len() > 0 { pb[0] } else { 0 });
    assert(version_component(b, 1) == if pb.len() > 1 { pb[1] } else { 0 });
    assert(version_component(b, 2) == if pb.len() > 2 { pb[2] } else { 0 });
    assert(!components_lt(a, b, 3));
    assert(components_lt(a, b, 2) == (version_component(a, 2) < version_component(b, 2)));
    assert(components_lt(a, b, 1) == if version_component(a, 1) != version_component(b, 1) {
        version_component(a, 1) < version_component(b, 1)
    } else {
        components_lt(a, b, 2)
    });
    if version_component(a, 0) == version_component(b, 0) && version_component(a, 1)
        == version_component(b, 1) && version_component(a, 2) == version_component(b, 2) {
        assert(same_components(a, b));
    } else {
        assert(!same_components(a, b));
    }
}

/// With neither `npm_node_execpath` nor `NODE` set to a non-empty value, node is the
/// first candidate that exists: the candidate at the least index whose flag is true.
/// When none exists, it is the bare `node`. A non-empty `npm_node_execpath` wins over
/// everything, and a non-empty `NODE` over the candidates.
pub proof fn law_resolve_node_first_existing(
    execpath: Option<Seq<char>>,
    node_env: Option<Seq<char>>,
    candidates: Seq<Seq<char>>,
    exists: Seq<bool>,
    i: int,
)
    ensures
        (execpath is Some && execpath->0.len() > 0) ==> spec_resolve_node(
            execpath,
            node_env,
            candidates,
            exists,
        ) == execpath->0,
        (!(execpath is Some && execpath->0.len() > 0) && node_env is Some && node_env->0.len()
            > 0) ==> spec_resolve_node(execpath, node_env, candidates, exists) == node_env->0,
        (!(execpath is Some && execpath->0.len() > 0) && !(node_env is Some && node_env->0.len()
            > 0) && 0 <= i < candidates.len() && i < exists.len() && exists[i] && (forall|j: int|
            0 <= j < i ==> !#[trigger] exists[j])) ==> spec_resolve_node(
            execpath,
            node_env,
            candidates,
            exists,
        ) == candidates[i],
        (!(execpath is Some && execpath->0.len() > 0) && !(node_env is Some && node_env->0.len()
            > 0) && (forall|j: int| 0 <= j < candidates.len() && j < exists.len() ==> !#[trigger] exists[j]))
            ==> spec_resolve_node(execpath, node_env, candidates, exists) == "node"@,
{
    if !(execpath is Some && execpath->0.len() > 0) && !(node_env is Some && node_env->0.len() > 0)
        && 0 <= i < candidates.len() && i < exists.len() && exists[i] && (forall|j: int|
        0 <= j < i ==> !#[trigger] exists[j]) {
        let k = choose|k: int|
            0 <= k < candidates.len() && k < exists.len() && #[trigger] exists[k] && forall|j: int|
                0 <= j < k ==> !#[trigger] exists[j];
        assert(exists[i]);
        if k < i {
            assert(!exists[k]);
        } else if k > i {
            assert(!exists[i]);
        }
    }
}

} // verus!
