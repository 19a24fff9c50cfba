use vstd::prelude::*;

use crate::engine::UNKNOWN_VERSION;
use crate::paths::opt_view;
use crate::version::{semver_comparable, semver_defined, semver_greater, semver_gt, strip_v};

verus! {

/// The result of looking up the latest dsh on the npm registry.
#[derive(Debug)]
pub struct UpdateInfo {
    pub current: String,
    pub latest: String,
    pub is_outdated: bool,
}

/// The result of looking up the latest release of this application.
#[derive(Debug)]
pub struct AppUpdateInfo {
    pub ok: bool,
    pub current: String,
    pub latest: String,
    pub is_outdated: bool,
    pub url: String,
    pub error: Option<String>,
}

/// The installed version is known to be newer than the registry's: the comparison
/// is defined and finds it greater.
pub open spec fn installed_newer(current: Seq<char>, latest: Seq<char>) -> bool {
    semver_defined(current, latest) && semver_greater(current, latest)
}

/// dsh update status: `current` is the active engine's version (`未知` without one),
/// `latest` the registry's `dist-tags.latest` when it has one. The engine counts as
/// outdated when both versions are known, they differ, and the installed one is not
/// newer: a new version (prerelease bumps included) is offered, a downgrade never is,
/// and an engine that is not installed is never outdated.
pub fn update_info(current: String, latest: Option<String>) -> (r: UpdateInfo)
    ensures
        r.current@ == current@,
        r.latest@ == (match latest {
            Some(l) => l@,
            None => UNKNOWN_VERSION@,
        }),
        r.is_outdated == (r.current@ != UNKNOWN_VERSION@ && r.latest@ != UNKNOWN_VERSION@
            && r.latest@ != r.current@ && !installed_newer(r.current@, r.latest@)),
        current@ == UNKNOWN_VERSION@ ==> !r.is_outdated,
        r.is_outdated ==> r.latest@ != r.current@,
        installed_newer(r.current@, r.latest@) ==> !r.is_outdated,
{
    let latest = match latest {
        Some(l) => l,
        None => UNKNOWN_VERSION.to_owned(),
    };
    let unknown = UNKNOWN_VERSION.to_owned();
    let newer_installed = semver_comparable(current.as_str(), latest.as_str()) && semver_gt(
        current.as_str(),
        latest.as_str(),
    );
    let is_outdated = current != unknown && latest != unknown && latest != current
        && !newer_installed;
    UpdateInfo { current, latest, is_outdated }
}

/// `s` without its leading `v` / `V` characters.
pub fn trim_v_prefix(s: &str) -> (r: String)
    ensures
        r@ == strip_v(s@),
{
    let n = s.unicode_len();
    let mut k: usize = 0;
    assert(s@.skip(0) =~= s@);
    while k < n && (s.get_char(k) == 'v' || s.get_char(k) == 'V')
        invariant
            k <= n,
            n == s@.len(),
            strip_v(s@) == strip_v(s@.skip(k as int)),
        decreases n - k,
    {
        assert(s@.skip(k as int).drop_first() =~= s@.skip(k + 1));
        k = k + 1;
    }
    let t = s.substring_char(k, n);
    assert(t@ =~= s@.skip(k as int));
    t.to_owned()
}

/// The invariant of an application update status: it is ok exactly when it carries no
/// error; only an ok status can be outdated, and then its release version is known;
/// a failed status has no release version, no link, and is not outdated.
pub open spec fn app_update_consistent(r: AppUpdateInfo) -> bool {
    &&& r.ok == (r.error is None)
    &&& r.is_outdated ==> r.ok && r.latest@.len() > 0
    &&& !r.ok ==> r.latest@.len() == 0 && r.url@.len() == 0 && !r.is_outdated
}

/// The release tag without a leading `v`, or empty when there is no tag.
pub open spec fn spec_release_version(tag_name: Option<Seq<char>>) -> Seq<char> {
    match tag_name {
        Some(t) => strip_v(t),
        None => Seq::empty(),
    }
}

/// The application update status is defined: comparing a non-empty release version
/// with the running version never reads a missing component.
pub open spec fn app_update_defined(current: Seq<char>, tag_name: Option<Seq<char>>) -> bool {
    spec_release_version(tag_name).len() > 0 ==> semver_defined(
        spec_release_version(tag_name),
        current,
    )
}

/// Application update status from the latest release: `tag_name` and `html_url`
/// are those fields of the release when they are strings. The application is
/// outdated when the release version (tag without `v`) is non-empty and newer.
pub fn app_update_info(current: String, tag_name: Option<String>, html_url: Option<String>) -> (r:
    AppUpdateInfo)
    requires
        app_update_defined(current@, opt_view(tag_name)),
    ensures
        r.ok,
        r.current@ == current@,
        r.latest@ == spec_release_version(opt_view(tag_name)),
        r.url@ == (match html_url {
            Some(u) => u@,
            None => Seq::<char>::empty(),
        }),
        r.is_outdated == (r.latest@.len() > 0 && semver_greater(r.latest@, current@)),
        r.error is None,
        app_update_consistent(r),
{
    let latest = match &tag_name {
        Some(t) => trim_v_prefix(t.as_str()),
        None => String::new(),
    };
    let url = match html_url {
        Some(u) => u,
        None => String::new(),
    };
    let is_outdated = if latest.as_str().is_empty() {
        false
    } else {
        semver_gt(latest.as_str(), current.as_str())
    };
    AppUpdateInfo { ok: true, current, latest, is_outdated, url, error: None }
}

/// Application update status when the lookup failed with `error`.
pub fn app_update_failure(current: String, error: String) -> (r: AppUpdateInfo)
    ensures
        !r.ok,
        r.current@ == current@,
        r.latest@ == Seq::<char>::empty(),
        !r.is_outdated,
        r.url@ == Seq::<char>::empty(),
        r.error matches Some(e) && e@ == error@,
        app_update_consistent(r),
{
    AppUpdateInfo {
        ok: false,
        current,
        latest: String::new(),
        is_outdated: false,
        url: String::new(),
        error: Some(error),
    }
}

} // verus!
