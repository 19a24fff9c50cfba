use dsh_desktop::updates::{app_update_failure, app_update_info, trim_v_prefix, update_info};
use dsh_desktop::version::{parse_part, semver_comparable, semver_gt, version_numbers};

fn chars(s: &str) -> Vec<char> {
    s.chars().collect()
}

#[test]
fn semver_gt_compares_patch_numerically() {
    assert!(semver_gt("1.2.10", "1.2.9"));
    assert!(!semver_gt("1.2.9", "1.2.10"));
}

#[test]
fn semver_gt_ignores_v_prefix() {
    assert!(!semver_gt("v1.0.0", "1.0.0"));
    assert!(!semver_gt("1.0.0", "V1.0.0"));
    assert!(semver_gt("V2.0.0", "v1.9.9"));
    assert!(semver_gt("vv1.0.1", "1.0.0"));
}

#[test]
fn semver_gt_equal_is_false() {
    assert!(!semver_gt("0.3.1", "0.3.1"));
}

#[test]
fn semver_gt_major_and_minor_decide_first() {
    assert!(semver_gt("2.0.0", "1.99.99"));
    assert!(semver_gt("1.3.0", "1.2.99"));
    assert!(!semver_gt("1.0.1", "1.1.0"));
}

#[test]
fn semver_gt_unparsable_component_is_zero() {
    assert!(!semver_gt("1.x.0", "1.0.1"));
    assert!(semver_gt("1.0.1", "1.x.0"));
    assert!(!semver_gt("1.0.0-rc.7", "1.0.0"));
    assert!(!semver_gt("1.0.0", "1.0.0-rc.7"));
}

#[test]
fn semver_gt_short_version_decided_early() {
    assert!(semver_gt("2", "1.5.0"));
    assert!(!semver_gt("1.5.0", "2"));
}

#[test]
fn semver_gt_extra_components_ignored() {
    assert!(!semver_gt("1.2.3.9", "1.2.3"));
}

#[test]
fn semver_gt_overflow_reads_as_zero() {
    assert!(!semver_gt("99999999999.0.0", "1.0.0"));
    assert!(semver_gt("2147483647.0.0", "1.0.0"));
}

#[test]
fn semver_gt_signed_components() {
    assert!(!semver_gt("-1.0.0", "0.0.0"));
    assert!(semver_gt("0.0.0", "-1.0.0"));
    assert!(!semver_gt("+1.0.0", "1.0.0"));
}

#[test]
fn semver_comparable_detects_missing_components() {
    assert!(!semver_comparable("1.2", "1.2"));
    assert!(semver_comparable("1.2", "1.3"));
    assert!(!semver_comparable("1.2", "1.2.0"));
    assert!(semver_comparable("1.2.3.4", "1.2.3"));
    assert!(semver_comparable("0.2.0", "0.1.0"));
}

#[test]
fn version_numbers_splits_and_parses() {
    assert_eq!(version_numbers("v1.2.3"), vec![1, 2, 3]);
    assert_eq!(version_numbers(""), vec![0]);
    assert_eq!(version_numbers("vv"), vec![0]);
    assert_eq!(version_numbers("1..2"), vec![1, 0, 2]);
    assert_eq!(version_numbers("1.2.3.4.5"), vec![1, 2, 3]);
    assert_eq!(version_numbers("10.20"), vec![10, 20]);
}

#[test]
fn parse_part_follows_i32_parsing() {
    assert_eq!(parse_part(&chars("-2147483648")), -2147483648);
    assert_eq!(parse_part(&chars("2147483647")), 2147483647);
    assert_eq!(parse_part(&chars("2147483648")), 0);
    assert_eq!(parse_part(&chars("-2147483649")), 0);
    assert_eq!(parse_part(&chars("-")), 0);
    assert_eq!(parse_part(&chars("+")), 0);
    assert_eq!(parse_part(&chars("+5")), 5);
    assert_eq!(parse_part(&chars("007")), 7);
    assert_eq!(parse_part(&chars("1a")), 0);
    assert_eq!(parse_part(&chars("")), 0);
    assert_eq!(parse_part(&chars("-0")), 0);
    assert_eq!(parse_part(&chars(" 1")), 0);
    assert_eq!(parse_part(&chars("٣")), 0);
    for s in ["0", "42", "-17", "+8", "x", "12345678901", "-2147483648"] {
        assert_eq!(parse_part(&chars(s)), s.parse::<i32>().unwrap_or(0));
    }
}

#[test]
fn trim_v_prefix_removes_all_leading_v() {
    assert_eq!(trim_v_prefix("vV1.0"), "1.0");
    assert_eq!(trim_v_prefix("1.0v"), "1.0v");
    assert_eq!(trim_v_prefix("vvv"), "");
    assert_eq!(trim_v_prefix(""), "");
}

#[test]
fn update_info_outdated_when_versions_differ() {
    let u = update_info("0.1.0".to_string(), Some("0.2.0".to_string()));
    assert_eq!(u.current, "0.1.0");
    assert_eq!(u.latest, "0.2.0");
    assert!(u.is_outdated);
}

#[test]
fn update_info_unknown_engine_never_outdated() {
    let u = update_info("未知".to_string(), Some("0.2.0".to_string()));
    assert!(!u.is_outdated);
}

#[test]
fn update_info_same_version_not_outdated() {
    let u = update_info("0.2.0".to_string(), Some("0.2.0".to_string()));
    assert!(!u.is_outdated);
}

#[test]
fn update_info_missing_latest_is_unknown() {
    let u = update_info("0.1.0".to_string(), None);
    assert_eq!(u.latest, "未知");
    assert!(!u.is_outdated);
}

#[test]
fn app_update_info_newer_release() {
    let a = app_update_info(
        "0.1.0".to_string(),
        Some("v0.2.0".to_string()),
        Some("https://github.com/x/y/releases/tag/v0.2.0".to_string()),
    );
    assert!(a.ok);
    assert_eq!(a.current, "0.1.0");
    assert_eq!(a.latest, "0.2.0");
    assert!(a.is_outdated);
    assert_eq!(a.url, "https://github.com/x/y/releases/tag/v0.2.0");
    assert_eq!(a.error, None);
}

#[test]
fn app_update_info_older_release() {
    let a = app_update_info("0.2.0".to_string(), Some("v0.1.5".to_string()), None);
    assert!(a.ok);
    assert!(!a.is_outdated);
    assert_eq!(a.url, "");
}

#[test]
fn app_update_info_without_tag() {
    let a = app_update_info("0.2.0".to_string(), None, None);
    assert!(a.ok);
    assert_eq!(a.latest, "");
    assert!(!a.is_outdated);
}

#[test]
fn app_update_failure_reports_error() {
    let a = app_update_failure("0.2.0".to_string(), "timed out".to_string());
    assert!(!a.ok);
    assert_eq!(a.current, "0.2.0");
    assert_eq!(a.latest, "");
    assert!(!a.is_outdated);
    assert_eq!(a.url, "");
    assert_eq!(a.error, Some("timed out".to_string()));
}

#[test]
fn semver_order_is_transitive_on_examples() {
    assert!(semver_gt("1.3.0", "1.2.5"));
    assert!(semver_gt("1.2.5", "v1.2.4"));
    assert!(semver_gt("1.3.0", "v1.2.4"));
}

#[test]
fn semver_neither_greater_means_same_components() {
    assert!(semver_comparable("v1.2.3", "1.2.3.8"));
    assert!(!semver_gt("v1.2.3", "1.2.3.8"));
    assert!(!semver_gt("1.2.3.8", "v1.2.3"));
    assert_eq!(version_numbers("v1.2.3"), version_numbers("1.2.3.8"));
}

#[test]
fn semver_comparable_is_symmetric_on_examples() {
    for (a, b) in [("1.2", "1.3"), ("1.2", "1.2"), ("2", "1.0.0"), ("1.0.0", "1.0.0")] {
        assert_eq!(semver_comparable(a, b), semver_comparable(b, a));
    }
}

#[test]
fn update_info_older_registry_version_not_outdated() {
    let u = update_info("0.2.0".to_string(), Some("0.1.0".to_string()));
    assert_eq!(u.current, "0.2.0");
    assert_eq!(u.latest, "0.1.0");
    assert!(!u.is_outdated);
}

#[test]
fn update_info_prerelease_bumps_are_offered() {
    let u = update_info("0.1.0-rc.7".to_string(), Some("0.1.0-rc.8".to_string()));
    assert!(u.is_outdated);
    let u = update_info("0.1.0-rc.7".to_string(), Some("0.1.0".to_string()));
    assert!(u.is_outdated);
    let u = update_info("0.1.0-rc.7".to_string(), Some("0.1.1".to_string()));
    assert!(u.is_outdated);
    let u = update_info("0.1.0".to_string(), Some("0.2".to_string()));
    assert!(u.is_outdated);
    let u = update_info("1.2".to_string(), Some("1.2".to_string()));
    assert!(!u.is_outdated);
    let u = update_info("0.2.0".to_string(), Some("0.1.0-rc.8".to_string()));
    assert!(!u.is_outdated);
}

#[test]
fn app_update_results_are_consistent() {
    let results = vec![
        app_update_info("0.1.0".to_string(), Some("v0.2.0".to_string()), Some("u".to_string())),
        app_update_info("0.1.0".to_string(), None, None),
        app_update_failure("0.1.0".to_string(), "e".to_string()),
    ];
    for a in results {
        assert_eq!(a.ok, a.error.is_none());
        assert!(!a.is_outdated || (a.ok && !a.latest.is_empty()));
        assert!(a.ok || (a.latest.is_empty() && a.url.is_empty() && !a.is_outdated));
        assert_eq!(a.current, "0.1.0");
    }
}
