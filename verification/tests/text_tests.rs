use dsh_desktop::node::{node_candidates, node_check, nvm_older_than, resolve_node, sort_newest_first, NodeCheck};
use dsh_desktop::text::{chars_of, join_strings, str_less, trims_to_empty};

#[test]
fn trims_to_empty_uses_unicode_white_space() {
    assert!(trims_to_empty(""));
    assert!(trims_to_empty("\t \n\r"));
    assert!(trims_to_empty("\u{3000}\u{a0}\u{2009}"));
    assert!(!trims_to_empty(" a "));
    assert!(!trims_to_empty("\u{200b}"));
    for s in ["", " ", "x", "\u{85}", "\u{1680}", "\u{180e}", "\u{feff}"] {
        assert_eq!(trims_to_empty(s), s.trim().is_empty());
    }
}

#[test]
fn chars_of_keeps_order() {
    assert_eq!(chars_of("aé😀"), vec!['a', 'é', '😀']);
}

#[test]
fn join_strings_like_slice_join() {
    let v = vec!["/a".to_string(), "/b".to_string(), "".to_string()];
    assert_eq!(join_strings(&v, ":"), v.join(":"));
    assert_eq!(join_strings(&Vec::new(), ":"), "");
}

#[test]
fn string_order() {
    assert!(str_less("v18", "v20"));
    assert!(!str_less("v20", "v18"));
    assert!(str_less("v1", "v10"));
    assert!(!str_less("a", "a"));
    assert!(str_less("", "a"));
    assert!(str_less("Z", "a"));
}

#[test]
fn nvm_versions_newest_first() {
    let v: Vec<String> = ["v9.11.2", "v20.11.0", "v18.0.0", "v20.1.0", "v9.11.2", "system"]
        .iter()
        .map(|s| s.to_string())
        .collect();
    let expected: Vec<String> = ["v20.11.0", "v20.1.0", "v18.0.0", "v9.11.2", "v9.11.2", "system"]
        .iter()
        .map(|s| s.to_string())
        .collect();
    assert_eq!(sort_newest_first(v), expected);
    assert!(nvm_older_than("v9.11.2", "v20.11.0"));
    assert!(!nvm_older_than("v20.11.0", "v9.11.2"));
    assert!(!nvm_older_than("v20.1.0", "v20.1.0"));
    assert!(nvm_older_than("20.1", "v20.1"));
}

#[test]
fn nvm_v20_chosen_over_v9() {
    let c = node_candidates("/home/u", vec!["v9.11.2".to_string(), "v20.11.0".to_string()]);
    assert_eq!(c[3], "/home/u/.nvm/versions/node/v20.11.0/bin/node");
    assert_eq!(c[4], "/home/u/.nvm/versions/node/v9.11.2/bin/node");
    let exists = vec![false, false, false, true, true];
    assert_eq!(resolve_node(None, None, &c, &exists), "/home/u/.nvm/versions/node/v20.11.0/bin/node");
}

#[test]
fn node_candidates_order() {
    let c = node_candidates(
        "/home/u",
        vec!["v18.0.0".to_string(), "v20.1.0".to_string(), "v16.3.0".to_string()],
    );
    assert_eq!(
        c,
        vec![
            "/opt/homebrew/bin/node".to_string(),
            "/usr/local/bin/node".to_string(),
            "/usr/bin/node".to_string(),
            "/home/u/.nvm/versions/node/v20.1.0/bin/node".to_string(),
            "/home/u/.nvm/versions/node/v18.0.0/bin/node".to_string(),
            "/home/u/.nvm/versions/node/v16.3.0/bin/node".to_string(),
        ]
    );
}

#[test]
fn resolve_node_order_of_sources() {
    let c = vec!["/a/node".to_string(), "/b/node".to_string()];
    assert_eq!(
        resolve_node(Some("/x/node".to_string()), Some("/y/node".to_string()), &c, &vec![true, true]),
        "/x/node"
    );
    assert_eq!(
        resolve_node(Some("".to_string()), Some("/y/node".to_string()), &c, &vec![true, true]),
        "/y/node"
    );
    assert_eq!(resolve_node(None, Some("".to_string()), &c, &vec![false, true]), "/b/node");
    assert_eq!(resolve_node(None, None, &c, &vec![false, false]), "node");
    assert_eq!(resolve_node(None, None, &c, &vec![false]), "node");
}

#[test]
fn node_check_kinds() {
    assert!(matches!(node_check("node"), NodeCheck::RunVersion));
    match node_check("/usr/bin/node") {
        NodeCheck::FileExists(p) => assert_eq!(p, "/usr/bin/node"),
        other => panic!("unexpected {:?}", other),
    }
}
