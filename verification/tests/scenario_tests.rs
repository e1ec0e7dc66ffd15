use testpick::errors::PickError;
use testpick::project::{get_project_root, parent_dir};
use testpick::scan::{find_nearest, find_next};

const DEF_PATTERN: &str = "^\\s*def (test_\\w+)";
const CLASS_PATTERN: &str = "^\\s*class (\\w+):";

fn filler(n: usize) -> Vec<String> {
    let mut v: Vec<String> = Vec::new();
    for _ in 0..n {
        v.push("    pass".to_string());
    }
    v
}

#[test]
fn scenario_top_level_declaration() {
    // A top-level declaration at line 15, anchor at 16, backward: the
    // name is found at its real line number, with no namespaces.
    let mut lines = filler(14);
    lines.push("def test_alpha():".to_string());
    lines.push("    assert 1".to_string());
    let resp = find_nearest(&lines, DEF_PATTERN, Some(CLASS_PATTERN), 16, false)
        .unwrap()
        .unwrap();
    assert_eq!(resp.name.as_ref().unwrap().no, 15);
    assert_eq!(resp.name.unwrap().values[1], "test_alpha");
    assert_eq!(resp.namespace.len(), 0);
}

#[test]
fn scenario_nested_scopes() {
    // An outer scope at line 1 (indent 0), a nested one at line 2
    // (indent 4), a test at line 3 (indent 8); anchor at 4, backward:
    // namespaces come back outermost first.
    let lines: Vec<String> = vec![
        "class Outer:".to_string(),
        "    class Inner:".to_string(),
        "        def test_deep(self):".to_string(),
        "            pass".to_string(),
    ];
    let resp = find_nearest(&lines, DEF_PATTERN, Some(CLASS_PATTERN), 4, false)
        .unwrap()
        .unwrap();
    assert_eq!(resp.namespace.len(), 2);
    assert_eq!(resp.namespace[0].no, 1);
    assert_eq!(resp.namespace[0].values[1], "Outer");
    assert_eq!(resp.namespace[1].no, 2);
    assert_eq!(resp.namespace[1].values[1], "Inner");
    assert_eq!(resp.name.unwrap().no, 3);
}

#[test]
fn scenario_anchor_on_scope_line() {
    // The anchor sits on the enclosing-scope declaration itself: no
    // test name, one namespace.
    let lines: Vec<String> = vec!["class Lonely:".to_string()];
    let resp = find_nearest(&lines, DEF_PATTERN, Some(CLASS_PATTERN), 1, false)
        .unwrap()
        .unwrap();
    assert!(resp.name.is_none());
    assert_eq!(resp.namespace.len(), 1);
}

#[test]
fn scenario_forward_search_skips_marker_line() {
    // A matching line at line 5 precedes the real declaration at line
    // 7; a forward search starting at 5 reports line 7, not line 5.
    let mut lines = filler(4);
    lines.push("fn test_old() {}".to_string());
    lines.push("".to_string());
    lines.push("fn test_fresh() {}".to_string());
    let resp = find_next(&lines, "^fn test_([a-z_]*)", 5).unwrap().unwrap();
    assert_eq!(resp.no, 7);
    assert_eq!(resp.values[1], "fresh");
}

#[test]
fn scenario_no_match_returns_none() {
    // Anchor at line 1, backward, nothing above that matches: no
    // located test-case at all.
    let lines: Vec<String> = vec!["x = 1".to_string(), "def test_late():".to_string()];
    let resp = find_nearest(&lines, DEF_PATTERN, Some(CLASS_PATTERN), 1, false).unwrap();
    assert!(resp.is_none());
}

#[test]
fn scenario_anchor_zero_scans_nothing() {
    // A backward scan from anchor 0 visits no lines, even when the
    // first line would match.
    let lines: Vec<String> = vec!["def test_first():".to_string()];
    let resp = find_nearest(&lines, DEF_PATTERN, Some(CLASS_PATTERN), 0, false).unwrap();
    assert!(resp.is_none());
}

#[test]
fn test_sibling_scope_is_ignored() {
    // A scope at the same indentation as one already recorded is a
    // sibling, not an ancestor.
    let lines: Vec<String> = vec![
        "class Root:".to_string(),
        "    class Sibling:".to_string(),
        "    class Parent:".to_string(),
        "        def test_inside(self):".to_string(),
        "            pass".to_string(),
    ];
    let resp = find_nearest(&lines, DEF_PATTERN, Some(CLASS_PATTERN), 5, false)
        .unwrap()
        .unwrap();
    assert_eq!(resp.name.as_ref().unwrap().no, 4);
    assert_eq!(resp.namespace.len(), 2);
    assert_eq!(resp.namespace[0].values[1], "Root");
    assert_eq!(resp.namespace[1].values[1], "Parent");
}

#[test]
fn test_backward_and_forward_agree_on_line_number() {
    // The declaration nearest to the anchor is also the first in the
    // file: both scan directions report the same absolute number.
    let mut lines = filler(9);
    lines.push("def test_once():".to_string());
    lines.push("    pass".to_string());
    let back = find_nearest(&lines, DEF_PATTERN, Some(CLASS_PATTERN), 11, false)
        .unwrap()
        .unwrap();
    let fwd = find_next(&lines, DEF_PATTERN, 0).unwrap().unwrap();
    assert_eq!(back.name.as_ref().unwrap().no, 10);
    assert_eq!(fwd.no, 10);
    assert_eq!(back.name.unwrap().values, fwd.values);
}

#[test]
fn test_anchor_past_end_still_reports_real_lines() {
    // An anchor beyond the end of the file scans the whole file, and
    // the reported number is still the line's real position.
    let lines: Vec<String> = vec!["def test_under():".to_string(), "    pass".to_string()];
    let resp = find_nearest(&lines, DEF_PATTERN, Some(CLASS_PATTERN), 100, false)
        .unwrap()
        .unwrap();
    assert_eq!(resp.name.unwrap().no, 1);
}

#[test]
fn test_invalid_pattern_is_reported() {
    let lines: Vec<String> = vec!["anything".to_string()];
    let resp = find_nearest(&lines, "(", None, 1, false);
    assert!(matches!(resp, Err(PickError::Pattern)));
    let next = find_next(&lines, "(", 0);
    assert!(matches!(next, Err(PickError::Pattern)));
}

#[test]
fn test_project_root_is_an_ancestor() {
    // No directory of this made-up path exists, so the walk runs out
    // of parents; wherever it stops, the answer is the file itself or
    // an ancestor directory of it.
    let path = "./no/such/tree/src/deep/file.rs";
    let root = get_project_root(path, "Cargo.toml");
    let mut ancestors: Vec<String> = vec![path.to_string()];
    let mut cur = path.to_string();
    while let Some(p) = parent_dir(&cur) {
        ancestors.push(p.clone());
        cur = p;
    }
    assert!(ancestors.contains(&root));
}

#[test]
fn test_parent_dir_model() {
    assert_eq!(parent_dir("./a/b/c.rs"), Some("./a/b".to_string()));
    assert_eq!(parent_dir("a//b"), Some("a".to_string()));
    assert_eq!(parent_dir("a/b/"), Some("a".to_string()));
    assert_eq!(parent_dir("./a"), Some(".".to_string()));
    assert_eq!(parent_dir("."), Some("".to_string()));
    assert_eq!(parent_dir("name.go"), Some("".to_string()));
    assert_eq!(parent_dir("/top"), Some("/".to_string()));
    assert_eq!(parent_dir("/"), None);
    assert_eq!(parent_dir(""), None);
}

#[test]
fn test_error_description_matches_variant() {
    assert_eq!(PickError::ModuleNotFound.describe(), "Could not find mod.");
    assert_eq!(
        PickError::TestFunctionNotFound.describe(),
        "Could not find test function."
    );
}
