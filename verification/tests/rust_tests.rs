use testpick::rust::{find_nearest_test_markers, get_command};

fn tester_lines() -> Vec<String> {
    vec![
        "#[cfg(test)]".to_string(),
        "mod tests {".to_string(),
        "    use super::*;".to_string(),
        "".to_string(),
        "    #[test]".to_string(),
        "    fn test_simple() {".to_string(),
        "        let resp = find_nearest_test_markers(\"./fixtures/rust/cargo/src/pickers/tester.rs\", 16)".to_string(),
        "            .unwrap()".to_string(),
        "            .unwrap();".to_string(),
        "        assert_eq!(".to_string(),
        "            resp.name.unwrap(),".to_string(),
        "            WithLineNo {".to_string(),
        "                no: 15,".to_string(),
        "                value: \"test_function\".to_string()".to_string(),
        "            }".to_string(),
        "        );".to_string(),
        "        assert_eq!(resp.namespace.len(), 0);".to_string(),
        "    }".to_string(),
        "}".to_string(),
    ]
}

#[test]
fn test_simple_find() {
    let resp = find_nearest_test_markers(&tester_lines(), 16)
        .unwrap()
        .unwrap();
    assert_eq!(resp.clone().name.unwrap().no, 5);
    assert_eq!(resp.name.unwrap().values.len(), 1);
    assert_eq!(resp.namespace.len(), 1);
    assert_eq!(resp.namespace[0].no, 1);
    assert_eq!(resp.namespace[0].values.len(), 1);
}

#[test]
fn rust_test_simple_command() {
    let resp = get_command(
        "./fixtures/rust/cargo/src/pickers/tester.rs",
        &tester_lines(),
        Some(16),
        false,
        false,
    )
    .unwrap()
    .unwrap();
    assert_eq!(resp, "cargo test pickers::tester::tests::test_simple");
}

#[test]
fn test_mod_command_normal() {
    let resp = get_command(
        "./fixtures/rust/cargo/src/pickers/tester.rs",
        &tester_lines(),
        Some(3),
        false,
        false,
    )
    .unwrap()
    .unwrap();
    assert_eq!(resp, "cargo test pickers::tester::tests");
}

#[test]
fn test_full_command_normal() {
    let resp = get_command(
        "./fixtures/rust/cargo/src/pickers/tester.rs",
        &tester_lines(),
        Some(3),
        true,
        false,
    )
    .unwrap()
    .unwrap();
    assert_eq!(resp, "cargo test");
}

#[test]
fn test_mod_command_verbose() {
    let resp = get_command(
        "./fixtures/rust/cargo/src/pickers/tester.rs",
        &tester_lines(),
        Some(3),
        false,
        true,
    )
    .unwrap()
    .unwrap();
    assert_eq!(resp, "cargo test -v pickers::tester::tests");
}

#[test]
fn test_full_command_verbose() {
    let resp = get_command(
        "./fixtures/rust/cargo/src/pickers/tester.rs",
        &tester_lines(),
        Some(3),
        true,
        true,
    )
    .unwrap()
    .unwrap();
    assert_eq!(resp, "cargo test -v");
}

#[test]
fn test_marker_without_scope_marker() {
    // A test marker with no enclosing scope marker above it is an
    // incomplete scope, not a command.
    let lines: Vec<String> = vec!["#[test]".to_string(), "fn test_x() {}".to_string()];
    let resp = get_command("./src/foo.rs", &lines, Some(1), false, false);
    assert!(matches!(
        resp,
        Err(testpick::errors::PickError::MissingNamespace)
    ));
}

#[test]
fn test_module_not_found() {
    let lines: Vec<String> = vec![
        "#[cfg(test)]".to_string(),
        "    #[test]".to_string(),
        "    fn test_a() {}".to_string(),
    ];
    let resp = get_command("./src/foo.rs", &lines, Some(3), false, false);
    assert!(matches!(
        resp,
        Err(testpick::errors::PickError::ModuleNotFound)
    ));
}

#[test]
fn test_function_not_found() {
    let lines: Vec<String> = vec![
        "#[cfg(test)]".to_string(),
        "mod tests {".to_string(),
        "    #[test]".to_string(),
        "    no declaration follows".to_string(),
    ];
    let resp = get_command("./src/foo.rs", &lines, Some(4), false, false);
    assert!(matches!(
        resp,
        Err(testpick::errors::PickError::TestFunctionNotFound)
    ));
}

#[test]
fn test_path_without_source_dir() {
    let lines: Vec<String> = vec!["fn main() {}".to_string()];
    let resp = get_command("./lib/foo.rs", &lines, Some(1), false, false);
    assert!(matches!(
        resp,
        Err(testpick::errors::PickError::MissingSourceDir)
    ));
}
