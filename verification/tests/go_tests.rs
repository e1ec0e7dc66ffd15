use testpick::go::{find_nearest, get_command};

fn go_lines() -> Vec<String> {
    vec![
        "package main".to_string(),
        "".to_string(),
        "import (".to_string(),
        "\t\"testing\"".to_string(),
        ")".to_string(),
        "".to_string(),
        "// a plain test function".to_string(),
        "func TestInputParseBasic(t *testing.T) {".to_string(),
        "\tinput := \"hello\"".to_string(),
        "\tif input != \"hello\" {".to_string(),
        "\t\tt.Fail()".to_string(),
        "\t}".to_string(),
        "\toutput := input".to_string(),
        "\tif output == \"\" {".to_string(),
        "\t\tt.Fail()".to_string(),
        "\t}".to_string(),
        "\texpected := \"hello\"".to_string(),
        "\tif output != expected {".to_string(),
        "\t\tt.Fail()".to_string(),
        "\t}".to_string(),
        "\t_ = expected".to_string(),
        "}".to_string(),
        "".to_string(),
        "type TestSuite struct {".to_string(),
        "\tname string".to_string(),
        "}".to_string(),
        "".to_string(),
        "// a suite-bound test method".to_string(),
        "".to_string(),
        "".to_string(),
        "func (suite *TestSuite) TestNewThing() {".to_string(),
        "\tif suite.name == \"\" {".to_string(),
        "\t\treturn".to_string(),
        "\t}".to_string(),
        "}".to_string(),
    ]
}

/// The same file with the suite receiver named after the bare suite
/// type, as the run filter sees it.
fn go_suite_lines() -> Vec<String> {
    let mut lines = go_lines();
    lines[30] = "func (s *Suite) TestNewThing() {".to_string();
    lines[31] = "\tif s == nil {".to_string();
    lines
}

#[test]
fn test_go_simple_thingy() {
    let resp = find_nearest(&go_lines(), 21).unwrap().unwrap();

    assert_eq!(resp.clone().name.unwrap().no, 8);
    assert_eq!(
        resp.name.unwrap().values[2],
        "TestInputParseBasic".to_string()
    );
    assert_eq!(resp.namespace.len(), 0);
}

#[test]
fn test_go_suite() {
    let resp = find_nearest(&go_lines(), 32).unwrap().unwrap();

    assert_eq!(resp.clone().name.unwrap().no, 31);
    assert_eq!(
        resp.name.as_ref().unwrap().values[2],
        "TestNewThing".to_string()
    );
    assert_eq!(resp.name.unwrap().values[1], "suite *TestSuite".to_string());
    assert_eq!(resp.namespace.len(), 0);
}

#[test]
fn test_go_file_command() {
    let resp = get_command("./fixtures/go/gotest/main_test.go", &go_lines(), None, false, false)
        .unwrap()
        .unwrap();
    assert_eq!(resp, "go test -v ./fixtures/go/gotest");
}

#[test]
fn test_go_simple_on_func() {
    let resp = find_nearest(&go_lines(), 8).unwrap().unwrap();
    assert_eq!(resp.clone().name.unwrap().no, 8);
    assert_eq!(
        resp.name.unwrap().values[2],
        "TestInputParseBasic".to_string()
    );
    assert_eq!(resp.namespace.len(), 0);
}

#[test]
fn test_go_simple_command_normal() {
    let resp = get_command("./fixtures/go/gotest/main_test.go", &go_lines(), Some(21), false, false)
        .unwrap()
        .unwrap();
    assert_eq!(
        resp,
        "go test -run '^TestInputParseBasic$' ./fixtures/go/gotest"
    );
}

#[test]
fn test_go_full_command_normal() {
    let resp = get_command("./fixtures/go/gotest/main_test.go", &go_lines(), None, true, false)
        .unwrap()
        .unwrap();
    assert_eq!(resp, "go test ./...");
}

#[test]
fn test_go_simple_command_verbose() {
    let resp = get_command("./fixtures/go/gotest/main_test.go", &go_lines(), Some(21), false, true)
        .unwrap()
        .unwrap();
    assert_eq!(
        resp,
        "go test -v -run '^TestInputParseBasic$' ./fixtures/go/gotest"
    );
}

#[test]
fn test_go_full_command_verbose() {
    let resp = get_command("./fixtures/go/gotest/main_test.go", &go_lines(), None, true, true)
        .unwrap()
        .unwrap();
    assert_eq!(resp, "go test -v ./...");
}

#[test]
fn test_go_suite_command_normal() {
    let resp = get_command(
        "./fixtures/go/gotest/main_test.go",
        &go_suite_lines(),
        Some(32),
        false,
        false,
    )
    .unwrap()
    .unwrap();
    assert_eq!(
        resp,
        "go test -run '^TestSuite/TestNewThing$' ./fixtures/go/gotest"
    );
}

#[test]
fn test_go_malformed_suite_receiver() {
    // A receiver without a space has no suite type to name.
    let lines: Vec<String> = vec!["func (self) TestThing(t *testing.T) {".to_string()];
    let resp = get_command("./x/y_test.go", &lines, Some(1), false, false);
    assert!(matches!(
        resp,
        Err(testpick::errors::PickError::MalformedSuite)
    ));
}
