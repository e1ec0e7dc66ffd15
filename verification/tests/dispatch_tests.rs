use testpick::get_command;

fn py_lines() -> Vec<String> {
    vec![
        "class TestClass:".to_string(),
        "    class TestNestedClass:".to_string(),
        "        def test_nestedclass_method(self):".to_string(),
        "            assert True".to_string(),
        "".to_string(),
        "    def test_method(self):".to_string(),
        "        assert True".to_string(),
        "".to_string(),
        "".to_string(),
        "class TestClassObj:".to_string(),
        "    def test_method_obj(self):".to_string(),
        "        assert True".to_string(),
        "".to_string(),
        "".to_string(),
        "def test_function():".to_string(),
        "    assert True".to_string(),
        "".to_string(),
        "".to_string(),
        "async def test_async_function():".to_string(),
        "    assert True".to_string(),
    ]
}

#[test]
fn test_command_unknown() {
    let resp = get_command(
        "./fixtures/python/pytest/test_stuff.unknown",
        &py_lines(),
        Some(16),
        false,
        false,
    )
    .unwrap();
    assert_eq!(resp, None);
}

#[test]
fn test_python_no_lineno() {
    let resp = get_command(
        "./fixtures/python/pytest/test_stuff.py",
        &py_lines(),
        None,
        false,
        false,
    )
    .unwrap()
    .unwrap();
    assert_eq!(resp, "pytest ./fixtures/python/pytest/test_stuff.py");
}

#[test]
fn test_python_simple_command() {
    let resp = get_command(
        "./fixtures/python/pytest/test_stuff.py",
        &py_lines(),
        Some(16),
        false,
        false,
    )
    .unwrap()
    .unwrap();
    assert_eq!(
        resp,
        "pytest ./fixtures/python/pytest/test_stuff.py::test_function"
    );
}

#[test]
fn test_python_nested_command() {
    let resp = get_command(
        "./fixtures/python/pytest/test_stuff.py",
        &py_lines(),
        Some(4),
        false,
        false,
    )
    .unwrap()
    .unwrap();
    assert_eq!(resp, "pytest ./fixtures/python/pytest/test_stuff.py::TestClass::TestNestedClass::test_nestedclass_method");
}
