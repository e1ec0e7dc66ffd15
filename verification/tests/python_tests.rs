use testpick::python::{find_nearest, get_command};

fn py_lines() -> Vec<String> {
    vec![
        "class TestClass:".to_string(),
        "    class TestNestedClass:".to_string(),
        "        def test_nestedclass_method(self):".to_string(),
        "            assert True".to_string(),
        "".to_string(),
        "    def test_method(self):".to_string(),
        "        assert True".to_string(),
        "".to_string(),
        "".to_string(),
        "class TestClassObj:".to_string(),
        "    def test_method_obj(self):".to_string(),
        "        assert True".to_string(),
        "".to_string(),
        "".to_string(),
        "def test_function():".to_string(),
        "    assert True".to_string(),
        "".to_string(),
        "".to_string(),
        "async def test_async_function():".to_string(),
        "    assert True".to_string(),
    ]
}

#[test]
fn test_simple_thingy() {
    let resp = find_nearest(&py_lines(), 16).unwrap().unwrap();

    assert_eq!(resp.clone().name.unwrap().no, 15);
    assert_eq!(resp.name.unwrap().values[1], "test_function".to_string());
    assert_eq!(resp.namespace.len(), 0);
}

#[test]
fn python_test_simple_command() {
    let resp = get_command("./fixtures/python/pytest/test_stuff.py", &py_lines(), Some(16), false)
        .unwrap()
        .unwrap();
    assert_eq!(
        resp,
        "pytest ./fixtures/python/pytest/test_stuff.py::test_function"
    );
}

#[test]
fn test_simple_on_def() {
    let resp = find_nearest(&py_lines(), 15).unwrap().unwrap();
    assert_eq!(resp.clone().name.unwrap().no, 15);
    assert_eq!(resp.name.unwrap().values[1], "test_function".to_string());
    assert_eq!(resp.namespace.len(), 0);
}

#[test]
fn test_simple_on_async_def() {
    let resp = find_nearest(&py_lines(), 20).unwrap().unwrap();
    assert_eq!(resp.clone().name.unwrap().no, 19);
    assert_eq!(
        resp.name.unwrap().values[2],
        "test_async_function".to_string()
    );
    assert_eq!(resp.namespace.len(), 0);
}

#[test]
fn test_simple_async_def_command() {
    let resp = get_command("./fixtures/python/pytest/test_stuff.py", &py_lines(), Some(20), false)
        .unwrap()
        .unwrap();
    assert_eq!(
        resp,
        "pytest ./fixtures/python/pytest/test_stuff.py::test_async_function"
    );
}

#[test]
fn test_simple_on_empty() {
    let resp = find_nearest(&py_lines(), 14).unwrap().unwrap();
    assert_eq!(resp.clone().name.unwrap().no, 11);
    assert_eq!(resp.name.unwrap().values[1], "test_method_obj".to_string());
    assert_eq!(resp.namespace.len(), 1);
}

#[test]
fn test_simple_on_class() {
    let resp = find_nearest(&py_lines(), 10).unwrap().unwrap();
    assert_eq!(resp.name.is_none(), true);
    assert_eq!(resp.namespace.len(), 1);
}

#[test]
fn test_method_obj() {
    let resp = find_nearest(&py_lines(), 12).unwrap().unwrap();
    assert_eq!(resp.clone().name.unwrap().no, 11);
    assert_eq!(resp.name.unwrap().values[1], "test_method_obj".to_string());
    assert_eq!(resp.namespace.len(), 1);
    assert_eq!(resp.namespace[0].no, 10);
    assert_eq!(resp.namespace[0].values[1], "TestClassObj".to_string());
}

#[test]
fn test_method_out_nested() {
    let resp = find_nearest(&py_lines(), 6).unwrap().unwrap();
    println!("{:?}", resp.clone());
    assert_eq!(resp.clone().name.unwrap().no, 6);
    assert_eq!(resp.name.unwrap().values[1], "test_method".to_string());
    assert_eq!(resp.namespace.len(), 1);
    assert_eq!(resp.namespace[0].no, 1);
    assert_eq!(resp.namespace[0].values[1], "TestClass".to_string());
}

#[test]
fn test_nested() {
    let resp = find_nearest(&py_lines(), 4).unwrap().unwrap();
    assert_eq!(resp.clone().name.unwrap().no, 3);
    assert_eq!(
        resp.name.unwrap().values[1],
        "test_nestedclass_method".to_string()
    );
    assert_eq!(resp.namespace.len(), 2);
    assert_eq!(resp.namespace[0].no, 1);
    assert_eq!(resp.namespace[0].values[1], "TestClass".to_string());
    assert_eq!(resp.namespace[1].no, 2);
    assert_eq!(resp.namespace[1].values[1], "TestNestedClass".to_string());
}

#[test]
fn test_nested_command() {
    let resp = get_command("./fixtures/python/pytest/test_stuff.py", &py_lines(), Some(4), false)
        .unwrap()
        .unwrap();
    assert_eq!(resp, "pytest ./fixtures/python/pytest/test_stuff.py::TestClass::TestNestedClass::test_nestedclass_method");
}

#[test]
fn test_full_command() {
    let resp = get_command("./fixtures/python/pytest/test_stuff.py", &py_lines(), None, true)
        .unwrap()
        .unwrap();
    assert_eq!(resp, "pytest");
}

#[test]
fn test_short_class_path_is_dropped() {
    // A joined class path of two characters or fewer gives way to the
    // bare test name.
    let lines: Vec<String> = vec![
        "class A:".to_string(),
        "    def test_b(self):".to_string(),
        "        pass".to_string(),
    ];
    let resp = get_command("./x/test_a.py", &lines, Some(3), false)
        .unwrap()
        .unwrap();
    assert_eq!(resp, "pytest ./x/test_a.py::test_b");
}

#[test]
fn test_class_only_command() {
    // The cursor on the class line itself: no test name, the class
    // alone names the scope.
    let lines: Vec<String> = vec!["class TestK:".to_string()];
    let resp = get_command("./x/test_k.py", &lines, Some(1), false)
        .unwrap()
        .unwrap();
    assert_eq!(resp, "pytest ./x/test_k.py::TestK");
}
