use vstd::prelude::*;

use crate::errors::{command_view, PickError};
use crate::model::{scan_result, SpecMatch};
use crate::scan::{self, TestCase};
use crate::pattern::regex_compiles;
use crate::textops::{join_sep, lemma_join_push};
use vstd::string::StringExecFns;
use vstd::utf8::encode_utf8;

verus! {

/// The pattern of a test declaration: a `def` (or `async def`) whose
/// name starts with `test_`.
pub open spec fn py_test_pattern() -> Seq<char> {
    "^\\s*(async )?def (test_\\w+)"@
}

/// The pattern of an enclosing scope declaration: a `class` line.
pub open spec fn py_class_pattern() -> Seq<char> {
    "^\\s*class (\\w+) ?.*:"@
}

/// The class names of the enclosing declarations: the second capture
/// group of each.
pub open spec fn second_groups(ns: Seq<SpecMatch>) -> Seq<Seq<char>> {
    Seq::new(ns.len(), |i: int| ns[i].values[1])
}

/// What the command formatter produces from a scope scan: the test
/// path joins the class names outermost first, then the test name; a
/// joined class path of two bytes or fewer, UTF-8 encoded, is dropped
/// in favour of the bare test name. Without a line number the whole
/// file is named; `full` asks for the whole suite.
pub open spec fn spec_python_command(
    filename: Seq<char>,
    lines: Seq<Seq<char>>,
    line_no: Option<usize>,
    full: bool,
) -> Result<Option<Seq<char>>, PickError> {
    if full {
        Ok(Some("pytest"@))
    } else {
        match line_no {
            None => Ok(Some("pytest "@ + filename)),
            Some(ln) => match scan_result(
                lines,
                py_test_pattern(),
                Some(py_class_pattern()),
                ln as int,
                false,
            ) {
                None => Ok(None),
                Some(tc) => {
                    if exists|j: int|
                        0 <= j < tc.namespace.len() && (#[trigger] tc.namespace[j]).values.len()
                            < 2 {
                        Err(PickError::MissingCaptureGroup)
                    } else {
                        let base = join_sep(second_groups(tc.namespace), "::"@);
                        match tc.name {
                            Some(nm) => if nm.values.len() == 0 {
                                Err(PickError::MissingCaptureGroup)
                            } else {
                                let path = if encode_utf8(base).len() > 2 {
                                    base + "::"@ + nm.values.last()
                                } else {
                                    nm.values.last()
                                };
                                Ok(Some("pytest "@ + filename + "::"@ + path))
                            },
                            None => Ok(Some("pytest "@ + filename + "::"@ + base)),
                        }
                    }
                },
            },
        }
    }
}

/// Scan backward from `line_no` for the nearest test declaration and
/// its enclosing classes; it fails exactly when one of the two fixed
/// patterns does not compile.
pub fn find_nearest(lines: &Vec<String>, line_no: usize) -> (r: Result<
    Option<TestCase>,
    PickError,
>)
    ensures
        match r {
            Ok(m) => regex_compiles(py_test_pattern()) && regex_compiles(py_class_pattern())
                && m.deep_view() == scan_result(
                lines.deep_view(),
                py_test_pattern(),
                Some(py_class_pattern()),
                line_no as int,
                false,
            ),
            Err(e) => e == PickError::Pattern && !(regex_compiles(py_test_pattern())
                && regex_compiles(py_class_pattern())),
        },
{
    scan::find_nearest(
        lines,
        "^\\s*(async )?def (test_\\w+)",
        Some("^\\s*class (\\w+) ?.*:"),
        line_no,
        false,
    )
}

/// Render the command that runs the test at `line_no` of the file.
/// Only the scan can fail with a bad pattern, so the whole-suite and
/// whole-file commands are always produced, and a pattern failure
/// happens exactly when one of the two fixed patterns does not
/// compile.
pub fn get_command(
    filename: &str,
    lines: &Vec<String>,
    line_no: Option<usize>,
    full: bool,
) -> (r: Result<Option<String>, PickError>)
    ensures
        r == Err::<Option<String>, PickError>(PickError::Pattern) <==> (!full && line_no is Some
            && !(regex_compiles(py_test_pattern()) && regex_compiles(py_class_pattern()))),
        (full || line_no is None || (regex_compiles(py_test_pattern()) && regex_compiles(
            py_class_pattern(),
        ))) ==> command_view(r) == spec_python_command(filename@, lines.deep_view(), line_no, full),
{
    if full {
        return Ok(Some("pytest".to_owned()));
    }
    let ln = match line_no {
        None => {
            let mut c = "pytest ".to_owned();
            c.append(filename);
            return Ok(Some(c));
        },
        Some(ln) => ln,
    };
    let t = match find_nearest(lines, ln) {
        Err(e) => {
            return Err(e);
        },
        Ok(None) => {
            return Ok(None);
        },
        Ok(Some(t)) => t,
    };
    let ghost tc = t@;
    let mut joined = String::new();
    let mut i: usize = 0;
    while i < t.namespace.len()
        invariant
            i <= t.namespace.len(),
            tc == t@,
            !full,
            line_no == Some(ln),
            scan_result(
                lines.deep_view(),
                py_test_pattern(),
                Some(py_class_pattern()),
                ln as int,
                false,
            ) == Some(tc),
            regex_compiles(py_test_pattern()) && regex_compiles(py_class_pattern()),
            forall|j: int| 0 <= j < i ==> (#[trigger] tc.namespace[j]).values.len() >= 2,
            joined@ == join_sep(second_groups(tc.namespace.take(i as int)), "::"@),
        decreases t.namespace.len() - i,
    {
        let entry = &t.namespace[i];
        if entry.values.len() < 2 {
            proof {
                assert((tc.namespace[i as int]).values.len() < 2);
            }
            return Err(PickError::MissingCaptureGroup);
        }
        proof {
            assert(second_groups(tc.namespace.take(i + 1)) =~= second_groups(
                tc.namespace.take(i as int),
            ).push(tc.namespace[i as int].values[1]));
            lemma_join_push(second_groups(tc.namespace.take(i as int)), "::"@,
                tc.namespace[i as int].values[1]);
        }
        if i > 0 {
            joined.append("::");
        }
        joined.append(entry.values[1].as_str());
        proof {
            if i > 0 {
                assert(joined@ =~= join_sep(second_groups(tc.namespace.take(i as int)), "::"@)
                    + "::"@ + tc.namespace[i as int].values[1]);
            }
        }
        i = i + 1;
    }
    proof {
        assert(tc.namespace.take(tc.namespace.len() as int) =~= tc.namespace);
    }
    let path: String = match &t.name {
        Some(nm) => {
            if nm.values.len() == 0 {
                return Err(PickError::MissingCaptureGroup);
            }
            let last = &nm.values[nm.values.len() - 1];
            let byte_len = joined.as_str().as_bytes().len();
            proof {
                assert(byte_len == encode_utf8(join_sep(second_groups(tc.namespace), "::"@)).len());
            }
            if byte_len > 2 {
                let mut p = joined;
                p.append("::");
                p.append(last.as_str());
                proof {
                    assert(p@ =~= join_sep(second_groups(tc.namespace), "::"@) + "::"@
                        + tc.name->Some_0.values.last());
                }
                p
            } else {
                last.as_str().to_owned()
            }
        },
        None => joined,
    };
    let mut c = "pytest ".to_owned();
    c.append(filename);
    c.append("::");
    c.append(path.as_str());
    proof {
        let base = join_sep(second_groups(tc.namespace), "::"@);
        match tc.name {
            Some(nm) => {
                let spec_path = if encode_utf8(base).len() > 2 {
                    base + "::"@ + nm.values.last()
                } else {
                    nm.values.last()
                };
                assert(c@ =~= "pytest "@ + filename@ + "::"@ + spec_path);
            },
            None => {
                assert(c@ =~= "pytest "@ + filename@ + "::"@ + base);
            },
        }
    }
    Ok(Some(c))
}

} // verus!
