use vstd::prelude::*;

use crate::errors::{command_view, PickError};
use crate::model::scan_result;
use crate::project::{parent_dir, spec_parent};
use crate::pattern::regex_compiles;
use crate::scan::{self, TestCase};
use crate::textops::{find_char, find_char_from};
use vstd::string::{StrSliceExecFns, StringExecFns};

verus! {

/// The pattern of a test declaration: a `func` line, with the receiver
/// (if any) in the first capture group and a name starting with `Test`
/// or `Example` in the second.
pub open spec fn go_test_pattern() -> Seq<char> {
    "^\\s*func\\s*\\(?([^\\)]*)\\)?\\s+(Test\\w+|Example\\w+)"@
}

/// The run-filter prefix a suite receiver contributes: a receiver such
/// as `s *TestSuite` names the suite type after its `*`, and the prefix
/// is `Test<Suite>/`; an empty receiver contributes nothing. A receiver
/// without a space, or whose second word does not start with `*`, has
/// no suite to name.
pub open spec fn spec_suite_prefix(suite: Seq<char>) -> Result<Seq<char>, PickError> {
    if suite.len() == 0 {
        Ok(""@)
    } else {
        match find_char_from(suite, ' ', 0) {
            None => Err(PickError::MalformedSuite),
            Some(i) => {
                let j = match find_char_from(suite, ' ', i + 1) {
                    None => suite.len() as int,
                    Some(j) => j,
                };
                let tok = suite.subrange(i + 1, j);
                if tok.len() == 0 || tok[0] != '*' {
                    Err(PickError::MalformedSuite)
                } else {
                    Ok("Test"@ + tok.drop_first() + "/"@)
                }
            },
        }
    }
}

/// What the command formatter produces from a scope scan: a run filter
/// anchored on the suite prefix and the test name, and the test's
/// directory as the package path. Without a line number the package is
/// run verbosely; `full` asks for every package.
pub open spec fn spec_go_command(
    filename: Seq<char>,
    lines: Seq<Seq<char>>,
    line_no: Option<usize>,
    full: bool,
    verbose: bool,
) -> Result<Option<Seq<char>>, PickError> {
    let vs = if verbose {
        " -v"@
    } else {
        ""@
    };
    if full {
        Ok(Some("go test"@ + vs + " ./..."@))
    } else {
        let module = match spec_parent(filename) {
            Some(p) => p,
            None => "."@,
        };
        match line_no {
            None => Ok(Some("go test -v "@ + module)),
            Some(ln) => match scan_result(lines, go_test_pattern(), None, ln as int, false) {
                None => Ok(None),
                Some(tc) => match tc.name {
                    Some(nm) => if nm.values.len() < 2 {
                        Err(PickError::MissingCaptureGroup)
                    } else {
                        match spec_suite_prefix(nm.values[nm.values.len() - 2]) {
                            Err(e) => Err(e),
                            Ok(pre) => Ok(
                                Some(
                                    "go test"@ + vs + " -run '^"@ + pre + nm.values.last() + "$' "@
                                        + module,
                                ),
                            ),
                        }
                    },
                    None => Ok(Some("go test"@ + vs + " -run '^"@ + "$' "@ + module)),
                },
            },
        }
    }
}

/// Scan backward from `line_no` for the nearest test declaration; go
/// declarations carry no separate namespace pattern. It fails exactly
/// when the one fixed pattern does not compile.
pub fn find_nearest(lines: &Vec<String>, line_no: usize) -> (r: Result<
    Option<TestCase>,
    PickError,
>)
    ensures
        match r {
            Ok(m) => regex_compiles(go_test_pattern()) && m.deep_view() == scan_result(
                lines.deep_view(),
                go_test_pattern(),
                None,
                line_no as int,
                false,
            ),
            Err(e) => e == PickError::Pattern && !regex_compiles(go_test_pattern()),
        },
{
    scan::find_nearest(
        lines,
        "^\\s*func\\s*\\(?([^\\)]*)\\)?\\s+(Test\\w+|Example\\w+)",
        None,
        line_no,
        false,
    )
}

/// The run-filter prefix of a suite receiver.
fn suite_prefix(s: &str) -> (r: Result<String, PickError>)
    ensures
        match r {
            Ok(p) => Ok::<Seq<char>, PickError>(p@) == spec_suite_prefix(s@),
            Err(e) => Err::<Seq<char>, PickError>(e) == spec_suite_prefix(s@),
        },
{
    let slen = s.unicode_len();
    if slen == 0 {
        return Ok("".to_owned());
    }
    let i = match find_char(s, ' ', 0) {
        None => {
            return Err(PickError::MalformedSuite);
        },
        Some(i) => i,
    };
    let j = match find_char(s, ' ', i + 1) {
        None => slen,
        Some(j) => j,
    };
    let ghost tok = s@.subrange(i + 1, j as int);
    if j == i + 1 {
        proof {
            assert(tok.len() == 0);
        }
        return Err(PickError::MalformedSuite);
    }
    proof {
        assert(tok[0] == s@[i + 1]);
    }
    if s.get_char(i + 1) != '*' {
        return Err(PickError::MalformedSuite);
    }
    let tail = s.substring_char(i + 2, j);
    let mut p = "Test".to_owned();
    p.append(tail);
    p.append("/");
    proof {
        assert(tail@ =~= tok.drop_first());
        assert(p@ =~= "Test"@ + tok.drop_first() + "/"@);
    }
    Ok(p)
}

/// Render the command that runs the test at `line_no` of the file.
/// The whole-suite and whole-file branches call nothing fallible, so
/// they are always produced; a pattern failure happens exactly when
/// the one fixed pattern does not compile.
pub fn get_command(
    filename: &str,
    lines: &Vec<String>,
    line_no: Option<usize>,
    full: bool,
    verbose: bool,
) -> (r: Result<Option<String>, PickError>)
    ensures
        r == Err::<Option<String>, PickError>(PickError::Pattern) <==> (!full && line_no is Some
            && !regex_compiles(go_test_pattern())),
        (full || line_no is None || regex_compiles(go_test_pattern())) ==> command_view(r)
            == spec_go_command(filename@, lines.deep_view(), line_no, full, verbose),
{
    let verbose_str: &str = if verbose {
        " -v"
    } else {
        ""
    };
    if full {
        let mut c = "go test".to_owned();
        c.append(verbose_str);
        c.append(" ./...");
        proof {
            assert(c@ =~= "go test"@ + verbose_str@ + " ./..."@);
        }
        return Ok(Some(c));
    }
    let module: String = match parent_dir(filename) {
        Some(p) => p,
        None => ".".to_owned(),
    };
    let ln = match line_no {
        None => {
            let mut c = "go test -v ".to_owned();
            c.append(module.as_str());
            proof {
                assert(c@ =~= "go test -v "@ + module@);
            }
            return Ok(Some(c));
        },
        Some(ln) => ln,
    };
    let t = match find_nearest(lines, ln) {
        Err(e) => {
            return Err(e);
        },
        Ok(None) => {
            return Ok(None);
        },
        Ok(Some(t)) => t,
    };
    match &t.name {
        Some(nm) => {
            if nm.values.len() < 2 {
                return Err(PickError::MissingCaptureGroup);
            }
            let suite = &nm.values[nm.values.len() - 2];
            let pre = match suite_prefix(suite.as_str()) {
                Err(e) => {
                    return Err(e);
                },
                Ok(p) => p,
            };
            let last = &nm.values[nm.values.len() - 1];
            let mut c = "go test".to_owned();
            c.append(verbose_str);
            c.append(" -run '^");
            c.append(pre.as_str());
            c.append(last.as_str());
            c.append("$' ");
            c.append(module.as_str());
            proof {
                let nms = t@.name->Some_0;
                assert(c@ =~= "go test"@ + verbose_str@ + " -run '^"@ + pre@ + nms.values.last()
                    + "$' "@ + module@);
            }
            Ok(Some(c))
        },
        None => {
            let mut c = "go test".to_owned();
            c.append(verbose_str);
            c.append(" -run '^");
            c.append("$' ");
            c.append(module.as_str());
            proof {
                assert(c@ =~= "go test"@ + verbose_str@ + " -run '^"@ + "$' "@ + module@);
            }
            Ok(Some(c))
        },
    }
}

} // verus!
