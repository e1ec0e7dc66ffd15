use vstd::prelude::*;

use crate::errors::{command_view, PickError};
use crate::model::{next_match_from, scan_result};
use crate::project::{get_project_root, is_ancestor_path};
use crate::pattern::regex_compiles;
use crate::scan::{self, TestCase, WithLineNo};
use crate::textops::{
    find_sub, find_sub_from, replace_all, spec_replace, starts_with_seq, str_starts_with,
};
use vstd::string::{StrSliceExecFns, StringExecFns};

verus! {

/// The pattern of a test marker: a `#[test]` attribute line.
pub open spec fn rust_test_pattern() -> Seq<char> {
    "^\\s*#\\[test\\]"@
}

/// The pattern of the enclosing scope marker: a `#[cfg(test)]` line.
pub open spec fn rust_cfg_pattern() -> Seq<char> {
    "^\\s*#\\[cfg\\(test\\)\\]"@
}

/// The pattern of a module declaration, its name in the first group.
pub open spec fn rust_mod_pattern() -> Seq<char> {
    "^\\s*mod ([a-z_0-9]+)"@
}

/// The pattern of a test function declaration, the part of its name
/// after `test_` in the first group.
pub open spec fn rust_fn_pattern() -> Seq<char> {
    "^\\s*fn test_([a-z_0-9]*)"@
}

/// The module path of a source file: the part of `rel` after its first
/// `src/` component (up to the next one, if any), with separators
/// turned into `::` and the `.rs` ending dropped. A path without a
/// `src/` component has none.
pub open spec fn spec_file_namespace(rel: Seq<char>) -> Option<Seq<char>> {
    match find_sub_from(rel, "src/"@, 0) {
        None => None,
        Some(i) => {
            let from = i + "src/"@.len();
            let j = match find_sub_from(rel, "src/"@, from) {
                None => rel.len() as int,
                Some(j) => j,
            };
            let part = rel.subrange(from, j);
            Some(spec_replace(spec_replace(part, "/"@, "::"@), ".rs"@, ""@))
        },
    }
}

/// The file's path relative to the project root: the root prefix is
/// dropped when it is one.
pub open spec fn spec_relative(filename: Seq<char>, root: Seq<char>) -> Seq<char> {
    if starts_with_seq(filename, root) {
        filename.skip(root.len() as int)
    } else {
        filename
    }
}

/// Whether every fixed pattern of this adapter compiles.
pub open spec fn rust_patterns_compile() -> bool {
    &&& regex_compiles(rust_test_pattern())
    &&& regex_compiles(rust_cfg_pattern())
    &&& regex_compiles(rust_mod_pattern())
    &&& regex_compiles(rust_fn_pattern())
}

/// What the command formatter produces from the scans, given the
/// project root that the marker walk found. The file's module path
/// always names the scope; a test marker narrows it by the module
/// declaration that follows the scope marker, and the test function
/// that follows the test marker.
pub open spec fn spec_rust_command(
    filename: Seq<char>,
    lines: Seq<Seq<char>>,
    line_no: Option<usize>,
    full: bool,
    verbose: bool,
    root: Seq<char>,
) -> Result<Option<Seq<char>>, PickError> {
    let vs = if verbose {
        " -v"@
    } else {
        ""@
    };
    if full {
        Ok(Some("cargo test"@ + vs))
    } else {
        match spec_file_namespace(spec_relative(filename, root)) {
            None => Err(PickError::MissingSourceDir),
            Some(fns) => match line_no {
                None => Ok(Some("cargo test "@ + fns)),
                Some(ln) => {
                    let base = "cargo test"@ + vs + " "@ + fns;
                    match scan_result(
                        lines,
                        rust_test_pattern(),
                        Some(rust_cfg_pattern()),
                        ln as int,
                        false,
                    ) {
                        None => Ok(Some(base)),
                        Some(tm) => if tm.namespace.len() == 0 {
                            Err(PickError::MissingNamespace)
                        } else {
                            match next_match_from(lines, rust_mod_pattern(), tm.namespace[0].no) {
                                None => Err(PickError::ModuleNotFound),
                                Some(md) => if md.values.len() < 2 {
                                    Err(PickError::MissingCaptureGroup)
                                } else {
                                    let with_mod = base + "::"@ + md.values[1];
                                    match tm.name {
                                        None => Ok(Some(with_mod)),
                                        Some(nm) => match next_match_from(
                                            lines,
                                            rust_fn_pattern(),
                                            nm.no,
                                        ) {
                                            None => Err(PickError::TestFunctionNotFound),
                                            Some(f) => if f.values.len() < 2 {
                                                Err(PickError::MissingCaptureGroup)
                                            } else {
                                                Ok(Some(with_mod + "::test_"@ + f.values[1]))
                                            },
                                        },
                                    }
                                },
                            }
                        },
                    }
                },
            },
        }
    }
}

/// Scan backward from `line_no` for the nearest test marker and its
/// enclosing scope markers; it fails exactly when one of the two fixed
/// patterns does not compile.
pub fn find_nearest_test_markers(lines: &Vec<String>, line_no: usize) -> (r: Result<
    Option<TestCase>,
    PickError,
>)
    ensures
        match r {
            Ok(m) => regex_compiles(rust_test_pattern()) && regex_compiles(rust_cfg_pattern())
                && m.deep_view() == scan_result(
                lines.deep_view(),
                rust_test_pattern(),
                Some(rust_cfg_pattern()),
                line_no as int,
                false,
            ),
            Err(e) => e == PickError::Pattern && !(regex_compiles(rust_test_pattern())
                && regex_compiles(rust_cfg_pattern())),
        },
{
    scan::find_nearest(lines, "^\\s*#\\[test\\]", Some("^\\s*#\\[cfg\\(test\\)\\]"), line_no, false)
}

/// The first module declaration at or after index `line_no`; it fails
/// exactly when the fixed pattern does not compile.
pub fn find_nearest_namespace(lines: &Vec<String>, line_no: usize) -> (r: Result<
    Option<WithLineNo>,
    PickError,
>)
    ensures
        match r {
            Ok(m) => regex_compiles(rust_mod_pattern()) && m.deep_view() == next_match_from(
                lines.deep_view(),
                rust_mod_pattern(),
                line_no as int,
            ),
            Err(e) => e == PickError::Pattern && !regex_compiles(rust_mod_pattern()),
        },
{
    scan::find_next(lines, "^\\s*mod ([a-z_0-9]+)", line_no)
}

/// The first test function declaration at or after index `line_no`;
/// it fails exactly when the fixed pattern does not compile.
pub fn find_nearest_test_function(lines: &Vec<String>, line_no: usize) -> (r: Result<
    Option<WithLineNo>,
    PickError,
>)
    ensures
        match r {
            Ok(m) => regex_compiles(rust_fn_pattern()) && m.deep_view() == next_match_from(
                lines.deep_view(),
                rust_fn_pattern(),
                line_no as int,
            ),
            Err(e) => e == PickError::Pattern && !regex_compiles(rust_fn_pattern()),
        },
{
    scan::find_next(lines, "^\\s*fn test_([a-z_0-9]*)", line_no)
}

/// Render the command, with the project root handed in rather than
/// taken from the file system.
pub fn get_command_with_root(
    filename: &str,
    lines: &Vec<String>,
    line_no: Option<usize>,
    full: bool,
    verbose: bool,
    root: &str,
) -> (r: Result<Option<String>, PickError>)
    ensures
        match r {
            Ok(c) => Ok::<Option<Seq<char>>, PickError>(c.deep_view()) == spec_rust_command(
                filename@,
                lines.deep_view(),
                line_no,
                full,
                verbose,
                root@,
            ),
            Err(e) => e == PickError::Pattern || Err::<Option<Seq<char>>, PickError>(e)
                == spec_rust_command(
                filename@,
                lines.deep_view(),
                line_no,
                full,
                verbose,
                root@,
            ),
        },
        (!full && line_no is Some && spec_file_namespace(
            spec_relative(filename@, root@),
        ) is Some && !(regex_compiles(rust_test_pattern()) && regex_compiles(rust_cfg_pattern())))
            ==> r == Err::<Option<String>, PickError>(PickError::Pattern),
        r == Err::<Option<String>, PickError>(PickError::Pattern) ==> (!full && line_no is Some
            && !rust_patterns_compile()),
        (full || line_no is None || rust_patterns_compile()) ==> command_view(r)
            == spec_rust_command(filename@, lines.deep_view(), line_no, full, verbose, root@),
{
    let verbose_str: &str = if verbose {
        " -v"
    } else {
        ""
    };
    if full {
        let mut c = "cargo test".to_owned();
        c.append(verbose_str);
        proof {
            assert(c@ =~= "cargo test"@ + verbose_str@);
        }
        return Ok(Some(c));
    }
    let flen = filename.unicode_len();
    let rlen = root.unicode_len();
    let relative: String = if str_starts_with(filename, root) {
        let sub = filename.substring_char(rlen, flen);
        proof {
            assert(filename@.subrange(rlen as int, flen as int) =~= filename@.skip(rlen as int));
        }
        sub.to_owned()
    } else {
        filename.to_owned()
    };
    let ghost rel = relative@;
    let srclen = "src/".unicode_len();
    let i = match find_sub(relative.as_str(), "src/", 0) {
        None => {
            return Err(PickError::MissingSourceDir);
        },
        Some(i) => i,
    };
    let rellen = relative.as_str().unicode_len();
    let j = match find_sub(relative.as_str(), "src/", i + srclen) {
        None => rellen,
        Some(j) => j,
    };
    let part = relative.as_str().substring_char(i + srclen, j);
    let step1 = replace_all(part, "/", "::");
    let fns = replace_all(step1.as_str(), ".rs", "");
    proof {
        assert(Some(fns@) == spec_file_namespace(rel));
    }
    let ln = match line_no {
        None => {
            let mut c = "cargo test ".to_owned();
            c.append(fns.as_str());
            proof {
                assert(c@ =~= "cargo test "@ + fns@);
            }
            return Ok(Some(c));
        },
        Some(ln) => ln,
    };
    let tm = match find_nearest_test_markers(lines, ln) {
        Err(e) => {
            return Err(e);
        },
        Ok(None) => {
            let mut c = "cargo test".to_owned();
            c.append(verbose_str);
            c.append(" ");
            c.append(fns.as_str());
            proof {
                assert(c@ =~= "cargo test"@ + verbose_str@ + " "@ + fns@);
            }
            return Ok(Some(c));
        },
        Ok(Some(tm)) => tm,
    };
    if tm.namespace.len() == 0 {
        return Err(PickError::MissingNamespace);
    }
    let ns_no = tm.namespace[0].no;
    let md = match find_nearest_namespace(lines, ns_no) {
        Err(e) => {
            return Err(e);
        },
        Ok(None) => {
            return Err(PickError::ModuleNotFound);
        },
        Ok(Some(md)) => md,
    };
    if md.values.len() < 2 {
        return Err(PickError::MissingCaptureGroup);
    }
    let mut c = "cargo test".to_owned();
    c.append(verbose_str);
    c.append(" ");
    c.append(fns.as_str());
    c.append("::");
    c.append(md.values[1].as_str());
    let ghost with_mod = ("cargo test"@ + verbose_str@ + " "@ + fns@) + "::"@ + md@.values[1];
    proof {
        assert(c@ =~= with_mod);
    }
    match &tm.name {
        None => Ok(Some(c)),
        Some(nm) => {
            let f = match find_nearest_test_function(lines, nm.no) {
                Err(e) => {
                    return Err(e);
                },
                Ok(None) => {
                    return Err(PickError::TestFunctionNotFound);
                },
                Ok(Some(f)) => f,
            };
            if f.values.len() < 2 {
                return Err(PickError::MissingCaptureGroup);
            }
            c.append("::test_");
            c.append(f.values[1].as_str());
            proof {
                assert(c@ =~= with_mod + "::test_"@ + f@.values[1]);
            }
            Ok(Some(c))
        },
    }
}

/// Render the command that runs the test at `line_no` of the file. The
/// project root comes from walking the directories above the file for
/// a `Cargo.toml` marker.
pub fn get_command(
    filename: &str,
    lines: &Vec<String>,
    line_no: Option<usize>,
    full: bool,
    verbose: bool,
) -> (r: Result<Option<String>, PickError>)
    ensures
        match r {
            Ok(c) => exists|root: Seq<char>|
                is_ancestor_path(root, filename@) && Ok::<Option<Seq<char>>, PickError>(
                    c.deep_view(),
                ) == #[trigger] spec_rust_command(
                    filename@,
                    lines.deep_view(),
                    line_no,
                    full,
                    verbose,
                    root,
                ),
            Err(e) => e == PickError::Pattern || exists|root: Seq<char>|
                is_ancestor_path(root, filename@) && Err::<Option<Seq<char>>, PickError>(e)
                    == #[trigger] spec_rust_command(
                    filename@,
                    lines.deep_view(),
                    line_no,
                    full,
                    verbose,
                    root,
                ),
        },
        (!full && line_no is Some && !(regex_compiles(rust_test_pattern()) && regex_compiles(
            rust_cfg_pattern(),
        ))) ==> r is Err,
        r == Err::<Option<String>, PickError>(PickError::Pattern) ==> (!full && line_no is Some
            && !rust_patterns_compile()),
        (full || line_no is None || rust_patterns_compile()) ==> exists|root: Seq<char>|
            is_ancestor_path(root, filename@) && command_view(r) == #[trigger] spec_rust_command(
                filename@,
                lines.deep_view(),
                line_no,
                full,
                verbose,
                root,
            ),
{
    let root = get_project_root(filename, "Cargo.toml");
    let r = get_command_with_root(filename, lines, line_no, full, verbose, root.as_str());
    proof {
        if full || line_no is None || rust_patterns_compile() {
            assert(is_ancestor_path(root@, filename@) && command_view(r) == spec_rust_command(
                filename@,
                lines.deep_view(),
                line_no,
                full,
                verbose,
                root@,
            ));
        }
        match &r {
            Ok(c) => {
                assert(is_ancestor_path(root@, filename@) && Ok::<Option<Seq<char>>, PickError>(
                    c.deep_view(),
                ) == spec_rust_command(
                    filename@,
                    lines.deep_view(),
                    line_no,
                    full,
                    verbose,
                    root@,
                ));
            },
            Err(e) => {
                if *e != PickError::Pattern {
                    assert(is_ancestor_path(root@, filename@) && Err::<
                        Option<Seq<char>>,
                        PickError,
                    >(*e) == spec_rust_command(
                        filename@,
                        lines.deep_view(),
                        line_no,
                        full,
                        verbose,
                        root@,
                    ));
                }
            },
        }
    }
    r
}

} // verus!
