//! Resolve, from a source file's lines and a cursor line number, the
//! smallest enclosing test and its chain of enclosing scopes, and
//! render the command that runs exactly that scope.
//!
//! The core is the scope locator in [`scan`]: an indentation-aware,
//! direction-sensitive line scan, specified against the state machine
//! in [`model`] and with its structural laws proved in [`laws`]. One
//! adapter per language ([`python`], [`rust`], [`go`]) supplies the
//! patterns and renders the runner's command line; [`get_command`]
//! picks the adapter by the file's ending. Line matching itself is the
//! `regex` crate's, behind the trusted boundary in [`pattern`].

pub mod errors;
pub mod go;
pub mod laws;
pub mod model;
pub mod pattern;
pub mod project;
pub mod python;
pub mod rust;
pub mod scan;
pub mod textops;

use vstd::prelude::*;

use crate::errors::{command_view, PickError};
use crate::pattern::regex_compiles;
use crate::project::is_ancestor_path;
use crate::textops::ends_with_seq;

verus! {

/// Pick the language adapter by the file's ending and render the
/// command that runs the test at `line_no` of the file; a file of an
/// unknown kind yields no command.
pub fn get_command(
    filename: &str,
    lines: &Vec<String>,
    line_no: Option<usize>,
    full: bool,
    verbose: bool,
) -> (r: Result<Option<String>, PickError>)
    ensures
        ends_with_seq(filename@, ".py"@) ==> (r == Err::<Option<String>, PickError>(
            PickError::Pattern,
        ) <==> (!full && line_no is Some && !(regex_compiles(python::py_test_pattern())
            && regex_compiles(python::py_class_pattern())))),
        ends_with_seq(filename@, ".py"@) && (full || line_no is None || (regex_compiles(
            python::py_test_pattern(),
        ) && regex_compiles(python::py_class_pattern()))) ==> command_view(r)
            == python::spec_python_command(filename@, lines.deep_view(), line_no, full),
        !ends_with_seq(filename@, ".py"@) && ends_with_seq(filename@, ".rs"@) ==> match r {
            Ok(c) => exists|root: Seq<char>|
                is_ancestor_path(root, filename@) && Ok::<Option<Seq<char>>, PickError>(
                    c.deep_view(),
                ) == #[trigger] rust::spec_rust_command(
                    filename@,
                    lines.deep_view(),
                    line_no,
                    full,
                    verbose,
                    root,
                ),
            Err(e) => e == PickError::Pattern || exists|root: Seq<char>|
                is_ancestor_path(root, filename@) && Err::<Option<Seq<char>>, PickError>(e)
                    == #[trigger] rust::spec_rust_command(
                    filename@,
                    lines.deep_view(),
                    line_no,
                    full,
                    verbose,
                    root,
                ),
        },
        !ends_with_seq(filename@, ".py"@) && ends_with_seq(filename@, ".rs"@) && (!full
            && line_no is Some && !(regex_compiles(rust::rust_test_pattern()) && regex_compiles(
            rust::rust_cfg_pattern(),
        ))) ==> r is Err,
        !ends_with_seq(filename@, ".py"@) && ends_with_seq(filename@, ".rs"@) && r == Err::<
            Option<String>,
            PickError,
        >(PickError::Pattern) ==> (!full && line_no is Some && !rust::rust_patterns_compile()),
        !ends_with_seq(filename@, ".py"@) && ends_with_seq(filename@, ".rs"@) && (full
            || line_no is None || rust::rust_patterns_compile()) ==> exists|root: Seq<char>|
            is_ancestor_path(root, filename@) && command_view(r)
                == #[trigger] rust::spec_rust_command(
                filename@,
                lines.deep_view(),
                line_no,
                full,
                verbose,
                root,
            ),
        !ends_with_seq(filename@, ".py"@) && !ends_with_seq(filename@, ".rs"@) && ends_with_seq(
            filename@,
            ".go"@,
        ) ==> (r == Err::<Option<String>, PickError>(PickError::Pattern) <==> (!full
            && line_no is Some && !regex_compiles(go::go_test_pattern()))),
        !ends_with_seq(filename@, ".py"@) && !ends_with_seq(filename@, ".rs"@) && ends_with_seq(
            filename@,
            ".go"@,
        ) && (full || line_no is None || regex_compiles(go::go_test_pattern())) ==> command_view(r)
            == go::spec_go_command(filename@, lines.deep_view(), line_no, full, verbose),
        !ends_with_seq(filename@, ".py"@) && !ends_with_seq(filename@, ".rs"@) && !ends_with_seq(
            filename@,
            ".go"@,
        ) ==> (r matches Ok(c) && c is None),
{
    if textops::str_ends_with(filename, ".py") {
        python::get_command(filename, lines, line_no, full)
    } else if textops::str_ends_with(filename, ".rs") {
        rust::get_command(filename, lines, line_no, full, verbose)
    } else if textops::str_ends_with(filename, ".go") {
        go::get_command(filename, lines, line_no, full, verbose)
    } else {
        Ok(None)
    }
}

} // verus!
