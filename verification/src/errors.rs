use vstd::prelude::*;

verus! {

/// Failures that the locator and the command formatters can report.
///
/// A malformed pattern is a configuration fault of a language adapter;
/// the remaining variants name the specific piece of an incomplete scope
/// that a formatter could not tolerate, so that no malformed command is
/// ever emitted.
#[derive(Debug, Clone, Copy, PartialEq, Eq, Structural)]
pub enum PickError {
    /// A regular expression did not compile.
    Pattern,
    /// A match did not carry the capture group a formatter indexes into.
    MissingCaptureGroup,
    /// A test marker was found without any enclosing scope marker.
    MissingNamespace,
    /// No module declaration follows the enclosing scope marker.
    ModuleNotFound,
    /// No test function declaration follows the test marker.
    TestFunctionNotFound,
    /// A suite receiver did not have the expected `name *Type` shape.
    MalformedSuite,
    /// A source path does not contain a source directory component.
    MissingSourceDir,
}

/// The view of a formatter's result, for holding it against a command
/// model: the command string becomes its character sequence, the error
/// stays itself.
pub open spec fn command_view(r: Result<Option<String>, PickError>) -> Result<
    Option<Seq<char>>,
    PickError,
> {
    match r {
        Ok(c) => Ok(c.deep_view()),
        Err(e) => Err(e),
    }
}

impl PickError {
    /// A short human-readable account of the failure.
    pub fn describe(&self) -> (r: String)
        ensures
            r@ == self.spec_describe(),
    {
        match self {
            PickError::Pattern => "Invalid pattern.".to_owned(),
            PickError::MissingCaptureGroup => "Missing capture group.".to_owned(),
            PickError::MissingNamespace => "Could not find namespace.".to_owned(),
            PickError::ModuleNotFound => "Could not find mod.".to_owned(),
            PickError::TestFunctionNotFound => "Could not find test function.".to_owned(),
            PickError::MalformedSuite => "Malformed suite receiver.".to_owned(),
            PickError::MissingSourceDir => "Path has no source directory.".to_owned(),
        }
    }

    pub open spec fn spec_describe(&self) -> Seq<char> {
        match self {
            PickError::Pattern => "Invalid pattern."@,
            PickError::MissingCaptureGroup => "Missing capture group."@,
            PickError::MissingNamespace => "Could not find namespace."@,
            PickError::ModuleNotFound => "Could not find mod."@,
            PickError::TestFunctionNotFound => "Could not find test function."@,
            PickError::MalformedSuite => "Malformed suite receiver."@,
            PickError::MissingSourceDir => "Path has no source directory."@,
        }
    }
}

} // verus!
