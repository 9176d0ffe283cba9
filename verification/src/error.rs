//! The two ways in which the backend itself can be at fault.

use vstd::prelude::*;
use vstd::string::*;

verus! {

/// A defect of the backend, with the name that it concerns. Neither is
/// expected in correct operation, and neither is to be retried.
#[derive(Clone, PartialEq, Eq, Debug)]
pub enum StubError {
    /// The module already holds a function under this name.
    AlreadyDeclared(String),
    /// No stub was declared under this name.
    MissingStub(String),
}

impl StubError {
    /// The name that the error concerns.
    pub open spec fn spec_name(&self) -> Seq<char> {
        match self {
            StubError::AlreadyDeclared(n) => n@,
            StubError::MissingStub(n) => n@,
        }
    }

    /// The name that the error concerns.
    pub fn name(&self) -> (n: &str)
        ensures
            n@ == self.spec_name(),
    {
        match self {
            StubError::AlreadyDeclared(n) => n.as_str(),
            StubError::MissingStub(n) => n.as_str(),
        }
    }

    /// A diagnostic that names the offending function.
    pub fn message(&self) -> (s: String)
        ensures
            self is AlreadyDeclared ==> s@ == "runtime stub already declared: "@ + self.spec_name(),
            self is MissingStub ==> s@ == "missing runtime stub: "@ + self.spec_name(),
    {
        match self {
            StubError::AlreadyDeclared(n) => "runtime stub already declared: ".to_owned().concat(
                n.as_str(),
            ),
            StubError::MissingStub(n) => "missing runtime stub: ".to_owned().concat(n.as_str()),
        }
    }
}

} // verus!
