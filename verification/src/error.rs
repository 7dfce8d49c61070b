//! The ways in which a comparison can fail.

use vstd::prelude::*;
use vstd::std_specs::convert::FromSpecImpl;

verus! {

#[verifier::external_type_specification]
#[verifier::external_body]
pub struct ExIoError(std::io::Error);

#[verifier::external_type_specification]
#[verifier::external_body]
pub struct ExRegexError(regex::Error);

#[verifier::external_type_specification]
#[verifier::external_body]
pub struct ExStripPrefixError(std::path::StripPrefixError);

/// Why a comparison was given up. Each variant carries the underlying error
/// as it was raised.
#[derive(Debug)]
pub enum CompareError {
    /// The content of a file that was selected for comparison could not be read.
    Io(std::io::Error),
    /// An exclusion pattern is not a valid regular expression.
    Regex(regex::Error),
    /// A walked entry does not lie under the first root.
    StripPrefix(std::path::StripPrefixError),
}

/// The cause of a failure, without the underlying error.
#[derive(Clone, Copy, Debug, PartialEq, Eq, Structural)]
pub enum Fault {
    Pattern,
    PathMapping,
    Io,
}

impl CompareError {
    /// The cause that this error stands for.
    pub open spec fn cause(&self) -> Fault {
        match *self {
            CompareError::Io(_) => Fault::Io,
            CompareError::Regex(_) => Fault::Pattern,
            CompareError::StripPrefix(_) => Fault::PathMapping,
        }
    }

    /// The cause of this error.
    pub fn fault(&self) -> (f: Fault)
        ensures
            f == self.cause(),
    {
        match self {
            CompareError::Io(_) => Fault::Io,
            CompareError::Regex(_) => Fault::Pattern,
            CompareError::StripPrefix(_) => Fault::PathMapping,
        }
    }
}

impl From<std::io::Error> for CompareError {
    fn from(e: std::io::Error) -> (r: CompareError) {
        CompareError::Io(e)
    }
}

impl FromSpecImpl<std::io::Error> for CompareError {
    open spec fn obeys_from_spec() -> bool {
        true
    }

    open spec fn from_spec(e: std::io::Error) -> CompareError {
        CompareError::Io(e)
    }
}

impl From<regex::Error> for CompareError {
    fn from(e: regex::Error) -> (r: CompareError) {
        CompareError::Regex(e)
    }
}

impl FromSpecImpl<regex::Error> for CompareError {
    open spec fn obeys_from_spec() -> bool {
        true
    }

    open spec fn from_spec(e: regex::Error) -> CompareError {
        CompareError::Regex(e)
    }
}

impl From<std::path::StripPrefixError> for CompareError {
    fn from(e: std::path::StripPrefixError) -> (r: CompareError) {
        CompareError::StripPrefix(e)
    }
}

impl FromSpecImpl<std::path::StripPrefixError> for CompareError {
    open spec fn obeys_from_spec() -> bool {
        true
    }

    open spec fn from_spec(e: std::path::StripPrefixError) -> CompareError {
        CompareError::StripPrefix(e)
    }
}

} // verus!
