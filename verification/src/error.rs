//! The ways in which loading a secret fails.

use vstd::prelude::*;
use vstd::std_specs::convert::FromSpecImpl;

verus! {

/// The error of std's I/O functions, carried through as it came.
#[verifier::external_type_specification]
#[verifier::external_body]
pub struct ExIoError(std::io::Error);

/// Why an environment variable could not be read.
#[derive(Debug, PartialEq, Eq)]
pub enum VarFailure {
    /// The variable is not set.
    NotPresent,
    /// The variable is set, but its value is not valid Unicode. The bytes of the value are
    /// kept as the platform gave them.
    NotUnicode(Vec<u8>),
}

impl Clone for VarFailure {
    fn clone(&self) -> (copy: VarFailure)
        ensures
            match (*self, copy) {
                (VarFailure::NotPresent, VarFailure::NotPresent) => true,
                (VarFailure::NotUnicode(bytes), VarFailure::NotUnicode(copied)) => copied@
                    == bytes@,
                _ => false,
            },
    {
        match self {
            VarFailure::NotPresent => VarFailure::NotPresent,
            VarFailure::NotUnicode(bytes) => VarFailure::NotUnicode(bytes.clone()),
        }
    }
}

/// A possible error value while loading a secret from a
/// [`SecretLoader`](crate::loader::SecretLoader).
#[derive(Debug)]
#[non_exhaustive]
pub enum LoadError {
    /// An IO error was encountered while attempting to read from a file
    Io(std::io::Error),
    /// A failure was encountered while attempting to read from the environment
    Env(VarFailure),
}

impl LoadError {
    /// A short description of the kind of failure, without its cause.
    pub fn to_string(&self) -> (text: String)
        ensures
            self is Io ==> text@ == "Io Error"@,
            self is Env ==> text@ == "Env Error"@,
    {
        match self {
            LoadError::Io(_) => "Io Error".to_owned(),
            LoadError::Env(_) => "Env Error".to_owned(),
        }
    }
}

impl From<std::io::Error> for LoadError {
    fn from(e: std::io::Error) -> (error: LoadError) {
        LoadError::Io(e)
    }
}

impl FromSpecImpl<std::io::Error> for LoadError {
    open spec fn obeys_from_spec() -> bool {
        true
    }

    open spec fn from_spec(e: std::io::Error) -> LoadError {
        LoadError::Io(e)
    }
}

impl From<VarFailure> for LoadError {
    fn from(e: VarFailure) -> (error: LoadError) {
        LoadError::Env(e)
    }
}

impl FromSpecImpl<VarFailure> for LoadError {
    open spec fn obeys_from_spec() -> bool {
        true
    }

    open spec fn from_spec(e: VarFailure) -> LoadError {
        LoadError::Env(e)
    }
}

} // verus!
