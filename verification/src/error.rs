//! Failures reported to the caller.

use vstd::prelude::*;

verus! {

/// What went wrong.
#[derive(Debug, PartialEq, Eq)]
pub enum ErrorKind {
    /// The project directory is already there.
    AlreadyExists,
    /// A file of the layout is already there.
    FileAlreadyExists,
    /// The destination is a file.
    IsNotADirectory,
    /// The configuration source does not have the shape of a configuration.
    InvalidConfig,
    /// No profile carries the wanted name.
    ProfileNotFound { name: String },
    /// A configuration could not be written out.
    GenerationFailure,
}

impl ErrorKind {
    /// The fixed message of each kind.
    pub open spec fn message(self) -> Seq<char> {
        match self {
            ErrorKind::AlreadyExists => "Project already exists"@,
            ErrorKind::IsNotADirectory => "Is not a directory"@,
            ErrorKind::FileAlreadyExists => "File already exists"@,
            ErrorKind::InvalidConfig => "Invalid config"@,
            ErrorKind::ProfileNotFound { .. } => "Profile not found"@,
            ErrorKind::GenerationFailure => "Unable to generate config"@,
        }
    }

    pub fn as_str(&self) -> (r: &'static str)
        ensures
            r@ == self.message(),
    {
        match self {
            ErrorKind::AlreadyExists => "Project already exists",
            ErrorKind::IsNotADirectory => "Is not a directory",
            ErrorKind::FileAlreadyExists => "File already exists",
            ErrorKind::InvalidConfig => "Invalid config",
            ErrorKind::ProfileNotFound { .. } => "Profile not found",
            ErrorKind::GenerationFailure => "Unable to generate config",
        }
    }

    /// The message as an owned string.
    pub fn to_string(&self) -> (r: String)
        ensures
            r@ == self.message(),
    {
        self.as_str().to_owned()
    }
}

/// An error of this library: a kind, and nothing else.
#[derive(Debug, PartialEq, Eq)]
pub struct Error {
    kind: ErrorKind,
}

impl Error {
    pub closed spec fn spec_kind(self) -> ErrorKind {
        self.kind
    }

    pub fn new(kind: ErrorKind) -> (r: Error)
        ensures
            r.spec_kind() == kind,
    {
        Self { kind }
    }

    pub fn kind(&self) -> (r: &ErrorKind)
        ensures
            *r == self.spec_kind(),
    {
        &self.kind
    }

    /// The message of the error's kind.
    pub fn to_string(&self) -> (r: String)
        ensures
            r@ == self.spec_kind().message(),
    {
        self.kind.to_string()
    }
}

} // verus!
