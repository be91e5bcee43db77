//! Errors of acquiring a table.

use vstd::prelude::*;
use vstd::string::StringExecFns;

verus! {

/// `std::io::Error`: the cause of an I/O failure, carried as it came.
#[verifier::external_type_specification]
#[verifier::external_body]
pub struct ExIoError(std::io::Error);

/// Why an environment variable could not be read.
#[derive(Debug)]
pub enum VarError {
    /// The variable is not set.
    NotPresent,
    /// The variable is set to something that is not Unicode; the text is
    /// what could be read of it.
    NotUnicode(String),
}

/// Why a table could not be acquired.
#[derive(Debug)]
pub enum SMBiosError {
    /// A device or file could not be read.
    Io(std::io::Error),
    /// A platform string could not be interpreted.
    OsStr,
    /// An environment variable could not be read.
    Var(VarError),
    /// Any other failure, with its message.
    String(String),
}

/// The failure underneath an error.
#[derive(Debug)]
pub enum Cause<'a> {
    Io(&'a std::io::Error),
    Var(&'a VarError),
}

impl SMBiosError {
    /// The text that describes the error.
    pub open spec fn message(&self) -> Seq<char> {
        match self {
            SMBiosError::Io(_) => "IO error"@,
            SMBiosError::OsStr => "OsStr parsing error"@,
            SMBiosError::Var(_) => "Error parsing environment variable"@,
            SMBiosError::String(s) => "Error: "@ + s@,
        }
    }

    /// The failure underneath the error, for the kinds that have one.
    pub open spec fn cause(&self) -> Option<Cause> {
        match self {
            SMBiosError::Io(e) => Some(Cause::Io(e)),
            SMBiosError::OsStr => None,
            SMBiosError::Var(e) => Some(Cause::Var(e)),
            SMBiosError::String(_) => None,
        }
    }

    /// Describes the error in words.
    pub fn to_string(&self) -> (r: String)
        ensures
            r@ == self.message(),
    {
        match self {
            SMBiosError::Io(_) => "IO error".to_string(),
            SMBiosError::OsStr => "OsStr parsing error".to_string(),
            SMBiosError::Var(_) => "Error parsing environment variable".to_string(),
            SMBiosError::String(s) => "Error: ".to_string().concat(s.as_str()),
        }
    }

    /// The failure that this error wraps, if it wraps one.
    pub fn source(&self) -> (r: Option<Cause<'_>>)
        ensures
            r == self.cause(),
    {
        match self {
            SMBiosError::Io(e) => Some(Cause::Io(e)),
            SMBiosError::OsStr => None,
            SMBiosError::Var(e) => Some(Cause::Var(e)),
            SMBiosError::String(_) => None,
        }
    }
}

impl From<std::io::Error> for SMBiosError {
    fn from(err: std::io::Error) -> (r: Self) {
        Self::Io(err)
    }
}

impl vstd::std_specs::convert::FromSpecImpl<std::io::Error> for SMBiosError {
    open spec fn obeys_from_spec() -> bool {
        true
    }

    open spec fn from_spec(err: std::io::Error) -> Self {
        SMBiosError::Io(err)
    }
}

impl From<VarError> for SMBiosError {
    fn from(err: VarError) -> (r: Self) {
        Self::Var(err)
    }
}

impl vstd::std_specs::convert::FromSpecImpl<VarError> for SMBiosError {
    open spec fn obeys_from_spec() -> bool {
        true
    }

    open spec fn from_spec(err: VarError) -> Self {
        SMBiosError::Var(err)
    }
}

impl From<String> for SMBiosError {
    fn from(err: String) -> (r: Self) {
        Self::String(err)
    }
}

impl vstd::std_specs::convert::FromSpecImpl<String> for SMBiosError {
    open spec fn obeys_from_spec() -> bool {
        true
    }

    open spec fn from_spec(err: String) -> Self {
        SMBiosError::String(err)
    }
}

} // verus!
