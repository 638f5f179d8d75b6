//! Errors of the bindgen pipeline. Propagation is fail-fast: the first error
//! aborts the run and no output is written.

use vstd::prelude::*;
use vstd::string::StringExecFns;

verus! {

/// What went wrong, and where the pipeline noticed it.
#[derive(Debug)]
pub enum Error {
    /// A malformed declaration, attached to the name of the source item it
    /// was found on (the role a source span plays in the host parser).
    Syn { item: String, message: String },
    /// A malformed attribute or type expression.
    ParseErr { message: String },
    /// The wrong number of main (root) modules.
    MainModules {
        /// If many is true, that basically means there are more than 1 main
        /// modules, while the opposite means there are zero.
        many: bool,
    },
    /// A construct the declaration generator does not understand.
    Unimplemented { message: String },
    /// A module reference that resolution could never attach, or one module
    /// claimed by two parents.
    Resolution { message: String },
}

/// Mathematical image of an [`Error`].
pub enum ErrorV {
    Syn { item: Seq<char>, message: Seq<char> },
    ParseErr { message: Seq<char> },
    MainModules { many: bool },
    Unimplemented { message: Seq<char> },
    Resolution { message: Seq<char> },
}

impl View for Error {
    type V = ErrorV;

    open spec fn view(&self) -> ErrorV {
        match self {
            Error::Syn { item, message } => ErrorV::Syn { item: item@, message: message@ },
            Error::ParseErr { message } => ErrorV::ParseErr { message: message@ },
            Error::MainModules { many } => ErrorV::MainModules { many: *many },
            Error::Unimplemented { message } => ErrorV::Unimplemented { message: message@ },
            Error::Resolution { message } => ErrorV::Resolution { message: message@ },
        }
    }
}

/// The user-facing description of an error.
pub open spec fn spec_format_err(e: ErrorV) -> Seq<char> {
    match e {
        ErrorV::Syn { item, message } => message,
        ErrorV::ParseErr { message } => "Got a parsing error: "@ + message,
        ErrorV::MainModules { many } => if many {
            "Found multiple main modules, while only 1 can be present at the same time"@
        } else {
            "No main module found, can't construct a declaration file"@
        },
        ErrorV::Unimplemented { message } => message,
        ErrorV::Resolution { message } => message,
    }
}

impl Error {
    /// Render the error as its user-facing description.
    pub fn format_err(&self) -> (r: String)
        ensures
            r@ == spec_format_err(self@),
    {
        match self {
            Error::Syn { item: _, message } => message.clone(),
            Error::ParseErr { message } => {
                let mut r = "Got a parsing error: ".to_owned();
                r.append(message.as_str());
                r
            },
            Error::MainModules { many } => {
                if *many {
                    "Found multiple main modules, while only 1 can be present at the same time".to_owned()
                } else {
                    "No main module found, can't construct a declaration file".to_owned()
                }
            },
            Error::Unimplemented { message } => message.clone(),
            Error::Resolution { message } => message.clone(),
        }
    }
}

} // verus!
