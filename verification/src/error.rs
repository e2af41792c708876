//! The connector's error taxonomy. Every failure surfaces as a single
//! descriptive message; `message` renders it for the host.

use vstd::prelude::*;
use vstd::string::StringExecFns;

verus! {

/// Spec-level value of an error: the variant and its payload text.
pub enum ErrorV {
    MissingOption(Seq<char>),
    Transport(Seq<char>),
    Format(Seq<char>),
    UnsupportedType(Seq<char>),
    UnsupportedOperation(Seq<char>),
}

/// A lifecycle failure. `MissingOption` names the absent option,
/// `Transport` carries the collaborator's message, `Format` describes an
/// undecodable response, `UnsupportedType` names the offending column, and
/// `UnsupportedOperation` describes the refused lifecycle verb.
#[derive(Debug, Clone, PartialEq, Eq)]
pub enum FdwError {
    MissingOption(String),
    Transport(String),
    Format(String),
    UnsupportedType(String),
    UnsupportedOperation(String),
}

impl View for FdwError {
    type V = ErrorV;

    open spec fn view(&self) -> ErrorV {
        match self {
            FdwError::MissingOption(s) => ErrorV::MissingOption(s@),
            FdwError::Transport(s) => ErrorV::Transport(s@),
            FdwError::Format(s) => ErrorV::Format(s@),
            FdwError::UnsupportedType(s) => ErrorV::UnsupportedType(s@),
            FdwError::UnsupportedOperation(s) => ErrorV::UnsupportedOperation(s@),
        }
    }
}

/// The single descriptive message that an error surfaces as.
pub open spec fn spec_message(e: ErrorV) -> Seq<char> {
    match e {
        ErrorV::MissingOption(name) => "required option is missing: "@ + name,
        ErrorV::Transport(msg) => msg,
        ErrorV::Format(msg) => msg,
        ErrorV::UnsupportedType(name) => "column "@ + name + " data type is not supported"@,
        ErrorV::UnsupportedOperation(msg) => msg,
    }
}

impl FdwError {
    /// Render the error as the one message shown to the host.
    pub fn message(&self) -> (r: String)
        ensures
            r@ == spec_message(self@),
    {
        match self {
            FdwError::MissingOption(name) => {
                String::from_str("required option is missing: ").concat(name.as_str())
            },
            FdwError::Transport(msg) => msg.clone(),
            FdwError::Format(msg) => msg.clone(),
            FdwError::UnsupportedType(name) => {
                String::from_str("column ").concat(name.as_str()).concat(
                    " data type is not supported",
                )
            },
            FdwError::UnsupportedOperation(msg) => msg.clone(),
        }
    }
}

} // verus!
